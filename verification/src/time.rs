//! Points in time and spans of time.
//!
//! A point in time is held as the number of milliseconds since the Unix
//! epoch.

use vstd::prelude::*;
use std::time::{Duration, SystemTime};

verus! {

/// Declares `std::time::SystemTime` to the verifier; its inside stays hidden.
#[verifier::external_type_specification]
#[verifier::external_body]
pub struct ExSystemTime(SystemTime);

/// What `Duration::from_millis` gives for a number of milliseconds.
pub uninterp spec fn millis_duration(ms: u64) -> Duration;

/// What `UNIX_EPOCH.checked_add(Duration::from_millis(ms))` gives: the
/// system time that many milliseconds after the epoch, where the platform
/// can represent it.
pub uninterp spec fn millis_system_time(ms: u64) -> Option<SystemTime>;

/// Calls `Duration::from_millis`.
#[verifier::external_body]
pub(crate) fn duration_from_millis(ms: u64) -> (d: Duration)
    ensures
        d == millis_duration(ms),
{
    Duration::from_millis(ms)
}

/// Calls `UNIX_EPOCH.checked_add(Duration::from_millis(ms))`: the system time
/// that many milliseconds after the Unix epoch, or `None` where the platform
/// cannot represent it (the call does not panic there, unlike `+`). Which
/// times a platform represents is left to the name `millis_system_time`.
#[verifier::external_body]
pub(crate) fn system_time_from_millis(ms: u64) -> (t: Option<SystemTime>)
    ensures
        t == millis_system_time(ms),
{
    std::time::UNIX_EPOCH.checked_add(Duration::from_millis(ms))
}

/// Reads the system clock through `SystemTime::now` and hands back the
/// milliseconds since the Unix epoch (0 where the clock reads earlier than
/// the epoch, `u64::MAX` where the count does not fit). The value depends on
/// the clock, so nothing is stated of it.
#[verifier::external_body]
pub(crate) fn clock_now_millis() -> (ms: u64) {
    match SystemTime::now().duration_since(std::time::UNIX_EPOCH) {
        Ok(d) => u64::try_from(d.as_millis()).unwrap_or(u64::MAX),
        Err(_) => 0,
    }
}

/// A reading of the system clock, in milliseconds since the Unix epoch.
/// Only `read_clock` makes one, so a reading that a contract speaks of is a
/// time the clock gave.
#[derive(Debug, Clone, Copy)]
pub struct ClockReading {
    millis: u64,
}

impl ClockReading {
    /// The milliseconds since the Unix epoch that the clock gave.
    pub closed spec fn value(self) -> u64 {
        self.millis
    }

    /// The milliseconds since the Unix epoch that the clock gave.
    pub fn millis(&self) -> (m: u64)
        ensures
            m == self.value(),
    {
        self.millis
    }
}

/// Reads the system clock.
pub fn read_clock() -> (c: ClockReading) {
    ClockReading { millis: clock_now_millis() }
}

/// Milliseconds from `earlier` to `later`, or 0 where `later` comes first.
pub open spec fn elapsed_millis(earlier: u64, later: u64) -> u64 {
    if later >= earlier {
        (later - earlier) as u64
    } else {
        0
    }
}

/// Timestamp of a message.
#[derive(Debug, Clone, Copy, PartialEq, Eq, Structural)]
pub struct MessageTimestamp {
    pub millis: u64,
}

/// Timestamp of the creation of a conversation.
#[derive(Debug, Clone, Copy, PartialEq, Eq, Structural)]
pub struct ConversationCreatedAt {
    pub millis: u64,
}

/// Timestamp of a routing operation.
#[derive(Debug, Clone, Copy, PartialEq, Eq, Structural)]
pub struct Timestamp {
    pub millis: u64,
}

impl MessageTimestamp {
    /// The timestamp that many milliseconds after the Unix epoch.
    pub fn new(millis: u64) -> (t: Self)
        ensures
            t.millis == millis,
    {
        MessageTimestamp { millis }
    }

    /// The current time, read from the system clock.
    pub fn now() -> (t: Self) {
        MessageTimestamp { millis: clock_now_millis() }
    }

    /// Milliseconds since the Unix epoch.
    pub fn as_millis(&self) -> (ms: u64)
        ensures
            ms == self.millis,
    {
        self.millis
    }

    /// The timestamp as a `SystemTime`, where the platform can represent it.
    pub fn as_system_time(&self) -> (t: Option<SystemTime>)
        ensures
            t == millis_system_time(self.millis),
    {
        system_time_from_millis(self.millis)
    }
}

impl ConversationCreatedAt {
    /// The timestamp that many milliseconds after the Unix epoch.
    pub fn new(millis: u64) -> (t: Self)
        ensures
            t.millis == millis,
    {
        ConversationCreatedAt { millis }
    }

    /// The current time, read from the system clock.
    pub fn now() -> (t: Self) {
        ConversationCreatedAt { millis: clock_now_millis() }
    }

    /// Milliseconds since the Unix epoch.
    pub fn as_millis(&self) -> (ms: u64)
        ensures
            ms == self.millis,
    {
        self.millis
    }

    /// The timestamp as a `SystemTime`, where the platform can represent it.
    pub fn as_system_time(&self) -> (t: Option<SystemTime>)
        ensures
            t == millis_system_time(self.millis),
    {
        system_time_from_millis(self.millis)
    }
}

impl Timestamp {
    /// The timestamp that many milliseconds after the Unix epoch.
    pub fn new(millis: u64) -> (t: Self)
        ensures
            t.millis == millis,
    {
        Timestamp { millis }
    }

    /// The current time, read from the system clock.
    pub fn now() -> (t: Self) {
        Timestamp { millis: clock_now_millis() }
    }

    /// Milliseconds since the Unix epoch.
    pub fn as_millis(&self) -> (ms: u64)
        ensures
            ms == self.millis,
    {
        self.millis
    }

    /// The timestamp as a `SystemTime`, where the platform can represent it.
    pub fn as_system_time(&self) -> (t: Option<SystemTime>)
        ensures
            t == millis_system_time(self.millis),
    {
        system_time_from_millis(self.millis)
    }
}

} // verus!
