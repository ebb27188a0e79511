//! Bounded numeric settings of the message router.
//!
//! Each type holds a number within fixed bounds; `try_new` refuses any
//! other number and says which bound it breaks.

use vstd::prelude::*;
use std::time::Duration;
use crate::time::{duration_from_millis, millis_duration};

verus! {

/// The bound that a value breaks.
#[derive(Debug, Clone, Copy, PartialEq, Eq, Structural)]
pub enum BoundViolation {
    /// The value is below the smallest accepted value.
    GreaterOrEqualViolated,
    /// The value is above the largest accepted value.
    LessOrEqualViolated,
}

/// Channel capacity for bounded queues.
/// Accepts 1 to 1_000_000; the default is 1_000.
#[derive(Debug, Clone, Copy, PartialEq, Eq, Structural)]
pub struct ChannelCapacity {
    value: usize,
}

impl View for ChannelCapacity {
    type V = usize;

    closed spec fn view(&self) -> usize {
        self.value
    }
}

impl ChannelCapacity {
    #[verifier::type_invariant]
    closed spec fn in_range(self) -> bool {
        1usize <= self.value && self.value <= 1_000_000usize
    }

    /// Whether a value is accepted.
    pub open spec fn accepts(value: usize) -> bool {
        1usize <= value && value <= 1_000_000usize
    }

    /// Creates the value, or reports which bound it breaks.
    pub fn try_new(value: usize) -> (r: Result<Self, BoundViolation>)
        ensures
            r is Ok <==> Self::accepts(value),
            r matches Ok(c) ==> c@ == value,
            value < 1usize ==> r == Err::<Self, BoundViolation>(BoundViolation::GreaterOrEqualViolated),
            value > 1_000_000usize ==> r == Err::<Self, BoundViolation>(BoundViolation::LessOrEqualViolated),
    {
        if value < 1usize {
            return Err(BoundViolation::GreaterOrEqualViolated);
        }
        if value > 1_000_000usize {
            return Err(BoundViolation::LessOrEqualViolated);
        }
        Ok(ChannelCapacity { value })
    }

    /// The inner value.
    pub fn into_inner(&self) -> (v: usize)
        ensures
            v == self@,
            Self::accepts(v),
    {
        proof {
            use_type_invariant(self);
        }
        self.value
    }

    /// The inner value.
    pub fn as_usize(&self) -> (v: usize)
        ensures
            v == self@,
            Self::accepts(v),
    {
        self.into_inner()
    }

}

impl Default for ChannelCapacity {
    fn default() -> (r: Self)
        ensures
            r@ == 1_000usize,
    {
        ChannelCapacity { value: 1_000usize }
    }
}

/// Maximum retry attempts for failed operations.
/// Accepts 1 to 10; the default is 3.
#[derive(Debug, Clone, Copy, PartialEq, Eq, Structural)]
pub struct MaxRetries {
    value: u8,
}

impl View for MaxRetries {
    type V = u8;

    closed spec fn view(&self) -> u8 {
        self.value
    }
}

impl MaxRetries {
    #[verifier::type_invariant]
    closed spec fn in_range(self) -> bool {
        1u8 <= self.value && self.value <= 10u8
    }

    /// Whether a value is accepted.
    pub open spec fn accepts(value: u8) -> bool {
        1u8 <= value && value <= 10u8
    }

    /// Creates the value, or reports which bound it breaks.
    pub fn try_new(value: u8) -> (r: Result<Self, BoundViolation>)
        ensures
            r is Ok <==> Self::accepts(value),
            r matches Ok(c) ==> c@ == value,
            value < 1u8 ==> r == Err::<Self, BoundViolation>(BoundViolation::GreaterOrEqualViolated),
            value > 10u8 ==> r == Err::<Self, BoundViolation>(BoundViolation::LessOrEqualViolated),
    {
        if value < 1u8 {
            return Err(BoundViolation::GreaterOrEqualViolated);
        }
        if value > 10u8 {
            return Err(BoundViolation::LessOrEqualViolated);
        }
        Ok(MaxRetries { value })
    }

    /// The inner value.
    pub fn into_inner(&self) -> (v: u8)
        ensures
            v == self@,
            Self::accepts(v),
    {
        proof {
            use_type_invariant(self);
        }
        self.value
    }

    /// The inner value.
    pub fn as_u8(&self) -> (v: u8)
        ensures
            v == self@,
            Self::accepts(v),
    {
        self.into_inner()
    }

}

impl Default for MaxRetries {
    fn default() -> (r: Self)
        ensures
            r@ == 3u8,
    {
        MaxRetries { value: 3u8 }
    }
}

/// Retry delay in milliseconds.
/// Accepts 100 to 300_000; the default is 1_000.
#[derive(Debug, Clone, Copy, PartialEq, Eq, Structural)]
pub struct RetryDelayMs {
    value: u64,
}

impl View for RetryDelayMs {
    type V = u64;

    closed spec fn view(&self) -> u64 {
        self.value
    }
}

impl RetryDelayMs {
    #[verifier::type_invariant]
    closed spec fn in_range(self) -> bool {
        100u64 <= self.value && self.value <= 300_000u64
    }

    /// Whether a value is accepted.
    pub open spec fn accepts(value: u64) -> bool {
        100u64 <= value && value <= 300_000u64
    }

    /// Creates the value, or reports which bound it breaks.
    pub fn try_new(value: u64) -> (r: Result<Self, BoundViolation>)
        ensures
            r is Ok <==> Self::accepts(value),
            r matches Ok(c) ==> c@ == value,
            value < 100u64 ==> r == Err::<Self, BoundViolation>(BoundViolation::GreaterOrEqualViolated),
            value > 300_000u64 ==> r == Err::<Self, BoundViolation>(BoundViolation::LessOrEqualViolated),
    {
        if value < 100u64 {
            return Err(BoundViolation::GreaterOrEqualViolated);
        }
        if value > 300_000u64 {
            return Err(BoundViolation::LessOrEqualViolated);
        }
        Ok(RetryDelayMs { value })
    }

    /// The inner value.
    pub fn into_inner(&self) -> (v: u64)
        ensures
            v == self@,
            Self::accepts(v),
    {
        proof {
            use_type_invariant(self);
        }
        self.value
    }

    /// The value as a duration of that many milliseconds.
    pub fn as_duration(&self) -> (d: Duration)
        ensures
            d == millis_duration(self@),
    {
        duration_from_millis(self.value)
    }

    /// The inner value.
    pub fn as_u64(&self) -> (v: u64)
        ensures
            v == self@,
            Self::accepts(v),
    {
        self.into_inner()
    }

}

impl Default for RetryDelayMs {
    fn default() -> (r: Self)
        ensures
            r@ == 1_000u64,
    {
        RetryDelayMs { value: 1_000u64 }
    }
}

/// Circuit breaker failure threshold.
/// Accepts 1 to 100; the default is 10.
#[derive(Debug, Clone, Copy, PartialEq, Eq, Structural)]
pub struct CircuitBreakerThreshold {
    value: u32,
}

impl View for CircuitBreakerThreshold {
    type V = u32;

    closed spec fn view(&self) -> u32 {
        self.value
    }
}

impl CircuitBreakerThreshold {
    #[verifier::type_invariant]
    closed spec fn in_range(self) -> bool {
        1u32 <= self.value && self.value <= 100u32
    }

    /// Whether a value is accepted.
    pub open spec fn accepts(value: u32) -> bool {
        1u32 <= value && value <= 100u32
    }

    /// Creates the value, or reports which bound it breaks.
    pub fn try_new(value: u32) -> (r: Result<Self, BoundViolation>)
        ensures
            r is Ok <==> Self::accepts(value),
            r matches Ok(c) ==> c@ == value,
            value < 1u32 ==> r == Err::<Self, BoundViolation>(BoundViolation::GreaterOrEqualViolated),
            value > 100u32 ==> r == Err::<Self, BoundViolation>(BoundViolation::LessOrEqualViolated),
    {
        if value < 1u32 {
            return Err(BoundViolation::GreaterOrEqualViolated);
        }
        if value > 100u32 {
            return Err(BoundViolation::LessOrEqualViolated);
        }
        Ok(CircuitBreakerThreshold { value })
    }

    /// The inner value.
    pub fn into_inner(&self) -> (v: u32)
        ensures
            v == self@,
            Self::accepts(v),
    {
        proof {
            use_type_invariant(self);
        }
        self.value
    }

}

impl Default for CircuitBreakerThreshold {
    fn default() -> (r: Self)
        ensures
            r@ == 10u32,
    {
        CircuitBreakerThreshold { value: 10u32 }
    }
}

/// Dead letter queue maximum size.
/// Accepts 10_000 to 10_000_000; the default is 100_000.
#[derive(Debug, Clone, Copy, PartialEq, Eq, Structural)]
pub struct DeadLetterQueueSize {
    value: usize,
}

impl View for DeadLetterQueueSize {
    type V = usize;

    closed spec fn view(&self) -> usize {
        self.value
    }
}

impl DeadLetterQueueSize {
    #[verifier::type_invariant]
    closed spec fn in_range(self) -> bool {
        10_000usize <= self.value && self.value <= 10_000_000usize
    }

    /// Whether a value is accepted.
    pub open spec fn accepts(value: usize) -> bool {
        10_000usize <= value && value <= 10_000_000usize
    }

    /// Creates the value, or reports which bound it breaks.
    pub fn try_new(value: usize) -> (r: Result<Self, BoundViolation>)
        ensures
            r is Ok <==> Self::accepts(value),
            r matches Ok(c) ==> c@ == value,
            value < 10_000usize ==> r == Err::<Self, BoundViolation>(BoundViolation::GreaterOrEqualViolated),
            value > 10_000_000usize ==> r == Err::<Self, BoundViolation>(BoundViolation::LessOrEqualViolated),
    {
        if value < 10_000usize {
            return Err(BoundViolation::GreaterOrEqualViolated);
        }
        if value > 10_000_000usize {
            return Err(BoundViolation::LessOrEqualViolated);
        }
        Ok(DeadLetterQueueSize { value })
    }

    /// The inner value.
    pub fn into_inner(&self) -> (v: usize)
        ensures
            v == self@,
            Self::accepts(v),
    {
        proof {
            use_type_invariant(self);
        }
        self.value
    }

    /// The inner value.
    pub fn as_usize(&self) -> (v: usize)
        ensures
            v == self@,
            Self::accepts(v),
    {
        self.into_inner()
    }

}

impl Default for DeadLetterQueueSize {
    fn default() -> (r: Self)
        ensures
            r@ == 100_000usize,
    {
        DeadLetterQueueSize { value: 100_000usize }
    }
}

/// Conversation timeout in milliseconds (default 30 minutes).
/// Accepts 300_000 to 86_400_000; the default is 1_800_000.
#[derive(Debug, Clone, Copy, PartialEq, Eq, Structural)]
pub struct ConversationTimeoutMs {
    value: u64,
}

impl View for ConversationTimeoutMs {
    type V = u64;

    closed spec fn view(&self) -> u64 {
        self.value
    }
}

impl ConversationTimeoutMs {
    #[verifier::type_invariant]
    closed spec fn in_range(self) -> bool {
        300_000u64 <= self.value && self.value <= 86_400_000u64
    }

    /// Whether a value is accepted.
    pub open spec fn accepts(value: u64) -> bool {
        300_000u64 <= value && value <= 86_400_000u64
    }

    /// Creates the value, or reports which bound it breaks.
    pub fn try_new(value: u64) -> (r: Result<Self, BoundViolation>)
        ensures
            r is Ok <==> Self::accepts(value),
            r matches Ok(c) ==> c@ == value,
            value < 300_000u64 ==> r == Err::<Self, BoundViolation>(BoundViolation::GreaterOrEqualViolated),
            value > 86_400_000u64 ==> r == Err::<Self, BoundViolation>(BoundViolation::LessOrEqualViolated),
    {
        if value < 300_000u64 {
            return Err(BoundViolation::GreaterOrEqualViolated);
        }
        if value > 86_400_000u64 {
            return Err(BoundViolation::LessOrEqualViolated);
        }
        Ok(ConversationTimeoutMs { value })
    }

    /// The inner value.
    pub fn into_inner(&self) -> (v: u64)
        ensures
            v == self@,
            Self::accepts(v),
    {
        proof {
            use_type_invariant(self);
        }
        self.value
    }

    /// The value as a duration of that many milliseconds.
    pub fn as_duration(&self) -> (d: Duration)
        ensures
            d == millis_duration(self@),
    {
        duration_from_millis(self.value)
    }

    /// The inner value.
    pub fn as_u64(&self) -> (v: u64)
        ensures
            v == self@,
            Self::accepts(v),
    {
        self.into_inner()
    }

}

impl Default for ConversationTimeoutMs {
    fn default() -> (r: Self)
        ensures
            r@ == 1_800_000u64,
    {
        ConversationTimeoutMs { value: 1_800_000u64 }
    }
}

/// Maximum participants in a conversation.
/// Accepts 1 to 100; the default is 10.
#[derive(Debug, Clone, Copy, PartialEq, Eq, Structural)]
pub struct MaxConversationParticipants {
    value: u8,
}

impl View for MaxConversationParticipants {
    type V = u8;

    closed spec fn view(&self) -> u8 {
        self.value
    }
}

impl MaxConversationParticipants {
    #[verifier::type_invariant]
    closed spec fn in_range(self) -> bool {
        1u8 <= self.value && self.value <= 100u8
    }

    /// Whether a value is accepted.
    pub open spec fn accepts(value: u8) -> bool {
        1u8 <= value && value <= 100u8
    }

    /// Creates the value, or reports which bound it breaks.
    pub fn try_new(value: u8) -> (r: Result<Self, BoundViolation>)
        ensures
            r is Ok <==> Self::accepts(value),
            r matches Ok(c) ==> c@ == value,
            value < 1u8 ==> r == Err::<Self, BoundViolation>(BoundViolation::GreaterOrEqualViolated),
            value > 100u8 ==> r == Err::<Self, BoundViolation>(BoundViolation::LessOrEqualViolated),
    {
        if value < 1u8 {
            return Err(BoundViolation::GreaterOrEqualViolated);
        }
        if value > 100u8 {
            return Err(BoundViolation::LessOrEqualViolated);
        }
        Ok(MaxConversationParticipants { value })
    }

    /// The inner value.
    pub fn into_inner(&self) -> (v: u8)
        ensures
            v == self@,
            Self::accepts(v),
    {
        proof {
            use_type_invariant(self);
        }
        self.value
    }

}

impl Default for MaxConversationParticipants {
    fn default() -> (r: Self)
        ensures
            r@ == 10u8,
    {
        MaxConversationParticipants { value: 10u8 }
    }
}

/// Health check interval in milliseconds.
/// Accepts 1_000 to 300_000; the default is 30_000.
#[derive(Debug, Clone, Copy, PartialEq, Eq, Structural)]
pub struct HealthCheckIntervalMs {
    value: u64,
}

impl View for HealthCheckIntervalMs {
    type V = u64;

    closed spec fn view(&self) -> u64 {
        self.value
    }
}

impl HealthCheckIntervalMs {
    #[verifier::type_invariant]
    closed spec fn in_range(self) -> bool {
        1_000u64 <= self.value && self.value <= 300_000u64
    }

    /// Whether a value is accepted.
    pub open spec fn accepts(value: u64) -> bool {
        1_000u64 <= value && value <= 300_000u64
    }

    /// Creates the value, or reports which bound it breaks.
    pub fn try_new(value: u64) -> (r: Result<Self, BoundViolation>)
        ensures
            r is Ok <==> Self::accepts(value),
            r matches Ok(c) ==> c@ == value,
            value < 1_000u64 ==> r == Err::<Self, BoundViolation>(BoundViolation::GreaterOrEqualViolated),
            value > 300_000u64 ==> r == Err::<Self, BoundViolation>(BoundViolation::LessOrEqualViolated),
    {
        if value < 1_000u64 {
            return Err(BoundViolation::GreaterOrEqualViolated);
        }
        if value > 300_000u64 {
            return Err(BoundViolation::LessOrEqualViolated);
        }
        Ok(HealthCheckIntervalMs { value })
    }

    /// The inner value.
    pub fn into_inner(&self) -> (v: u64)
        ensures
            v == self@,
            Self::accepts(v),
    {
        proof {
            use_type_invariant(self);
        }
        self.value
    }

    /// The value as a duration of that many milliseconds.
    pub fn as_duration(&self) -> (d: Duration)
        ensures
            d == millis_duration(self@),
    {
        duration_from_millis(self.value)
    }

}

impl Default for HealthCheckIntervalMs {
    fn default() -> (r: Self)
        ensures
            r@ == 30_000u64,
    {
        HealthCheckIntervalMs { value: 30_000u64 }
    }
}

/// Message timeout in milliseconds.
/// Accepts 1_000 to 300_000; the default is 30_000.
#[derive(Debug, Clone, Copy, PartialEq, Eq, Structural)]
pub struct MessageTimeoutMs {
    value: u64,
}

impl View for MessageTimeoutMs {
    type V = u64;

    closed spec fn view(&self) -> u64 {
        self.value
    }
}

impl MessageTimeoutMs {
    #[verifier::type_invariant]
    closed spec fn in_range(self) -> bool {
        1_000u64 <= self.value && self.value <= 300_000u64
    }

    /// Whether a value is accepted.
    pub open spec fn accepts(value: u64) -> bool {
        1_000u64 <= value && value <= 300_000u64
    }

    /// Creates the value, or reports which bound it breaks.
    pub fn try_new(value: u64) -> (r: Result<Self, BoundViolation>)
        ensures
            r is Ok <==> Self::accepts(value),
            r matches Ok(c) ==> c@ == value,
            value < 1_000u64 ==> r == Err::<Self, BoundViolation>(BoundViolation::GreaterOrEqualViolated),
            value > 300_000u64 ==> r == Err::<Self, BoundViolation>(BoundViolation::LessOrEqualViolated),
    {
        if value < 1_000u64 {
            return Err(BoundViolation::GreaterOrEqualViolated);
        }
        if value > 300_000u64 {
            return Err(BoundViolation::LessOrEqualViolated);
        }
        Ok(MessageTimeoutMs { value })
    }

    /// The inner value.
    pub fn into_inner(&self) -> (v: u64)
        ensures
            v == self@,
            Self::accepts(v),
    {
        proof {
            use_type_invariant(self);
        }
        self.value
    }

    /// The value as a duration of that many milliseconds.
    pub fn as_duration(&self) -> (d: Duration)
        ensures
            d == millis_duration(self@),
    {
        duration_from_millis(self.value)
    }

    /// The inner value.
    pub fn as_u64(&self) -> (v: u64)
        ensures
            v == self@,
            Self::accepts(v),
    {
        self.into_inner()
    }

}

impl Default for MessageTimeoutMs {
    fn default() -> (r: Self)
        ensures
            r@ == 30_000u64,
    {
        MessageTimeoutMs { value: 30_000u64 }
    }
}

/// Agent queue size.
/// Accepts 1 to 100_000; the default is 1_000.
#[derive(Debug, Clone, Copy, PartialEq, Eq, Structural)]
pub struct AgentQueueSize {
    value: usize,
}

impl View for AgentQueueSize {
    type V = usize;

    closed spec fn view(&self) -> usize {
        self.value
    }
}

impl AgentQueueSize {
    #[verifier::type_invariant]
    closed spec fn in_range(self) -> bool {
        1usize <= self.value && self.value <= 100_000usize
    }

    /// Whether a value is accepted.
    pub open spec fn accepts(value: usize) -> bool {
        1usize <= value && value <= 100_000usize
    }

    /// Creates the value, or reports which bound it breaks.
    pub fn try_new(value: usize) -> (r: Result<Self, BoundViolation>)
        ensures
            r is Ok <==> Self::accepts(value),
            r matches Ok(c) ==> c@ == value,
            value < 1usize ==> r == Err::<Self, BoundViolation>(BoundViolation::GreaterOrEqualViolated),
            value > 100_000usize ==> r == Err::<Self, BoundViolation>(BoundViolation::LessOrEqualViolated),
    {
        if value < 1usize {
            return Err(BoundViolation::GreaterOrEqualViolated);
        }
        if value > 100_000usize {
            return Err(BoundViolation::LessOrEqualViolated);
        }
        Ok(AgentQueueSize { value })
    }

    /// The inner value.
    pub fn into_inner(&self) -> (v: usize)
        ensures
            v == self@,
            Self::accepts(v),
    {
        proof {
            use_type_invariant(self);
        }
        self.value
    }

    /// The inner value.
    pub fn as_usize(&self) -> (v: usize)
        ensures
            v == self@,
            Self::accepts(v),
    {
        self.into_inner()
    }

}

impl Default for AgentQueueSize {
    fn default() -> (r: Self)
        ensures
            r@ == 1_000usize,
    {
        AgentQueueSize { value: 1_000usize }
    }
}

/// Worker thread count for parallel processing.
/// Accepts 1 to 32; the default is 4.
#[derive(Debug, Clone, Copy, PartialEq, Eq, Structural)]
pub struct WorkerThreadCount {
    value: usize,
}

impl View for WorkerThreadCount {
    type V = usize;

    closed spec fn view(&self) -> usize {
        self.value
    }
}

impl WorkerThreadCount {
    #[verifier::type_invariant]
    closed spec fn in_range(self) -> bool {
        1usize <= self.value && self.value <= 32usize
    }

    /// Whether a value is accepted.
    pub open spec fn accepts(value: usize) -> bool {
        1usize <= value && value <= 32usize
    }

    /// Creates the value, or reports which bound it breaks.
    pub fn try_new(value: usize) -> (r: Result<Self, BoundViolation>)
        ensures
            r is Ok <==> Self::accepts(value),
            r matches Ok(c) ==> c@ == value,
            value < 1usize ==> r == Err::<Self, BoundViolation>(BoundViolation::GreaterOrEqualViolated),
            value > 32usize ==> r == Err::<Self, BoundViolation>(BoundViolation::LessOrEqualViolated),
    {
        if value < 1usize {
            return Err(BoundViolation::GreaterOrEqualViolated);
        }
        if value > 32usize {
            return Err(BoundViolation::LessOrEqualViolated);
        }
        Ok(WorkerThreadCount { value })
    }

    /// The inner value.
    pub fn into_inner(&self) -> (v: usize)
        ensures
            v == self@,
            Self::accepts(v),
    {
        proof {
            use_type_invariant(self);
        }
        self.value
    }

    /// The inner value.
    pub fn as_usize(&self) -> (v: usize)
        ensures
            v == self@,
            Self::accepts(v),
    {
        self.into_inner()
    }

}

impl Default for WorkerThreadCount {
    fn default() -> (r: Self)
        ensures
            r@ == 4usize,
    {
        WorkerThreadCount { value: 4usize }
    }
}

/// Message batch size for high-throughput processing.
/// Accepts 1 to 10_000; the default is 100.
#[derive(Debug, Clone, Copy, PartialEq, Eq, Structural)]
pub struct MessageBatchSize {
    value: usize,
}

impl View for MessageBatchSize {
    type V = usize;

    closed spec fn view(&self) -> usize {
        self.value
    }
}

impl MessageBatchSize {
    #[verifier::type_invariant]
    closed spec fn in_range(self) -> bool {
        1usize <= self.value && self.value <= 10_000usize
    }

    /// Whether a value is accepted.
    pub open spec fn accepts(value: usize) -> bool {
        1usize <= value && value <= 10_000usize
    }

    /// Creates the value, or reports which bound it breaks.
    pub fn try_new(value: usize) -> (r: Result<Self, BoundViolation>)
        ensures
            r is Ok <==> Self::accepts(value),
            r matches Ok(c) ==> c@ == value,
            value < 1usize ==> r == Err::<Self, BoundViolation>(BoundViolation::GreaterOrEqualViolated),
            value > 10_000usize ==> r == Err::<Self, BoundViolation>(BoundViolation::LessOrEqualViolated),
    {
        if value < 1usize {
            return Err(BoundViolation::GreaterOrEqualViolated);
        }
        if value > 10_000usize {
            return Err(BoundViolation::LessOrEqualViolated);
        }
        Ok(MessageBatchSize { value })
    }

    /// The inner value.
    pub fn into_inner(&self) -> (v: usize)
        ensures
            v == self@,
            Self::accepts(v),
    {
        proof {
            use_type_invariant(self);
        }
        self.value
    }

    /// The inner value.
    pub fn as_usize(&self) -> (v: usize)
        ensures
            v == self@,
            Self::accepts(v),
    {
        self.into_inner()
    }

}

impl Default for MessageBatchSize {
    fn default() -> (r: Self)
        ensures
            r@ == 100usize,
    {
        MessageBatchSize { value: 100usize }
    }
}

/// Circuit breaker timeout in milliseconds.
/// Accepts 5_000 to 300_000; the default is 60_000.
#[derive(Debug, Clone, Copy, PartialEq, Eq, Structural)]
pub struct CircuitBreakerTimeoutMs {
    value: u64,
}

impl View for CircuitBreakerTimeoutMs {
    type V = u64;

    closed spec fn view(&self) -> u64 {
        self.value
    }
}

impl CircuitBreakerTimeoutMs {
    #[verifier::type_invariant]
    closed spec fn in_range(self) -> bool {
        5_000u64 <= self.value && self.value <= 300_000u64
    }

    /// Whether a value is accepted.
    pub open spec fn accepts(value: u64) -> bool {
        5_000u64 <= value && value <= 300_000u64
    }

    /// Creates the value, or reports which bound it breaks.
    pub fn try_new(value: u64) -> (r: Result<Self, BoundViolation>)
        ensures
            r is Ok <==> Self::accepts(value),
            r matches Ok(c) ==> c@ == value,
            value < 5_000u64 ==> r == Err::<Self, BoundViolation>(BoundViolation::GreaterOrEqualViolated),
            value > 300_000u64 ==> r == Err::<Self, BoundViolation>(BoundViolation::LessOrEqualViolated),
    {
        if value < 5_000u64 {
            return Err(BoundViolation::GreaterOrEqualViolated);
        }
        if value > 300_000u64 {
            return Err(BoundViolation::LessOrEqualViolated);
        }
        Ok(CircuitBreakerTimeoutMs { value })
    }

    /// The inner value.
    pub fn into_inner(&self) -> (v: u64)
        ensures
            v == self@,
            Self::accepts(v),
    {
        proof {
            use_type_invariant(self);
        }
        self.value
    }

    /// The value as a duration of that many milliseconds.
    pub fn as_duration(&self) -> (d: Duration)
        ensures
            d == millis_duration(self@),
    {
        duration_from_millis(self.value)
    }

    /// The inner value.
    pub fn as_u64(&self) -> (v: u64)
        ensures
            v == self@,
            Self::accepts(v),
    {
        self.into_inner()
    }

}

impl Default for CircuitBreakerTimeoutMs {
    fn default() -> (r: Self)
        ensures
            r@ == 60_000u64,
    {
        CircuitBreakerTimeoutMs { value: 60_000u64 }
    }
}

/// Number of hops to reach an agent.
/// Accepts 0 to 255; the default is 0.
#[derive(Debug, Clone, Copy, PartialEq, Eq, Structural)]
pub struct RouteHops {
    value: u8,
}

impl View for RouteHops {
    type V = u8;

    closed spec fn view(&self) -> u8 {
        self.value
    }
}

impl RouteHops {
    #[verifier::type_invariant]
    closed spec fn in_range(self) -> bool {
        0u8 <= self.value && self.value <= 255u8
    }

    /// Whether a value is accepted.
    pub open spec fn accepts(value: u8) -> bool {
        0u8 <= value && value <= 255u8
    }

    /// Creates the value, or reports which bound it breaks.
    pub fn try_new(value: u8) -> (r: Result<Self, BoundViolation>)
        ensures
            r is Ok <==> Self::accepts(value),
            r matches Ok(c) ==> c@ == value,
    {
        Ok(RouteHops { value })
    }

    /// The inner value.
    pub fn into_inner(&self) -> (v: u8)
        ensures
            v == self@,
            Self::accepts(v),
    {
        proof {
            use_type_invariant(self);
        }
        self.value
    }

}

impl Default for RouteHops {
    fn default() -> (r: Self)
        ensures
            r@ == 0u8,
    {
        RouteHops { value: 0u8 }
    }
}

/// Trace sampling ratio, in millionths (0 to 1_000_000 stands for 0.0 to 1.0).
/// Accepts 0 to 1_000_000; the default is 100_000.
#[derive(Debug, Clone, Copy, PartialEq, Eq, Structural)]
pub struct TraceSamplingRatio {
    value: u32,
}

impl View for TraceSamplingRatio {
    type V = u32;

    closed spec fn view(&self) -> u32 {
        self.value
    }
}

impl TraceSamplingRatio {
    #[verifier::type_invariant]
    closed spec fn in_range(self) -> bool {
        0u32 <= self.value && self.value <= 1_000_000u32
    }

    /// Whether a value is accepted.
    pub open spec fn accepts(value: u32) -> bool {
        0u32 <= value && value <= 1_000_000u32
    }

    /// Creates the value, or reports which bound it breaks.
    pub fn try_new(value: u32) -> (r: Result<Self, BoundViolation>)
        ensures
            r is Ok <==> Self::accepts(value),
            r matches Ok(c) ==> c@ == value,
            value > 1_000_000u32 ==> r == Err::<Self, BoundViolation>(BoundViolation::LessOrEqualViolated),
    {
        if value > 1_000_000u32 {
            return Err(BoundViolation::LessOrEqualViolated);
        }
        Ok(TraceSamplingRatio { value })
    }

    /// The inner value.
    pub fn into_inner(&self) -> (v: u32)
        ensures
            v == self@,
            Self::accepts(v),
    {
        proof {
            use_type_invariant(self);
        }
        self.value
    }

}

impl Default for TraceSamplingRatio {
    fn default() -> (r: Self)
        ensures
            r@ == 100_000u32,
    {
        TraceSamplingRatio { value: 100_000u32 }
    }
}

/// Retry backoff multiplication factor, in hundredths (110 to 500 stands for 1.1 to 5.0).
/// Accepts 110 to 500; the default is 200.
#[derive(Debug, Clone, Copy, PartialEq, Eq, Structural)]
pub struct RetryBackoffFactor {
    value: u32,
}

impl View for RetryBackoffFactor {
    type V = u32;

    closed spec fn view(&self) -> u32 {
        self.value
    }
}

impl RetryBackoffFactor {
    #[verifier::type_invariant]
    closed spec fn in_range(self) -> bool {
        110u32 <= self.value && self.value <= 500u32
    }

    /// Whether a value is accepted.
    pub open spec fn accepts(value: u32) -> bool {
        110u32 <= value && value <= 500u32
    }

    /// Creates the value, or reports which bound it breaks.
    pub fn try_new(value: u32) -> (r: Result<Self, BoundViolation>)
        ensures
            r is Ok <==> Self::accepts(value),
            r matches Ok(c) ==> c@ == value,
            value < 110u32 ==> r == Err::<Self, BoundViolation>(BoundViolation::GreaterOrEqualViolated),
            value > 500u32 ==> r == Err::<Self, BoundViolation>(BoundViolation::LessOrEqualViolated),
    {
        if value < 110u32 {
            return Err(BoundViolation::GreaterOrEqualViolated);
        }
        if value > 500u32 {
            return Err(BoundViolation::LessOrEqualViolated);
        }
        Ok(RetryBackoffFactor { value })
    }

    /// The inner value.
    pub fn into_inner(&self) -> (v: u32)
        ensures
            v == self@,
            Self::accepts(v),
    {
        proof {
            use_type_invariant(self);
        }
        self.value
    }

}

impl Default for RetryBackoffFactor {
    fn default() -> (r: Self)
        ensures
            r@ == 200u32,
    {
        RetryBackoffFactor { value: 200u32 }
    }
}

} // verus!
