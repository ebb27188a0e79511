//! Batched observability events: the order in which a batch of events is
//! processed, the statistics of batch processing and of metrics
//! collection, and the rolling window of emission times with its average
//! and 95th percentile.
//!
//! Durations are counted in nanoseconds.

use vstd::prelude::*;
use crate::performance::message_routing::{MAX_DURATION_NANOS, divides_span, span_per};
use crate::performance::monitor::{histogram_summary, is_summarizable, summarizable, summarize_histogram};
use std::time::Instant;

verus! {

broadcast use vstd::string::group_string_axioms;

/// How urgently an event is processed; later variants are more urgent.
#[derive(Debug, Clone, Copy, PartialEq, Eq, PartialOrd, Ord, Structural)]
pub enum EventPriority {
    Low,
    Normal,
    High,
    Critical,
}

/// The rank of a priority, from 0 for `Low` to 3 for `Critical`.
pub open spec fn priority_rank(p: EventPriority) -> int {
    match p {
        EventPriority::Low => 0,
        EventPriority::Normal => 1,
        EventPriority::High => 2,
        EventPriority::Critical => 3,
    }
}

fn rank_of(p: EventPriority) -> (r: u8)
    ensures
        r == priority_rank(p),
{
    match p {
        EventPriority::Low => 0,
        EventPriority::Normal => 1,
        EventPriority::High => 2,
        EventPriority::Critical => 3,
    }
}

/// Kinds of metric.
#[derive(Debug, Clone, Copy, PartialEq, Eq, Structural)]
pub enum MetricType {
    Counter,
    Gauge,
    Histogram,
}

/// Levels of log events.
#[derive(Debug, Clone, Copy, PartialEq, Eq, Structural)]
pub enum LogLevel {
    Trace,
    Debug,
    Info,
    Warn,
    Error,
}

/// Errors of the observability pipeline.
#[derive(Debug)]
pub enum ObservabilityError {
    ChannelClosed,
    SerializationError(String),
    BackendError(String),
    RateLimitExceeded,
}

/// The description of an observability error.
pub open spec fn observability_error_text(e: ObservabilityError) -> Seq<char> {
    match e {
        ObservabilityError::ChannelClosed => "Event channel closed"@,
        ObservabilityError::SerializationError(s) => "Serialization error: "@ + s@,
        ObservabilityError::BackendError(s) => "Backend connection error: "@ + s@,
        ObservabilityError::RateLimitExceeded => "Rate limiting exceeded"@,
    }
}

impl ObservabilityError {
    /// The description of the error.
    pub fn message(&self) -> (s: String)
        ensures
            s@ == observability_error_text(*self),
    {
        match self {
            ObservabilityError::ChannelClosed => String::from_str("Event channel closed"),
            ObservabilityError::SerializationError(s) => String::from_str("Serialization error: ").concat(
                s.as_str(),
            ),
            ObservabilityError::BackendError(s) => String::from_str("Backend connection error: ").concat(
                s.as_str(),
            ),
            ObservabilityError::RateLimitExceeded => String::from_str("Rate limiting exceeded"),
        }
    }
}

/// What an event is ordered by in a batch: its priority, then its time
/// (nanoseconds from the Unix epoch, negative before it).
#[derive(Debug, Clone, Copy, PartialEq, Eq, Structural)]
pub struct EventKey {
    pub priority: EventPriority,
    pub timestamp_nanos: i128,
}

/// Whether key `a` comes before key `b`: lower priority first, then
/// earlier time.
pub open spec fn key_before(a: EventKey, b: EventKey) -> bool {
    priority_rank(a.priority) < priority_rank(b.priority) || (priority_rank(a.priority)
        == priority_rank(b.priority) && a.timestamp_nanos < b.timestamp_nanos)
}

/// Whether event `i` is processed before event `j`: by key, and in arrival
/// order among equal keys (the order a stable sort by priority, then time,
/// gives).
pub open spec fn processed_before(keys: Seq<EventKey>, i: int, j: int) -> bool {
    key_before(keys[i], keys[j]) || (keys[i] == keys[j] && i < j)
}

/// Whether `order` lists the positions `0..keys.len()` once each, in
/// processing order.
pub open spec fn is_processing_order(keys: Seq<EventKey>, order: Seq<usize>) -> bool {
    &&& order.len() == keys.len()
    &&& forall|a: int| 0 <= a < order.len() ==> #[trigger] order[a] < keys.len()
    &&& forall|a: int, b: int|
        0 <= a < b < order.len() ==> processed_before(keys, #[trigger] order[a] as int, #[trigger] order[b] as int)
}

fn comes_after(a: EventKey, b: EventKey) -> (r: bool)
    ensures
        r == key_before(b, a),
{
    let ra = rank_of(a.priority);
    let rb = rank_of(b.priority);
    rb < ra || (rb == ra && b.timestamp_nanos < a.timestamp_nanos)
}

/// The order in which a batch of events with these keys is processed: the
/// positions of the events, by priority, then time, then arrival.
pub fn processing_order(keys: &Vec<EventKey>) -> (order: Vec<usize>)
    ensures
        is_processing_order(keys@, order@),
{
    let n = keys.len();
    let mut order: Vec<usize> = Vec::new();
    let mut i: usize = 0;
    while i < n
        invariant
            n == keys@.len(),
            i <= n,
            order@.len() == i,
            forall|a: int| 0 <= a < order@.len() ==> #[trigger] order@[a] < i,
            forall|a: int, b: int|
                0 <= a < b < order@.len() ==> processed_before(
                    keys@,
                    #[trigger] order@[a] as int,
                    #[trigger] order@[b] as int,
                ),
        decreases n - i,
    {
        let key = keys[i];
        let mut p: usize = 0;
        while p < order.len() && !comes_after(keys[order[p]], key)
            invariant
                n == keys@.len(),
                i < n,
                key == keys@[i as int],
                p <= order@.len(),
                forall|a: int| 0 <= a < order@.len() ==> #[trigger] order@[a] < i,
                forall|a: int| 0 <= a < p ==> !key_before(key, #[trigger] keys@[order@[a] as int]),
            decreases order@.len() - p,
        {
            p = p + 1;
        }
        let ghost before = order@;
        order.insert(p, i);
        proof {
            assert(order@ == before.insert(p as int, i));
            assert forall|a: int| 0 <= a < order@.len() implies #[trigger] order@[a] < i + 1 by {
                if a < p {
                    assert(order@[a] == before[a]);
                } else if a > p {
                    assert(order@[a] == before[a - 1]);
                }
            }
            assert forall|a: int, b: int| 0 <= a < b < order@.len() implies processed_before(
                keys@,
                #[trigger] order@[a] as int,
                #[trigger] order@[b] as int,
            ) by {
                if b < p {
                    assert(order@[a] == before[a] && order@[b] == before[b]);
                } else if b == p {
                    assert(order@[a] == before[a]);
                    assert(before[a] < i);
                    assert(!key_before(key, keys@[before[a] as int]));
                } else if a < p {
                    assert(order@[a] == before[a] && order@[b] == before[b - 1]);
                } else if a == p {
                    assert(order@[b] == before[b - 1]);
                    assert(key_before(key, keys@[before[p as int] as int]));
                    if b - 1 > p {
                        assert(processed_before(keys@, before[p as int] as int, before[b - 1] as int));
                    }
                } else {
                    assert(order@[a] == before[a - 1] && order@[b] == before[b - 1]);
                }
            }
        }
        i = i + 1;
    }
    order
}

/// Statistics of event batch processing.
#[derive(Debug, Clone, Copy)]
pub struct BatchProcessorStats {
    pub batches_processed: u64,
    pub total_events_processed: u64,
    pub total_processing_time_nanos: u128,
}

impl Default for BatchProcessorStats {
    fn default() -> (s: Self)
        ensures
            s.batches_processed == 0,
            s.total_events_processed == 0,
            s.total_processing_time_nanos == 0,
    {
        BatchProcessorStats { batches_processed: 0, total_events_processed: 0, total_processing_time_nanos: 0 }
    }
}

impl BatchProcessorStats {
    /// The average time to process a batch, in nanoseconds; 0 before any
    /// batch.
    pub fn average_processing_time(&self) -> (n: u128)
        requires
            divides_span(self.batches_processed),
        ensures
            n == span_per(self.total_processing_time_nanos, self.batches_processed),
    {
        if self.batches_processed == 0 {
            0
        } else {
            let d: u32 = self.batches_processed as u32;
            self.total_processing_time_nanos / (d as u128)
        }
    }

    /// Counts a processed batch of `size` events that took `nanos`.
    pub fn record_batch(&mut self, size: u64, nanos: u128)
        requires
            old(self).batches_processed < u64::MAX,
            old(self).total_events_processed + size <= u64::MAX,
            old(self).total_processing_time_nanos + nanos <= MAX_DURATION_NANOS,
        ensures
            final(self).batches_processed == old(self).batches_processed + 1,
            final(self).total_events_processed == old(self).total_events_processed + size,
            final(self).total_processing_time_nanos == old(self).total_processing_time_nanos + nanos,
    {
        self.batches_processed = self.batches_processed + 1;
        self.total_events_processed = self.total_events_processed + size;
        self.total_processing_time_nanos = self.total_processing_time_nanos + nanos;
    }
}

/// Statistics of metrics collection.
#[derive(Debug, Clone)]
pub struct MetricsCollectorStats {
    pub collections_performed: u64,
    pub total_collection_time_nanos: u128,
    pub last_collection: Option<Instant>,
}

impl Default for MetricsCollectorStats {
    fn default() -> (s: Self)
        ensures
            s.collections_performed == 0,
            s.total_collection_time_nanos == 0,
            s.last_collection is None,
    {
        MetricsCollectorStats { collections_performed: 0, total_collection_time_nanos: 0, last_collection: None }
    }
}

impl MetricsCollectorStats {
    /// Counts a collection that started at `started` and took `nanos`.
    pub fn record_collection(&mut self, started: Instant, nanos: u128)
        requires
            old(self).collections_performed < u64::MAX,
            old(self).total_collection_time_nanos + nanos <= MAX_DURATION_NANOS,
        ensures
            final(self).collections_performed == old(self).collections_performed + 1,
            final(self).total_collection_time_nanos == old(self).total_collection_time_nanos + nanos,
            final(self).last_collection == Some(started),
    {
        self.collections_performed = self.collections_performed + 1;
        self.total_collection_time_nanos = self.total_collection_time_nanos + nanos;
        self.last_collection = Some(started);
    }
}

/// How many emission times are kept.
pub const EMISSION_WINDOW: usize = 100;

/// The window after an emission that took `nanos`: once the window is
/// full, the oldest time leaves.
pub open spec fn window_after(w: Seq<u128>, nanos: u128) -> Seq<u128> {
    if w.len() >= EMISSION_WINDOW {
        w.drop_first().push(nanos)
    } else {
        w.push(nanos)
    }
}

/// The average and 95th percentile of a window of emission times; both 0
/// for an empty window.
pub open spec fn window_stats(w: Seq<u128>) -> (u128, u128) {
    if w.len() == 0 {
        (0, 0)
    } else {
        (histogram_summary(w).mean_nanos, histogram_summary(w).p95_nanos)
    }
}

/// The most recent emission times of the observability pipeline.
#[derive(Debug)]
pub struct EmissionTimes {
    times: Vec<u128>,
}

impl EmissionTimes {
    /// The times kept, oldest first.
    pub closed spec fn window(self) -> Seq<u128> {
        self.times@
    }

    /// Well-formedness: at most `EMISSION_WINDOW` times, each fitting a
    /// `Duration`.
    pub open spec fn wf(self) -> bool {
        &&& self.window().len() <= EMISSION_WINDOW
        &&& forall|i: int| 0 <= i < self.window().len() ==> #[trigger] self.window()[i] <= MAX_DURATION_NANOS
    }

    /// An empty window.
    pub fn new() -> (t: Self)
        ensures
            t.wf(),
            t.window() == Seq::<u128>::empty(),
    {
        EmissionTimes { times: Vec::new() }
    }

    /// Records the time an emission took.
    pub fn record_event_emission(&mut self, nanos: u128)
        requires
            old(self).wf(),
            nanos <= MAX_DURATION_NANOS,
        ensures
            final(self).wf(),
            final(self).window() == window_after(old(self).window(), nanos),
    {
        let ghost w0 = self.times@;
        if self.times.len() >= EMISSION_WINDOW {
            let _ = self.times.remove(0);
            assert(self.times@ =~= w0.drop_first());
        }
        self.times.push(nanos);
        assert forall|i: int| 0 <= i < self.window().len() implies #[trigger] self.window()[i] <= MAX_DURATION_NANOS by {
            if i < self.window().len() - 1 {
                if w0.len() >= EMISSION_WINDOW {
                    assert(self.window()[i] == w0[i + 1]);
                } else {
                    assert(self.window()[i] == w0[i]);
                }
            }
        }
    }

    /// Whether the average and percentile can be taken: the times add up
    /// to at most the longest `Duration`.
    pub fn can_summarize(&self) -> (b: bool)
        ensures
            b == summarizable(self.window()),
    {
        is_summarizable(&self.times)
    }

    /// The average and 95th percentile of the times kept.
    pub fn get_stats(&self) -> (r: (u128, u128))
        requires
            self.wf(),
            summarizable(self.window()),
        ensures
            r == window_stats(self.window()),
    {
        match summarize_histogram(&self.times) {
            Some(h) => (h.mean_nanos, h.p95_nanos),
            None => (0, 0),
        }
    }
}

} // verus!
