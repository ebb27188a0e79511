//! A performance monitor of named counters and latency histograms, and the
//! summary of each histogram: its count, mean and percentiles.
//!
//! Latencies are counted in nanoseconds.

use vstd::prelude::*;
use vstd::relations::{sorted_by, total_ordering};
use crate::performance::message_routing::{MAX_DURATION_NANOS, elapsed_nanos, instant_now};
use crate::performance::{
    PerformanceBottleneck, OptimizationRecommendation, bottleneck_view, expected_bottlenecks,
    expected_recommendations, recommendation_titles, recommendation_view,
};
use crate::sandbox::same_text;
use std::time::Instant;

verus! {

broadcast use vstd::string::group_string_axioms;

/// The order of latencies: ascending.
pub open spec fn ascending() -> spec_fn(u128, u128) -> bool {
    |a: u128, b: u128| a <= b
}

/// Latencies in ascending order.
pub open spec fn sorted_latencies(s: Seq<u128>) -> Seq<u128> {
    s.sort_by(ascending())
}

proof fn lemma_ascending_total()
    ensures
        total_ordering(ascending()),
{
}

/// Inserting an element into a sequence adds it to the sequence's multiset.
proof fn lemma_insert_multiset(s: Seq<u128>, p: int, x: u128)
    requires
        0 <= p <= s.len(),
    ensures
        s.insert(p, x).to_multiset() == s.to_multiset().insert(x),
{
    broadcast use vstd::seq_lib::group_to_multiset_ensures;
    broadcast use vstd::multiset::group_multiset_axioms;

    let t = s.insert(p, x);
    assert(t.remove(p) =~= s);
    assert(t[p] == x);
    assert(t.to_multiset().count(x) > 0) by {
        assert(t.contains(x));
    }
    assert(t.to_multiset() =~= s.to_multiset().insert(x));
}

/// Sorts latencies in ascending order.
pub fn sort_latencies(values: &Vec<u128>) -> (r: Vec<u128>)
    ensures
        r@ == sorted_latencies(values@),
{
    broadcast use vstd::seq_lib::group_to_multiset_ensures;

    let mut r: Vec<u128> = Vec::new();
    let n = values.len();
    let mut i: usize = 0;
    assert(values@.take(0) =~= Seq::<u128>::empty());
    while i < n
        invariant
            n == values@.len(),
            i <= n,
            sorted_by(r@, ascending()),
            r@.to_multiset() == values@.take(i as int).to_multiset(),
        decreases n - i,
    {
        let x = values[i];
        let mut p: usize = 0;
        while p < r.len() && r[p] < x
            invariant
                p <= r@.len(),
                forall|j: int| 0 <= j < p ==> r@[j] < x,
            decreases r@.len() - p,
        {
            p = p + 1;
        }
        let ghost before = r@;
        r.insert(p, x);
        proof {
            lemma_insert_multiset(before, p as int, x);
            assert(values@.take(i + 1) =~= values@.take(i as int).push(x));
            values@.take(i as int).to_multiset_ensures();
            assert(values@.take(i as int).push(x).to_multiset() == values@.take(
                i as int,
            ).to_multiset().insert(x));
            assert(r@ == before.insert(p as int, x));
            assert forall|a: int, b: int| 0 <= a < b < r@.len() implies #[trigger] (ascending())(
                r@[a],
                r@[b],
            ) by {
                if b < p {
                } else if a < p && b == p {
                } else if a < p {
                    assert((ascending())(before[a], before[b - 1]));
                } else if a == p {
                    assert(x <= before[p as int]);
                    if p < b - 1 {
                        assert((ascending())(before[p as int], before[b - 1]));
                    }
                } else {
                    assert((ascending())(before[a - 1], before[b - 1]));
                }
            }
        }
        i = i + 1;
    }
    proof {
        assert(values@.take(n as int) =~= values@);
        values@.lemma_sort_by_ensures(ascending());
        lemma_ascending_total();
        vstd::seq_lib::lemma_sorted_unique(r@, sorted_latencies(values@), ascending());
    }
    r
}

/// The sum of latencies.
pub open spec fn total_latency(s: Seq<u128>) -> int
    decreases s.len(),
{
    if s.len() == 0 {
        0
    } else {
        total_latency(s.drop_last()) + s.last()
    }
}

proof fn lemma_total_prefix(s: Seq<u128>, i: int)
    requires
        0 <= i <= s.len(),
    ensures
        0 <= total_latency(s.take(i)) <= total_latency(s),
    decreases s.len(),
{
    if i == s.len() {
        assert(s.take(i) =~= s);
        if s.len() > 0 {
            lemma_total_prefix(s.drop_last(), i - 1);
            assert(s.drop_last().take(i - 1) =~= s.drop_last());
        }
    } else {
        lemma_total_prefix(s.drop_last(), i);
        assert(s.drop_last().take(i) =~= s.take(i));
    }
}

/// The position of a percentile among `count` latencies in ascending
/// order: `count * percent / 100`, rounded down. (For every count below
/// 10^14 this is where `(count as f64 * percent / 100.0) as usize` points.)
pub open spec fn percentile_position(count: nat, percent: nat) -> int {
    (count * percent / 100) as int
}

/// The summary of a histogram; spans in nanoseconds.
#[derive(Debug, Clone, Copy, PartialEq, Eq, Structural)]
pub struct HistogramStats {
    pub count: usize,
    pub mean_nanos: u128,
    pub p50_nanos: u128,
    pub p95_nanos: u128,
    pub p99_nanos: u128,
}

/// Whether a histogram can be summarized: it is empty, or its latencies
/// add up to at most the longest `Duration` and its count is not 0 modulo
/// 2^32 (the mean divides the total by the count cast to `u32`).
pub open spec fn summarizable(s: Seq<u128>) -> bool {
    s.len() == 0 || (total_latency(s) <= MAX_DURATION_NANOS && (s.len() as u32) != 0)
}

/// The summary of a non-empty histogram: its count, the total divided by
/// the count cast to `u32`, and the latencies at the 50th, 95th and 99th
/// percentile positions in ascending order.
pub open spec fn histogram_summary(s: Seq<u128>) -> HistogramStats {
    HistogramStats {
        count: s.len() as usize,
        mean_nanos: (total_latency(s) / ((s.len() as u32) as int)) as u128,
        p50_nanos: sorted_latencies(s)[(s.len() / 2) as int],
        p95_nanos: sorted_latencies(s)[percentile_position(s.len(), 95)],
        p99_nanos: sorted_latencies(s)[percentile_position(s.len(), 99)],
    }
}

/// Summarizes a histogram; nothing for an empty one.
pub fn summarize_histogram(values: &Vec<u128>) -> (r: Option<HistogramStats>)
    requires
        forall|i: int| 0 <= i < values@.len() ==> values@[i] <= MAX_DURATION_NANOS,
        summarizable(values@),
    ensures
        r == (if values@.len() == 0 {
            None
        } else {
            Some(histogram_summary(values@))
        }),
{
    let count = values.len();
    if count == 0 {
        return None;
    }
    let sorted = sort_latencies(values);
    proof {
        values@.lemma_sort_by_ensures(ascending());
        values@.to_multiset_ensures();
        sorted@.to_multiset_ensures();
    }
    let mut total: u128 = 0;
    let mut i: usize = 0;
    assert(values@.take(0) =~= Seq::<u128>::empty());
    while i < count
        invariant
            count == values@.len(),
            i <= count,
            summarizable(values@),
            count > 0,
            total == total_latency(values@.take(i as int)),
        decreases count - i,
    {
        proof {
            lemma_total_prefix(values@, i + 1);
            assert(values@.take(i + 1).drop_last() =~= values@.take(i as int));
        }
        total = total + values[i];
        i = i + 1;
    }
    assert(values@.take(count as int) =~= values@);
    let divisor: u32 = count as u32;
    let mean = total / (divisor as u128);
    assert(count * 95 / 100 < count) by (nonlinear_arith)
        requires
            count > 0,
    ;
    assert(count * 99 / 100 < count) by (nonlinear_arith)
        requires
            count > 0,
    ;
    let p50 = sorted[count / 2];
    let p95 = sorted[count / 100 * 95 + count % 100 * 95 / 100];
    let p99 = sorted[count / 100 * 99 + count % 100 * 99 / 100];
    assert(count / 100 * 95 + count % 100 * 95 / 100 == count * 95 / 100) by (nonlinear_arith);
    assert(count / 100 * 99 + count % 100 * 99 / 100 == count * 99 / 100) by (nonlinear_arith);
    Some(HistogramStats { count, mean_nanos: mean, p50_nanos: p50, p95_nanos: p95, p99_nanos: p99 })
}

/// Whether a histogram can be summarized.
pub fn is_summarizable(values: &Vec<u128>) -> (b: bool)
    ensures
        b == summarizable(values@),
{
    let n = values.len();
    if n == 0 {
        return true;
    }
    let d: u32 = n as u32;
    if d == 0 {
        assert((values@.len() as u32) == 0);
        return false;
    }
    let mut total: u128 = 0;
    let mut k: usize = 0;
    assert(values@.take(0) =~= Seq::<u128>::empty());
    while k < n
        invariant
            n == values@.len(),
            n > 0,
            (n as u32) != 0,
            k <= n,
            total <= MAX_DURATION_NANOS,
            total == total_latency(values@.take(k as int)),
        decreases n - k,
    {
        assert(values@.take(k + 1).drop_last() =~= values@.take(k as int));
        if values[k] > MAX_DURATION_NANOS - total {
            proof {
                lemma_total_prefix(values@, k + 1);
            }
            return false;
        }
        total = total + values[k];
        k = k + 1;
    }
    assert(values@.take(n as int) =~= values@);
    true
}

/// The position of the entry with the given name, if some entry has it.
pub open spec fn named_index<V>(entries: Seq<(Seq<char>, V)>, name: Seq<char>) -> Option<int> {
    if exists|i: int| 0 <= i < entries.len() && entries[i].0 == name {
        Some(choose|i: int| 0 <= i < entries.len() && entries[i].0 == name)
    } else {
        None
    }
}

/// The value of the entry with the given name, if some entry has it.
pub open spec fn named_value<V>(entries: Seq<(Seq<char>, V)>, name: Seq<char>) -> Option<V> {
    match named_index(entries, name) {
        Some(i) => Some(entries[i].1),
        None => None,
    }
}

/// The entries with the value under `name` set to `v`: replaced in place
/// where the name is present, else added last.
pub open spec fn with_named<V>(entries: Seq<(Seq<char>, V)>, name: Seq<char>, v: V) -> Seq<
    (Seq<char>, V),
> {
    match named_index(entries, name) {
        Some(i) => entries.update(i, (name, v)),
        None => entries.push((name, v)),
    }
}

/// No name occurs twice.
pub open spec fn names_unique<V>(entries: Seq<(Seq<char>, V)>) -> bool {
    forall|i: int, j: int|
        0 <= i < entries.len() && 0 <= j < entries.len() && i != j ==> entries[i].0 != entries[j].0
}

/// A value written under a name reads back under that name, other names
/// read as before, and names stay unique.
pub proof fn lemma_named_write_then_read<V>(entries: Seq<(Seq<char>, V)>, name: Seq<char>, other: Seq<char>, v: V)
    requires
        names_unique(entries),
    ensures
        names_unique(with_named(entries, name, v)),
        named_value(with_named(entries, name, v), name) == Some(v),
        other != name ==> named_value(with_named(entries, name, v), other) == named_value(entries, other),
{
    let w = with_named(entries, name, v);
    match named_index(entries, name) {
        Some(i) => {
            assert(0 <= i < entries.len() && entries[i].0 == name);
            assert(w == entries.update(i, (name, v)));
            assert forall|a: int, b: int| 0 <= a < w.len() && 0 <= b < w.len() && a != b implies w[a].0 != w[b].0 by {
                if a == i {
                    assert(entries[b].0 != entries[i].0);
                } else if b == i {
                    assert(entries[a].0 != entries[i].0);
                }
            }
            assert(w[i].0 == name);
            let j = choose|j: int| 0 <= j < w.len() && w[j].0 == name;
            assert(j == i);
            if other != name {
                if exists|k: int| 0 <= k < entries.len() && entries[k].0 == other {
                    let k = choose|k: int| 0 <= k < entries.len() && entries[k].0 == other;
                    assert(w[k].0 == other);
                    let kw = choose|kk: int| 0 <= kk < w.len() && w[kk].0 == other;
                    assert(kw == k);
                } else {
                    assert forall|k: int| 0 <= k < w.len() implies w[k].0 != other by {
                        if k != i {
                            assert(w[k] == entries[k]);
                        }
                    }
                }
            }
        },
        None => {
            assert(w == entries.push((name, v)));
            assert forall|k: int| 0 <= k < entries.len() implies entries[k].0 != name by {
                if entries[k].0 == name {
                    assert(exists|j: int| 0 <= j < entries.len() && entries[j].0 == name);
                }
            }
            assert(w[entries.len() as int].0 == name);
            let j = choose|j: int| 0 <= j < w.len() && w[j].0 == name;
            assert(j == entries.len());
            if other != name {
                if exists|k: int| 0 <= k < entries.len() && entries[k].0 == other {
                    let k = choose|k: int| 0 <= k < entries.len() && entries[k].0 == other;
                    assert(w[k].0 == other);
                    let kw = choose|kk: int| 0 <= kk < w.len() && w[kk].0 == other;
                    assert(kw == k);
                } else {
                    assert forall|k: int| 0 <= k < w.len() implies w[k].0 != other by {
                        if k < entries.len() {
                            assert(w[k] == entries[k]);
                        }
                    }
                }
            }
        },
    }
}

/// The 95th percentile, in whole milliseconds, of the named histogram where
/// it has latencies.
pub open spec fn p95_millis(histograms: Seq<(Seq<char>, Seq<u128>)>, name: Seq<char>) -> Option<u128> {
    match named_value(histograms, name) {
        Some(s) => if s.len() > 0 {
            Some((histogram_summary(s).p95_nanos / 1_000_000) as u128)
        } else {
            None
        },
        None => None,
    }
}

/// The histogram of agent spawn latencies.
pub open spec fn spawn_histogram_name() -> Seq<char> {
    "caxton_agent_spawn_duration_seconds"@
}

/// The histogram of message routing latencies.
pub open spec fn routing_histogram_name() -> Seq<char> {
    "caxton_message_routing_duration_seconds"@
}

/// Counters with their names as texts.
pub open spec fn counter_pairs(v: Seq<(String, u64)>) -> Seq<(Seq<char>, u64)> {
    v.map_values(|e: (String, u64)| (e.0@, e.1))
}

/// Histograms with their names as texts.
pub open spec fn histogram_pairs(v: Seq<(String, Vec<u128>)>) -> Seq<(Seq<char>, Seq<u128>)> {
    v.map_values(|e: (String, Vec<u128>)| (e.0@, e.1@))
}

/// Histogram summaries with their names as texts.
pub open spec fn summary_pairs(v: Seq<(String, HistogramStats)>) -> Seq<(Seq<char>, HistogramStats)> {
    v.map_values(|e: (String, HistogramStats)| (e.0@, e.1))
}

/// The summary of each histogram that has latencies, in order.
pub open spec fn histogram_summaries(h: Seq<(Seq<char>, Seq<u128>)>) -> Seq<(Seq<char>, HistogramStats)> {
    h.filter(|e: (Seq<char>, Seq<u128>)| e.1.len() > 0).map_values(
        |e: (Seq<char>, Seq<u128>)| (e.0, histogram_summary(e.1)),
    )
}

/// A summary of the monitor: its uptime, its counters, and the summary of
/// each histogram that has latencies.
#[derive(Debug, Clone)]
pub struct PerformanceSummary {
    pub uptime_nanos: u128,
    pub counters: Vec<(String, u64)>,
    pub histogram_stats: Vec<(String, HistogramStats)>,
}

/// A monitor of named counters and latency histograms.
#[derive(Debug)]
pub struct PerformanceMonitor {
    start_time: Instant,
    counters: Vec<(String, u64)>,
    histograms: Vec<(String, Vec<u128>)>,
}

impl PerformanceMonitor {
    /// The counters by name, in the order they were first touched.
    pub closed spec fn counter_view(self) -> Seq<(Seq<char>, u64)> {
        counter_pairs(self.counters@)
    }

    /// The histograms by name, in the order they were first touched.
    pub closed spec fn histogram_view(self) -> Seq<(Seq<char>, Seq<u128>)> {
        histogram_pairs(self.histograms@)
    }

    /// Well-formedness: names are unique and each latency fits a `Duration`.
    pub open spec fn wf(self) -> bool {
        &&& names_unique(self.counter_view())
        &&& names_unique(self.histogram_view())
        &&& forall|i: int, j: int|
            0 <= i < self.histogram_view().len() && 0 <= j < self.histogram_view()[i].1.len()
                ==> #[trigger] self.histogram_view()[i].1[j] <= MAX_DURATION_NANOS
    }

    /// Whether every histogram can be summarized.
    pub open spec fn all_summarizable(self) -> bool {
        forall|i: int| 0 <= i < self.histogram_view().len() ==> summarizable(#[trigger] self.histogram_view()[i].1)
    }

    /// A monitor with no counters and no histograms, started now.
    pub fn new() -> (m: Self)
        ensures
            m.wf(),
            m.counter_view() == Seq::<(Seq<char>, u64)>::empty(),
            m.histogram_view() == Seq::<(Seq<char>, Seq<u128>)>::empty(),
    {
        let m = PerformanceMonitor { start_time: instant_now(), counters: Vec::new(), histograms: Vec::new() };
        assert(m.counter_view() =~= Seq::<(Seq<char>, u64)>::empty());
        assert(m.histogram_view() =~= Seq::<(Seq<char>, Seq<u128>)>::empty());
        m
    }

    fn find_counter(&self, name: &str) -> (r: Option<usize>)
        requires
            self.wf(),
        ensures
            match r {
                Some(i) => named_index(self.counter_view(), name@) == Some(i as int) && i
                    < self.counters@.len(),
                None => named_index(self.counter_view(), name@) is None,
            },
    {
        let ghost v = self.counter_view();
        let mut i: usize = 0;
        while i < self.counters.len()
            invariant
                v == self.counter_view(),
                self.wf(),
                i <= self.counters@.len(),
                forall|j: int| 0 <= j < i ==> v[j].0 != name@,
            decreases self.counters@.len() - i,
        {
            if same_text(self.counters[i].0.as_str(), name) {
                proof {
                    let w = choose|j: int| 0 <= j < v.len() && v[j].0 == name@;
                    assert(v[i as int].0 == name@);
                    assert(w == i);
                }
                return Some(i);
            }
            i = i + 1;
        }
        None
    }

    fn find_histogram(&self, name: &str) -> (r: Option<usize>)
        requires
            self.wf(),
        ensures
            match r {
                Some(i) => named_index(self.histogram_view(), name@) == Some(i as int) && i
                    < self.histograms@.len(),
                None => named_index(self.histogram_view(), name@) is None,
            },
    {
        let ghost v = self.histogram_view();
        let mut i: usize = 0;
        while i < self.histograms.len()
            invariant
                v == self.histogram_view(),
                self.wf(),
                i <= self.histograms@.len(),
                forall|j: int| 0 <= j < i ==> v[j].0 != name@,
            decreases self.histograms@.len() - i,
        {
            if same_text(self.histograms[i].0.as_str(), name) {
                proof {
                    let w = choose|j: int| 0 <= j < v.len() && v[j].0 == name@;
                    assert(v[i as int].0 == name@);
                    assert(w == i);
                }
                return Some(i);
            }
            i = i + 1;
        }
        None
    }

    /// The value of the named counter, if it was ever incremented.
    pub fn counter(&self, name: &str) -> (r: Option<u64>)
        requires
            self.wf(),
        ensures
            r == named_value(self.counter_view(), name@),
    {
        match self.find_counter(name) {
            Some(i) => Some(self.counters[i].1),
            None => None,
        }
    }

    /// Adds `value` to the named counter, which starts at 0.
    pub fn increment_counter(&mut self, name: &str, value: u64)
        requires
            old(self).wf(),
            (match named_value(old(self).counter_view(), name@) {
                Some(c) => c,
                None => 0,
            }) + value <= u64::MAX,
        ensures
            final(self).wf(),
            final(self).counter_view() == with_named(
                old(self).counter_view(),
                name@,
                ((match named_value(old(self).counter_view(), name@) {
                    Some(c) => c,
                    None => 0,
                }) + value) as u64,
            ),
            final(self).histogram_view() == old(self).histogram_view(),
    {
        let ghost v0 = self.counter_view();
        let ghost h0 = self.histogram_view();
        match self.find_counter(name) {
            Some(i) => {
                let current = self.counters[i].1;
                self.counters.set(i, (name.to_string(), current + value));
                proof {
                    assert(self.counter_view() =~= v0.update(i as int, (name@, (current + value) as u64)));
                }
            },
            None => {
                self.counters.push((name.to_string(), value));
                proof {
                    assert(self.counter_view() =~= v0.push((name@, value)));
                    assert forall|a: int| 0 <= a < v0.len() implies v0[a].0 != name@ by {
                        if v0[a].0 == name@ {
                            assert(exists|j: int| 0 <= j < v0.len() && v0[j].0 == name@);
                        }
                    }
                }
            },
        }
        assert(self.histogram_view() =~= h0);
    }

    /// Adds a latency to the named histogram.
    pub fn record_histogram(&mut self, name: &str, nanos: u128)
        requires
            old(self).wf(),
            nanos <= MAX_DURATION_NANOS,
        ensures
            final(self).wf(),
            final(self).histogram_view() == with_named(
                old(self).histogram_view(),
                name@,
                match named_value(old(self).histogram_view(), name@) {
                    Some(s) => s.push(nanos),
                    None => seq![nanos],
                },
            ),
            final(self).counter_view() == old(self).counter_view(),
    {
        let ghost v0 = self.histogram_view();
        let ghost c0 = self.counter_view();
        match self.find_histogram(name) {
            Some(i) => {
                let (n, mut values) = self.histograms.remove(i);
                let ghost before = values@;
                values.push(nanos);
                self.histograms.insert(i, (n, values));
                proof {
                    assert(before == v0[i as int].1);
                    assert(self.histogram_view() =~= v0.update(i as int, (name@, before.push(nanos))));
                    assert forall|a: int, j: int|
                        0 <= a < self.histogram_view().len() && 0 <= j < self.histogram_view()[a].1.len()
                            implies #[trigger] self.histogram_view()[a].1[j] <= MAX_DURATION_NANOS by {
                        if a != i {
                            assert(self.histogram_view()[a] == v0[a]);
                        } else if j < before.len() {
                            assert(self.histogram_view()[a].1[j] == v0[a].1[j]);
                        }
                    }
                }
            },
            None => {
                let mut values: Vec<u128> = Vec::new();
                values.push(nanos);
                self.histograms.push((name.to_string(), values));
                proof {
                    assert(self.histogram_view() =~= v0.push((name@, seq![nanos])));
                    assert forall|a: int| 0 <= a < v0.len() implies v0[a].0 != name@ by {
                        if v0[a].0 == name@ {
                            assert(exists|j: int| 0 <= j < v0.len() && v0[j].0 == name@);
                        }
                    }
                    assert forall|a: int, j: int|
                        0 <= a < self.histogram_view().len() && 0 <= j < self.histogram_view()[a].1.len()
                            implies #[trigger] self.histogram_view()[a].1[j] <= MAX_DURATION_NANOS by {
                        if a < v0.len() {
                            assert(self.histogram_view()[a] == v0[a]);
                        }
                    }
                }
            },
        }
        assert(self.counter_view() =~= c0);
    }

    /// Whether every histogram can be summarized.
    pub fn can_summarize(&self) -> (b: bool)
        requires
            self.wf(),
        ensures
            b == self.all_summarizable(),
    {
        let ghost v = self.histogram_view();
        let mut i: usize = 0;
        while i < self.histograms.len()
            invariant
                v == self.histogram_view(),
                i <= v.len(),
                forall|j: int| 0 <= j < i ==> summarizable(#[trigger] v[j].1),
            decreases v.len() - i,
        {
            assert(v[i as int].1 == self.histograms@[i as int].1@);
            if !is_summarizable(&self.histograms[i].1) {
                return false;
            }
            i = i + 1;
        }
        true
    }

    /// The summary of the monitor: how long it has run, its counters, and
    /// the summary of each histogram that has latencies, in order.
    pub fn get_performance_summary(&self) -> (r: PerformanceSummary)
        requires
            self.wf(),
            self.all_summarizable(),
        ensures
            r.uptime_nanos <= MAX_DURATION_NANOS,
            counter_pairs(r.counters@) == self.counter_view(),
            summary_pairs(r.histogram_stats@) == histogram_summaries(self.histogram_view()),
    {
        broadcast use vstd::seq_lib::group_seq_properties;

        let uptime_nanos = elapsed_nanos(&self.start_time);
        let ghost cv = self.counter_view();
        let mut counters: Vec<(String, u64)> = Vec::new();
        let mut i: usize = 0;
        while i < self.counters.len()
            invariant
                cv == self.counter_view(),
                i <= self.counters@.len(),
                counter_pairs(counters@) == cv.take(i as int),
            decreases self.counters@.len() - i,
        {
            let entry = &self.counters[i];
            let ghost prev = counters@;
            let name = entry.0.clone();
            counters.push((name, entry.1));
            proof {
                assert(cv[i as int] == (entry.0@, entry.1));
                assert(counters@ == prev.push((name, entry.1)));
                assert(cv.len() == self.counters@.len());
                assert(counter_pairs(prev).len() == prev.len());
                assert(prev.len() == i);
                let mapped = counter_pairs(counters@);
                assert(mapped.len() == i + 1);
                assert forall|k: int| 0 <= k < i + 1 implies mapped[k] == cv.take(i + 1)[k] by {
                    if k < i {
                        assert(counters@[k] == prev[k]);
                        assert(counter_pairs(prev)[k] == cv.take(i as int)[k]);
                    }
                }
                assert(mapped =~= cv.take(i + 1));
            }
            i = i + 1;
        }
        assert(cv.take(self.counters@.len() as int) =~= cv);
        let ghost hv = self.histogram_view();
        let mut stats: Vec<(String, HistogramStats)> = Vec::new();
        let mut j: usize = 0;
        while j < self.histograms.len()
            invariant
                hv == self.histogram_view(),
                self.wf(),
                self.all_summarizable(),
                j <= hv.len(),
                summary_pairs(stats@) == histogram_summaries(hv.take(j as int)),
            decreases hv.len() - j,
        {
            let entry = &self.histograms[j];
            let ghost e = hv[j as int];
            assert(hv.take(j + 1) =~= hv.take(j as int).push(e));
            proof {
                hv.take(j as int).lemma_filter_push(e, |x: (Seq<char>, Seq<u128>)| x.1.len() > 0);
                assert(summarizable(hv[j as int].1));
                assert forall|k: int| 0 <= k < entry.1@.len() implies entry.1@[k] <= MAX_DURATION_NANOS by {
                    assert(hv[j as int].1[k] <= MAX_DURATION_NANOS);
                }
            }
            let ghost prev = stats@;
            assert(e == (entry.0@, entry.1@));
            match summarize_histogram(&entry.1) {
                Some(h) => {
                    let name = entry.0.clone();
                    stats.push((name, h));
                    proof {
                        assert(stats@ == prev.push((name, h)));
                        assert(summary_pairs(stats@) =~= summary_pairs(prev).push((e.0, histogram_summary(e.1))));
                    }
                },
                None => {},
            }
            assert(summary_pairs(stats@) =~= histogram_summaries(hv.take(j + 1)));
            j = j + 1;
        }
        assert(hv.take(hv.len() as int) =~= hv);
        PerformanceSummary { uptime_nanos, counters, histogram_stats: stats }
    }

    /// The 95th percentile in whole milliseconds of a histogram that has
    /// latencies.
    fn p95_of(&self, name: &str) -> (r: Option<u128>)
        requires
            self.wf(),
            self.all_summarizable(),
        ensures
            r == p95_millis(self.histogram_view(), name@),
    {
        match self.find_histogram(name) {
            Some(i) => {
                let values = &self.histograms[i].1;
                let ghost hv = self.histogram_view();
                proof {
                    assert(hv[i as int].1 == values@);
                    assert(summarizable(hv[i as int].1));
                    assert forall|k: int| 0 <= k < values@.len() implies values@[k] <= MAX_DURATION_NANOS by {
                        assert(hv[i as int].1[k] <= MAX_DURATION_NANOS);
                    }
                }
                match summarize_histogram(values) {
                    Some(h) => Some(h.p95_nanos / 1_000_000),
                    None => None,
                }
            },
            None => None,
        }
    }

    /// The bottlenecks found from the 95th percentile latencies of agent
    /// spawning and message routing, and from the description of memory
    /// usage where it is above one gigabyte.
    pub fn identify_bottlenecks(&self, memory_usage_description: Option<String>) -> (r: Vec<
        PerformanceBottleneck,
    >)
        requires
            self.wf(),
            self.all_summarizable(),
        ensures
            r@.map_values(|b: PerformanceBottleneck| bottleneck_view(b)) == expected_bottlenecks(
                p95_millis(self.histogram_view(), spawn_histogram_name()),
                p95_millis(self.histogram_view(), routing_histogram_name()),
                match memory_usage_description {
                    Some(d) => Some(d@),
                    None => None,
                },
            ),
    {
        let spawn = self.p95_of("caxton_agent_spawn_duration_seconds");
        let routing = self.p95_of("caxton_message_routing_duration_seconds");
        crate::performance::identify_bottlenecks(spawn, routing, memory_usage_description)
    }

    /// The optimization recommendations for the bottlenecks found.
    pub fn generate_optimization_recommendations(&self, memory_usage_description: Option<String>) -> (r:
        Vec<OptimizationRecommendation>)
        requires
            self.wf(),
            self.all_summarizable(),
        ensures
            r@.map_values(|o: OptimizationRecommendation| o.title@) == recommendation_titles(
                expected_bottlenecks(
                    p95_millis(self.histogram_view(), spawn_histogram_name()),
                    p95_millis(self.histogram_view(), routing_histogram_name()),
                    match memory_usage_description {
                        Some(d) => Some(d@),
                        None => None,
                    },
                ).len(),
            ),
            r@.map_values(|o: OptimizationRecommendation| recommendation_view(o)) == expected_recommendations(
                expected_bottlenecks(
                    p95_millis(self.histogram_view(), spawn_histogram_name()),
                    p95_millis(self.histogram_view(), routing_histogram_name()),
                    match memory_usage_description {
                        Some(d) => Some(d@),
                        None => None,
                    },
                ).len(),
            ),
    {
        let bottlenecks = self.identify_bottlenecks(memory_usage_description);
        crate::performance::generate_optimization_recommendations(bottlenecks.len())
    }
}

} // verus!
