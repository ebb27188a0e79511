//! Performance analysis: bottlenecks found from latency percentiles,
//! optimization recommendations, memory statistics and findings, and a
//! bounded pool of reusable objects.

pub mod message_routing;
pub mod monitor;
pub mod observability;
pub mod instance_pool;
pub mod memory_monitor;

use vstd::prelude::*;
use crate::config::u128_text;
use crate::text::decimal_text;

verus! {

broadcast use vstd::string::group_string_axioms;

/// How severe a bottleneck is.
#[derive(Debug, Clone, Copy, PartialEq, Eq, Structural)]
pub enum BottleneckSeverity {
    Low,
    Medium,
    High,
    Critical,
}

/// A performance bottleneck with the actions recommended against it.
#[derive(Debug, Clone)]
pub struct PerformanceBottleneck {
    pub area: String,
    pub description: String,
    pub severity: BottleneckSeverity,
    pub recommended_actions: Vec<String>,
}

/// Largest acceptable 95th percentile of agent spawn latency, in milliseconds.
pub const SPAWN_P95_TARGET_MS: u128 = 100;

/// Largest acceptable 95th percentile of message routing latency, in milliseconds.
pub const ROUTING_P95_TARGET_MS: u128 = 10;

/// What a bottleneck is reduced to in contracts: its area, description,
/// severity and actions as texts.
pub open spec fn bottleneck_view(b: PerformanceBottleneck) -> (Seq<char>, Seq<char>, BottleneckSeverity, Seq<Seq<char>>) {
    (b.area@, b.description@, b.severity, b.recommended_actions@.map_values(|s: String| s@))
}

/// The bottleneck of slow agent spawning.
pub open spec fn spawn_bottleneck(p95_ms: u128) -> (Seq<char>, Seq<char>, BottleneckSeverity, Seq<Seq<char>>) {
    (
        "agent_spawn"@,
        "Agent spawn P95 latency is "@ + decimal_text(p95_ms as nat) + "ms (target: <100ms)"@,
        BottleneckSeverity::High,
        seq![
            "Consider pre-warming WASM instances"@,
            "Optimize agent initialization code"@,
            "Implement agent instance pooling"@,
        ],
    )
}

/// The bottleneck of slow message routing.
pub open spec fn routing_bottleneck(p95_ms: u128) -> (Seq<char>, Seq<char>, BottleneckSeverity, Seq<Seq<char>>) {
    (
        "message_routing"@,
        "Message routing P95 latency is "@ + decimal_text(p95_ms as nat) + "ms (target: <10ms)"@,
        BottleneckSeverity::Medium,
        seq!["Implement message batching"@, "Optimize serialization format"@, "Consider async message routing"@],
    )
}

/// The bottleneck of high memory usage, with its description.
pub open spec fn memory_bottleneck(description: Seq<char>) -> (Seq<char>, Seq<char>, BottleneckSeverity, Seq<Seq<char>>) {
    (
        "memory_usage"@,
        description,
        BottleneckSeverity::Low,
        seq!["Profile memory allocations"@, "Implement object pooling"@, "Review agent lifecycle management"@],
    )
}

/// The bottlenecks found, in order: agent spawning whose 95th percentile
/// latency is above its target, message routing likewise, and memory usage
/// where a description of it is given.
pub open spec fn expected_bottlenecks(
    spawn_p95_ms: Option<u128>,
    routing_p95_ms: Option<u128>,
    memory: Option<Seq<char>>,
) -> Seq<(Seq<char>, Seq<char>, BottleneckSeverity, Seq<Seq<char>>)> {
    let a = match spawn_p95_ms {
        Some(p) if p > SPAWN_P95_TARGET_MS => seq![spawn_bottleneck(p)],
        _ => Seq::empty(),
    };
    let b = match routing_p95_ms {
        Some(p) if p > ROUTING_P95_TARGET_MS => seq![routing_bottleneck(p)],
        _ => Seq::empty(),
    };
    let c = match memory {
        Some(d) => seq![memory_bottleneck(d)],
        None => Seq::empty(),
    };
    a + b + c
}

/// A list of texts.
fn texts3(a: &str, b: &str, c: &str) -> (v: Vec<String>)
    ensures
        v@.map_values(|s: String| s@) == seq![a@, b@, c@],
{
    let mut v: Vec<String> = Vec::new();
    v.push(a.to_string());
    v.push(b.to_string());
    v.push(c.to_string());
    assert(v@.map_values(|s: String| s@) =~= seq![a@, b@, c@]);
    v
}

/// Identifies the bottlenecks from the 95th percentile latencies of agent
/// spawning and message routing, in milliseconds where they were measured,
/// and a description of the memory usage where it is above one gigabyte.
pub fn identify_bottlenecks(
    spawn_p95_ms: Option<u128>,
    routing_p95_ms: Option<u128>,
    memory_usage_description: Option<String>,
) -> (r: Vec<PerformanceBottleneck>)
    ensures
        r@.map_values(|b: PerformanceBottleneck| bottleneck_view(b)) == expected_bottlenecks(
            spawn_p95_ms,
            routing_p95_ms,
            match memory_usage_description {
                Some(d) => Some(d@),
                None => None,
            },
        ),
{
    let ghost memory = match &memory_usage_description {
        Some(d) => Some(d@),
        None => None::<Seq<char>>,
    };
    let mut r: Vec<PerformanceBottleneck> = Vec::new();
    let ghost v0 = r@.map_values(|b: PerformanceBottleneck| bottleneck_view(b));
    match spawn_p95_ms {
        Some(p) => {
            if p > SPAWN_P95_TARGET_MS {
                let description = String::from_str("Agent spawn P95 latency is ").concat(
                    u128_text(p).as_str(),
                ).concat("ms (target: <100ms)");
                let b = PerformanceBottleneck {
                    area: String::from_str("agent_spawn"),
                    description,
                    severity: BottleneckSeverity::High,
                    recommended_actions: texts3(
                        "Consider pre-warming WASM instances",
                        "Optimize agent initialization code",
                        "Implement agent instance pooling",
                    ),
                };
                r.push(b);
            }
        },
        None => {},
    }
    let ghost va = r@.map_values(|b: PerformanceBottleneck| bottleneck_view(b));
    let ghost ea = match spawn_p95_ms {
        Some(p) if p > SPAWN_P95_TARGET_MS => seq![spawn_bottleneck(p)],
        _ => Seq::empty(),
    };
    assert(va =~= ea);
    match routing_p95_ms {
        Some(p) => {
            if p > ROUTING_P95_TARGET_MS {
                let description = String::from_str("Message routing P95 latency is ").concat(
                    u128_text(p).as_str(),
                ).concat("ms (target: <10ms)");
                let b = PerformanceBottleneck {
                    area: String::from_str("message_routing"),
                    description,
                    severity: BottleneckSeverity::Medium,
                    recommended_actions: texts3(
                        "Implement message batching",
                        "Optimize serialization format",
                        "Consider async message routing",
                    ),
                };
                let ghost before = r@;
                r.push(b);
                assert(r@.map_values(|b: PerformanceBottleneck| bottleneck_view(b)) =~= va.push(
                    routing_bottleneck(p),
                ));
            }
        },
        None => {},
    }
    let ghost vb = r@.map_values(|b: PerformanceBottleneck| bottleneck_view(b));
    let ghost eb = match routing_p95_ms {
        Some(p) if p > ROUTING_P95_TARGET_MS => seq![routing_bottleneck(p)],
        _ => Seq::empty(),
    };
    assert(vb =~= ea + eb);
    match memory_usage_description {
        Some(d) => {
            let ghost dv = d@;
            let b = PerformanceBottleneck {
                area: String::from_str("memory_usage"),
                description: d,
                severity: BottleneckSeverity::Low,
                recommended_actions: texts3(
                    "Profile memory allocations",
                    "Implement object pooling",
                    "Review agent lifecycle management",
                ),
            };
            r.push(b);
            assert(r@.map_values(|b: PerformanceBottleneck| bottleneck_view(b)) =~= vb.push(
                memory_bottleneck(dv),
            ));
        },
        None => {},
    }
    let ghost ec = match memory {
        Some(d) => seq![memory_bottleneck(d)],
        None => Seq::empty(),
    };
    assert(r@.map_values(|b: PerformanceBottleneck| bottleneck_view(b)) =~= ea + eb + ec);
    r
}

/// Expected impact of an optimization.
#[derive(Debug, Clone, Copy, PartialEq, Eq, Structural)]
pub enum OptimizationImpact {
    Low,
    Medium,
    High,
}

/// Expected effort of an optimization.
#[derive(Debug, Clone, Copy, PartialEq, Eq, Structural)]
pub enum OptimizationEffort {
    Low,
    Medium,
    High,
}

/// An optimization recommendation.
#[derive(Debug, Clone)]
pub struct OptimizationRecommendation {
    pub title: String,
    pub description: String,
    pub impact: OptimizationImpact,
    pub effort: OptimizationEffort,
    pub implementation_notes: Vec<String>,
}

/// The titles of the recommendations for a number of bottlenecks: three
/// standing ones, and a fourth saying that all is well where there are none.
pub open spec fn recommendation_titles(bottleneck_count: nat) -> Seq<Seq<char>> {
    let standing = seq![
        "Implement WASM Instance Pooling"@,
        "Optimize FIPA Message Serialization"@,
        "Implement Observability Event Batching"@,
    ];
    if bottleneck_count == 0 {
        standing.push("Performance Monitoring is Healthy"@)
    } else {
        standing
    }
}

/// What a recommendation is reduced to in contracts: its title,
/// description, impact, effort and implementation notes as texts.
pub open spec fn recommendation_view(o: OptimizationRecommendation) -> (
    Seq<char>,
    Seq<char>,
    OptimizationImpact,
    OptimizationEffort,
    Seq<Seq<char>>,
) {
    (o.title@, o.description@, o.impact, o.effort, o.implementation_notes@.map_values(|s: String| s@))
}

/// The recommendations for a number of bottlenecks: three standing ones,
/// and a fourth saying that all is well where there are none.
pub open spec fn expected_recommendations(bottleneck_count: nat) -> Seq<
    (Seq<char>, Seq<char>, OptimizationImpact, OptimizationEffort, Seq<Seq<char>>),
> {
    let standing = seq![
        (
            "Implement WASM Instance Pooling"@,
            "Pre-instantiate and pool WASM modules to reduce agent spawn latency"@,
            OptimizationImpact::High,
            OptimizationEffort::Medium,
            seq![
                "Use wasmtime's pooling allocator"@,
                "Configure pool size based on expected agent count"@,
                "Implement warm-up strategy for critical agent types"@,
            ],
        ),
        (
            "Optimize FIPA Message Serialization"@,
            "Use MessagePack instead of JSON for FIPA message serialization"@,
            OptimizationImpact::Medium,
            OptimizationEffort::Low,
            seq![
                "Switch from serde_json to rmp-serde for message payloads"@,
                "Maintain JSON support for debugging/external APIs"@,
                "Implement compression for large message payloads"@,
            ],
        ),
        (
            "Implement Observability Event Batching"@,
            "Batch observability events to reduce I/O overhead"@,
            OptimizationImpact::Medium,
            OptimizationEffort::Medium,
            seq![
                "Buffer events for 100ms or 1000 events, whichever comes first"@,
                "Use dedicated background task for event flushing"@,
                "Implement backpressure handling for high event rates"@,
            ],
        ),
    ];
    if bottleneck_count == 0 {
        standing.push(
            (
                "Performance Monitoring is Healthy"@,
                "All key performance metrics are within acceptable ranges"@,
                OptimizationImpact::Low,
                OptimizationEffort::Low,
                seq![
                    "Continue monitoring for performance regressions"@,
                    "Consider setting up automated performance alerts"@,
                ],
            ),
        )
    } else {
        standing
    }
}

/// Recommendations for the given number of bottlenecks.
pub fn generate_optimization_recommendations(bottleneck_count: usize) -> (r: Vec<OptimizationRecommendation>)
    ensures
        r@.map_values(|o: OptimizationRecommendation| recommendation_view(o)) == expected_recommendations(
            bottleneck_count as nat,
        ),
        r@.map_values(|o: OptimizationRecommendation| o.title@) == recommendation_titles(
            bottleneck_count as nat,
        ),
        r@.len() >= 3,
        r@[0].impact == OptimizationImpact::High && r@[0].effort == OptimizationEffort::Medium,
        r@[1].impact == OptimizationImpact::Medium && r@[1].effort == OptimizationEffort::Low,
        r@[2].impact == OptimizationImpact::Medium && r@[2].effort == OptimizationEffort::Medium,
        bottleneck_count == 0 ==> r@[3].impact == OptimizationImpact::Low && r@[3].effort
            == OptimizationEffort::Low,
{
    let mut r: Vec<OptimizationRecommendation> = Vec::new();
    r.push(
        OptimizationRecommendation {
            title: String::from_str("Implement WASM Instance Pooling"),
            description: String::from_str(
                "Pre-instantiate and pool WASM modules to reduce agent spawn latency",
            ),
            impact: OptimizationImpact::High,
            effort: OptimizationEffort::Medium,
            implementation_notes: texts3(
                "Use wasmtime's pooling allocator",
                "Configure pool size based on expected agent count",
                "Implement warm-up strategy for critical agent types",
            ),
        },
    );
    r.push(
        OptimizationRecommendation {
            title: String::from_str("Optimize FIPA Message Serialization"),
            description: String::from_str("Use MessagePack instead of JSON for FIPA message serialization"),
            impact: OptimizationImpact::Medium,
            effort: OptimizationEffort::Low,
            implementation_notes: texts3(
                "Switch from serde_json to rmp-serde for message payloads",
                "Maintain JSON support for debugging/external APIs",
                "Implement compression for large message payloads",
            ),
        },
    );
    r.push(
        OptimizationRecommendation {
            title: String::from_str("Implement Observability Event Batching"),
            description: String::from_str("Batch observability events to reduce I/O overhead"),
            impact: OptimizationImpact::Medium,
            effort: OptimizationEffort::Medium,
            implementation_notes: texts3(
                "Buffer events for 100ms or 1000 events, whichever comes first",
                "Use dedicated background task for event flushing",
                "Implement backpressure handling for high event rates",
            ),
        },
    );
    if bottleneck_count == 0 {
        let mut notes: Vec<String> = Vec::new();
        notes.push(String::from_str("Continue monitoring for performance regressions"));
        notes.push(String::from_str("Consider setting up automated performance alerts"));
        r.push(
            OptimizationRecommendation {
                title: String::from_str("Performance Monitoring is Healthy"),
                description: String::from_str("All key performance metrics are within acceptable ranges"),
                impact: OptimizationImpact::Low,
                effort: OptimizationEffort::Low,
                implementation_notes: notes,
            },
        );
    }
    assert(r@.map_values(|o: OptimizationRecommendation| o.title@) =~= recommendation_titles(
        bottleneck_count as nat,
    ));
    proof {
        if bottleneck_count == 0 {
            let notes = r@[3].implementation_notes@.map_values(|s: String| s@);
            assert(notes =~= seq![
                "Continue monitoring for performance regressions"@,
                "Consider setting up automated performance alerts"@,
            ]);
        }
    }
    assert(r@.map_values(|o: OptimizationRecommendation| recommendation_view(o)) =~= expected_recommendations(
        bottleneck_count as nat,
    ));
    r
}

/// Statistics of memory allocation.
#[derive(Debug, Clone, Copy, PartialEq, Eq, Structural)]
pub struct MemoryStats {
    pub total_allocated: u64,
    pub total_deallocated: u64,
    pub current_usage: u64,
    pub peak_usage: u64,
    pub allocation_count: u64,
    pub deallocation_count: u64,
}

/// Whether statistics suggest a leak: many allocations, and current usage
/// above nine tenths of the peak.
pub open spec fn leak_suspected(s: MemoryStats) -> bool {
    s.allocation_count > 1000 && 10 * (s.current_usage as int) > 9 * (s.peak_usage as int)
}

impl MemoryStats {
    /// Whether there might be a memory leak: more than a thousand
    /// allocations, and current usage above nine tenths of the peak.
    pub fn potential_leak(&self) -> (b: bool)
        ensures
            b == leak_suspected(*self),
    {
        self.allocation_count > 1000 && 10 * (self.current_usage as u128) > 9 * (
        self.peak_usage as u128)
    }
}

/// Running allocation counters; every counter wraps at `u64::MAX`.
pub struct TrackedAllocator {
    stats: MemoryStats,
}

/// A value plus another, wrapping at `u64::MAX`.
pub open spec fn wrapping_sum(a: u64, b: u64) -> u64 {
    if a + b > u64::MAX { (a + b - u64::MAX - 1) as u64 } else { (a + b) as u64 }
}

/// A value minus another, wrapping at zero.
pub open spec fn wrapping_difference(a: u64, b: u64) -> u64 {
    if a >= b { (a - b) as u64 } else { (a - b + u64::MAX + 1) as u64 }
}

impl TrackedAllocator {
    /// The current counters.
    pub closed spec fn counters(&self) -> MemoryStats {
        self.stats
    }

    /// Counters at zero.
    pub fn new() -> (t: Self)
        ensures
            t.counters() == (MemoryStats {
                total_allocated: 0,
                total_deallocated: 0,
                current_usage: 0,
                peak_usage: 0,
                allocation_count: 0,
                deallocation_count: 0,
            }),
    {
        TrackedAllocator {
            stats: MemoryStats {
                total_allocated: 0,
                total_deallocated: 0,
                current_usage: 0,
                peak_usage: 0,
                allocation_count: 0,
                deallocation_count: 0,
            },
        }
    }

    /// Counts an allocation of `size` bytes; the peak follows the current usage up.
    pub fn record_allocation(&mut self, size: u64)
        ensures
            ({
                let s = old(self).counters();
                let current = wrapping_sum(s.current_usage, size);
                final(self).counters() == (MemoryStats {
                    total_allocated: wrapping_sum(s.total_allocated, size),
                    allocation_count: wrapping_sum(s.allocation_count, 1),
                    current_usage: current,
                    peak_usage: if current > s.peak_usage { current } else { s.peak_usage },
                    ..s
                })
            }),
    {
        self.stats.total_allocated = self.stats.total_allocated.wrapping_add(size);
        self.stats.allocation_count = self.stats.allocation_count.wrapping_add(1);
        let current = self.stats.current_usage.wrapping_add(size);
        self.stats.current_usage = current;
        if current > self.stats.peak_usage {
            self.stats.peak_usage = current;
        }
    }

    /// Counts a release of `size` bytes.
    pub fn record_deallocation(&mut self, size: u64)
        ensures
            ({
                let s = old(self).counters();
                final(self).counters() == (MemoryStats {
                    total_deallocated: wrapping_sum(s.total_deallocated, size),
                    deallocation_count: wrapping_sum(s.deallocation_count, 1),
                    current_usage: wrapping_difference(s.current_usage, size),
                    ..s
                })
            }),
    {
        self.stats.total_deallocated = self.stats.total_deallocated.wrapping_add(size);
        self.stats.deallocation_count = self.stats.deallocation_count.wrapping_add(1);
        self.stats.current_usage = self.stats.current_usage.wrapping_sub(size);
    }

    /// The current counters.
    pub fn get_stats(&self) -> (s: MemoryStats)
        ensures
            s == self.counters(),
    {
        self.stats
    }

    /// Sets every counter back to zero.
    pub fn reset_stats(&mut self)
        ensures
            final(self).counters() == (MemoryStats {
                total_allocated: 0,
                total_deallocated: 0,
                current_usage: 0,
                peak_usage: 0,
                allocation_count: 0,
                deallocation_count: 0,
            }),
    {
        self.stats = MemoryStats {
            total_allocated: 0,
            total_deallocated: 0,
            current_usage: 0,
            peak_usage: 0,
            allocation_count: 0,
            deallocation_count: 0,
        };
    }
}

/// Allocation figures of one category.
#[derive(Debug, Clone, Copy, Default, PartialEq, Eq, Structural)]
pub struct CategoryStats {
    pub allocated_bytes: u64,
    pub allocation_count: u64,
}

/// What the memory statistics point at.
#[derive(Debug, Clone)]
pub enum MemoryFinding {
    /// Usage stays close to the peak after many allocations.
    PotentialLeak { current_usage: u64, peak_usage: u64 },
    /// More than a million allocations.
    HighAllocationFrequency { allocation_count: u64, total_allocated: u64 },
    /// The category with the most bytes has more than 100 MB.
    HighCategoryUsage { category: String, allocated_bytes: u64, allocation_count: u64 },
}

/// Index of a category with the most allocated bytes; the first of them.
pub open spec fn is_top_category(categories: Seq<(Seq<char>, CategoryStats)>, i: int) -> bool {
    &&& 0 <= i < categories.len()
    &&& forall|j: int| 0 <= j < categories.len() ==> #[trigger] categories[j].1.allocated_bytes
        <= categories[i].1.allocated_bytes
    &&& forall|j: int| 0 <= j < i ==> #[trigger] categories[j].1.allocated_bytes
        < categories[i].1.allocated_bytes
}

/// Whether `r` is what the memory statistics and the categories point at,
/// in order: a potential leak, a high allocation frequency, and a category
/// with the most bytes where it has more than 100 MB.
pub open spec fn memory_findings_of(
    stats: MemoryStats,
    categories: Seq<(String, CategoryStats)>,
    r: Seq<MemoryFinding>,
) -> bool {
    let cats = categories.map_values(|c: (String, CategoryStats)| (c.0@, c.1));
    let leak: int = if leak_suspected(stats) { 1 } else { 0 };
    let freq: int = if stats.allocation_count > 1_000_000 { 1 } else { 0 };
    let top: int = if exists|i: int| #[trigger] is_top_category(cats, i)
        && cats[i].1.allocated_bytes > 100_000_000 { 1 } else { 0 };
    &&& r.len() == leak + freq + top
    &&& leak_suspected(stats) ==> r[0] == MemoryFinding::PotentialLeak {
        current_usage: stats.current_usage,
        peak_usage: stats.peak_usage,
    }
    &&& stats.allocation_count > 1_000_000 ==> r[leak] == MemoryFinding::HighAllocationFrequency {
        allocation_count: stats.allocation_count,
        total_allocated: stats.total_allocated,
    }
    &&& top == 1 ==> (r[leak + freq] matches MemoryFinding::HighCategoryUsage { category, allocated_bytes, allocation_count }
        && exists|i: int| #[trigger] is_top_category(cats, i) && cats[i].0 == category@
        && cats[i].1.allocated_bytes == allocated_bytes && cats[i].1.allocation_count == allocation_count)
}

/// Finds what the memory statistics point at, in order: a potential leak,
/// a high allocation frequency, and a category with the most bytes where it
/// has more than 100 MB.
pub fn memory_findings(stats: MemoryStats, categories: &Vec<(String, CategoryStats)>) -> (r: Vec<
    MemoryFinding,
>)
    ensures
        memory_findings_of(stats, categories@, r@),
{
    let ghost cats = categories@.map_values(|c: (String, CategoryStats)| (c.0@, c.1));
    let mut r: Vec<MemoryFinding> = Vec::new();
    if stats.potential_leak() {
        r.push(MemoryFinding::PotentialLeak { current_usage: stats.current_usage, peak_usage: stats.peak_usage });
    }
    let ghost r1 = r@;
    if stats.allocation_count > 1_000_000 {
        r.push(
            MemoryFinding::HighAllocationFrequency {
                allocation_count: stats.allocation_count,
                total_allocated: stats.total_allocated,
            },
        );
    }
    let ghost r2 = r@;
    let n = categories.len();
    if n > 0 {
        let mut best: usize = 0;
        for i in 1..n
            invariant
                n == categories@.len(),
                cats == categories@.map_values(|c: (String, CategoryStats)| (c.0@, c.1)),
                best < i,
                forall|j: int| 0 <= j < i ==> #[trigger] cats[j].1.allocated_bytes
                    <= cats[best as int].1.allocated_bytes,
                forall|j: int| 0 <= j < best ==> #[trigger] cats[j].1.allocated_bytes
                    < cats[best as int].1.allocated_bytes,
        {
            if categories[i].1.allocated_bytes > categories[best].1.allocated_bytes {
                best = i;
            }
        }
        assert(is_top_category(cats, best as int));
        let (name, s) = &categories[best];
        if s.allocated_bytes > 100_000_000 {
            r.push(
                MemoryFinding::HighCategoryUsage {
                    category: name.clone(),
                    allocated_bytes: s.allocated_bytes,
                    allocation_count: s.allocation_count,
                },
            );
        }
        proof {
            if exists|i: int| #[trigger] is_top_category(cats, i) && cats[i].1.allocated_bytes > 100_000_000 {
                let i = choose|i: int| #[trigger] is_top_category(cats, i) && cats[i].1.allocated_bytes > 100_000_000;
                assert(cats[i].1.allocated_bytes == cats[best as int].1.allocated_bytes);
            }
        }
    }
    r
}

/// How urgent a memory recommendation is.
#[derive(Debug, Clone, Copy, PartialEq, Eq, Structural)]
pub enum OptimizationPriority {
    Low,
    Medium,
    High,
    Critical,
}

/// A memory optimization recommendation.
#[derive(Debug, Clone)]
pub struct MemoryOptimizationRecommendation {
    pub title: String,
    pub description: String,
    pub priority: OptimizationPriority,
    pub actions: Vec<String>,
}

/// The title, priority and actions recommended for a memory finding.
pub open spec fn finding_recommendation(f: MemoryFinding) -> (Seq<char>, OptimizationPriority, Seq<Seq<char>>) {
    match f {
        MemoryFinding::PotentialLeak { .. } => (
            "Potential Memory Leak Detected"@,
            OptimizationPriority::High,
            seq![
                "Profile memory allocations to identify leak sources"@,
                "Review object lifecycle management"@,
                "Consider implementing reference counting for shared objects"@,
            ],
        ),
        MemoryFinding::HighAllocationFrequency { .. } => (
            "High Allocation Frequency"@,
            OptimizationPriority::Medium,
            seq![
                "Implement object pooling for frequently allocated objects"@,
                "Use pre-allocated buffers where possible"@,
                "Consider using stack allocation for small objects"@,
            ],
        ),
        MemoryFinding::HighCategoryUsage { category, .. } => (
            "High Memory Usage in '"@ + category@ + "'"@,
            OptimizationPriority::Medium,
            seq![
                "Review memory usage patterns in '"@ + category@ + "'"@,
                "Consider using more efficient data structures"@,
                "Implement lazy loading where appropriate"@,
            ],
        ),
    }
}

/// The recommendation for a memory finding, with the given description of
/// the figures behind it.
pub fn recommendation_for(finding: &MemoryFinding, description: String) -> (r: MemoryOptimizationRecommendation)
    ensures
        (r.title@, r.priority, r.actions@.map_values(|s: String| s@)) == finding_recommendation(*finding),
        r.description@ == description@,
{
    match finding {
        MemoryFinding::PotentialLeak { .. } => MemoryOptimizationRecommendation {
            title: String::from_str("Potential Memory Leak Detected"),
            description,
            priority: OptimizationPriority::High,
            actions: texts3(
                "Profile memory allocations to identify leak sources",
                "Review object lifecycle management",
                "Consider implementing reference counting for shared objects",
            ),
        },
        MemoryFinding::HighAllocationFrequency { .. } => MemoryOptimizationRecommendation {
            title: String::from_str("High Allocation Frequency"),
            description,
            priority: OptimizationPriority::Medium,
            actions: texts3(
                "Implement object pooling for frequently allocated objects",
                "Use pre-allocated buffers where possible",
                "Consider using stack allocation for small objects",
            ),
        },
        MemoryFinding::HighCategoryUsage { category, .. } => {
            let title = String::from_str("High Memory Usage in '").concat(category.as_str()).concat("'");
            let review = String::from_str("Review memory usage patterns in '").concat(category.as_str()).concat(
                "'",
            );
            let actions = texts3(
                review.as_str(),
                "Consider using more efficient data structures",
                "Implement lazy loading where appropriate",
            );
            MemoryOptimizationRecommendation {
                title,
                description,
                priority: OptimizationPriority::Medium,
                actions,
            }
        },
    }
}

/// A bounded pool of reusable objects, with counts of objects made and reused.
pub struct MemoryPool<T> {
    pool: Vec<T>,
    max_size: usize,
    allocated_count: usize,
    reused_count: usize,
}

/// Statistics of a pool.
#[derive(Debug, Clone, Copy, PartialEq, Eq, Structural)]
pub struct PoolStats {
    pub pooled_items: usize,
    pub total_allocated: usize,
    pub total_reused: usize,
    pub max_size: usize,
}

impl<T> MemoryPool<T> {
    /// The pooled objects.
    pub closed spec fn items(&self) -> Seq<T> {
        self.pool@
    }

    /// The most objects the pool keeps.
    pub closed spec fn capacity(&self) -> usize {
        self.max_size
    }

    /// Objects made because the pool was empty (wrapping).
    pub closed spec fn made(&self) -> usize {
        self.allocated_count
    }

    /// Objects handed out again (wrapping).
    pub closed spec fn reused(&self) -> usize {
        self.reused_count
    }

    /// An empty pool that keeps at most `max_size` objects.
    pub fn new(max_size: usize) -> (p: Self)
        ensures
            p.items() == Seq::<T>::empty(),
            p.capacity() == max_size,
            p.made() == 0,
            p.reused() == 0,
    {
        MemoryPool { pool: Vec::new(), max_size, allocated_count: 0, reused_count: 0 }
    }

    /// Takes the most recently returned object, counting it as reused;
    /// `None` where the pool is empty, counting an object to be made instead.
    pub fn take(&mut self) -> (r: Option<T>)
        ensures
            final(self).capacity() == old(self).capacity(),
            old(self).items().len() > 0 ==> r == Some(old(self).items().last())
                && final(self).items() == old(self).items().drop_last() && final(self).reused() == (if old(self).reused() == usize::MAX { 0 } else { old(self).reused() + 1 }) && final(self).made() == old(self).made(),
            old(self).items().len() == 0 ==> r is None && final(self).items() == old(self).items()
                && final(self).made() == (if old(self).made() == usize::MAX { 0 } else { old(self).made() + 1 })
                && final(self).reused() == old(self).reused(),
    {
        match self.pool.pop() {
            Some(item) => {
                self.reused_count = self.reused_count.wrapping_add(1);
                Some(item)
            },
            None => {
                self.allocated_count = self.allocated_count.wrapping_add(1);
                None
            },
        }
    }

    /// Takes the most recently returned object, counting it as reused, or
    /// makes a new one with `create` where the pool is empty.
    pub fn get<F: Fn() -> T>(&mut self, create: F) -> (r: T)
        requires
            create.requires(()),
        ensures
            final(self).capacity() == old(self).capacity(),
            old(self).items().len() > 0 ==> r == old(self).items().last()
                && final(self).items() == old(self).items().drop_last() && final(self).reused() == (if old(self).reused() == usize::MAX { 0 } else { old(self).reused() + 1 }) && final(self).made() == old(self).made(),
            old(self).items().len() == 0 ==> create.ensures((), r) && final(self).items() == old(self).items()
                && final(self).made() == (if old(self).made() == usize::MAX { 0 } else { old(self).made() + 1 })
                && final(self).reused() == old(self).reused(),
    {
        match self.take() {
            Some(item) => item,
            None => create(),
        }
    }

    /// Returns an object; it is kept where the pool is not full, else dropped.
    pub fn return_item(&mut self, item: T)
        ensures
            final(self).capacity() == old(self).capacity(),
            final(self).made() == old(self).made(),
            final(self).reused() == old(self).reused(),
            old(self).items().len() < old(self).capacity() ==> final(self).items() == old(self).items().push(item),
            old(self).items().len() >= old(self).capacity() ==> final(self).items() == old(self).items(),
    {
        if self.pool.len() < self.max_size {
            self.pool.push(item);
        }
    }

    /// Statistics of the pool.
    pub fn get_stats(&self) -> (s: PoolStats)
        ensures
            s.pooled_items == self.items().len(),
            s.total_allocated == self.made(),
            s.total_reused == self.reused(),
            s.max_size == self.capacity(),
    {
        PoolStats {
            pooled_items: self.pool.len(),
            total_allocated: self.allocated_count,
            total_reused: self.reused_count,
            max_size: self.max_size,
        }
    }
}

} // verus!
