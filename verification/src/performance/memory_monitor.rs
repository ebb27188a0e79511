//! Memory use by category, the findings drawn from it, and the detection
//! of memory that keeps growing while little of it is released.

use vstd::prelude::*;
use crate::performance::monitor::{named_index, named_value, names_unique, with_named};
use crate::performance::{memory_findings, memory_findings_of, CategoryStats, MemoryFinding, MemoryStats};
use crate::sandbox::same_text;

verus! {

broadcast use vstd::string::group_string_axioms;

/// Settings of the memory monitor.
#[derive(Debug, Clone, Copy)]
pub struct MemoryMonitorConfig {
    /// How often the statistics are checked, in milliseconds.
    pub monitoring_interval_ms: u64,
    /// Most categories tracked.
    pub max_categories: usize,
}

impl Default for MemoryMonitorConfig {
    fn default() -> (c: Self)
        ensures
            c.monitoring_interval_ms == 30_000,
            c.max_categories == 100,
    {
        MemoryMonitorConfig { monitoring_interval_ms: 30_000, max_categories: 100 }
    }
}

/// Categories with their names as texts.
pub open spec fn category_pairs(v: Seq<(String, CategoryStats)>) -> Seq<(Seq<char>, CategoryStats)> {
    v.map_values(|e: (String, CategoryStats)| (e.0@, e.1))
}

/// Whether memory grew by more than a tenth since the previous check while
/// less than eight tenths of the allocated bytes were released. (The
/// comparisons are exact; in floating point they can differ at the bounds
/// for counts above 2^53.)
pub open spec fn leak_growing(previous: MemoryStats, current: MemoryStats) -> bool {
    &&& previous.current_usage > 0
    &&& 10 * (current.current_usage - previous.current_usage) > previous.current_usage
    &&& current.total_allocated > 0
    &&& 10 * (current.total_deallocated as int) < 8 * (current.total_allocated as int)
}

/// Remembers the last statistics and counts the warnings of a growing
/// leak.
#[derive(Debug, Clone, Copy)]
pub struct LeakDetector {
    pub previous: Option<MemoryStats>,
    pub leak_warnings: usize,
}

impl LeakDetector {
    /// No statistics seen, no warnings.
    pub fn new() -> (d: Self)
        ensures
            d.previous is None,
            d.leak_warnings == 0,
    {
        LeakDetector { previous: None, leak_warnings: 0 }
    }

    /// Compares the statistics with the previous ones and counts a warning
    /// (wrapping at `usize::MAX`) where memory keeps growing; gives whether
    /// it warned. The statistics are kept for the next check.
    pub fn check_for_leaks(&mut self, current: MemoryStats) -> (warned: bool)
        ensures
            warned == (old(self).previous matches Some(p) && leak_growing(p, current)),
            final(self).previous == Some(current),
            final(self).leak_warnings == if warned {
                if old(self).leak_warnings == usize::MAX {
                    0
                } else {
                    (old(self).leak_warnings + 1) as usize
                }
            } else {
                old(self).leak_warnings
            },
    {
        let warned = match self.previous {
            Some(p) => {
                p.current_usage > 0 && current.current_usage > p.current_usage && 10 * ((
                current.current_usage - p.current_usage) as u128) > p.current_usage as u128
                    && current.total_allocated > 0 && 10 * (current.total_deallocated as u128) < 8 * (
                current.total_allocated as u128)
            },
            None => false,
        };
        if warned {
            self.leak_warnings = self.leak_warnings.wrapping_add(1);
        }
        self.previous = Some(current);
        warned
    }
}

/// Memory use by category, with a leak detector.
#[derive(Debug)]
pub struct MemoryMonitor {
    categories: Vec<(String, CategoryStats)>,
    leak_detector: LeakDetector,
    config: MemoryMonitorConfig,
}

impl MemoryMonitor {
    /// The categories, in the order they were first tracked.
    pub closed spec fn category_view(self) -> Seq<(Seq<char>, CategoryStats)> {
        category_pairs(self.categories@)
    }

    /// The settings.
    pub closed spec fn settings(self) -> MemoryMonitorConfig {
        self.config
    }

    /// The leak detector.
    pub closed spec fn detector(self) -> LeakDetector {
        self.leak_detector
    }

    /// Well-formedness: each category has one entry.
    pub open spec fn wf(self) -> bool {
        names_unique(self.category_view())
    }

    /// A monitor with no categories.
    pub fn new(config: MemoryMonitorConfig) -> (m: Self)
        ensures
            m.wf(),
            m.category_view() == Seq::<(Seq<char>, CategoryStats)>::empty(),
            m.settings() == config,
            m.detector().previous is None,
            m.detector().leak_warnings == 0,
    {
        let m = MemoryMonitor { categories: Vec::new(), leak_detector: LeakDetector::new(), config };
        assert(m.category_view() =~= Seq::<(Seq<char>, CategoryStats)>::empty());
        m
    }

    fn find(&self, name: &str) -> (r: Option<usize>)
        requires
            self.wf(),
        ensures
            match r {
                Some(i) => named_index(self.category_view(), name@) == Some(i as int) && i
                    < self.categories@.len(),
                None => named_index(self.category_view(), name@) is None,
            },
    {
        let ghost v = self.category_view();
        let mut i: usize = 0;
        while i < self.categories.len()
            invariant
                v == self.category_view(),
                self.wf(),
                i <= self.categories@.len(),
                forall|j: int| 0 <= j < i ==> v[j].0 != name@,
            decreases self.categories@.len() - i,
        {
            if same_text(self.categories[i].0.as_str(), name) {
                proof {
                    let w = choose|j: int| 0 <= j < v.len() && v[j].0 == name@;
                    assert(v[i as int].0 == name@);
                    assert(w == i);
                }
                return Some(i);
            }
            i = i + 1;
        }
        None
    }

    /// Counts an allocation of `size` bytes in a category. A new category
    /// is ignored once `max_categories` are tracked.
    pub fn track_allocation(&mut self, category: &str, size: u64)
        requires
            old(self).wf(),
            named_value(old(self).category_view(), category@) matches Some(s) ==> s.allocated_bytes + size
                <= u64::MAX && s.allocation_count < u64::MAX,
        ensures
            final(self).wf(),
            final(self).settings() == old(self).settings(),
            final(self).detector() == old(self).detector(),
            final(self).category_view() == match named_value(old(self).category_view(), category@) {
                Some(s) => with_named(
                    old(self).category_view(),
                    category@,
                    CategoryStats {
                        allocated_bytes: (s.allocated_bytes + size) as u64,
                        allocation_count: (s.allocation_count + 1) as u64,
                    },
                ),
                None => if old(self).category_view().len() >= old(self).settings().max_categories {
                    old(self).category_view()
                } else {
                    old(self).category_view().push(
                        (category@, CategoryStats { allocated_bytes: size, allocation_count: 1 }),
                    )
                },
            },
    {
        let ghost v0 = self.category_view();
        match self.find(category) {
            Some(i) => {
                let current = self.categories[i].1;
                let updated = CategoryStats {
                    allocated_bytes: current.allocated_bytes + size,
                    allocation_count: current.allocation_count + 1,
                };
                self.categories.set(i, (category.to_string(), updated));
                proof {
                    assert(self.category_view() =~= v0.update(i as int, (category@, updated)));
                }
            },
            None => {
                if self.categories.len() >= self.config.max_categories {
                    return;
                }
                let fresh = CategoryStats { allocated_bytes: size, allocation_count: 1 };
                self.categories.push((category.to_string(), fresh));
                proof {
                    assert(self.category_view() =~= v0.push((category@, fresh)));
                    assert forall|a: int| 0 <= a < v0.len() implies v0[a].0 != category@ by {
                        if v0[a].0 == category@ {
                            assert(exists|j: int| 0 <= j < v0.len() && v0[j].0 == category@);
                        }
                    }
                }
            },
        }
    }

    /// The figures of each category.
    pub fn get_category_stats(&self) -> (r: Vec<(String, CategoryStats)>)
        ensures
            category_pairs(r@) == self.category_view(),
    {
        let ghost v = self.category_view();
        let mut r: Vec<(String, CategoryStats)> = Vec::new();
        let mut i: usize = 0;
        while i < self.categories.len()
            invariant
                v == self.category_view(),
                i <= self.categories@.len(),
                category_pairs(r@) == v.take(i as int),
            decreases self.categories@.len() - i,
        {
            let entry = &self.categories[i];
            let ghost before = r@;
            let name = entry.0.clone();
            r.push((name, entry.1));
            proof {
                assert(r@ == before.push((name, entry.1)));
                assert(category_pairs(before).len() == before.len());
                assert(category_pairs(r@) =~= category_pairs(before).push((entry.0@, entry.1)));
                assert(v.take(i + 1) =~= v.take(i as int).push(v[i as int]));
            }
            i = i + 1;
        }
        assert(v.take(v.len() as int) =~= v);
        r
    }

    /// What the global statistics and the categories point at.
    pub fn get_optimization_findings(&self, global_stats: MemoryStats) -> (r: Vec<MemoryFinding>)
        ensures
            exists|categories: Seq<(String, CategoryStats)>|
                category_pairs(categories) == self.category_view() && memory_findings_of(
                    global_stats,
                    categories,
                    r@,
                ),
    {
        let categories = self.get_category_stats();
        let r = memory_findings(global_stats, &categories);
        assert(memory_findings_of(global_stats, categories@, r@));
        r
    }

    /// Checks the global statistics for a growing leak.
    pub fn check_for_leaks(&mut self, current: MemoryStats) -> (warned: bool)
        ensures
            final(self).category_view() == old(self).category_view(),
            final(self).settings() == old(self).settings(),
            warned == (old(self).detector().previous matches Some(p) && leak_growing(p, current)),
            final(self).detector().previous == Some(current),
    {
        self.leak_detector.check_for_leaks(current)
    }
}

} // verus!
