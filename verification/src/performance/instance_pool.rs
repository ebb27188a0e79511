//! Pools of pre-warmed instances kept by agent type, a cache of compiled
//! modules by name, and the growth limits of an instance's memory and
//! tables.

use vstd::prelude::*;
use crate::performance::monitor::{lemma_named_write_then_read, named_index, named_value, names_unique, with_named};
use crate::sandbox::same_text;

verus! {

broadcast use vstd::string::group_string_axioms;

/// Largest memory an instance may grow to, in bytes: 64 MiB.
pub const MAX_INSTANCE_MEMORY_BYTES: usize = 67_108_864;

/// Most table elements an instance may grow to.
pub const MAX_INSTANCE_TABLE_ELEMENTS: usize = 10_000;

/// Whether growth to `desired` is allowed: within the module's own maximum,
/// where it declares one, and within `limit`.
pub open spec fn growth_allowed(desired: usize, maximum: Option<usize>, limit: usize) -> bool {
    &&& (maximum matches Some(max) ==> desired <= max)
    &&& desired <= limit
}

/// What an instance has grown to.
#[derive(Debug, Clone, Copy)]
pub struct InstanceLimits {
    pub memory_used: usize,
    pub table_elements_used: usize,
}

impl InstanceLimits {
    /// Nothing used yet.
    pub fn new() -> (l: Self)
        ensures
            l.memory_used == 0,
            l.table_elements_used == 0,
    {
        InstanceLimits { memory_used: 0, table_elements_used: 0 }
    }

    /// Decides whether memory may grow from `current` to `desired` bytes,
    /// and records the new size where it may.
    pub fn memory_growing(&mut self, current: usize, desired: usize, maximum: Option<usize>) -> (r: bool)
        ensures
            r == growth_allowed(desired, maximum, MAX_INSTANCE_MEMORY_BYTES),
            r ==> final(self).memory_used == desired,
            !r ==> final(self).memory_used == old(self).memory_used,
            final(self).table_elements_used == old(self).table_elements_used,
    {
        if let Some(max) = maximum {
            if desired > max {
                return false;
            }
        }
        if desired > MAX_INSTANCE_MEMORY_BYTES {
            return false;
        }
        self.memory_used = desired;
        true
    }

    /// Decides whether a table may grow from `current` to `desired`
    /// elements, and records the new size where it may.
    pub fn table_growing(&mut self, current: usize, desired: usize, maximum: Option<usize>) -> (r: bool)
        ensures
            r == growth_allowed(desired, maximum, MAX_INSTANCE_TABLE_ELEMENTS),
            r ==> final(self).table_elements_used == desired,
            !r ==> final(self).table_elements_used == old(self).table_elements_used,
            final(self).memory_used == old(self).memory_used,
    {
        if let Some(max) = maximum {
            if desired > max {
                return false;
            }
        }
        if desired > MAX_INSTANCE_TABLE_ELEMENTS {
            return false;
        }
        self.table_elements_used = desired;
        true
    }
}

/// Counters of a pool.
#[derive(Debug, Clone, Copy, Default)]
pub struct PoolStats {
    pub hits: u64,
    pub misses: u64,
    pub total_pooled: usize,
    pub total_active: usize,
}

/// Pooled instances by agent type.
pub open spec fn pooled_pairs<I>(v: Seq<(String, Vec<I>)>) -> Seq<(Seq<char>, Seq<I>)> {
    v.map_values(|e: (String, Vec<I>)| (e.0@, e.1@))
}

/// Finds the position of the entry with the given name.
fn find_named<I>(entries: &Vec<(String, Vec<I>)>, name: &str) -> (r: Option<usize>)
    requires
        names_unique(pooled_pairs(entries@)),
    ensures
        match r {
            Some(i) => named_index(pooled_pairs(entries@), name@) == Some(i as int) && i < entries@.len(),
            None => named_index(pooled_pairs(entries@), name@) is None,
        },
{
    let ghost v = pooled_pairs(entries@);
    let mut i: usize = 0;
    while i < entries.len()
        invariant
            v == pooled_pairs(entries@),
            names_unique(v),
            i <= entries@.len(),
            forall|j: int| 0 <= j < i ==> v[j].0 != name@,
        decreases entries@.len() - i,
    {
        if same_text(entries[i].0.as_str(), name) {
            proof {
                let w = choose|j: int| 0 <= j < v.len() && v[j].0 == name@;
                assert(v[i as int].0 == name@);
                assert(w == i);
            }
            return Some(i);
        }
        i = i + 1;
    }
    None
}

/// A pool of pre-warmed instances, at most `max_per_type` of each agent
/// type.
#[derive(Debug)]
pub struct InstancePool<I> {
    max_per_type: usize,
    max_total: usize,
    pools: Vec<(String, Vec<I>)>,
    stats: PoolStats,
}

impl<I> InstancePool<I> {
    /// The pooled instances by agent type.
    pub closed spec fn pooled(self) -> Seq<(Seq<char>, Seq<I>)> {
        pooled_pairs(self.pools@)
    }

    /// How many instances of one type are kept.
    pub closed spec fn per_type_limit(self) -> usize {
        self.max_per_type
    }

    /// The counters.
    pub closed spec fn counters(self) -> PoolStats {
        self.stats
    }

    /// Well-formedness: each agent type has one entry.
    pub open spec fn wf(self) -> bool {
        names_unique(self.pooled())
    }

    /// An empty pool.
    pub fn new(max_total: usize, max_per_type: usize) -> (p: Self)
        ensures
            p.wf(),
            p.pooled() == Seq::<(Seq<char>, Seq<I>)>::empty(),
            p.per_type_limit() == max_per_type,
            p.counters() == (PoolStats { hits: 0, misses: 0, total_pooled: 0, total_active: 0 }),
    {
        let p = InstancePool {
            max_per_type,
            max_total,
            pools: Vec::new(),
            stats: PoolStats { hits: 0, misses: 0, total_pooled: 0, total_active: 0 },
        };
        assert(p.pooled() =~= Seq::<(Seq<char>, Seq<I>)>::empty());
        p
    }

    /// Takes the most recently returned instance of an agent type. A type
    /// never returned to the pool gives nothing and counts nothing; a type
    /// whose instances are all taken counts a miss.
    pub fn get_instance(&mut self, agent_type: &str) -> (r: Option<I>)
        requires
            old(self).wf(),
            named_index(old(self).pooled(), agent_type@) matches Some(i) && old(self).pooled()[i].1.len() > 0
                ==> old(self).counters().hits < u64::MAX && old(self).counters().total_active < usize::MAX,
            named_index(old(self).pooled(), agent_type@) matches Some(i) && old(self).pooled()[i].1.len() == 0
                ==> old(self).counters().misses < u64::MAX,
        ensures
            final(self).wf(),
            final(self).per_type_limit() == old(self).per_type_limit(),
            match named_value(old(self).pooled(), agent_type@) {
                None => r is None && *final(self) == *old(self),
                Some(s) => if s.len() > 0 {
                    &&& r == Some(s.last())
                    &&& final(self).pooled() == with_named(old(self).pooled(), agent_type@, s.drop_last())
                    &&& final(self).counters() == (PoolStats {
                        hits: (old(self).counters().hits + 1) as u64,
                        total_active: (old(self).counters().total_active + 1) as usize,
                        ..old(self).counters()
                    })
                } else {
                    &&& r is None
                    &&& final(self).pooled() == old(self).pooled()
                    &&& final(self).counters() == (PoolStats {
                        misses: (old(self).counters().misses + 1) as u64,
                        ..old(self).counters()
                    })
                },
            },
    {
        let ghost v0 = self.pooled();
        match find_named(&self.pools, agent_type) {
            None => None,
            Some(i) => {
                let (name, mut instances) = self.pools.remove(i);
                let ghost before = instances@;
                let taken = instances.pop();
                self.pools.insert(i, (name, instances));
                match taken {
                    Some(instance) => {
                        self.stats.hits = self.stats.hits + 1;
                        self.stats.total_active = self.stats.total_active + 1;
                        proof {
                            assert(self.pooled() =~= v0.update(i as int, (agent_type@, before.drop_last())));
                        }
                        Some(instance)
                    },
                    None => {
                        self.stats.misses = self.stats.misses + 1;
                        proof {
                            assert(self.pooled() =~= v0);
                        }
                        None
                    },
                }
            },
        }
    }

    /// Returns an instance of an agent type to the pool; where the pool of
    /// that type is full the instance is dropped.
    pub fn return_instance(&mut self, agent_type: &str, instance: I)
        requires
            old(self).wf(),
            (match named_value(old(self).pooled(), agent_type@) {
                Some(s) => s.len(),
                None => 0,
            }) < old(self).per_type_limit() ==> old(self).counters().total_active > 0,
        ensures
            final(self).wf(),
            final(self).per_type_limit() == old(self).per_type_limit(),
            ({
                let s = match named_value(old(self).pooled(), agent_type@) {
                    Some(s) => s,
                    None => Seq::<I>::empty(),
                };
                if s.len() < old(self).per_type_limit() {
                    &&& final(self).pooled() == with_named(old(self).pooled(), agent_type@, s.push(instance))
                    &&& final(self).counters() == (PoolStats {
                        total_active: (old(self).counters().total_active - 1) as usize,
                        ..old(self).counters()
                    })
                } else {
                    &&& final(self).pooled() == with_named(old(self).pooled(), agent_type@, s)
                    &&& final(self).counters() == old(self).counters()
                }
            }),
    {
        let ghost v0 = self.pooled();
        let i = match find_named(&self.pools, agent_type) {
            Some(i) => i,
            None => {
                let fresh: Vec<I> = Vec::new();
                self.pools.push((agent_type.to_string(), fresh));
                proof {
                    assert(self.pooled() =~= v0.push((agent_type@, Seq::<I>::empty())));
                    assert forall|a: int| 0 <= a < v0.len() implies v0[a].0 != agent_type@ by {
                        if v0[a].0 == agent_type@ {
                            assert(exists|j: int| 0 <= j < v0.len() && v0[j].0 == agent_type@);
                        }
                    }
                }
                self.pools.len() - 1
            },
        };
        let ghost v1 = self.pooled();
        let (name, mut instances) = self.pools.remove(i);
        let ghost before = instances@;
        if instances.len() < self.max_per_type {
            instances.push(instance);
            self.stats.total_active = self.stats.total_active - 1;
        }
        self.pools.insert(i, (name, instances));
        proof {
            assert(self.pooled() =~= v1.update(i as int, (agent_type@, instances@)));
        }
    }

    /// The counters of the pool.
    pub fn get_stats(&self) -> (s: PoolStats)
        ensures
            s == self.counters(),
    {
        self.stats
    }
}

/// An instance returned to the pool of its type is the one the next
/// request for that type gets back, and the instances under it are those
/// pooled before.
pub proof fn lemma_returned_instance_is_reused<I>(
    pooled: Seq<(Seq<char>, Seq<I>)>,
    agent_type: Seq<char>,
    instance: I,
)
    requires
        names_unique(pooled),
    ensures
        ({
            let s = match named_value(pooled, agent_type) {
                Some(s) => s,
                None => Seq::<I>::empty(),
            };
            let after = with_named(pooled, agent_type, s.push(instance));
            &&& names_unique(after)
            &&& named_value(after, agent_type) == Some(s.push(instance))
            &&& s.push(instance).last() == instance
            &&& s.push(instance).drop_last() == s
        }),
{
    let s = match named_value(pooled, agent_type) {
        Some(s) => s,
        None => Seq::<I>::empty(),
    };
    lemma_named_write_then_read(pooled, agent_type, agent_type, s.push(instance));
    assert(s.push(instance).drop_last() =~= s);
}

/// Cached modules by name.
pub open spec fn cached_pairs<M>(v: Seq<(String, M)>) -> Seq<(Seq<char>, M)> {
    v.map_values(|e: (String, M)| (e.0@, e.1))
}

/// Compiled modules kept by name.
#[derive(Debug)]
pub struct ModuleCache<M> {
    modules: Vec<(String, M)>,
}

impl<M> ModuleCache<M> {
    /// The modules by name, in the order they were first cached.
    pub closed spec fn cached(self) -> Seq<(Seq<char>, M)> {
        cached_pairs(self.modules@)
    }

    /// Well-formedness: each name has one entry.
    pub open spec fn wf(self) -> bool {
        names_unique(self.cached())
    }

    /// An empty cache.
    pub fn new() -> (c: Self)
        ensures
            c.wf(),
            c.cached() == Seq::<(Seq<char>, M)>::empty(),
    {
        let c = ModuleCache { modules: Vec::new() };
        assert(c.cached() =~= Seq::<(Seq<char>, M)>::empty());
        c
    }

    fn find(&self, name: &str) -> (r: Option<usize>)
        requires
            self.wf(),
        ensures
            match r {
                Some(i) => named_index(self.cached(), name@) == Some(i as int) && i < self.modules@.len(),
                None => named_index(self.cached(), name@) is None,
            },
    {
        let ghost v = self.cached();
        let mut i: usize = 0;
        while i < self.modules.len()
            invariant
                v == self.cached(),
                names_unique(v),
                i <= self.modules@.len(),
                forall|j: int| 0 <= j < i ==> v[j].0 != name@,
            decreases self.modules@.len() - i,
        {
            if same_text(self.modules[i].0.as_str(), name) {
                proof {
                    let w = choose|j: int| 0 <= j < v.len() && v[j].0 == name@;
                    assert(v[i as int].0 == name@);
                    assert(w == i);
                }
                return Some(i);
            }
            i = i + 1;
        }
        None
    }

    /// The module cached under a name, if any.
    pub fn get(&self, name: &str) -> (r: Option<&M>)
        requires
            self.wf(),
        ensures
            match named_value(self.cached(), name@) {
                Some(m) => r == Some(&m),
                None => r is None,
            },
    {
        match self.find(name) {
            Some(i) => Some(&self.modules[i].1),
            None => None,
        }
    }

    /// Caches a module under a name, replacing any module cached there.
    pub fn insert(&mut self, name: &str, module: M)
        requires
            old(self).wf(),
        ensures
            final(self).wf(),
            final(self).cached() == with_named(old(self).cached(), name@, module),
    {
        let ghost v0 = self.cached();
        match self.find(name) {
            Some(i) => {
                self.modules.set(i, (name.to_string(), module));
                proof {
                    assert(self.cached() =~= v0.update(i as int, (name@, module)));
                }
            },
            None => {
                self.modules.push((name.to_string(), module));
                proof {
                    assert(self.cached() =~= v0.push((name@, module)));
                    assert forall|a: int| 0 <= a < v0.len() implies v0[a].0 != name@ by {
                        if v0[a].0 == name@ {
                            assert(exists|j: int| 0 <= j < v0.len() && v0[j].0 == name@);
                        }
                    }
                }
            },
        }
    }

    /// Number of modules cached.
    pub fn len(&self) -> (n: usize)
        ensures
            n == self.cached().len(),
    {
        self.modules.len()
    }
}

} // verus!
