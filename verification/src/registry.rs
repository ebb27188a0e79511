//! Agent registry: local agents, the route cache, the capability index and
//! the nodes that remote agents live on.

use vstd::prelude::*;
use crate::bounds::RouteHops;
use crate::errors::RegistryError;
use crate::ids::{hyphenated_text, AgentId, NodeId};
use crate::message_router::domain_types::{AgentLocation, AgentLocationView, LocalAgent, LocalAgentView};
use crate::table::IdTable;
use crate::text::CapabilityName;
use crate::time::{clock_now_millis, MessageTimestamp};

verus! {

broadcast use vstd::string::group_string_axioms;

/// Information about a node that remote agents live on.
#[derive(Debug)]
pub struct NodeInfo {
    pub id: NodeId,
    pub name: String,
    pub address: String,
    pub is_healthy: bool,
    pub last_heartbeat: MessageTimestamp,
    pub agent_count: usize,
}

impl NodeInfo {
    /// A healthy node with no agents, last heard from at `now`.
    pub fn new_at(id: NodeId, name: String, address: String, now: u64) -> (n: Self)
        ensures
            n.id == id,
            n.name@ == name@,
            n.address@ == address@,
            n.is_healthy,
            n.last_heartbeat.millis == now,
            n.agent_count == 0,
    {
        NodeInfo {
            id,
            name,
            address,
            is_healthy: true,
            last_heartbeat: MessageTimestamp::new(now),
            agent_count: 0,
        }
    }

    /// A healthy node with no agents, last heard from now.
    pub fn new(id: NodeId, name: String, address: String) -> (n: Self)
        ensures
            n.id == id,
            n.name@ == name@,
            n.address@ == address@,
            n.is_healthy,
            n.agent_count == 0,
    {
        Self::new_at(id, name, address, clock_now_millis())
    }
}

/// The name given to a node that is first heard of through a route.
pub open spec fn default_node_name(node: NodeId) -> Seq<char> {
    "node-"@ + hyphenated_text(node.value)
}

/// Where an agent is reached, as `lookup` finds it: the cached route, else
/// the local agent, else nowhere.
pub open spec fn lookup_outcome(
    routes: Map<u128, AgentLocationView>,
    agents: Map<u128, LocalAgentView>,
    id: u128,
) -> Option<AgentLocationView> {
    if routes.contains_key(id) {
        Some(routes[id])
    } else if agents.contains_key(id) {
        Some(AgentLocationView::Local(agents[id]))
    } else {
        None
    }
}

/// The capability index with an agent added under each of the names.
pub open spec fn indexed(index: Set<(Seq<char>, u128)>, names: Seq<Seq<char>>, id: u128) -> Set<
    (Seq<char>, u128),
> {
    index.union(Set::new(|p: (Seq<char>, u128)| p.1 == id && names.contains(p.0)))
}

/// The capability index with every entry of an agent taken out.
pub open spec fn unindexed(index: Set<(Seq<char>, u128)>, id: u128) -> Set<(Seq<char>, u128)> {
    index.filter(|p: (Seq<char>, u128)| p.1 != id)
}

/// The capability and agent of an index entry.
pub open spec fn pair_view(e: (CapabilityName, AgentId)) -> (Seq<char>, u128) {
    (e.0@, e.1.value)
}

/// The capabilities and agents of a list of index entries.
pub open spec fn index_view(v: Seq<(CapabilityName, AgentId)>) -> Seq<(Seq<char>, u128)> {
    v.map_values(|e: (CapabilityName, AgentId)| pair_view(e))
}

/// The identifier values of a list of agents.
pub open spec fn id_values(ids: Seq<AgentId>) -> Seq<u128> {
    ids.map_values(|a: AgentId| a.value)
}

/// Adding an element to a sequence adds it to the sequence's set.
proof fn lemma_push_to_set<A>(s: Seq<A>, x: A)
    ensures
        s.push(x).to_set() == s.to_set().insert(x),
{
    assert forall|y: A| #[trigger] s.push(x).to_set().contains(y) <==> s.to_set().insert(
        x,
    ).contains(y) by {
        if s.push(x).contains(y) {
            let i = choose|i: int| 0 <= i < s.push(x).len() && s.push(x)[i] == y;
            if i < s.len() {
                assert(s[i] == y);
            }
        }
        if s.contains(y) {
            let i = choose|i: int| 0 <= i < s.len() && s[i] == y;
            assert(s.push(x)[i] == y);
        }
        if y == x {
            assert(s.push(x)[s.len() as int] == y);
        }
    }
    assert(s.push(x).to_set() =~= s.to_set().insert(x));
}

/// Indexing under one more name adds one entry.
proof fn lemma_indexed_step(index: Set<(Seq<char>, u128)>, names: Seq<Seq<char>>, i: int, id: u128)
    requires
        0 <= i < names.len(),
    ensures
        indexed(index, names.take(i + 1), id) == indexed(index, names.take(i), id).insert(
            (names[i], id),
        ),
{
    let t0 = names.take(i);
    let t1 = names.take(i + 1);
    assert(t1 =~= t0.push(names[i]));
    assert forall|q: (Seq<char>, u128)| #[trigger]
        indexed(index, t1, id).contains(q) <==> indexed(index, t0, id).insert((names[i], id)).contains(
            q,
        ) by {
        if t1.contains(q.0) {
            let k = choose|k: int| 0 <= k < t1.len() && t1[k] == q.0;
            if k < i {
                assert(t0[k] == q.0);
            }
        }
        if t0.contains(q.0) {
            let k = choose|k: int| 0 <= k < t0.len() && t0[k] == q.0;
            assert(t1[k] == q.0);
        }
        assert(t1[i] == names[i]);
    }
    assert(indexed(index, t1, id) =~= indexed(index, t0, id).insert((names[i], id)));
}

/// Agent registry: local agents, cached routes, capability index and nodes.
pub struct AgentRegistryImpl {
    agents: IdTable<LocalAgent>,
    routes: IdTable<AgentLocation>,
    capabilities: Vec<(CapabilityName, AgentId)>,
    node_registry: IdTable<NodeInfo>,
}

impl AgentRegistryImpl {
    /// Well-formedness: the tables are well formed, each agent and node is
    /// kept under its own identifier, and no index entry occurs twice.
    pub closed spec fn wf(&self) -> bool {
        &&& self.agents.wf()
        &&& self.routes.wf()
        &&& self.node_registry.wf()
        &&& forall|k: u128| #[trigger]
            self.agents.map().contains_key(k) ==> self.agents.map()[k].id.value == k
        &&& forall|k: u128| #[trigger]
            self.node_registry.map().contains_key(k) ==> self.node_registry.map()[k].id.value == k
        &&& self.index_entries().no_duplicates()
    }

    /// The registered local agents by identifier value.
    pub closed spec fn agents(&self) -> Map<u128, LocalAgentView> {
        self.agents.map().map_values(|a: LocalAgent| a@)
    }

    /// The registered local agents in the order they were registered.
    pub closed spec fn agent_list(&self) -> Seq<LocalAgentView> {
        self.agents.entries().map_values(|e: (u128, LocalAgent)| e.1@)
    }

    /// The position of an agent in the registration list.
    pub closed spec fn agent_position(&self, k: u128) -> int {
        crate::table::seq_key_index(self.agents.entries(), k)
    }

    /// The cached routes by agent identifier value.
    pub closed spec fn routes(&self) -> Map<u128, AgentLocationView> {
        self.routes.map().map_values(|l: AgentLocation| l@)
    }

    /// The entries of the capability index.
    pub closed spec fn index_entries(&self) -> Seq<(Seq<char>, u128)> {
        index_view(self.capabilities@)
    }

    /// The capability index: pairs of a capability name and an agent that has it.
    pub open spec fn index(&self) -> Set<(Seq<char>, u128)> {
        self.index_entries().to_set()
    }

    /// The known nodes by identifier value.
    pub closed spec fn nodes(&self) -> Map<u128, NodeInfo> {
        self.node_registry.map()
    }

    /// An empty registry.
    pub fn new() -> (r: Self)
        ensures
            r.wf(),
            r.agents() == Map::<u128, LocalAgentView>::empty(),
            r.routes() == Map::<u128, AgentLocationView>::empty(),
            r.index() == Set::<(Seq<char>, u128)>::empty(),
            r.nodes() == Map::<u128, NodeInfo>::empty(),
    {
        let r = AgentRegistryImpl {
            agents: IdTable::new(),
            routes: IdTable::new(),
            capabilities: Vec::new(),
            node_registry: IdTable::new(),
        };
        assert(r.agents() =~= Map::<u128, LocalAgentView>::empty());
        assert(r.routes() =~= Map::<u128, AgentLocationView>::empty());
        assert(r.index() =~= Set::<(Seq<char>, u128)>::empty());
        r
    }

    /// Finds where an agent is reached: a cached route first, then the
    /// local agents, whose location is then cached.
    pub fn lookup(&mut self, agent_id: &AgentId) -> (r: Result<AgentLocation, RegistryError>)
        requires
            old(self).wf(),
        ensures
            final(self).wf(),
            final(self).agents() == old(self).agents(),
            final(self).index() == old(self).index(),
            final(self).nodes() == old(self).nodes(),
            match lookup_outcome(old(self).routes(), old(self).agents(), agent_id.value) {
                Some(location) => r matches Ok(l) && l@ == location && final(self).routes() == old(self).routes().insert(agent_id.value, location),
                None => r == Err::<AgentLocation, RegistryError>(
                    RegistryError::AgentNotFound { agent_id: *agent_id },
                ) && final(self).routes() == old(self).routes(),
            },
    {
        match self.routes.get(agent_id.value) {
            Some(location) => {
                let l = location.clone();
                proof {
                    assert(self.routes() =~= old(self).routes().insert(agent_id.value, l@));
                }
                return Ok(l);
            },
            None => {},
        }
        let location = match self.agents.get(agent_id.value) {
            Some(agent) => AgentLocation::Local(agent.clone()),
            None => {
                return Err(RegistryError::AgentNotFound { agent_id: *agent_id });
            },
        };
        let cached = location.clone();
        self.routes.insert_new(agent_id.value, cached);
        proof {
            assert(self.routes() =~= old(self).routes().insert(agent_id.value, location@));
        }
        Ok(location)
    }

    /// Registers a local agent, caches its location and indexes it under
    /// each of the given capabilities. Refused for an agent that is
    /// registered already.
    pub fn register_local_agent(&mut self, agent: LocalAgent, capabilities: Vec<CapabilityName>) -> (r:
        Result<(), RegistryError>)
        requires
            old(self).wf(),
        ensures
            final(self).wf(),
            final(self).nodes() == old(self).nodes(),
            old(self).agents().contains_key(agent.id.value) ==> r == Err::<(), RegistryError>(
                RegistryError::AgentAlreadyRegistered { agent_id: agent.id },
            ) && final(self).agents() == old(self).agents() && final(self).routes() == old(self).routes() && final(self).index() == old(self).index(),
            !old(self).agents().contains_key(agent.id.value) ==> r is Ok && final(self).agents()
                == old(self).agents().insert(agent.id.value, agent@) && final(self).agent_list()
                == old(self).agent_list().push(agent@) && final(self).routes() == old(self).routes().insert(agent.id.value, AgentLocationView::Local(agent@))
                && final(self).index() == indexed(
                old(self).index(),
                capabilities@.map_values(|c: CapabilityName| c@),
                agent.id.value,
            ),
    {
        let agent_id = agent.id;
        if self.agents.contains_key(agent_id.value) {
            return Err(RegistryError::AgentAlreadyRegistered { agent_id });
        }
        let location = AgentLocation::Local(agent.clone());
        let ghost agent_view = agent@;
        let ghost agents0 = self.agents.map();
        self.agents.insert_new(agent_id.value, agent);
        self.routes.upsert(agent_id.value, location);
        proof {
            assert forall|k: u128| #[trigger]
                self.agents.map().contains_key(k) implies self.agents.map()[k].id.value == k by {
                if k != agent_id.value {
                    assert(agents0.contains_key(k));
                }
            }
            assert(self.agents() =~= old(self).agents().insert(agent_id.value, agent_view));
            assert(self.agent_list() =~= old(self).agent_list().push(agent_view));
            assert(self.routes() =~= old(self).routes().insert(
                agent_id.value,
                AgentLocationView::Local(agent_view),
            ));
        }
        let ghost names = capabilities@.map_values(|c: CapabilityName| c@);
        let ghost index0 = self.index();
        let ghost snap_agents = self.agents;
        let ghost snap_routes = self.routes;
        let ghost snap_nodes = self.node_registry;
        for i in 0..capabilities.len()
            invariant
                names == capabilities@.map_values(|c: CapabilityName| c@),
                self.wf(),
                self.agents == snap_agents,
                self.routes == snap_routes,
                self.node_registry == snap_nodes,
                self.index() == indexed(index0, names.take(i as int), agent_id.value),
        {
            let name = &capabilities[i];
            let ghost p = (name@, agent_id.value);
            let mut found = false;
            for j in 0..self.capabilities.len()
                invariant
                    found <==> exists|k: int| 0 <= k < j && self.index_entries()[k] == p,
                    p == (name@, agent_id.value),
            {
                let e = &self.capabilities[j];
                if e.1.value == agent_id.value && e.0.same(name) {
                    found = true;
                }
                assert(self.index_entries()[j as int] == pair_view(self.capabilities@[j as int]));
            }
            let ghost before = self.index_entries();
            if !found {
                let entry = (name.clone(), agent_id);
                self.capabilities.push(entry);
                proof {
                    assert(self.index_entries() =~= before.push(p));
                    lemma_push_to_set(before, p);
                }
            }
            proof {
                lemma_indexed_step(index0, names, i as int, agent_id.value);
                assert(names[i as int] == name@);
                if found {
                    let k = choose|k: int| 0 <= k < before.len() && before[k] == p;
                    assert(before.contains(p));
                    assert(before.to_set().contains(p));
                    assert(self.index() =~= before.to_set().insert(p));
                }
            }
        }
        proof {
            assert(names.take(capabilities.len() as int) =~= names);
        }
        Ok(())
    }

    /// Deregisters a local agent: removes it, its cached route, and every
    /// index entry of it. Refused for an agent that is not registered.
    pub fn deregister_local_agent(&mut self, agent_id: AgentId) -> (r: Result<(), RegistryError>)
        requires
            old(self).wf(),
        ensures
            final(self).wf(),
            final(self).nodes() == old(self).nodes(),
            !old(self).agents().contains_key(agent_id.value) ==> r == Err::<(), RegistryError>(
                RegistryError::AgentNotFound { agent_id },
            ) && final(self).agents() == old(self).agents() && final(self).routes() == old(self).routes() && final(self).index() == old(self).index(),
            old(self).agents().contains_key(agent_id.value) ==> r is Ok && final(self).agents()
                == old(self).agents().remove(agent_id.value) && final(self).routes() == old(self).routes().remove(agent_id.value) && final(self).index() == unindexed(
                old(self).index(),
                agent_id.value,
            ),
            old(self).agents().contains_key(agent_id.value) ==> {
                let i = old(self).agent_position(agent_id.value);
                &&& 0 <= i < old(self).agent_list().len()
                &&& old(self).agent_list()[i].id == agent_id
                &&& final(self).agent_list() == old(self).agent_list().remove(i)
                &&& forall|j: int|
                    0 <= j < final(self).agent_list().len() ==> #[trigger] final(self).agent_list()[j].id
                        != agent_id
            },
    {
        proof {
            self.agents.lemma_wf();
        }
        let ghost list0 = self.agent_list();
        let ghost e0 = self.agents.entries();
        let ghost agents0 = self.agents.map();
        match self.agents.remove(agent_id.value) {
            Some(_) => {},
            None => {
                assert(!old(self).agents().contains_key(agent_id.value));
                return Err(RegistryError::AgentNotFound { agent_id });
            },
        }
        proof {
            let i = crate::table::seq_key_index(e0, agent_id.value);
            assert(self.agents.entries() == e0.remove(i));
            assert(self.agent_list() =~= list0.remove(i));
            assert(e0[i].0 == agent_id.value);
            assert(old(self).agents.map()[e0[i].0] == e0[i].1);
            self.agents.lemma_wf();
            assert forall|j: int| 0 <= j < self.agent_list().len() implies #[trigger] self.agent_list()[j].id
                != agent_id by {
                let e1 = self.agents.entries();
                assert(self.agents.map().contains_key(e1[j].0));
                assert(self.agents.map()[e1[j].0] == e1[j].1);
                assert(agents0.contains_key(e1[j].0));
                assert(e1[j].1.id.value == e1[j].0);
            }
        }
        let _ = self.routes.remove(agent_id.value);
        let ghost pred = |p: (Seq<char>, u128)| p.1 != agent_id.value;
        let ghost entries0 = self.index_entries();
        let mut kept: Vec<(CapabilityName, AgentId)> = Vec::new();
        let n = self.capabilities.len();
        for j in 0..n
            invariant
                n == self.capabilities@.len(),
                entries0 == self.index_entries(),
                entries0.no_duplicates(),
                pred == (|p: (Seq<char>, u128)| p.1 != agent_id.value),
                index_view(kept@).no_duplicates(),
                forall|x: (Seq<char>, u128)|
                    #[trigger] index_view(kept@).contains(
                        x,
                    ) <==> (entries0.take(j as int).contains(x) && pred(x)),
        {
            let e = &self.capabilities[j];
            let ghost x = pair_view(*e);
            assert(entries0[j as int] == x);
            let drop = e.1.value == agent_id.value;
            let ghost kv0 = index_view(kept@);
            if !drop {
                let copy = (e.0.clone(), e.1);
                kept.push(copy);
                proof {
                    let kv1 = index_view(kept@);
                    assert(kv1 =~= kv0.push(x));
                    if kv0.contains(x) {
                        assert(entries0.take(j as int).contains(x));
                        let k = choose|k: int| 0 <= k < j && entries0.take(j as int)[k] == x;
                        assert(entries0[k] == entries0[j as int]);
                    }
                    assert forall|a: int, b: int|
                        0 <= a < kv1.len() && 0 <= b < kv1.len() && a != b implies kv1[a]
                        != kv1[b] by {
                        if a == kv0.len() as int {
                            assert(kv0[b] == kv1[b]);
                            assert(kv0.contains(kv1[b]));
                        } else if b == kv0.len() as int {
                            assert(kv0[a] == kv1[a]);
                            assert(kv0.contains(kv1[a]));
                        }
                    }
                }
            }
            proof {
                let kv1 = index_view(kept@);
                let t0 = entries0.take(j as int);
                let t1 = entries0.take(j + 1);
                assert(t1 =~= t0.push(x));
                assert forall|y: (Seq<char>, u128)|
                    #[trigger] kv1.contains(y) <==> (t1.contains(y) && pred(y)) by {
                    if t1.contains(y) {
                        let k = choose|k: int| 0 <= k < j + 1 && t1[k] == y;
                        if k < j {
                            assert(t0[k] == y);
                        }
                    }
                    if t0.contains(y) {
                        let k = choose|k: int| 0 <= k < j && t0[k] == y;
                        assert(t1[k] == y);
                    }
                    if !drop {
                        if kv1.contains(y) {
                            let k = choose|k: int| 0 <= k < kv1.len() && kv1[k] == y;
                            if k < kv0.len() {
                                assert(kv0[k] == y);
                            }
                        }
                        if kv0.contains(y) {
                            let k = choose|k: int| 0 <= k < kv0.len() && kv0[k] == y;
                            assert(kv1[k] == y);
                        }
                        if y == x {
                            assert(kv1[kv0.len() as int] == y);
                            assert(t1[j as int] == y);
                        }
                    } else {
                        assert(kv1 == kv0);
                        assert(!pred(x));
                    }
                }
            }
        }
        self.capabilities = kept;
        proof {
            assert(entries0.take(n as int) =~= entries0);
            assert forall|k: u128| #[trigger]
                self.agents.map().contains_key(k) implies self.agents.map()[k].id.value == k by {
                assert(agents0.contains_key(k));
            }
            assert(self.agents() =~= old(self).agents().remove(agent_id.value));
            assert(self.routes() =~= old(self).routes().remove(agent_id.value));
            assert(self.index() =~= unindexed(old(self).index(), agent_id.value));
        }
        Ok(())
    }

    /// Routes an agent to a node at time `now`. A node heard of for the
    /// first time is registered as healthy, named after its identifier, at
    /// an unknown address; the node's agent count goes up by one, staying at
    /// the largest count once reached.
    pub fn update_remote_route_at(
        &mut self,
        agent_id: AgentId,
        node_id: NodeId,
        hops: RouteHops,
        now: u64,
    ) -> (r: Result<(), RegistryError>)
        requires
            old(self).wf(),
        ensures
            final(self).wf(),
            r is Ok,
            final(self).agents() == old(self).agents(),
            final(self).index() == old(self).index(),
            final(self).routes() == old(self).routes().insert(
                agent_id.value,
                AgentLocationView::Remote(node_id),
            ),
            final(self).nodes().dom() == old(self).nodes().dom().insert(node_id.value),
            forall|k: u128|
                k != node_id.value && #[trigger] old(self).nodes().contains_key(k) ==> final(self).nodes()[k] == old(self).nodes()[k],
            ({
                let node = final(self).nodes()[node_id.value];
                if old(self).nodes().contains_key(node_id.value) {
                    let before = old(self).nodes()[node_id.value];
                    &&& node.id == before.id
                    &&& node.name == before.name
                    &&& node.address == before.address
                    &&& node.is_healthy == before.is_healthy
                    &&& node.last_heartbeat == before.last_heartbeat
                    &&& node.agent_count == if before.agent_count == usize::MAX {
                        usize::MAX
                    } else {
                        (before.agent_count + 1) as usize
                    }
                } else {
                    &&& node.id == node_id
                    &&& node.name@ == default_node_name(node_id)
                    &&& node.address@ == "unknown"@
                    &&& node.is_healthy
                    &&& node.last_heartbeat.millis == now
                    &&& node.agent_count == 1
                }
            }),
    {
        let ghost nodes0 = self.node_registry.map();
        if !self.node_registry.contains_key(node_id.value) {
            let name = String::from_str("node-").concat(node_id.to_uuid_string().as_str());
            let info = NodeInfo::new_at(node_id, name, String::from_str("unknown"), now);
            self.node_registry.insert_new(node_id.value, info);
        }
        let ghost nodes1 = self.node_registry.map();
        let location = AgentLocation::Remote(node_id);
        self.routes.upsert(agent_id.value, location);
        let i = match self.node_registry.find(node_id.value) {
            Some(i) => i,
            None => vstd::pervasive::unreached(),
        };
        let (_, current) = self.node_registry.entry_at(i);
        let updated = NodeInfo {
            id: current.id,
            name: current.name.clone(),
            address: current.address.clone(),
            is_healthy: current.is_healthy,
            last_heartbeat: current.last_heartbeat,
            agent_count: current.agent_count.saturating_add(1),
        };
        self.node_registry.set_at(i, updated);
        proof {
            self.node_registry.lemma_wf();
            assert forall|k: u128| #[trigger]
                self.node_registry.map().contains_key(k) implies self.node_registry.map()[k].id.value
                == k by {
                if k != node_id.value {
                    assert(nodes1.contains_key(k));
                    if !nodes0.contains_key(node_id.value) {
                        assert(nodes0.contains_key(k));
                    }
                }
            }
            assert(self.routes() =~= old(self).routes().insert(
                agent_id.value,
                AgentLocationView::Remote(node_id),
            ));
            assert(self.nodes().dom() =~= old(self).nodes().dom().insert(node_id.value));
        }
        Ok(())
    }

    /// Routes an agent to a node; a new node is stamped with the system clock.
    pub fn update_remote_route(&mut self, agent_id: AgentId, node_id: NodeId, hops: RouteHops) -> (r:
        Result<(), RegistryError>)
        requires
            old(self).wf(),
        ensures
            final(self).wf(),
            r is Ok,
            final(self).agents() == old(self).agents(),
            final(self).index() == old(self).index(),
            final(self).routes() == old(self).routes().insert(
                agent_id.value,
                AgentLocationView::Remote(node_id),
            ),
            final(self).nodes().dom() == old(self).nodes().dom().insert(node_id.value),
    {
        self.update_remote_route_at(agent_id, node_id, hops, clock_now_millis())
    }

    /// The agents indexed under a capability, each once.
    pub fn find_agents_by_capability(&self, capability: &CapabilityName) -> (r: Result<
        Vec<AgentId>,
        RegistryError,
    >)
        requires
            self.wf(),
        ensures
            r matches Ok(ids) && id_values(ids@).no_duplicates() && forall|x: u128|
                #[trigger] id_values(ids@).contains(x) <==> self.index().contains((capability@, x)),
    {
        let mut ids: Vec<AgentId> = Vec::new();
        let n = self.capabilities.len();
        for j in 0..n
            invariant
                n == self.capabilities@.len(),
                self.wf(),
                id_values(ids@).no_duplicates(),
                forall|x: u128|
                    #[trigger] id_values(ids@).contains(x) <==> self.index_entries().take(
                        j as int,
                    ).contains((capability@, x)),
        {
            let e = &self.capabilities[j];
            let ghost p = pair_view(*e);
            let ghost before = id_values(ids@);
            assert(self.index_entries()[j as int] == p);
            assert(self.index_entries().take(j + 1) =~= self.index_entries().take(j as int).push(p));
            if e.0.same(capability) {
                proof {
                    if before.contains(e.1.value) {
                        let k = choose|k: int|
                            0 <= k < j && self.index_entries().take(j as int)[k] == (
                                capability@,
                                e.1.value,
                            );
                        assert(self.index_entries()[k] == self.index_entries()[j as int]);
                    }
                }
                ids.push(e.1);
                proof {
                    assert(id_values(ids@) =~= before.push(e.1.value));
                }
            }
            proof {
                let after = id_values(ids@);
                let t0 = self.index_entries().take(j as int);
                let t1 = self.index_entries().take(j + 1);
                assert(t1 =~= t0.push(p));
                let pushed = p.0 == capability@;
                if pushed {
                    assert(after =~= before.push(p.1));
                } else {
                    assert(after =~= before);
                }
                assert forall|x: u128| #[trigger]
                    after.contains(x) <==> t1.contains((capability@, x)) by {
                    let pair = (capability@, x);
                    if t1.contains(pair) {
                        let k = choose|k: int| 0 <= k < t1.len() && t1[k] == pair;
                        if k < j {
                            assert(t0[k] == pair);
                            assert(t0.contains(pair));
                            assert(before.contains(x));
                            let m = choose|m: int| 0 <= m < before.len() && before[m] == x;
                            assert(after[m] == x);
                        } else {
                            assert(t1[j as int] == p);
                            assert(after[before.len() as int] == x);
                        }
                    }
                    if after.contains(x) {
                        let k = choose|k: int| 0 <= k < after.len() && after[k] == x;
                        if k < before.len() {
                            assert(before[k] == x);
                            assert(before.contains(x));
                            assert(t0.contains(pair));
                            let m = choose|m: int| 0 <= m < t0.len() && t0[m] == pair;
                            assert(t1[m] == pair);
                        } else {
                            assert(t1[j as int] == pair);
                        }
                    }
                }
                assert forall|a: int, b: int|
                    0 <= a < after.len() && 0 <= b < after.len() && a != b implies after[a]
                    != after[b] by {
                    if a >= before.len() || b >= before.len() {
                        if a < before.len() {
                            assert(before.contains(after[a]));
                        }
                        if b < before.len() {
                            assert(before.contains(after[b]));
                        }
                    } else {
                        assert(after[a] == before[a]);
                        assert(after[b] == before[b]);
                    }
                }
            }
        }
        assert(self.index_entries().take(n as int) =~= self.index_entries());
        Ok(ids)
    }

    /// The registered local agents, in the order they were registered.
    pub fn list_local_agents(&self) -> (r: Result<Vec<LocalAgent>, RegistryError>)
        requires
            self.wf(),
        ensures
            r matches Ok(agents) && agents@.map_values(|a: LocalAgent| a@) == self.agent_list(),
    {
        let mut out: Vec<LocalAgent> = Vec::new();
        let n = self.agents.len();
        for i in 0..n
            invariant
                n == self.agents.entries().len(),
                out@.map_values(|a: LocalAgent| a@) == self.agent_list().take(i as int),
        {
            let (_, a) = self.agents.entry_at(i);
            let copy = a.clone();
            let ghost before = out@;
            out.push(copy);
            proof {
                assert(out@ == before.push(copy));
                assert(self.agent_list()[i as int] == copy@);
                assert(self.agent_list().take(i + 1) =~= self.agent_list().take(i as int).push(
                    copy@,
                ));
                assert(out@.map_values(|a: LocalAgent| a@) =~= before.map_values(|a: LocalAgent| a@).push(
                    copy@,
                ));
            }
        }
        assert(self.agent_list().take(n as int) =~= self.agent_list());
        Ok(out)
    }

    /// Records the last heartbeat of a registered agent; the health flag is
    /// not kept. Refused for an agent that is not registered.
    pub fn update_agent_health(
        &mut self,
        agent_id: AgentId,
        is_healthy: bool,
        last_heartbeat: MessageTimestamp,
    ) -> (r: Result<(), RegistryError>)
        requires
            old(self).wf(),
        ensures
            final(self).wf(),
            final(self).routes() == old(self).routes(),
            final(self).index() == old(self).index(),
            final(self).nodes() == old(self).nodes(),
            old(self).agents().contains_key(agent_id.value) ==> r is Ok && final(self).agents()
                == old(self).agents().insert(
                agent_id.value,
                LocalAgentView { last_heartbeat, ..old(self).agents()[agent_id.value] },
            ),
            !old(self).agents().contains_key(agent_id.value) ==> r == Err::<(), RegistryError>(
                RegistryError::AgentNotFound { agent_id },
            ) && final(self).agents() == old(self).agents(),
    {
        let ghost agents0 = self.agents.map();
        match self.agents.find(agent_id.value) {
            Some(i) => {
                let (_, a) = self.agents.entry_at(i);
                let mut updated = a.clone();
                updated.last_heartbeat = last_heartbeat;
                self.agents.set_at(i, updated);
                proof {
                    self.agents.lemma_wf();
                    assert forall|k: u128| #[trigger]
                        self.agents.map().contains_key(k) implies self.agents.map()[k].id.value
                        == k by {
                        if k != agent_id.value {
                            assert(agents0.contains_key(k));
                        }
                    }
                    assert(self.agents() =~= old(self).agents().insert(
                        agent_id.value,
                        LocalAgentView { last_heartbeat, ..old(self).agents()[agent_id.value] },
                    ));
                }
                Ok(())
            },
            None => Err(RegistryError::AgentNotFound { agent_id }),
        }
    }
}

/// A registered agent is found by `lookup` at its own location.
pub proof fn lemma_register_then_lookup(
    routes: Map<u128, AgentLocationView>,
    agents: Map<u128, LocalAgentView>,
    agent: LocalAgentView,
)
    ensures
        lookup_outcome(
            routes.insert(agent.id.value, AgentLocationView::Local(agent)),
            agents.insert(agent.id.value, agent),
            agent.id.value,
        ) == Some(AgentLocationView::Local(agent)),
{
}

/// A deregistered agent is no longer found by `lookup`.
pub proof fn lemma_deregister_then_lookup(
    routes: Map<u128, AgentLocationView>,
    agents: Map<u128, LocalAgentView>,
    id: u128,
)
    ensures
        lookup_outcome(routes.remove(id), agents.remove(id), id) is None,
{
}

/// An agent registered under some capabilities is indexed under each of
/// them; once deregistered, it is indexed under no capability at all, and
/// the entries of other agents are those that were there.
pub proof fn lemma_index_register_deregister(
    index: Set<(Seq<char>, u128)>,
    names: Seq<Seq<char>>,
    id: u128,
)
    ensures
        forall|i: int| 0 <= i < names.len() ==> #[trigger] indexed(index, names, id).contains(
            (names[i], id),
        ),
        forall|name: Seq<char>| !#[trigger] unindexed(indexed(index, names, id), id).contains((name, id)),
        forall|p: (Seq<char>, u128)|
            p.1 != id ==> (#[trigger] unindexed(indexed(index, names, id), id).contains(p)
                <==> index.contains(p)),
{
    assert forall|i: int| 0 <= i < names.len() implies #[trigger] indexed(index, names, id).contains(
        (names[i], id),
    ) by {
        assert(names.contains(names[i]));
    }
}

} // verus!
