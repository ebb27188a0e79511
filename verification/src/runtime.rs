//! The agent runtime: spawning agents with their metadata and resource
//! records, their lifecycle (ready, processing, suspended, terminating,
//! terminated), message bookkeeping, health checks, and global counters.

use vstd::prelude::*;
use crate::config::u128_text;
use crate::ids::{hyphenated_text, AgentId};
use crate::table::{keys_unique, IdTable};
use crate::text::decimal_text;
use crate::time::clock_now_millis;

verus! {

broadcast use vstd::string::group_string_axioms;

/// Resource limits of each agent.
#[derive(Debug, Clone, Copy, PartialEq, Eq, Structural)]
pub struct ResourceLimits {
    /// Memory per agent in bytes.
    pub max_memory_per_agent: u64,
    /// CPU time per agent in milliseconds.
    pub max_cpu_time_per_agent_ms: u64,
}

impl Default for ResourceLimits {
    /// 64 MiB of memory and 30 seconds of CPU time per agent.
    fn default() -> (l: Self)
        ensures
            l.max_memory_per_agent == 64 * 1024 * 1024,
            l.max_cpu_time_per_agent_ms == 30_000,
    {
        ResourceLimits { max_memory_per_agent: 64 * 1024 * 1024, max_cpu_time_per_agent_ms: 30_000 }
    }
}

/// Configuration of the runtime.
#[derive(Debug, Clone, Copy, PartialEq, Eq, Structural)]
pub struct CaxtonConfig {
    pub max_agents: usize,
    /// Default timeout in milliseconds.
    pub default_timeout_ms: u64,
    pub observability_enabled: bool,
    pub fipa_compliance_strict: bool,
    pub wasm_isolation_enabled: bool,
    pub tracing_enabled: bool,
    pub metrics_enabled: bool,
    pub event_emission_enabled: bool,
    pub performance_mode: bool,
    pub resource_limits: ResourceLimits,
}

impl Default for CaxtonConfig {
    /// One hundred agents, a 30 second timeout, observability, tracing,
    /// metrics, events and isolation on, strict FIPA and performance mode off.
    fn default() -> (c: Self)
        ensures
            c.max_agents == 100,
            c.default_timeout_ms == 30_000,
            c.observability_enabled,
            !c.fipa_compliance_strict,
            c.wasm_isolation_enabled,
            c.tracing_enabled,
            c.metrics_enabled,
            c.event_emission_enabled,
            !c.performance_mode,
            c.resource_limits.max_memory_per_agent == 64 * 1024 * 1024,
            c.resource_limits.max_cpu_time_per_agent_ms == 30_000,
    {
        CaxtonConfig {
            max_agents: 100,
            default_timeout_ms: 30_000,
            observability_enabled: true,
            fipa_compliance_strict: false,
            wasm_isolation_enabled: true,
            tracing_enabled: true,
            metrics_enabled: true,
            event_emission_enabled: true,
            performance_mode: false,
            resource_limits: ResourceLimits::default(),
        }
    }
}

/// Lifecycle state of an agent.
#[derive(Debug, Clone, Copy, PartialEq, Eq, Structural)]
pub enum AgentState {
    Initializing,
    Ready,
    Processing,
    Suspended,
    Terminating,
    Terminated,
}

/// The name of a state, as it is written in messages.
pub open spec fn state_name(s: AgentState) -> Seq<char> {
    match s {
        AgentState::Initializing => "Initializing"@,
        AgentState::Ready => "Ready"@,
        AgentState::Processing => "Processing"@,
        AgentState::Suspended => "Suspended"@,
        AgentState::Terminating => "Terminating"@,
        AgentState::Terminated => "Terminated"@,
    }
}

/// The name of a state.
pub fn state_text(s: AgentState) -> (t: String)
    ensures
        t@ == state_name(s),
{
    match s {
        AgentState::Initializing => String::from_str("Initializing"),
        AgentState::Ready => String::from_str("Ready"),
        AgentState::Processing => String::from_str("Processing"),
        AgentState::Suspended => String::from_str("Suspended"),
        AgentState::Terminating => String::from_str("Terminating"),
        AgentState::Terminated => String::from_str("Terminated"),
    }
}

/// Errors of the runtime.
#[derive(Debug)]
pub enum CaxtonError {
    /// An agent is unknown or in the wrong state.
    Agent(String),
    /// The runtime failed.
    Runtime(String),
}

/// Resource usage of one agent.
#[derive(Debug, Clone, Copy, PartialEq, Eq, Structural)]
pub struct AgentResourceUsage {
    pub memory_bytes: u64,
    pub cpu_time_ms: u64,
    pub message_count: u64,
    /// Last activity in milliseconds since the Unix epoch.
    pub last_activity_millis: u64,
}

/// What an agent is spawned from.
#[derive(Debug, Clone)]
pub struct AgentConfig {
    pub name: String,
    pub agent_type: String,
    pub capabilities: Vec<String>,
    pub max_memory: Option<u64>,
    /// Timeout in milliseconds.
    pub timeout_ms: Option<u64>,
}

/// Metadata of a spawned agent.
#[derive(Debug)]
pub struct AgentMetadata {
    pub name: String,
    pub agent_type: String,
    pub capabilities: Vec<String>,
    pub properties: Vec<(String, String)>,
    pub state: AgentState,
}

/// What the runtime knows of an agent.
pub struct AgentInfo {
    pub name: Seq<char>,
    pub agent_type: Seq<char>,
    pub capabilities: Seq<Seq<char>>,
    pub properties: Seq<(Seq<char>, Seq<char>)>,
    pub state: AgentState,
    pub usage: AgentResourceUsage,
}

/// The texts of a list of strings.
pub open spec fn texts(v: Seq<String>) -> Seq<Seq<char>> {
    v.map_values(|s: String| s@)
}

/// The texts of a list of pairs of strings.
pub open spec fn pair_texts(v: Seq<(String, String)>) -> Seq<(Seq<char>, Seq<char>)> {
    v.map_values(|p: (String, String)| (p.0@, p.1@))
}

/// Copies a list of pairs of strings.
fn copy_pairs(v: &Vec<(String, String)>) -> (r: Vec<(String, String)>)
    ensures
        pair_texts(r@) == pair_texts(v@),
{
    let mut r: Vec<(String, String)> = Vec::new();
    for i in 0..v.len()
        invariant
            pair_texts(r@) == pair_texts(v@.take(i as int)),
    {
        let p = (v[i].0.clone(), v[i].1.clone());
        let ghost before = r@;
        r.push(p);
        proof {
            assert(r@ == before.push(p));
            assert(pair_texts(before).len() == before.len());
            assert(before.len() == i);
            assert forall|k: int| 0 <= k < i + 1 implies pair_texts(r@)[k] == pair_texts(v@.take(i + 1))[k] by {
                if k < i {
                    assert(r@[k] == before[k]);
                    assert(pair_texts(before)[k] == pair_texts(v@.take(i as int))[k]);
                }
            }
            assert(pair_texts(r@) =~= pair_texts(v@.take(i + 1)));
        }
    }
    assert(v@.take(v@.len() as int) =~= v@);
    r
}

/// Copies a list of strings.
fn copy_texts(v: &Vec<String>) -> (r: Vec<String>)
    ensures
        texts(r@) == texts(v@),
{
    let mut r: Vec<String> = Vec::new();
    for i in 0..v.len()
        invariant
            texts(r@) == texts(v@.take(i as int)),
    {
        let s = v[i].clone();
        let ghost before = r@;
        r.push(s);
        assert(r@ == before.push(s));
        assert(texts(r@) =~= texts(before).push(s@));
        assert(v@.take(i + 1) =~= v@.take(i as int).push(v@[i as int]));
        assert(texts(v@.take(i + 1)) =~= texts(v@.take(i as int)).push(v@[i as int]@));
    }
    assert(v@.take(v.len() as int) =~= v@);
    r
}

/// The properties with `key` set to `value`: replaced where it is set, else
/// added last.
pub open spec fn with_property(props: Seq<(Seq<char>, Seq<char>)>, key: Seq<char>, value: Seq<char>) -> Seq<
    (Seq<char>, Seq<char>),
> {
    if exists|i: int| 0 <= i < props.len() && props[i].0 == key {
        let i = choose|i: int| 0 <= i < props.len() && props[i].0 == key && forall|j: int| 0 <= j < i ==> props[j].0 != key;
        props.update(i, (key, value))
    } else {
        props.push((key, value))
    }
}

impl AgentMetadata {
    /// What the metadata holds.
    pub open spec fn info(&self) -> (Seq<char>, Seq<Seq<char>>, Seq<(Seq<char>, Seq<char>)>, AgentState) {
        (self.name@, texts(self.capabilities@), pair_texts(self.properties@), self.state)
    }

    /// Sets a property: replaces the first with the same key, else adds it.
    pub fn set_property(&mut self, key: &str, value: &str)
        ensures
            final(self).name@ == old(self).name@,
            final(self).agent_type@ == old(self).agent_type@,
            final(self).state == old(self).state,
            texts(final(self).capabilities@) == texts(old(self).capabilities@),
            pair_texts(final(self).properties@) == with_property(
                pair_texts(old(self).properties@),
                key@,
                value@,
            ),
    {
        let ghost props = pair_texts(self.properties@);
        let n = self.properties.len();
        let mut i: usize = 0;
        while i < n
            invariant
                n == self.properties@.len(),
                props == pair_texts(self.properties@),
                props == pair_texts(old(self).properties@),
                self.name == old(self).name,
                self.agent_type == old(self).agent_type,
                self.state == old(self).state,
                self.capabilities == old(self).capabilities,
                i <= n,
                forall|j: int| 0 <= j < i ==> props[j].0 != key@,
            decreases n - i,
        {
            let same = crate::sandbox::same_text(self.properties[i].0.as_str(), key);
            if same {
                let ghost before = self.properties@;
                self.properties.set(i, (key.to_string(), value.to_string()));
                proof {
                    assert(props[i as int].0 == key@);
                    let w = choose|w: int| 0 <= w < props.len() && props[w].0 == key@ && forall|j: int| 0 <= j < w ==> props[j].0 != key@;
                    if w < i {
                        assert(props[w].0 != key@);
                    } else if w > i {
                        assert(props[i as int].0 != key@);
                    }
                    assert(pair_texts(self.properties@) =~= props.update(i as int, (key@, value@)));
                }
                return;
            }
            i = i + 1;
        }
        let ghost before = self.properties@;
        self.properties.push((key.to_string(), value.to_string()));
        proof {
            if exists|j: int| 0 <= j < props.len() && props[j].0 == key@ {
                let j = choose|j: int| 0 <= j < props.len() && props[j].0 == key@;
                assert(props[j].0 != key@);
            }
            assert(pair_texts(self.properties@) =~= props.push((key@, value@)));
        }
    }
}

/// Health of an agent.
#[derive(Debug)]
pub struct HealthStatus {
    pub healthy: bool,
    /// When the check was made, in milliseconds since the Unix epoch.
    pub timestamp_millis: u64,
    pub details: Option<String>,
    pub inactive_seconds: i64,
}

/// Whole seconds from `last` to `now`, negative where `now` is earlier,
/// rounded toward zero.
pub open spec fn seconds_between(last: u64, now: u64) -> int {
    if now >= last {
        (now - last) / 1000
    } else {
        -((last - now) / 1000)
    }
}

/// Whether an agent in `state`, inactive for `inactive` seconds, is
/// healthy: a ready or processing agent active within five minutes, and a
/// suspended agent.
pub open spec fn agent_healthy(state: AgentState, inactive: int) -> bool {
    match state {
        AgentState::Ready | AgentState::Processing => inactive < 300,
        AgentState::Suspended => true,
        _ => false,
    }
}

/// The decimal text of a signed number.
pub open spec fn signed_text(n: int) -> Seq<char> {
    if n < 0 {
        "-"@ + decimal_text((-n) as nat)
    } else {
        decimal_text(n as nat)
    }
}

/// The details of an unhealthy agent.
pub open spec fn unhealthy_details(inactive: int, state: AgentState) -> Seq<char> {
    "Agent inactive for "@ + signed_text(inactive) + " seconds in state "@ + state_name(state)
}

/// The message for an unknown agent.
pub open spec fn agent_not_found_message(id: AgentId) -> Seq<char> {
    "Agent not found: "@ + hyphenated_text(id.value)
}

fn agent_not_found(id: AgentId) -> (e: CaxtonError)
    ensures
        e matches CaxtonError::Agent(m) && m@ == agent_not_found_message(id),
{
    CaxtonError::Agent(String::from_str("Agent not found: ").concat(id.to_uuid_string().as_str()))
}

/// Health of an agent in `state`, last active at `last_activity`, checked at `now`.
pub fn agent_health(state: AgentState, last_activity: u64, now: u64) -> (h: HealthStatus)
    ensures
        h.timestamp_millis == now,
        h.inactive_seconds == seconds_between(last_activity, now),
        h.healthy == agent_healthy(state, seconds_between(last_activity, now)),
        h.healthy ==> h.details is None,
        !h.healthy ==> (h.details matches Some(d) && d@ == unhealthy_details(
            seconds_between(last_activity, now),
            state,
        )),
{
    let inactive: i64 = if now >= last_activity {
        ((now - last_activity) / 1000) as i64
    } else {
        -(((last_activity - now) / 1000) as i64)
    };
    let healthy = match state {
        AgentState::Ready | AgentState::Processing => inactive < 300,
        AgentState::Suspended => true,
        _ => false,
    };
    let details = if healthy {
        None
    } else {
        let number = if inactive < 0 {
            String::from_str("-").concat(u128_text((-(inactive as i128)) as u128).as_str())
        } else {
            u128_text(inactive as u128)
        };
        Some(
            String::from_str("Agent inactive for ").concat(number.as_str()).concat(
                " seconds in state ",
            ).concat(state_text(state).as_str()),
        )
    };
    HealthStatus { healthy, timestamp_millis: now, details, inactive_seconds: inactive }
}

/// What the runtime knows of an agent with this metadata and usage.
pub open spec fn metadata_info(meta: AgentMetadata, usage: AgentResourceUsage) -> AgentInfo {
    AgentInfo {
        name: meta.name@,
        agent_type: meta.agent_type@,
        capabilities: texts(meta.capabilities@),
        properties: pair_texts(meta.properties@),
        state: meta.state,
        usage,
    }
}

/// A spawned agent.
pub struct AgentInstance {
    metadata: AgentMetadata,
    resource_usage: AgentResourceUsage,
}

impl AgentInstance {
    /// What the runtime knows of the agent.
    pub closed spec fn info(&self) -> AgentInfo {
        metadata_info(self.metadata, self.resource_usage)
    }
}

/// Counters of the runtime: agents spawned, agents active, messages
/// processed, memory used.
#[derive(Debug, Clone, Copy, PartialEq, Eq, Structural)]
pub struct GlobalMetrics {
    pub total_agents_spawned: u64,
    pub active_agents: u64,
    pub total_messages_processed: u64,
    pub total_memory_used: u64,
}

/// The runtime with its agents and message routes.
pub struct CaxtonRuntime {
    config: CaxtonConfig,
    agents: IdTable<AgentInstance>,
    message_routes: IdTable<Vec<String>>,
    global_metrics: GlobalMetrics,
    shutdown_signal: bool,
}

/// Each listed agent is routed, under the listed capabilities.
pub open spec fn all_routed(r: Seq<(AgentId, Vec<String>)>, routes: Map<u128, Seq<Seq<char>>>) -> bool {
    forall|j: int|
        0 <= j < r.len() ==> #[trigger] routes.contains_key(r[j].0.value) && texts(r[j].1@)
            == routes[r[j].0.value]
}

/// The memory estimate of each agent, in bytes: 1 MiB.
pub const ESTIMATED_AGENT_MEMORY: u64 = 1_048_576;

/// One more, wrapping at the largest value.
pub open spec fn wrap_inc(x: u64) -> u64 {
    if x == u64::MAX { 0 } else { (x + 1) as u64 }
}

/// One less, wrapping at zero.
pub open spec fn wrap_dec(x: u64) -> u64 {
    if x == 0 { u64::MAX } else { (x - 1) as u64 }
}

impl CaxtonRuntime {
    /// Well-formedness of the tables.
    pub closed spec fn wf(&self) -> bool {
        self.agents.wf() && self.message_routes.wf()
    }

    /// The agents by identifier value.
    pub closed spec fn agents(&self) -> Map<u128, AgentInfo> {
        self.agents.map().map_values(|a: AgentInstance| a.info())
    }

    /// The capabilities under which each routed agent receives messages.
    pub closed spec fn routes(&self) -> Map<u128, Seq<Seq<char>>> {
        self.message_routes.map().map_values(|v: Vec<String>| texts(v@))
    }

    /// The counters.
    pub closed spec fn metrics(&self) -> GlobalMetrics {
        self.global_metrics
    }

    /// The configuration.
    pub closed spec fn config(&self) -> CaxtonConfig {
        self.config
    }

    /// Whether the runtime is shutting down.
    pub closed spec fn shutting_down(&self) -> bool {
        self.shutdown_signal
    }

    /// A runtime with no agents.
    pub fn new(config: CaxtonConfig) -> (r: Result<Self, CaxtonError>)
        ensures
            r matches Ok(rt) && rt.wf() && rt.config() == config && rt.agents() == Map::<
                u128,
                AgentInfo,
            >::empty() && rt.routes() == Map::<u128, Seq<Seq<char>>>::empty() && rt.metrics() == (
            GlobalMetrics {
                total_agents_spawned: 0,
                active_agents: 0,
                total_messages_processed: 0,
                total_memory_used: 0,
            }) && !rt.shutting_down(),
    {
        let rt = CaxtonRuntime {
            config,
            agents: IdTable::new(),
            message_routes: IdTable::new(),
            global_metrics: GlobalMetrics {
                total_agents_spawned: 0,
                active_agents: 0,
                total_messages_processed: 0,
                total_memory_used: 0,
            },
            shutdown_signal: false,
        };
        assert(rt.agents() =~= Map::<u128, AgentInfo>::empty());
        assert(rt.routes() =~= Map::<u128, Seq<Seq<char>>>::empty());
        Ok(rt)
    }

    /// Spawns an agent under `agent_id` at time `now`: its metadata holds the
    /// configured name, type and capabilities, and its memory and timeout
    /// limits as properties; it is ready, with no usage yet; it receives
    /// messages under its capabilities; the spawned and active counters go
    /// up by one.
    pub fn spawn_agent_at(&mut self, config: AgentConfig, agent_id: AgentId, now: u64) -> (r: Result<
        AgentId,
        CaxtonError,
    >)
        requires
            old(self).wf(),
        ensures
            final(self).wf(),
            final(self).config() == old(self).config(),
            r == Ok::<AgentId, CaxtonError>(agent_id),
            final(self).agents().dom() == old(self).agents().dom().insert(agent_id.value),
            final(self).agents()[agent_id.value].name == config.name@,
            final(self).agents()[agent_id.value].agent_type == config.agent_type@,
            final(self).agents()[agent_id.value].capabilities == texts(config.capabilities@),
            final(self).agents()[agent_id.value].state == AgentState::Ready,
            final(self).agents()[agent_id.value].usage == (AgentResourceUsage {
                memory_bytes: 0,
                cpu_time_ms: 0,
                message_count: 0,
                last_activity_millis: now,
            }),
            final(self).agents()[agent_id.value].properties == {
                let p0 = Seq::<(Seq<char>, Seq<char>)>::empty();
                let p1 = match config.max_memory {
                    Some(m) => with_property(p0, "max_memory"@, decimal_text(m as nat)),
                    None => p0,
                };
                match config.timeout_ms {
                    Some(t) => with_property(p1, "timeout_ms"@, decimal_text(t as nat)),
                    None => p1,
                }
            },
            forall|k: u128|
                k != agent_id.value && #[trigger] old(self).agents().contains_key(k) ==> final(self).agents()[k] == old(self).agents()[k],
            final(self).routes() == old(self).routes().insert(
                agent_id.value,
                texts(config.capabilities@),
            ),
            final(self).metrics() == (GlobalMetrics {
                total_agents_spawned: wrap_inc(old(self).metrics().total_agents_spawned),
                active_agents: wrap_inc(old(self).metrics().active_agents),
                ..old(self).metrics()
            }),
    {
        let mut metadata = AgentMetadata {
            name: config.name.clone(),
            agent_type: config.agent_type.clone(),
            capabilities: copy_texts(&config.capabilities),
            properties: Vec::new(),
            state: AgentState::Ready,
        };
        assert(pair_texts(metadata.properties@) =~= Seq::<(Seq<char>, Seq<char>)>::empty());
        match config.max_memory {
            Some(m) => {
                metadata.set_property("max_memory", u128_text(m as u128).as_str());
            },
            None => {},
        }
        match config.timeout_ms {
            Some(t) => {
                metadata.set_property("timeout_ms", u128_text(t as u128).as_str());
            },
            None => {},
        }
        let route = copy_texts(&metadata.capabilities);
        let instance = AgentInstance {
            metadata,
            resource_usage: AgentResourceUsage {
                memory_bytes: 0,
                cpu_time_ms: 0,
                message_count: 0,
                last_activity_millis: now,
            },
        };
        let ghost info = instance.info();
        self.agents.upsert(agent_id.value, instance);
        self.message_routes.upsert(agent_id.value, route);
        self.global_metrics.total_agents_spawned = self.global_metrics.total_agents_spawned.wrapping_add(1);
        self.global_metrics.active_agents = self.global_metrics.active_agents.wrapping_add(1);
        proof {
            assert(self.agents() =~= old(self).agents().insert(agent_id.value, info));
            assert(self.routes() =~= old(self).routes().insert(
                agent_id.value,
                texts(config.capabilities@),
            ));
        }
        Ok(agent_id)
    }

    /// Whether `after` is `before` with the agent of `config` spawned under
    /// `agent_id` at time `now`, as `spawn_agent_at` does it.
    pub open spec fn spawned_at(before: Self, after: Self, config: AgentConfig, agent_id: AgentId, now: u64) -> bool {
        &&& after.config() == before.config()
        &&& after.agents().dom() == before.agents().dom().insert(agent_id.value)
        &&& after.agents()[agent_id.value].name == config.name@
        &&& after.agents()[agent_id.value].agent_type == config.agent_type@
        &&& after.agents()[agent_id.value].capabilities == texts(config.capabilities@)
        &&& after.agents()[agent_id.value].state == AgentState::Ready
        &&& after.agents()[agent_id.value].usage == (AgentResourceUsage {
            memory_bytes: 0,
            cpu_time_ms: 0,
            message_count: 0,
            last_activity_millis: now,
        })
        &&& after.agents()[agent_id.value].properties == {
            let p0 = Seq::<(Seq<char>, Seq<char>)>::empty();
            let p1 = match config.max_memory {
                Some(m) => with_property(p0, "max_memory"@, decimal_text(m as nat)),
                None => p0,
            };
            match config.timeout_ms {
                Some(t) => with_property(p1, "timeout_ms"@, decimal_text(t as nat)),
                None => p1,
            }
        }
        &&& forall|k: u128|
            k != agent_id.value && #[trigger] before.agents().contains_key(k) ==> after.agents()[k]
                == before.agents()[k]
        &&& after.routes() == before.routes().insert(agent_id.value, texts(config.capabilities@))
        &&& after.metrics() == (GlobalMetrics {
            total_agents_spawned: wrap_inc(before.metrics().total_agents_spawned),
            active_agents: wrap_inc(before.metrics().active_agents),
            ..before.metrics()
        })
    }

    /// Spawns an agent under a fresh identifier, stamped with the system
    /// clock: what `spawn_agent_at` does for the identifier generated and the
    /// time read.
    pub fn spawn_agent(&mut self, config: AgentConfig) -> (r: Result<AgentId, CaxtonError>)
        requires
            old(self).wf(),
        ensures
            final(self).wf(),
            r matches Ok(id) && final(self).agents().contains_key(id.value)
                && final(self).agents()[id.value].state == AgentState::Ready,
            r matches Ok(id) && exists|now: u64| #[trigger] Self::spawned_at(*old(self), *final(self), config, id, now),
    {
        let ghost before = *self;
        let ghost cfg = config;
        let id = AgentId::generate();
        let now = clock_now_millis();
        let r = self.spawn_agent_at(config, id, now);
        assert(Self::spawned_at(before, *self, cfg, id, now));
        r
    }

    /// Sets the state of an agent.
    fn set_state(&mut self, agent_id: AgentId, state: AgentState)
        requires
            old(self).wf(),
            old(self).agents().contains_key(agent_id.value),
        ensures
            final(self).wf(),
            final(self).config() == old(self).config(),
            final(self).routes() == old(self).routes(),
            final(self).metrics() == old(self).metrics(),
            final(self).shutting_down() == old(self).shutting_down(),
            final(self).agents() == old(self).agents().insert(
                agent_id.value,
                AgentInfo { state, ..old(self).agents()[agent_id.value] },
            ),
    {
        let ghost m0 = self.agents.map();
        let mut instance = match self.agents.remove(agent_id.value) {
            Some(a) => a,
            None => vstd::pervasive::unreached(),
        };
        instance.metadata.state = state;
        let ghost info = instance.info();
        self.agents.insert_new(agent_id.value, instance);
        proof {
            assert(self.agents() =~= old(self).agents().insert(agent_id.value, info));
        }
    }

    /// Terminates an agent: it is marked terminated, its route is removed,
    /// and the active counter goes down by one.
    pub fn terminate_agent(&mut self, agent_id: &AgentId, timeout_ms: u64) -> (r: Result<(), CaxtonError>)
        requires
            old(self).wf(),
        ensures
            final(self).wf(),
            final(self).config() == old(self).config(),
            final(self).shutting_down() == old(self).shutting_down(),
            !old(self).agents().contains_key(agent_id.value) ==> (r matches Err(CaxtonError::Agent(m))
                && m@ == agent_not_found_message(*agent_id)) && final(self).agents() == old(self).agents()
                && final(self).routes() == old(self).routes() && final(self).metrics() == old(self).metrics(),
            old(self).agents().contains_key(agent_id.value) ==> r is Ok && final(self).agents()
                == old(self).agents().insert(
                agent_id.value,
                AgentInfo { state: AgentState::Terminated, ..old(self).agents()[agent_id.value] },
            ) && final(self).routes() == old(self).routes().remove(agent_id.value)
                && final(self).metrics() == (GlobalMetrics {
                active_agents: wrap_dec(old(self).metrics().active_agents),
                ..old(self).metrics()
            }),
    {
        if !self.agents.contains_key(agent_id.value) {
            assert(!self.agents().contains_key(agent_id.value));
            return Err(agent_not_found(*agent_id));
        }
        assert(self.agents().contains_key(agent_id.value));
        self.set_state(*agent_id, AgentState::Terminating);
        self.set_state(*agent_id, AgentState::Terminated);
        let _ = self.message_routes.remove(agent_id.value);
        self.global_metrics.active_agents = self.global_metrics.active_agents.wrapping_sub(1);
        proof {
            assert(self.routes() =~= old(self).routes().remove(agent_id.value));
            assert(self.agents() =~= old(self).agents().insert(
                agent_id.value,
                AgentInfo { state: AgentState::Terminated, ..old(self).agents()[agent_id.value] },
            ));
        }
        Ok(())
    }

    /// Counts a message delivered to an agent at time `now`: refused where
    /// the agent has no route; else the processed counter goes up by one,
    /// and the agent's message count too, with its last activity at `now`.
    pub fn record_message_at(&mut self, receiver: AgentId, now: u64) -> (r: Result<(), CaxtonError>)
        requires
            old(self).wf(),
        ensures
            final(self).wf(),
            final(self).routes() == old(self).routes(),
            !old(self).routes().contains_key(receiver.value) ==> (r matches Err(CaxtonError::Agent(m))
                && m@ == agent_not_found_message(receiver)) && final(self).agents() == old(self).agents()
                && final(self).metrics() == old(self).metrics(),
            old(self).routes().contains_key(receiver.value) ==> r is Ok && final(self).metrics() == (
            GlobalMetrics {
                total_messages_processed: wrap_inc(old(self).metrics().total_messages_processed),
                ..old(self).metrics()
            }) && final(self).agents() == if old(self).agents().contains_key(receiver.value) {
                let a = old(self).agents()[receiver.value];
                old(self).agents().insert(
                    receiver.value,
                    AgentInfo {
                        usage: AgentResourceUsage {
                            message_count: wrap_inc(a.usage.message_count),
                            last_activity_millis: now,
                            ..a.usage
                        },
                        ..a
                    },
                )
            } else {
                old(self).agents()
            },
    {
        if !self.message_routes.contains_key(receiver.value) {
            assert(!self.routes().contains_key(receiver.value));
            return Err(agent_not_found(receiver));
        }
        self.global_metrics.total_messages_processed = self.global_metrics.total_messages_processed.wrapping_add(1);
        match self.agents.remove(receiver.value) {
            Some(mut instance) => {
                instance.resource_usage.message_count = instance.resource_usage.message_count.wrapping_add(1);
                instance.resource_usage.last_activity_millis = now;
                let ghost info = instance.info();
                self.agents.insert_new(receiver.value, instance);
                proof {
                    assert(self.agents() =~= old(self).agents().insert(receiver.value, info));
                }
            },
            None => {
                proof {
                    assert(self.agents() =~= old(self).agents());
                }
            },
        }
        Ok(())
    }

    /// An agent takes up a message at time `now`: it is marked processing
    /// and active at `now`. Nothing changes for an unknown agent.
    pub fn begin_processing_at(&mut self, agent_id: AgentId, now: u64)
        requires
            old(self).wf(),
        ensures
            final(self).wf(),
            final(self).config() == old(self).config(),
            final(self).routes() == old(self).routes(),
            final(self).metrics() == old(self).metrics(),
            final(self).shutting_down() == old(self).shutting_down(),
            final(self).agents() == if old(self).agents().contains_key(agent_id.value) {
                let a = old(self).agents()[agent_id.value];
                old(self).agents().insert(
                    agent_id.value,
                    AgentInfo {
                        state: AgentState::Processing,
                        usage: AgentResourceUsage { last_activity_millis: now, ..a.usage },
                        ..a
                    },
                )
            } else {
                old(self).agents()
            },
    {
        match self.agents.remove(agent_id.value) {
            Some(mut instance) => {
                instance.metadata.state = AgentState::Processing;
                instance.resource_usage.last_activity_millis = now;
                let ghost info = instance.info();
                self.agents.insert_new(agent_id.value, instance);
                proof {
                    assert(self.agents() =~= old(self).agents().insert(agent_id.value, info));
                }
            },
            None => {
                proof {
                    assert(self.agents() =~= old(self).agents());
                }
            },
        }
    }

    /// An agent is done with a message: it is marked ready. Nothing changes
    /// for an unknown agent.
    pub fn finish_processing(&mut self, agent_id: AgentId)
        requires
            old(self).wf(),
        ensures
            final(self).wf(),
            final(self).config() == old(self).config(),
            final(self).routes() == old(self).routes(),
            final(self).metrics() == old(self).metrics(),
            final(self).shutting_down() == old(self).shutting_down(),
            final(self).agents() == if old(self).agents().contains_key(agent_id.value) {
                old(self).agents().insert(
                    agent_id.value,
                    AgentInfo { state: AgentState::Ready, ..old(self).agents()[agent_id.value] },
                )
            } else {
                old(self).agents()
            },
    {
        if self.agents.contains_key(agent_id.value) {
            self.set_state(agent_id, AgentState::Ready);
        } else {
            assert(!self.agents().contains_key(agent_id.value));
        }
    }

    /// One pass of the metrics collector at time `now`: every agent's
    /// memory estimate becomes 1 MiB, the memory counter becomes their sum,
    /// and the agents inactive for more than 600 seconds are given back.
    pub fn collect_agent_metrics_at(&mut self, now: u64) -> (unhealthy: Vec<AgentId>)
        requires
            old(self).wf(),
            old(self).agents().dom().len() * ESTIMATED_AGENT_MEMORY <= u64::MAX,
        ensures
            final(self).wf(),
            final(self).config() == old(self).config(),
            final(self).routes() == old(self).routes(),
            final(self).shutting_down() == old(self).shutting_down(),
            final(self).metrics() == (GlobalMetrics {
                total_memory_used: (old(self).agents().dom().len() * ESTIMATED_AGENT_MEMORY) as u64,
                ..old(self).metrics()
            }),
            final(self).agents().dom() == old(self).agents().dom(),
            forall|k: u128| #[trigger]
                old(self).agents().contains_key(k) ==> final(self).agents()[k] == (AgentInfo {
                    usage: AgentResourceUsage {
                        memory_bytes: ESTIMATED_AGENT_MEMORY as u64,
                        ..old(self).agents()[k].usage
                    },
                    ..old(self).agents()[k]
                }),
            unhealthy@.no_duplicates(),
            forall|a: AgentId| #[trigger]
                unhealthy@.contains(a) <==> old(self).agents().contains_key(a.value) && seconds_between(
                    old(self).agents()[a.value].usage.last_activity_millis,
                    now,
                ) > 600,
    {
        let ghost m0 = self.agents();
        let ghost e0 = self.agents.entries();
        proof {
            self.agents.lemma_wf();
        }
        let n = self.agents.len();
        let mut keys: Vec<u128> = Vec::new();
        let mut i: usize = 0;
        while i < n
            invariant
                n == e0.len(),
                e0 == self.agents.entries(),
                self.agents.wf(),
                i <= n,
                keys@.len() == i,
                forall|j: int| 0 <= j < i ==> #[trigger] keys@[j] == e0[j].0,
            decreases n - i,
        {
            let (k, _) = self.agents.entry_at(i);
            keys.push(k);
            i = i + 1;
        }
        proof {
            self.agents.lemma_wf();
            assert(m0.dom() =~= self.agents.map().dom());
            assert forall|k: u128| m0.contains_key(k) implies exists|a: int| 0 <= a < n && #[trigger] e0[a].0 == k by {
                assert(self.agents.map().contains_key(k));
            }
        }
        let mut unhealthy: Vec<AgentId> = Vec::new();
        let mut total: u64 = 0;
        let mut j: usize = 0;
        while j < n
            invariant
                n == e0.len(),
                n == keys@.len(),
                keys_unique(e0),
                forall|a: int| 0 <= a < n ==> #[trigger] keys@[a] == e0[a].0,
                m0.dom().len() == n,
                m0.dom().finite(),
                forall|a: int| 0 <= a < n ==> m0.contains_key(#[trigger] e0[a].0),
                forall|k: u128| m0.contains_key(k) ==> exists|a: int| 0 <= a < n && #[trigger] e0[a].0 == k,
                self.wf(),
                self.config == old(self).config,
                self.message_routes == old(self).message_routes,
                self.shutdown_signal == old(self).shutdown_signal,
                self.global_metrics == old(self).global_metrics,
                j <= n,
                n * ESTIMATED_AGENT_MEMORY <= u64::MAX,
                total == j * ESTIMATED_AGENT_MEMORY,
                self.agents().dom() == m0.dom(),
                forall|k: u128| #[trigger]
                    m0.contains_key(k) ==> self.agents()[k] == if (exists|a: int| 0 <= a < j && e0[a].0 == k) {
                        AgentInfo {
                            usage: AgentResourceUsage { memory_bytes: ESTIMATED_AGENT_MEMORY as u64, ..m0[k].usage },
                            ..m0[k]
                        }
                    } else {
                        m0[k]
                    },
                unhealthy@.no_duplicates(),
                forall|a: AgentId| #[trigger]
                    unhealthy@.contains(a) <==> (exists|b: int| 0 <= b < j && e0[b].0 == a.value) && seconds_between(
                        m0[a.value].usage.last_activity_millis,
                        now,
                    ) > 600,
            decreases n - j,
        {
            let k = keys[j];
            assert(m0.contains_key(e0[j as int].0));
            assert(!(exists|a: int| 0 <= a < j && e0[a].0 == k)) by {
                if exists|a: int| 0 <= a < j && e0[a].0 == k {
                    let a = choose|a: int| 0 <= a < j && e0[a].0 == k;
                    assert(e0[a].0 == e0[j as int].0);
                }
            }
            let ghost pa = self.agents();
            assert(pa[k] == m0[k]);
            let mut instance = match self.agents.remove(k) {
                Some(a) => a,
                None => {
                    assert(self.agents().contains_key(k));
                    vstd::pervasive::unreached()
                },
            };
            assert(instance.info() == pa[k]);
            let last = instance.resource_usage.last_activity_millis;
            assert(m0[k].usage.last_activity_millis == last);
            let inactive_ms: u64 = if now >= last { now - last } else { 0 };
            let ghost prev = unhealthy@;
            if now >= last && inactive_ms / 1000 > 600 {
                unhealthy.push(AgentId::new(k));
                proof {
                    assert forall|a: AgentId| #[trigger] unhealthy@.contains(a) <==> (exists|b: int|
                        0 <= b < j + 1 && e0[b].0 == a.value) && seconds_between(
                        m0[a.value].usage.last_activity_millis,
                        now,
                    ) > 600 by {
                        if unhealthy@.contains(a) && a != (AgentId { value: k }) {
                            let c = choose|c: int| 0 <= c < unhealthy@.len() && unhealthy@[c] == a;
                            assert(prev[c] == a);
                            assert(prev.contains(a));
                        }
                        if a == (AgentId { value: k }) {
                            assert(unhealthy@[prev.len() as int] == a);
                            assert(e0[j as int].0 == a.value);
                        } else if (exists|b: int| 0 <= b < j + 1 && e0[b].0 == a.value) && seconds_between(
                            m0[a.value].usage.last_activity_millis,
                            now,
                        ) > 600 {
                            let b = choose|b: int| 0 <= b < j + 1 && e0[b].0 == a.value;
                            assert(b != j);
                            assert(prev.contains(a));
                            let c = choose|c: int| 0 <= c < prev.len() && prev[c] == a;
                            assert(unhealthy@[c] == a);
                        }
                    }
                    assert forall|x: int, y: int| 0 <= x < y < unhealthy@.len() implies unhealthy@[x] != unhealthy@[y] by {
                        if y == prev.len() {
                            assert(unhealthy@[x] == prev[x]);
                            assert(prev.contains(prev[x]));
                        }
                    }
                }
            } else {
                proof {
                    assert forall|a: AgentId| #[trigger] unhealthy@.contains(a) <==> (exists|b: int|
                        0 <= b < j + 1 && e0[b].0 == a.value) && seconds_between(
                        m0[a.value].usage.last_activity_millis,
                        now,
                    ) > 600 by {
                        if (exists|b: int| 0 <= b < j + 1 && e0[b].0 == a.value) && seconds_between(
                            m0[a.value].usage.last_activity_millis,
                            now,
                        ) > 600 {
                            let b = choose|b: int| 0 <= b < j + 1 && e0[b].0 == a.value;
                            if b == j {
                                assert(m0[k].usage.last_activity_millis == last);
                            }
                        }
                    }
                }
            }
            instance.resource_usage.memory_bytes = ESTIMATED_AGENT_MEMORY as u64;
            let ghost info = instance.info();
            self.agents.insert_new(k, instance);
            total = total + ESTIMATED_AGENT_MEMORY as u64;
            proof {
                assert(self.agents() =~= pa.insert(k, info));
                assert forall|kk: u128| #[trigger] m0.contains_key(kk) implies self.agents()[kk] == if (exists|a: int|
                    0 <= a < j + 1 && e0[a].0 == kk) {
                    AgentInfo {
                        usage: AgentResourceUsage { memory_bytes: ESTIMATED_AGENT_MEMORY as u64, ..m0[kk].usage },
                        ..m0[kk]
                    }
                } else {
                    m0[kk]
                } by {
                    if kk == k {
                        assert(e0[j as int].0 == kk);
                    } else if exists|a: int| 0 <= a < j + 1 && e0[a].0 == kk {
                        let a = choose|a: int| 0 <= a < j + 1 && e0[a].0 == kk;
                        assert(a != j);
                    }
                }
                assert(self.agents().dom() =~= m0.dom());
            }
            j = j + 1;
        }
        self.global_metrics.total_memory_used = total;
        unhealthy
    }

    /// A copy of an agent's metadata and its resource usage.
    pub fn get_agent_metadata(&self, agent_id: &AgentId) -> (r: Result<
        (AgentMetadata, AgentResourceUsage),
        CaxtonError,
    >)
        requires
            self.wf(),
        ensures
            !self.agents().contains_key(agent_id.value) ==> (r matches Err(CaxtonError::Agent(m)) && m@
                == agent_not_found_message(*agent_id)),
            self.agents().contains_key(agent_id.value) ==> (r matches Ok((meta, usage)) && metadata_info(
                meta,
                usage,
            ) == self.agents()[agent_id.value]),
    {
        match self.agents.get(agent_id.value) {
            Some(instance) => {
                let meta = &instance.metadata;
                let copy = AgentMetadata {
                    name: meta.name.clone(),
                    agent_type: meta.agent_type.clone(),
                    capabilities: copy_texts(&meta.capabilities),
                    properties: copy_pairs(&meta.properties),
                    state: meta.state,
                };
                let usage = instance.resource_usage;
                proof {
                    assert(metadata_info(copy, usage) =~= instance.info());
                }
                Ok((copy, usage))
            },
            None => Err(agent_not_found(*agent_id)),
        }
    }

    /// The state of an agent.
    pub fn get_agent_state(&self, agent_id: &AgentId) -> (r: Result<AgentState, CaxtonError>)
        requires
            self.wf(),
        ensures
            !self.agents().contains_key(agent_id.value) ==> (r matches Err(CaxtonError::Agent(m)) && m@
                == agent_not_found_message(*agent_id)),
            self.agents().contains_key(agent_id.value) ==> (r matches Ok(s) && s
                == self.agents()[agent_id.value].state),
    {
        match self.agents.get(agent_id.value) {
            Some(a) => Ok(a.metadata.state),
            None => Err(agent_not_found(*agent_id)),
        }
    }

    /// Suspends an agent; refused for a terminating or terminated agent.
    pub fn suspend_agent(&mut self, agent_id: &AgentId) -> (r: Result<(), CaxtonError>)
        requires
            old(self).wf(),
        ensures
            final(self).wf(),
            final(self).routes() == old(self).routes(),
            final(self).metrics() == old(self).metrics(),
            !old(self).agents().contains_key(agent_id.value) ==> (r matches Err(CaxtonError::Agent(m))
                && m@ == agent_not_found_message(*agent_id)) && final(self).agents() == old(self).agents(),
            ({
                let a = old(self).agents()[agent_id.value];
                old(self).agents().contains_key(agent_id.value) && (a.state == AgentState::Terminated
                    || a.state == AgentState::Terminating) ==> (r matches Err(CaxtonError::Agent(m))
                    && m@ == "Cannot suspend agent in state: "@ + state_name(a.state)) && final(self).agents() == old(self).agents()
            }),
            ({
                let a = old(self).agents()[agent_id.value];
                old(self).agents().contains_key(agent_id.value) && !(a.state == AgentState::Terminated
                    || a.state == AgentState::Terminating) ==> r is Ok && final(self).agents() == old(self).agents().insert(agent_id.value, AgentInfo { state: AgentState::Suspended, ..a })
            }),
    {
        let state = match self.agents.get(agent_id.value) {
            Some(a) => a.metadata.state,
            None => {
                return Err(agent_not_found(*agent_id));
            },
        };
        if state == AgentState::Terminated || state == AgentState::Terminating {
            return Err(
                CaxtonError::Agent(
                    String::from_str("Cannot suspend agent in state: ").concat(state_text(state).as_str()),
                ),
            );
        }
        self.set_state(*agent_id, AgentState::Suspended);
        Ok(())
    }

    /// Resumes a suspended agent; refused for an agent that is not suspended.
    pub fn resume_agent(&mut self, agent_id: &AgentId) -> (r: Result<(), CaxtonError>)
        requires
            old(self).wf(),
        ensures
            final(self).wf(),
            final(self).routes() == old(self).routes(),
            final(self).metrics() == old(self).metrics(),
            !old(self).agents().contains_key(agent_id.value) ==> (r matches Err(CaxtonError::Agent(m))
                && m@ == agent_not_found_message(*agent_id)) && final(self).agents() == old(self).agents(),
            ({
                let a = old(self).agents()[agent_id.value];
                old(self).agents().contains_key(agent_id.value) && a.state != AgentState::Suspended ==> (
                r matches Err(CaxtonError::Agent(m)) && m@ == "Agent is not suspended: "@ + state_name(
                    a.state,
                )) && final(self).agents() == old(self).agents()
            }),
            ({
                let a = old(self).agents()[agent_id.value];
                old(self).agents().contains_key(agent_id.value) && a.state == AgentState::Suspended ==> r
                    is Ok && final(self).agents() == old(self).agents().insert(
                    agent_id.value,
                    AgentInfo { state: AgentState::Ready, ..a },
                )
            }),
    {
        let state = match self.agents.get(agent_id.value) {
            Some(a) => a.metadata.state,
            None => {
                return Err(agent_not_found(*agent_id));
            },
        };
        if state != AgentState::Suspended {
            return Err(
                CaxtonError::Agent(
                    String::from_str("Agent is not suspended: ").concat(state_text(state).as_str()),
                ),
            );
        }
        self.set_state(*agent_id, AgentState::Ready);
        Ok(())
    }

    /// Removes an agent at once, with its route; the active counter goes
    /// down by one.
    pub fn force_terminate_agent(&mut self, agent_id: &AgentId) -> (r: Result<(), CaxtonError>)
        requires
            old(self).wf(),
        ensures
            final(self).wf(),
            !old(self).agents().contains_key(agent_id.value) ==> (r matches Err(CaxtonError::Agent(m))
                && m@ == agent_not_found_message(*agent_id)) && final(self).agents() == old(self).agents()
                && final(self).routes() == old(self).routes() && final(self).metrics() == old(self).metrics(),
            old(self).agents().contains_key(agent_id.value) ==> r is Ok && final(self).agents()
                == old(self).agents().remove(agent_id.value) && final(self).routes() == old(self).routes().remove(agent_id.value) && final(self).metrics() == (GlobalMetrics {
                active_agents: wrap_dec(old(self).metrics().active_agents),
                ..old(self).metrics()
            }),
    {
        match self.agents.remove(agent_id.value) {
            Some(_) => {},
            None => {
                assert(!old(self).agents().contains_key(agent_id.value));
                return Err(agent_not_found(*agent_id));
            },
        }
        let _ = self.message_routes.remove(agent_id.value);
        self.global_metrics.active_agents = self.global_metrics.active_agents.wrapping_sub(1);
        proof {
            assert(self.agents() =~= old(self).agents().remove(agent_id.value));
            assert(self.routes() =~= old(self).routes().remove(agent_id.value));
        }
        Ok(())
    }

    /// The resource usage of an agent.
    pub fn get_agent_resource_usage(&self, agent_id: &AgentId) -> (r: Result<
        AgentResourceUsage,
        CaxtonError,
    >)
        requires
            self.wf(),
        ensures
            !self.agents().contains_key(agent_id.value) ==> (r matches Err(CaxtonError::Agent(m)) && m@
                == agent_not_found_message(*agent_id)),
            self.agents().contains_key(agent_id.value) ==> (r matches Ok(u) && u
                == self.agents()[agent_id.value].usage),
    {
        match self.agents.get(agent_id.value) {
            Some(a) => Ok(a.resource_usage),
            None => Err(agent_not_found(*agent_id)),
        }
    }

    /// Records new limits of an agent as its `max_memory` and
    /// `max_cpu_time_ms` properties.
    pub fn update_agent_limits(
        &mut self,
        agent_id: &AgentId,
        max_memory: Option<u64>,
        max_cpu_time_ms: Option<u64>,
    ) -> (r: Result<(), CaxtonError>)
        requires
            old(self).wf(),
        ensures
            final(self).wf(),
            final(self).routes() == old(self).routes(),
            final(self).metrics() == old(self).metrics(),
            !old(self).agents().contains_key(agent_id.value) ==> (r matches Err(CaxtonError::Agent(m))
                && m@ == agent_not_found_message(*agent_id)) && final(self).agents() == old(self).agents(),
            old(self).agents().contains_key(agent_id.value) ==> r is Ok && final(self).agents().dom()
                == old(self).agents().dom() && ({
                let a = old(self).agents()[agent_id.value];
                let p1 = match max_memory {
                    Some(m) => with_property(a.properties, "max_memory"@, decimal_text(m as nat)),
                    None => a.properties,
                };
                let p2 = match max_cpu_time_ms {
                    Some(c) => with_property(p1, "max_cpu_time_ms"@, decimal_text(c as nat)),
                    None => p1,
                };
                final(self).agents()[agent_id.value] == AgentInfo { properties: p2, ..a }
            }),
    {
        let ghost m0 = self.agents.map();
        let mut instance = match self.agents.remove(agent_id.value) {
            Some(a) => a,
            None => {
                assert(!old(self).agents().contains_key(agent_id.value));
                return Err(agent_not_found(*agent_id));
            },
        };
        match max_memory {
            Some(m) => {
                instance.metadata.set_property("max_memory", u128_text(m as u128).as_str());
            },
            None => {},
        }
        match max_cpu_time_ms {
            Some(c) => {
                instance.metadata.set_property("max_cpu_time_ms", u128_text(c as u128).as_str());
            },
            None => {},
        }
        let ghost info = instance.info();
        self.agents.insert_new(agent_id.value, instance);
        proof {
            assert(self.agents() =~= old(self).agents().insert(agent_id.value, info));
            assert(self.agents().dom() =~= old(self).agents().dom());
        }
        Ok(())
    }

    /// Health of an agent checked at time `now`.
    pub fn health_check_agent_at(&self, agent_id: &AgentId, now: u64) -> (r: Result<
        HealthStatus,
        CaxtonError,
    >)
        requires
            self.wf(),
        ensures
            !self.agents().contains_key(agent_id.value) ==> (r matches Err(CaxtonError::Agent(m)) && m@
                == agent_not_found_message(*agent_id)),
            self.agents().contains_key(agent_id.value) ==> (r matches Ok(h) && h.healthy
                == agent_healthy(
                self.agents()[agent_id.value].state,
                seconds_between(self.agents()[agent_id.value].usage.last_activity_millis, now),
            ) && h.timestamp_millis == now && h.inactive_seconds == seconds_between(
                self.agents()[agent_id.value].usage.last_activity_millis,
                now,
            ) && (h.healthy ==> h.details is None) && (!h.healthy ==> (h.details matches Some(d) && d@
                == unhealthy_details(
                seconds_between(self.agents()[agent_id.value].usage.last_activity_millis, now),
                self.agents()[agent_id.value].state,
            )))),
    {
        match self.agents.get(agent_id.value) {
            Some(a) => Ok(agent_health(a.metadata.state, a.resource_usage.last_activity_millis, now)),
            None => Err(agent_not_found(*agent_id)),
        }
    }

    /// Whether `r` is the health of an agent checked at time `now`, as
    /// `health_check_agent_at` reports it.
    pub open spec fn health_at(self, agent_id: AgentId, now: u64, r: Result<HealthStatus, CaxtonError>) -> bool {
        &&& !self.agents().contains_key(agent_id.value) ==> (r matches Err(CaxtonError::Agent(m)) && m@
            == agent_not_found_message(agent_id))
        &&& self.agents().contains_key(agent_id.value) ==> {
            let info = self.agents()[agent_id.value];
            let idle = seconds_between(info.usage.last_activity_millis, now);
            r matches Ok(h) && h.healthy == agent_healthy(info.state, idle) && h.timestamp_millis == now
                && h.inactive_seconds == idle && (h.healthy ==> h.details is None) && (!h.healthy ==> (h.details matches Some(d) && d@ == unhealthy_details(idle, info.state)))
        }
    }

    /// Health of an agent checked now by the system clock: what
    /// `health_check_agent_at` reports for the time read.
    pub fn health_check_agent(&self, agent_id: &AgentId) -> (r: Result<HealthStatus, CaxtonError>)
        requires
            self.wf(),
        ensures
            r is Ok <==> self.agents().contains_key(agent_id.value),
            exists|now: u64| #[trigger] self.health_at(*agent_id, now, r),
    {
        let now = clock_now_millis();
        let r = self.health_check_agent_at(agent_id, now);
        assert(self.health_at(*agent_id, now, r));
        r
    }

    /// The counters: agents spawned, agents active, messages processed,
    /// memory used.
    pub fn get_metrics(&self) -> (m: (u64, u64, u64, u64))
        ensures
            m == (
                self.metrics().total_agents_spawned,
                self.metrics().active_agents,
                self.metrics().total_messages_processed,
                self.metrics().total_memory_used,
            ),
    {
        (
            self.global_metrics.total_agents_spawned,
            self.global_metrics.active_agents,
            self.global_metrics.total_messages_processed,
            self.global_metrics.total_memory_used,
        )
    }

    /// The routed agents with their capabilities, in route order.
    pub fn list_agents(&self) -> (r: Vec<(AgentId, Vec<String>)>)
        requires
            self.wf(),
        ensures
            r@.len() == self.routes().dom().len(),
            all_routed(r@, self.routes()),
            forall|i: int, j: int|
                0 <= i < r@.len() && 0 <= j < r@.len() && i != j ==> #[trigger] r@[i].0 != #[trigger] r@[j].0,
            forall|k: u128|
                #[trigger] self.routes().contains_key(k) ==> exists|j: int| 0 <= j < r@.len() && r@[j].0.value == k,
    {
        let mut r: Vec<(AgentId, Vec<String>)> = Vec::new();
        let n = self.message_routes.len();
        proof {
            self.message_routes.lemma_wf();
        }
        for i in 0..n
            invariant
                n == self.message_routes.entries().len(),
                self.message_routes.wf(),
                r@.len() == i,
                all_routed(r@, self.routes()),
                forall|j: int| 0 <= j < i ==> #[trigger] r@[j].0.value == self.message_routes.entries()[j].0,
        {
            proof {
                self.message_routes.lemma_wf();
            }
            let (k, caps) = self.message_routes.entry_at(i);
            let copy = copy_texts(caps);
            let ghost before = r@;
            proof {
                assert(self.message_routes.map().contains_key(self.message_routes.entries()[i as int].0));
                assert(self.message_routes.map()[k] == *caps);
                assert(self.routes().contains_key(k));
                assert(self.routes()[k] == texts(caps@));
            }
            let pair = (AgentId::new(k), copy);
            let ghost pv = pair;
            r.push(pair);
            proof {
                assert(r@[i as int] == pv);
                assert(pv.0.value == k);
                assert(texts(pv.1@) == self.routes()[k]);
                assert forall|j: int| 0 <= j < r@.len() implies #[trigger] self.routes().contains_key(
                    r@[j].0.value,
                ) && texts(r@[j].1@) == self.routes()[r@[j].0.value] by {
                    if j < i {
                        assert(r@[j] == before[j]);
                        assert(all_routed(before, self.routes()));
                        assert(self.routes().contains_key(before[j].0.value));
                        assert(texts(before[j].1@) == self.routes()[before[j].0.value]);
                    } else {
                        assert(j == i);
                        assert(r@[j] == pv);
                    }
                }
            }
        }
        proof {
            self.message_routes.lemma_wf();
            assert(self.routes().dom() =~= self.message_routes.map().dom());
            let e = self.message_routes.entries();
            assert forall|i: int, j: int|
                0 <= i < r@.len() && 0 <= j < r@.len() && i != j implies #[trigger] r@[i].0 != #[trigger] r@[j].0 by {
                assert(r@[i].0.value == e[i].0);
                assert(r@[j].0.value == e[j].0);
            }
            assert forall|k: u128| #[trigger] self.routes().contains_key(k) implies exists|j: int|
                0 <= j < r@.len() && r@[j].0.value == k by {
                assert(self.message_routes.map().contains_key(k));
                let j = crate::table::seq_key_index(e, k);
                assert(r@[j].0.value == e[j].0);
            }
        }
        r
    }

    /// Marks the runtime as shutting down and terminates every agent.
    pub fn shutdown(&mut self, timeout_ms: u64) -> (r: Result<(), CaxtonError>)
        requires
            old(self).wf(),
        ensures
            final(self).wf(),
            r is Ok,
            final(self).shutting_down(),
            final(self).agents().dom() == old(self).agents().dom(),
            forall|k: u128| #[trigger] final(self).agents().contains_key(k) ==> final(self).agents()[k].state
                == AgentState::Terminated,
            forall|k: u128| old(self).agents().contains_key(k) ==> !#[trigger] final(self).routes().contains_key(k),
    {
        self.shutdown_signal = true;
        let mut ids: Vec<u128> = Vec::new();
        let n = self.agents.len();
        proof {
            self.agents.lemma_wf();
        }
        for i in 0..n
            invariant
                n == self.agents.entries().len(),
                self.agents.wf(),
                ids@.len() == i,
                forall|j: int| 0 <= j < i ==> #[trigger] ids@[j] == self.agents.entries()[j].0,
        {
            let (k, _) = self.agents.entry_at(i);
            ids.push(k);
        }
        proof {
            self.agents.lemma_wf();
            assert forall|k: u128| #[trigger] self.agents().contains_key(k) implies ids@.contains(k) by {
                let j = choose|j: int| 0 <= j < self.agents.entries().len() && self.agents.entries()[j].0 == k;
                assert(ids@[j] == k);
            }
            assert forall|j: int| 0 <= j < ids@.len() implies #[trigger] self.agents().contains_key(ids@[j]) by {
                assert(self.agents.map().contains_key(self.agents.entries()[j].0));
            }
        }
        let ghost dom0 = self.agents().dom();
        for i in 0..ids.len()
            invariant
                self.wf(),
                self.shutting_down(),
                self.agents().dom() == dom0,
                forall|k: u128| dom0.contains(k) ==> #[trigger] ids@.contains(k),
                forall|j: int| 0 <= j < ids@.len() ==> dom0.contains(#[trigger] ids@[j]),
                forall|j: int| 0 <= j < i ==> self.agents()[#[trigger] ids@[j]].state == AgentState::Terminated
                    && !self.routes().contains_key(ids@[j]),
        {
            let id = AgentId::new(ids[i]);
            let ghost before_agents = self.agents();
            let ghost before_routes = self.routes();
            let _ = self.terminate_agent(&id, timeout_ms);
            proof {
                assert(dom0.contains(ids@[i as int]));
                assert(before_agents.contains_key(ids@[i as int]));
                assert(self.agents() == before_agents.insert(
                    ids@[i as int],
                    AgentInfo { state: AgentState::Terminated, ..before_agents[ids@[i as int]] },
                ));
                assert(self.routes() == before_routes.remove(ids@[i as int]));
                assert(self.agents().dom() =~= dom0);
                assert forall|j: int| 0 <= j < i + 1 implies self.agents()[#[trigger] ids@[j]].state
                    == AgentState::Terminated && !self.routes().contains_key(ids@[j]) by {
                    if j < i {
                        if ids@[j] != ids@[i as int] {
                            assert(before_agents[ids@[j]].state == AgentState::Terminated);
                            assert(!before_routes.contains_key(ids@[j]));
                        }
                    }
                }
            }
        }
        proof {
            assert forall|k: u128| #[trigger] self.agents().contains_key(k) implies self.agents()[k].state
                == AgentState::Terminated by {
                assert(ids@.contains(k));
                let j = choose|j: int| 0 <= j < ids@.len() && ids@[j] == k;
                assert(self.agents()[ids@[j]].state == AgentState::Terminated);
            }
            assert forall|k: u128| old(self).agents().contains_key(k) implies !#[trigger] self.routes().contains_key(k) by {
                assert(dom0.contains(k));
                assert(ids@.contains(k));
                let j = choose|j: int| 0 <= j < ids@.len() && ids@[j] == k;
                assert(!self.routes().contains_key(ids@[j]));
            }
        }
        Ok(())
    }
}

} // verus!
