//! The WebAssembly runtime: deployment of agents up to a limit, their
//! lifecycle (loaded, running, draining, stopped), execution with fuel
//! accounting, and removal with release of their resources.

use vstd::prelude::*;
use crate::ids::{hyphenated_text, AgentId};
use crate::resource_manager::{ResourceLimits, ResourceManager, SimpleFuelTracker};
use crate::sandbox::{call_fuel, ExecutionResult, Sandbox};
use crate::security::SecurityPolicy;
use crate::config::u128_text;
use crate::table::IdTable;
use crate::text::decimal_text;

verus! {

broadcast use vstd::string::group_string_axioms;

/// Configuration of the WebAssembly runtime.
#[derive(Debug, Clone)]
pub struct WasmRuntimeConfig {
    /// Resource limits of each agent.
    pub resource_limits: ResourceLimits,
    /// Security policy of agent execution.
    pub security_policy: SecurityPolicy,
    /// Largest number of agents at a time.
    pub max_agents: usize,
    /// Debug mode.
    pub enable_debug: bool,
}

impl Default for WasmRuntimeConfig {
    /// Default limits and policy, at most one thousand agents, no debug mode.
    fn default() -> (c: Self)
        ensures
            c.max_agents == 1000,
            !c.enable_debug,
            c.resource_limits.max_cpu_fuel@ == 1_000_000,
            c.security_policy.enable_fuel_metering,
    {
        WasmRuntimeConfig {
            resource_limits: ResourceLimits::default(),
            security_policy: SecurityPolicy::default(),
            max_agents: 1000,
            enable_debug: false,
        }
    }
}

/// Lifecycle state of a deployed agent.
#[derive(Debug, Clone, Copy, PartialEq, Eq, Structural)]
pub enum AgentState {
    Unloaded,
    Loaded,
    Running,
    Draining,
    Stopped,
}

/// The name of a state, as it is written in messages.
pub open spec fn state_name(s: AgentState) -> Seq<char> {
    match s {
        AgentState::Unloaded => "Unloaded"@,
        AgentState::Loaded => "Loaded"@,
        AgentState::Running => "Running"@,
        AgentState::Draining => "Draining"@,
        AgentState::Stopped => "Stopped"@,
    }
}

/// The name of a state.
pub fn state_text(s: AgentState) -> (t: String)
    ensures
        t@ == state_name(s),
{
    match s {
        AgentState::Unloaded => String::from_str("Unloaded"),
        AgentState::Loaded => String::from_str("Loaded"),
        AgentState::Running => String::from_str("Running"),
        AgentState::Draining => String::from_str("Draining"),
        AgentState::Stopped => String::from_str("Stopped"),
    }
}

/// Resource usage of one agent.
#[derive(Debug, Clone, Copy, Default, PartialEq, Eq, Structural)]
pub struct ResourceUsage {
    /// Memory in bytes.
    pub memory_bytes: usize,
    /// Fuel consumed.
    pub cpu_fuel_consumed: u64,
    /// Messages processed.
    pub message_count: usize,
}

impl ResourceUsage {
    /// Usage with every figure at zero.
    pub fn new() -> (u: Self)
        ensures
            u.memory_bytes == 0,
            u.cpu_fuel_consumed == 0,
            u.message_count == 0,
    {
        ResourceUsage { memory_bytes: 0, cpu_fuel_consumed: 0, message_count: 0 }
    }

    /// Sets the memory figure.
    pub fn update_memory(&mut self, bytes: usize)
        ensures
            *final(self) == (ResourceUsage { memory_bytes: bytes, ..*old(self) }),
    {
        self.memory_bytes = bytes;
    }

    /// Adds consumed fuel.
    pub fn update_cpu(&mut self, fuel: u64)
        requires
            old(self).cpu_fuel_consumed + fuel <= u64::MAX,
        ensures
            *final(self) == (ResourceUsage {
                cpu_fuel_consumed: (old(self).cpu_fuel_consumed + fuel) as u64,
                ..*old(self)
            }),
    {
        self.cpu_fuel_consumed = self.cpu_fuel_consumed + fuel;
    }

    /// Counts a message.
    pub fn increment_message_count(&mut self)
        requires
            old(self).message_count < usize::MAX,
        ensures
            *final(self) == (ResourceUsage {
                message_count: (old(self).message_count + 1) as usize,
                ..*old(self)
            }),
    {
        self.message_count = self.message_count + 1;
    }
}

/// A deployed agent.
pub struct Agent {
    id: AgentId,
    name: String,
    sandbox: Sandbox,
    state: AgentState,
    resource_usage: ResourceUsage,
}

/// What the runtime knows of a deployed agent.
pub struct AgentView {
    pub name: Seq<char>,
    pub state: AgentState,
    pub usage: ResourceUsage,
    pub initialized: bool,
    pub fuel: u64,
    pub memory: usize,
    pub exposed: Seq<Seq<char>>,
}

/// How an execution changes an agent's usage: a successful one adds the
/// fuel it consumed to the agent's recorded fuel (staying at the largest
/// value once reached); a failed one leaves it; memory and message counts
/// stay.
pub open spec fn fuel_tracked(before: ResourceUsage, after: ResourceUsage, r: Result<ExecutionResult, String>) -> bool {
    &&& after.memory_bytes == before.memory_bytes
    &&& after.message_count == before.message_count
    &&& r matches Ok(res) ==> after.cpu_fuel_consumed == if before.cpu_fuel_consumed + res.fuel_consumed
        > u64::MAX {
        u64::MAX
    } else {
        (before.cpu_fuel_consumed + res.fuel_consumed) as u64
    }
    &&& r is Err ==> after.cpu_fuel_consumed == before.cpu_fuel_consumed
}

impl Agent {
    /// What the runtime knows of the agent.
    pub closed spec fn view_of(&self) -> AgentView {
        AgentView {
            name: self.name@,
            state: self.state,
            usage: self.resource_usage,
            initialized: self.sandbox.is_initialized(),
            fuel: self.sandbox.fuel(),
            memory: self.sandbox.memory(),
            exposed: self.sandbox.exposed(),
        }
    }

    /// The agent's identifier.
    fn id(&self) -> (id: AgentId)
        ensures
            id == self.id,
    {
        self.id
    }

    /// The agent's name.
    fn name(&self) -> (n: &str)
        ensures
            n@ == self.view_of().name,
    {
        self.name.as_str()
    }
}

/// The message for an agent that is not deployed.
pub open spec fn not_found_message(id: AgentId) -> Seq<char> {
    "Agent not found: "@ + hyphenated_text(id.value)
}

/// The message for an agent that is deployed but not running.
pub open spec fn not_running_message(id: AgentId) -> Seq<char> {
    "Agent "@ + hyphenated_text(id.value) + " is not running"@
}

/// The message for an agent that cannot start from its state.
pub open spec fn not_loaded_message(id: AgentId, state: AgentState) -> Seq<char> {
    "Agent "@ + hyphenated_text(id.value) + " is not in Loaded state (current: "@ + state_name(state)
        + ")"@
}

/// The message for a deployment past the agent limit.
pub open spec fn limit_message(max_agents: usize) -> Seq<char> {
    "Maximum number of agents ("@ + decimal_text(max_agents as nat) + ") reached"@
}

fn not_found(id: AgentId) -> (s: String)
    ensures
        s@ == not_found_message(id),
{
    String::from_str("Agent not found: ").concat(id.to_uuid_string().as_str())
}

/// Manages the deployed agents.
pub struct WasmRuntime {
    agents: IdTable<Agent>,
    config: WasmRuntimeConfig,
    active_count: usize,
    resource_manager: ResourceManager,
    initialized: bool,
}

impl WasmRuntime {
    /// Well-formedness: agents are kept under their own identifiers, the
    /// active count is the number of agents, and the resource manager is
    /// well formed.
    pub closed spec fn wf(&self) -> bool {
        &&& self.agents.wf()
        &&& self.resource_manager.wf()
        &&& self.active_count == self.agents.map().dom().len()
        &&& forall|k: u128| #[trigger]
            self.agents.map().contains_key(k) ==> self.agents.map()[k].id.value == k
                && self.agents.map()[k].sandbox.limits() == self.config.resource_limits
    }

    /// The deployed agents by identifier value.
    pub closed spec fn agents(&self) -> Map<u128, AgentView> {
        self.agents.map().map_values(|a: Agent| a.view_of())
    }

    /// Whether the runtime is initialized.
    pub closed spec fn ready(&self) -> bool {
        self.initialized
    }

    /// The configuration.
    pub closed spec fn config(&self) -> WasmRuntimeConfig {
        self.config
    }

    /// The resource manager.
    pub closed spec fn resources(&self) -> ResourceManager {
        self.resource_manager
    }

    /// A runtime with no agents.
    pub fn new(config: WasmRuntimeConfig) -> (r: Result<Self, String>)
        ensures
            r matches Ok(rt) && rt.wf() && rt.ready() && rt.agents() == Map::<u128, AgentView>::empty()
                && rt.config() == config && rt.resources().allocations() == Map::<
                u128,
                usize,
            >::empty() && rt.resources().trackers() == Map::<u128, SimpleFuelTracker>::empty(),
    {
        let limits = config.resource_limits;
        let rt = WasmRuntime {
            agents: IdTable::new(),
            config,
            active_count: 0,
            resource_manager: ResourceManager::new(limits),
            initialized: true,
        };
        proof {
            rt.agents.lemma_wf();
            assert(rt.agents() =~= Map::<u128, AgentView>::empty());
        }
        Ok(rt)
    }

    /// Whether the runtime is initialized.
    pub fn is_initialized(&self) -> (b: bool)
        ensures
            b == self.ready(),
    {
        self.initialized
    }

    /// Number of deployed agents.
    pub fn active_agent_count(&self) -> (n: usize)
        requires
            self.wf(),
        ensures
            n == self.agents().dom().len(),
    {
        proof {
            assert(self.agents().dom() =~= self.agents.map().dom());
        }
        self.active_count
    }

    /// The resource manager.
    pub fn resource_manager(&self) -> (m: &ResourceManager)
        ensures
            *m == self.resources(),
    {
        &self.resource_manager
    }

    /// The largest number of agents at a time.
    pub fn max_agents(&self) -> (n: usize)
        ensures
            n == self.config().max_agents,
    {
        self.config.max_agents
    }

    /// The security policy.
    pub fn get_security_policy(&self) -> (p: &SecurityPolicy)
        ensures
            *p == self.config().security_policy,
    {
        &self.config.security_policy
    }

    /// Deploys an agent under `agent_id`. `instantiated` is what came of
    /// compiling and instantiating its module: the size of the memory it
    /// exports, or why it failed. Refused, in this order: at the agent
    /// limit; where the module failed, with its reason; for an identifier
    /// already in use; where fuel metering is off. The agent starts in the
    /// loaded state.
    pub fn deploy_agent(
        &mut self,
        name: &str,
        agent_id: AgentId,
        instantiated: Result<Option<usize>, String>,
    ) -> (r: Result<AgentId, String>)
        requires
            old(self).wf(),
        ensures
            final(self).wf(),
            final(self).config() == old(self).config(),
            final(self).resources() == old(self).resources(),
            old(self).agents().dom().len() >= old(self).config().max_agents ==> (r matches Err(m)
                && m@ == limit_message(old(self).config().max_agents)),
            r is Err ==> final(self).agents() == old(self).agents(),
            r matches Ok(id) ==> id == agent_id && !old(self).agents().contains_key(agent_id.value)
                && final(self).agents() == old(self).agents().insert(
                agent_id.value,
                AgentView {
                    name: name@,
                    state: AgentState::Loaded,
                    usage: ResourceUsage { memory_bytes: 0, cpu_fuel_consumed: 0, message_count: 0 },
                    initialized: true,
                    fuel: old(self).config().resource_limits.max_cpu_fuel@,
                    memory: match instantiated {
                        Ok(Some(n)) => n,
                        _ => crate::sandbox::DEFAULT_MEMORY_PAGE_BYTES,
                    },
                    exposed: seq!["log"@, "get_time"@, "send_message"@],
                },
            ),
            old(self).agents().dom().len() < old(self).config().max_agents && instantiated is Ok
                && old(self).config().security_policy.enable_fuel_metering
                && !old(self).agents().contains_key(agent_id.value) ==> r is Ok,
            old(self).agents().dom().len() < old(self).config().max_agents ==> (instantiated matches Err(
                e,
            ) ==> r == Err::<AgentId, String>(e)),
            old(self).agents().dom().len() < old(self).config().max_agents && instantiated is Ok
                && old(self).agents().contains_key(agent_id.value) ==> (r matches Err(m) && m@
                == "Agent identifier already in use"@),
            old(self).agents().dom().len() < old(self).config().max_agents && instantiated is Ok
                && !old(self).agents().contains_key(agent_id.value)
                && !old(self).config().security_policy.enable_fuel_metering ==> (r matches Err(m) && m@
                == "Failed to add fuel to store"@),
    {
        proof {
            assert(self.agents().dom() =~= self.agents.map().dom());
        }
        if self.active_count >= self.config.max_agents {
            let message = String::from_str("Maximum number of agents (").concat(
                u128_text(self.config.max_agents as u128).as_str(),
            ).concat(") reached");
            return Err(message);
        }
        let memory_size = match instantiated {
            Ok(m) => m,
            Err(e) => {
                return Err(e);
            },
        };
        if self.agents.contains_key(agent_id.value) {
            return Err(String::from_str("Agent identifier already in use"));
        }
        let mut sandbox = Sandbox::new(agent_id, self.config.resource_limits);
        match sandbox.initialize(self.config.security_policy.enable_fuel_metering, memory_size) {
            Ok(()) => {},
            Err(e) => {
                return Err(e);
            },
        }
        let agent = Agent {
            id: agent_id,
            name: name.to_string(),
            sandbox,
            state: AgentState::Loaded,
            resource_usage: ResourceUsage::new(),
        };
        let ghost av = agent.view_of();
        let ghost m0 = self.agents.map();
        proof {
            self.agents.lemma_wf();
        }
        self.agents.insert_new(agent_id.value, agent);
        self.active_count = self.active_count + 1;
        proof {
            self.agents.lemma_wf();
            assert(self.agents.map().dom() =~= m0.dom().insert(agent_id.value));
            assert forall|k: u128| #[trigger]
                self.agents.map().contains_key(k) implies self.agents.map()[k].id.value == k
                    && self.agents.map()[k].sandbox.limits() == self.config.resource_limits by {
                if k != agent_id.value {
                    assert(m0.contains_key(k));
                }
            }
            assert(self.agents() =~= old(self).agents().insert(agent_id.value, av));
        }
        Ok(agent_id)
    }

    /// Well-formedness of a runtime whose agent `k` is taken out for a change.
    closed spec fn wf_without(&self, k: u128) -> bool {
        &&& self.agents.wf()
        &&& self.resource_manager.wf()
        &&& !self.agents.map().contains_key(k)
        &&& self.active_count == self.agents.map().dom().len() + 1
        &&& forall|j: u128| #[trigger]
            self.agents.map().contains_key(j) ==> self.agents.map()[j].id.value == j
                && self.agents.map()[j].sandbox.limits() == self.config.resource_limits
    }

    /// Takes an agent out of the table for a change.
    fn take(&mut self, agent_id: AgentId) -> (r: Option<Agent>)
        requires
            old(self).wf(),
        ensures
            final(self).config == old(self).config,
            final(self).resource_manager == old(self).resource_manager,
            r is None <==> !old(self).agents().contains_key(agent_id.value),
            r is None ==> final(self).agents() == old(self).agents() && final(self).wf(),
            r matches Some(a) ==> a.view_of() == old(self).agents()[agent_id.value] && a.id
                == agent_id && a.sandbox.limits() == old(self).config.resource_limits
                && final(self).wf_without(agent_id.value) && final(self).agents.map() == old(self).agents.map().remove(agent_id.value),
    {
        let ghost m0 = self.agents.map();
        proof {
            self.agents.lemma_wf();
        }
        match self.agents.remove(agent_id.value) {
            None => {
                proof {
                    assert(!old(self).agents().contains_key(agent_id.value));
                }
                None
            },
            Some(a) => {
                proof {
                    self.agents.lemma_wf();
                    assert(self.agents.map().dom() =~= m0.dom().remove(agent_id.value));
                    assert(m0.dom().contains(agent_id.value));
                }
                Some(a)
            },
        }
    }

    /// Puts a changed agent back.
    fn put_back(&mut self, agent: Agent)
        requires
            old(self).wf_without(agent.id.value),
            agent.sandbox.limits() == old(self).config.resource_limits,
        ensures
            final(self).wf(),
            final(self).config == old(self).config,
            final(self).resource_manager == old(self).resource_manager,
            final(self).agents.map() == old(self).agents.map().insert(agent.id.value, agent),
    {
        let ghost m0 = self.agents.map();
        let k = agent.id.value;
        proof {
            self.agents.lemma_wf();
        }
        self.agents.insert_new(k, agent);
        proof {
            self.agents.lemma_wf();
            assert(self.agents.map().dom() =~= m0.dom().insert(k));
            assert forall|j: u128| #[trigger]
                self.agents.map().contains_key(j) implies self.agents.map()[j].id.value == j
                    && self.agents.map()[j].sandbox.limits() == self.config.resource_limits by {
                if j != k {
                    assert(m0.contains_key(j));
                }
            }
        }
    }

    /// Moves a loaded agent to running. Refused for an unknown agent and for
    /// an agent in any other state.
    pub fn start_agent(&mut self, agent_id: AgentId) -> (r: Result<(), String>)
        requires
            old(self).wf(),
        ensures
            final(self).wf(),
            final(self).config() == old(self).config(),
            final(self).resources() == old(self).resources(),
            !old(self).agents().contains_key(agent_id.value) ==> (r matches Err(m) && m@
                == not_found_message(agent_id)) && final(self).agents() == old(self).agents(),
            old(self).agents().contains_key(agent_id.value) && old(self).agents()[agent_id.value].state
                != AgentState::Loaded ==> (r matches Err(m) && m@ == not_loaded_message(
                agent_id,
                old(self).agents()[agent_id.value].state,
            )) && final(self).agents() == old(self).agents(),
            old(self).agents().contains_key(agent_id.value) && old(self).agents()[agent_id.value].state
                == AgentState::Loaded ==> r is Ok && final(self).agents() == old(self).agents().insert(
                agent_id.value,
                AgentView { state: AgentState::Running, ..old(self).agents()[agent_id.value] },
            ),
    {
        let mut a = match self.take(agent_id) {
            Some(a) => a,
            None => {
                return Err(not_found(agent_id));
            },
        };
        if a.state != AgentState::Loaded {
            let message = String::from_str("Agent ").concat(agent_id.to_uuid_string().as_str()).concat(
                " is not in Loaded state (current: ",
            ).concat(state_text(a.state).as_str()).concat(")");
            let ghost av = a.view_of();
            self.put_back(a);
            proof {
                assert(self.agents() =~= old(self).agents());
            }
            return Err(message);
        }
        a.state = AgentState::Running;
        let ghost av = a.view_of();
        self.put_back(a);
        proof {
            assert(self.agents() =~= old(self).agents().insert(agent_id.value, av));
        }
        Ok(())
    }

    /// Executes a function of a running agent and adds the fuel it took to
    /// the agent's usage. Refused for an unknown agent, for an agent that is
    /// not running, and where the sandbox refuses the call.
    pub fn execute_agent(&mut self, agent_id: AgentId, function: &str, args: &[u8]) -> (r: Result<
        Vec<u8>,
        String,
    >)
        requires
            old(self).wf(),
        ensures
            final(self).wf(),
            final(self).config() == old(self).config(),
            final(self).resources() == old(self).resources(),
            final(self).agents().dom() == old(self).agents().dom(),
            !old(self).agents().contains_key(agent_id.value) ==> (r matches Err(m) && m@
                == not_found_message(agent_id)),
            old(self).agents().contains_key(agent_id.value) && old(self).agents()[agent_id.value].state
                != AgentState::Running ==> (r matches Err(m) && m@ == not_running_message(agent_id))
                && final(self).agents() == old(self).agents(),
            ({
                let before = old(self).agents()[agent_id.value];
                let fuel = call_fuel(function@, before.fuel);
                old(self).agents().contains_key(agent_id.value) && before.state == AgentState::Running
                    && before.initialized && fuel < before.fuel ==> (r matches Ok(out) && out@.len() == 0)
                    && final(self).agents()[agent_id.value].usage.cpu_fuel_consumed == if before.usage.cpu_fuel_consumed + fuel > u64::MAX {
                    u64::MAX
                } else {
                    (before.usage.cpu_fuel_consumed + fuel) as u64
                }
            }),
    {
        let mut a = match self.take(agent_id) {
            Some(a) => a,
            None => {
                return Err(not_found(agent_id));
            },
        };
        if a.state != AgentState::Running {
            let message = String::from_str("Agent ").concat(agent_id.to_uuid_string().as_str()).concat(
                " is not running",
            );
            self.put_back(a);
            proof {
                assert(self.agents() =~= old(self).agents());
            }
            return Err(message);
        }
        let result = a.sandbox.execute(function, args);
        let out = match result {
            Ok(res) => {
                let fuel = res.fuel_consumed;
                a.resource_usage.cpu_fuel_consumed = a.resource_usage.cpu_fuel_consumed.saturating_add(
                    fuel,
                );
                match res.output {
                    Some(v) => Ok(v),
                    None => Ok(Vec::new()),
                }
            },
            Err(e) => Err(e),
        };
        self.put_back(a);
        proof {
            assert(self.agents().dom() =~= old(self).agents().dom());
        }
        out
    }

    /// Executes a function of an agent, starting it first where it is not
    /// running, and hands back the full result.
    pub fn execute_agent_with_fuel_tracking(
        &mut self,
        agent_id: AgentId,
        function: &str,
        args: &[u8],
    ) -> (r: Result<ExecutionResult, String>)
        requires
            old(self).wf(),
        ensures
            final(self).wf(),
            final(self).config() == old(self).config(),
            final(self).resources() == old(self).resources(),
            final(self).agents().dom() == old(self).agents().dom(),
            !old(self).agents().contains_key(agent_id.value) ==> (r matches Err(m) && m@
                == not_found_message(agent_id)),
            old(self).agents().contains_key(agent_id.value) && old(self).agents()[agent_id.value].state
                != AgentState::Running && old(self).agents()[agent_id.value].state
                != AgentState::Loaded ==> (r matches Err(m) && m@ == not_loaded_message(
                agent_id,
                old(self).agents()[agent_id.value].state,
            )),
            ({
                let before = old(self).agents()[agent_id.value];
                let fuel = call_fuel(function@, before.fuel);
                old(self).agents().contains_key(agent_id.value) && (before.state
                    == AgentState::Running || before.state == AgentState::Loaded)
                    && before.initialized && fuel < before.fuel ==> (r matches Ok(res)
                    && res.fuel_consumed == fuel && res.completed_successfully)
                    && final(self).agents()[agent_id.value].state == AgentState::Running
            }),
            old(self).agents().contains_key(agent_id.value) ==> fuel_tracked(
                old(self).agents()[agent_id.value].usage,
                final(self).agents()[agent_id.value].usage,
                r,
            ),
            forall|k: u128|
                k != agent_id.value && #[trigger] old(self).agents().contains_key(k) ==> final(self).agents()[k]
                    == old(self).agents()[k],
    {
        let mut a = match self.take(agent_id) {
            Some(a) => a,
            None => {
                return Err(not_found(agent_id));
            },
        };
        if a.state != AgentState::Running {
            if a.state != AgentState::Loaded {
                let message = String::from_str("Agent ").concat(
                    agent_id.to_uuid_string().as_str(),
                ).concat(" is not in Loaded state (current: ").concat(
                    state_text(a.state).as_str(),
                ).concat(")");
                self.put_back(a);
                proof {
                    assert(self.agents().dom() =~= old(self).agents().dom());
                }
                return Err(message);
            }
            a.state = AgentState::Running;
        }
        let result = a.sandbox.execute(function, args);
        match &result {
            Ok(res) => {
                a.resource_usage.cpu_fuel_consumed = a.resource_usage.cpu_fuel_consumed.saturating_add(
                    res.fuel_consumed,
                );
            },
            Err(_) => {},
        }
        self.put_back(a);
        proof {
            assert(self.agents().dom() =~= old(self).agents().dom());
        }
        result
    }

    /// Executing functions of an agent one after the other adds up their
    /// fuel: after two successful executions the agent's recorded fuel is
    /// what it was plus both results' fuel, staying at the largest value once
    /// reached; a failed execution adds nothing.
    pub proof fn lemma_fuel_accumulates(
        u0: ResourceUsage,
        u1: ResourceUsage,
        u2: ResourceUsage,
        r1: Result<ExecutionResult, String>,
        r2: Result<ExecutionResult, String>,
    )
        requires
            fuel_tracked(u0, u1, r1),
            fuel_tracked(u1, u2, r2),
        ensures
            u2.memory_bytes == u0.memory_bytes,
            u2.message_count == u0.message_count,
            u2.cpu_fuel_consumed >= u0.cpu_fuel_consumed,
            r1 matches Ok(a) ==> (r2 matches Ok(b) ==> (u0.cpu_fuel_consumed + a.fuel_consumed
                + b.fuel_consumed <= u64::MAX ==> u2.cpu_fuel_consumed == u0.cpu_fuel_consumed
                + a.fuel_consumed + b.fuel_consumed)),
            (r1 is Err && r2 is Err) ==> u2 == u0,
    {
    }

    /// The memory of an agent's instance.
    pub fn get_agent_memory_usage(&self, agent_id: AgentId) -> (r: Result<usize, String>)
        requires
            self.wf(),
        ensures
            !self.agents().contains_key(agent_id.value) ==> (r matches Err(m) && m@
                == not_found_message(agent_id)),
            self.agents().contains_key(agent_id.value) ==> r == Ok::<usize, String>(
                self.agents()[agent_id.value].memory,
            ),
    {
        match self.agents.get(agent_id.value) {
            Some(a) => Ok(a.sandbox.get_memory_usage()),
            None => Err(not_found(agent_id)),
        }
    }

    /// The fuel an agent has consumed.
    pub fn get_agent_cpu_usage(&self, agent_id: AgentId) -> (r: Result<u64, String>)
        requires
            self.wf(),
        ensures
            !self.agents().contains_key(agent_id.value) ==> (r matches Err(m) && m@
                == not_found_message(agent_id)),
            self.agents().contains_key(agent_id.value) ==> r == Ok::<u64, String>(
                self.agents()[agent_id.value].usage.cpu_fuel_consumed,
            ),
    {
        match self.agents.get(agent_id.value) {
            Some(a) => Ok(a.resource_usage.cpu_fuel_consumed),
            None => Err(not_found(agent_id)),
        }
    }

    /// The host functions given to an agent.
    pub fn get_exposed_host_functions(&self, agent_id: AgentId) -> (r: Result<Vec<String>, String>)
        requires
            self.wf(),
        ensures
            !self.agents().contains_key(agent_id.value) ==> (r matches Err(m) && m@
                == not_found_message(agent_id)),
            self.agents().contains_key(agent_id.value) ==> (r matches Ok(v) && v@.map_values(
                |s: String| s@,
            ) == self.agents()[agent_id.value].exposed),
    {
        match self.agents.get(agent_id.value) {
            Some(a) => Ok(a.sandbox.get_exposed_functions()),
            None => Err(not_found(agent_id)),
        }
    }

    /// Stops an agent: it drains, its instance is dropped, it is stopped,
    /// and its message count goes up by one (staying at the largest count).
    pub fn stop_agent(&mut self, agent_id: AgentId) -> (r: Result<(), String>)
        requires
            old(self).wf(),
        ensures
            final(self).wf(),
            final(self).config() == old(self).config(),
            final(self).resources() == old(self).resources(),
            !old(self).agents().contains_key(agent_id.value) ==> (r matches Err(m) && m@
                == not_found_message(agent_id)) && final(self).agents() == old(self).agents(),
            old(self).agents().contains_key(agent_id.value) ==> {
                let before = old(self).agents()[agent_id.value];
                &&& r is Ok
                &&& final(self).agents() == old(self).agents().insert(
                    agent_id.value,
                    AgentView {
                        state: AgentState::Stopped,
                        initialized: false,
                        usage: ResourceUsage {
                            message_count: if before.usage.message_count == usize::MAX {
                                usize::MAX
                            } else {
                                (before.usage.message_count + 1) as usize
                            },
                            ..before.usage
                        },
                        ..before
                    },
                )
            },
    {
        let mut a = match self.take(agent_id) {
            Some(a) => a,
            None => {
                return Err(not_found(agent_id));
            },
        };
        a.state = AgentState::Draining;
        match a.sandbox.shutdown() {
            Ok(()) => {},
            Err(e) => {
                self.put_back(a);
                return Err(e);
            },
        }
        a.state = AgentState::Stopped;
        a.resource_usage.message_count = a.resource_usage.message_count.saturating_add(1);
        let ghost av = a.view_of();
        self.put_back(a);
        proof {
            assert(self.agents() =~= old(self).agents().insert(agent_id.value, av));
        }
        Ok(())
    }

    /// Removes an agent and releases everything the resource manager holds
    /// for it. Refused for an unknown agent.
    pub fn remove_agent(&mut self, agent_id: AgentId) -> (r: Result<(), String>)
        requires
            old(self).wf(),
        ensures
            final(self).wf(),
            final(self).config() == old(self).config(),
            !old(self).agents().contains_key(agent_id.value) ==> (r matches Err(m) && m@
                == not_found_message(agent_id)) && final(self).agents() == old(self).agents()
                && final(self).resources() == old(self).resources(),
            old(self).agents().contains_key(agent_id.value) ==> r is Ok && final(self).agents()
                == old(self).agents().remove(agent_id.value) && final(self).resources().allocations()
                == old(self).resources().allocations().remove(agent_id.value)
                && final(self).resources().trackers() == old(self).resources().trackers().remove(
                agent_id.value,
            ) && final(self).resources().usage() == old(self).resources().usage().remove(
                agent_id.value,
            ),
    {
        let mut a = match self.take(agent_id) {
            Some(a) => a,
            None => {
                return Err(not_found(agent_id));
            },
        };
        a.resource_usage.update_memory(0);
        self.active_count = self.active_count - 1;
        self.resource_manager.cleanup_agent(agent_id);
        proof {
            assert(self.agents() =~= old(self).agents().remove(agent_id.value));
        }
        Ok(())
    }
}

} // verus!
