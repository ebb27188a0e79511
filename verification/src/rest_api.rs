//! The management API: validation of deployment requests, the agent store,
//! and the answers of the health, deploy, list and get endpoints.

use vstd::prelude::*;
use crate::ids::{hyphenated_text, uuid_parse_result, AgentId};
use crate::table::IdTable;
use crate::text::{is_blank, trim, trimmed, AgentName, LengthViolation};

verus! {

broadcast use vstd::string::group_string_axioms;

/// Largest memory an agent may be deployed with, in bytes (1 GiB).
pub const MAX_AGENT_MEMORY_BYTES: u64 = 1_073_741_824;

/// Largest CPU time an agent may be deployed with, in milliseconds.
pub const MAX_AGENT_CPU_MILLIS: u64 = 1_000_000;

/// Answer of the health endpoint.
#[derive(Debug, Clone)]
pub struct HealthCheckResponse {
    pub status: String,
}

impl HealthCheckResponse {
    /// The answer of a healthy service.
    pub fn healthy() -> (r: Self)
        ensures
            r.status@ == "healthy"@,
    {
        HealthCheckResponse { status: String::from_str("healthy") }
    }
}

/// Resource limits requested for a deployment.
#[derive(Debug, Clone, Copy, PartialEq, Eq, Structural)]
pub struct ResourceLimits {
    pub max_memory_bytes: u64,
    pub max_cpu_millis: u64,
    pub max_execution_time_ms: u64,
}

/// The first rule that limits break, with its message; `None` for valid limits.
pub open spec fn limits_problem(l: ResourceLimits) -> Option<Seq<char>> {
    if l.max_memory_bytes == 0 {
        Some("max_memory_bytes must be greater than 0"@)
    } else if l.max_cpu_millis == 0 {
        Some("max_cpu_millis must be greater than 0"@)
    } else if l.max_execution_time_ms == 0 {
        Some("max_execution_time_ms must be greater than 0"@)
    } else if l.max_memory_bytes > MAX_AGENT_MEMORY_BYTES {
        Some("max_memory_bytes exceeds maximum limit of 1073741824 bytes"@)
    } else if l.max_cpu_millis > MAX_AGENT_CPU_MILLIS {
        Some("max_cpu_millis exceeds maximum limit of 1000000 ms"@)
    } else {
        None
    }
}

impl ResourceLimits {
    /// Checks the limits: none is zero, memory is at most 1 GiB, CPU time at
    /// most a million milliseconds.
    pub fn validate(&self) -> (r: Result<(), String>)
        ensures
            match r {
                Ok(()) => limits_problem(*self) is None,
                Err(m) => limits_problem(*self) == Some(m@),
            },
    {
        if self.max_memory_bytes == 0 {
            return Err(String::from_str("max_memory_bytes must be greater than 0"));
        }
        if self.max_cpu_millis == 0 {
            return Err(String::from_str("max_cpu_millis must be greater than 0"));
        }
        if self.max_execution_time_ms == 0 {
            return Err(String::from_str("max_execution_time_ms must be greater than 0"));
        }
        if self.max_memory_bytes > MAX_AGENT_MEMORY_BYTES {
            return Err(String::from_str("max_memory_bytes exceeds maximum limit of 1073741824 bytes"));
        }
        if self.max_cpu_millis > MAX_AGENT_CPU_MILLIS {
            return Err(String::from_str("max_cpu_millis exceeds maximum limit of 1000000 ms"));
        }
        Ok(())
    }
}

/// A deployment request as received.
#[derive(Debug, Clone)]
pub struct AgentDeploymentRequest {
    pub name: String,
    pub wasm_module: String,
    pub resource_limits: ResourceLimits,
}

/// A deployment request that passed validation.
#[derive(Debug)]
pub struct ValidatedDeploymentRequest {
    pub name: AgentName,
    pub wasm_module: String,
    pub resource_limits: ResourceLimits,
}

/// The message for a name whose trimmed text is refused.
pub open spec fn name_problem(name: Seq<char>) -> Seq<char> {
    if trimmed(name).len() < 1 {
        "Invalid agent name: AgentName is too short"@
    } else {
        "Invalid agent name: AgentName is too long"@
    }
}

/// The first problem of a request, with its message: the trimmed name must
/// be 1 to 255 characters, the module must not be blank, and the limits
/// must be valid.
pub open spec fn request_problem(name: Seq<char>, wasm_module: Seq<char>, limits: ResourceLimits) -> Option<
    Seq<char>,
> {
    if !AgentName::accepts(trimmed(name)) {
        Some(name_problem(name))
    } else if trimmed(wasm_module).len() == 0 {
        Some("WASM module cannot be empty"@)
    } else {
        limits_problem(limits)
    }
}

impl AgentDeploymentRequest {
    /// Validates the request: the name is trimmed and must be 1 to 255
    /// characters, the module must not be blank, the limits must be valid.
    pub fn parse(self) -> (r: Result<ValidatedDeploymentRequest, String>)
        ensures
            match r {
                Ok(v) => request_problem(self.name@, self.wasm_module@, self.resource_limits) is None
                    && v.name@ == AgentName::sanitized(trimmed(self.name@)) && v.wasm_module@
                    == self.wasm_module@ && v.resource_limits == self.resource_limits,
                Err(m) => request_problem(self.name@, self.wasm_module@, self.resource_limits) == Some(
                    m@,
                ),
            },
    {
        let name = match AgentName::try_new(trim(self.name.as_str())) {
            Ok(n) => n,
            Err(LengthViolation::LenCharMinViolated) => {
                return Err(String::from_str("Invalid agent name: AgentName is too short"));
            },
            Err(LengthViolation::LenCharMaxViolated) => {
                return Err(String::from_str("Invalid agent name: AgentName is too long"));
            },
        };
        if is_blank(self.wasm_module.as_str()) {
            return Err(String::from_str("WASM module cannot be empty"));
        }
        match self.resource_limits.validate() {
            Ok(()) => {},
            Err(e) => {
                return Err(e);
            },
        }
        Ok(
            ValidatedDeploymentRequest {
                name,
                wasm_module: self.wasm_module,
                resource_limits: self.resource_limits,
            },
        )
    }
}

/// A deployed agent as the store keeps it.
#[derive(Debug, Clone)]
pub struct DomainAgent {
    pub id: AgentId,
    pub name: AgentName,
    pub wasm_module: String,
    pub resource_limits: ResourceLimits,
}

/// A deployed agent as the API shows it.
#[derive(Debug, Clone)]
pub struct Agent {
    pub id: String,
    pub name: String,
    pub wasm_module: String,
    pub resource_limits: ResourceLimits,
}

impl Agent {
    /// The API form of a stored agent: the identifier in hyphenated form.
    pub fn from_domain(domain_agent: &DomainAgent) -> (a: Self)
        ensures
            a.id@ == hyphenated_text(domain_agent.id.value),
            a.name@ == domain_agent.name@,
            a.wasm_module@ == domain_agent.wasm_module@,
            a.resource_limits == domain_agent.resource_limits,
    {
        Agent {
            id: domain_agent.id.to_uuid_string(),
            name: domain_agent.name.as_str().to_string(),
            wasm_module: domain_agent.wasm_module.clone(),
            resource_limits: domain_agent.resource_limits,
        }
    }
}

/// Answer of a successful deployment.
#[derive(Debug, Clone)]
pub struct DeploymentResponse {
    pub id: String,
}

impl DeploymentResponse {
    /// The answer carrying the agent's identifier in hyphenated form.
    pub fn new(agent_id: AgentId) -> (r: Self)
        ensures
            r.id@ == hyphenated_text(agent_id.value),
    {
        DeploymentResponse { id: agent_id.to_uuid_string() }
    }
}

/// Answer of a refused request.
#[derive(Debug, Clone)]
pub struct ErrorResponse {
    pub error: String,
    pub details: Option<String>,
}

/// An answer of the API with its HTTP status.
#[derive(Debug)]
pub enum ApiResponse {
    /// 201: the agent was deployed.
    Created(DeploymentResponse),
    /// 200: the agent.
    Found(Agent),
    /// 400: the request was refused.
    BadRequest(ErrorResponse),
    /// 404: no such agent.
    NotFound(ErrorResponse),
}

impl ApiResponse {
    /// The HTTP status code of the answer.
    pub fn status(&self) -> (code: u16)
        ensures
            code == match self {
                ApiResponse::Created(_) => 201u16,
                ApiResponse::Found(_) => 200u16,
                ApiResponse::BadRequest(_) => 400u16,
                ApiResponse::NotFound(_) => 404u16,
            },
    {
        match self {
            ApiResponse::Created(_) => 201,
            ApiResponse::Found(_) => 200,
            ApiResponse::BadRequest(_) => 400,
            ApiResponse::NotFound(_) => 404,
        }
    }
}

/// What the store knows of an agent: its name, module and limits.
pub open spec fn stored_view(a: DomainAgent) -> (Seq<char>, Seq<char>, ResourceLimits) {
    (a.name@, a.wasm_module@, a.resource_limits)
}

/// The deployed agents.
pub struct AgentStore {
    agents: IdTable<DomainAgent>,
}

impl AgentStore {
    /// Well-formedness: agents are kept under their own identifiers.
    pub closed spec fn wf(&self) -> bool {
        &&& self.agents.wf()
        &&& forall|k: u128| #[trigger]
            self.agents.map().contains_key(k) ==> self.agents.map()[k].id.value == k
    }

    /// The identifiers of the stored agents in the order of deployment.
    pub closed spec fn deployment_order(&self) -> Seq<u128> {
        self.agents.entries().map_values(|e: (u128, DomainAgent)| e.0)
    }

    /// The stored agents by identifier value.
    pub closed spec fn agents(&self) -> Map<u128, (Seq<char>, Seq<char>, ResourceLimits)> {
        self.agents.map().map_values(|a: DomainAgent| stored_view(a))
    }

    /// An empty store.
    pub fn new() -> (s: Self)
        ensures
            s.wf(),
            s.agents() == Map::<u128, (Seq<char>, Seq<char>, ResourceLimits)>::empty(),
            s.deployment_order() == Seq::<u128>::empty(),
    {
        let s = AgentStore { agents: IdTable::new() };
        assert(s.deployment_order() =~= Seq::<u128>::empty());
        assert(s.agents() =~= Map::<u128, (Seq<char>, Seq<char>, ResourceLimits)>::empty());
        s
    }

    /// The deploy endpoint: a valid request is stored under `agent_id` and
    /// answered with 201 and the identifier; an invalid one is answered with
    /// 400 and the reason.
    pub fn deploy_agent(&mut self, request: AgentDeploymentRequest, agent_id: AgentId) -> (r: ApiResponse)
        requires
            old(self).wf(),
        ensures
            final(self).wf(),
            ({
                let problem = request_problem(
                    request.name@,
                    request.wasm_module@,
                    request.resource_limits,
                );
                &&& problem is None ==> (r matches ApiResponse::Created(d) && d.id@ == hyphenated_text(
                    agent_id.value,
                )) && final(self).agents() == old(self).agents().insert(
                    agent_id.value,
                    (trimmed(request.name@), request.wasm_module@, request.resource_limits),
                )
                &&& problem is Some ==> (r matches ApiResponse::BadRequest(e) && e.error@
                    == "Invalid deployment request"@ && e.details is Some && e.details.unwrap()@
                    == problem.unwrap()) && final(self).agents() == old(self).agents()
                &&& final(self).deployment_order() == if problem is None && !old(self).agents().contains_key(
                    agent_id.value,
                ) {
                    old(self).deployment_order().push(agent_id.value)
                } else {
                    old(self).deployment_order()
                }
            }),
    {
        let validated = match request.parse() {
            Ok(v) => v,
            Err(message) => {
                return ApiResponse::BadRequest(
                    ErrorResponse {
                        error: String::from_str("Invalid deployment request"),
                        details: Some(message),
                    },
                );
            },
        };
        let domain_agent = DomainAgent {
            id: agent_id,
            name: validated.name,
            wasm_module: validated.wasm_module,
            resource_limits: validated.resource_limits,
        };
        let ghost view = stored_view(domain_agent);
        let ghost m0 = self.agents.map();
        self.agents.upsert(agent_id.value, domain_agent);
        proof {
            assert forall|k: u128| #[trigger]
                self.agents.map().contains_key(k) implies self.agents.map()[k].id.value == k by {
                if k != agent_id.value {
                    assert(m0.contains_key(k));
                }
            }
            assert(self.agents() =~= old(self).agents().insert(agent_id.value, view));
            if m0.contains_key(agent_id.value) {
                assert(self.deployment_order() =~= old(self).deployment_order().update(
                    crate::table::seq_key_index(old(self).agents.entries(), agent_id.value),
                    agent_id.value,
                ));
                assert(self.deployment_order() =~= old(self).deployment_order());
            } else {
                assert(self.deployment_order() =~= old(self).deployment_order().push(agent_id.value));
            }
        }
        ApiResponse::Created(DeploymentResponse::new(agent_id))
    }

    /// The list endpoint: every stored agent, in the order of deployment.
    pub fn list_agents(&self) -> (r: Vec<Agent>)
        requires
            self.wf(),
        ensures
            r@.len() == self.agents().dom().len(),
            listed_agents(r@, self.agents()),
            r@.len() == self.deployment_order().len(),
            forall|i: int|
                0 <= i < r@.len() ==> #[trigger] r@[i].id@ == hyphenated_text(self.deployment_order()[i])
                    && r@[i].name@ == self.agents()[self.deployment_order()[i]].0,
            self.deployment_order().no_duplicates(),
            forall|k: u128| #[trigger] self.agents().contains_key(k) <==> self.deployment_order().contains(k),
    {
        let mut r: Vec<Agent> = Vec::new();
        let n = self.agents.len();
        proof {
            self.agents.lemma_wf();
        }
        for i in 0..n
            invariant
                n == self.agents.entries().len(),
                self.wf(),
                r@.len() == i,
                listed_agents(r@, self.agents()),
                forall|j: int|
                    0 <= j < i ==> #[trigger] r@[j].id@ == hyphenated_text(self.deployment_order()[j])
                        && r@[j].name@ == self.agents()[self.deployment_order()[j]].0,
        {
            proof {
                self.agents.lemma_wf();
            }
            let (k, a) = self.agents.entry_at(i);
            let api = Agent::from_domain(a);
            let ghost before = r@;
            let ghost av = api;
            proof {
                assert(self.agents.map().contains_key(self.agents.entries()[i as int].0));
                assert(self.agents.map()[k] == *a);
                assert(a.id.value == k);
                assert(self.agents().contains_key(k));
            }
            r.push(api);
            proof {
                assert(r@[i as int] == av);
                assert(self.deployment_order()[i as int] == k);
                assert forall|j: int|
                    0 <= j < i + 1 implies #[trigger] r@[j].id@ == hyphenated_text(self.deployment_order()[j])
                        && r@[j].name@ == self.agents()[self.deployment_order()[j]].0 by {
                    if j < i {
                        assert(r@[j] == before[j]);
                    }
                }
                assert forall|j: int| #![trigger r@[j]] 0 <= j < r@.len() implies exists|x: u128| #[trigger] self.agents().contains_key(x)
                    && r@[j].id@ == hyphenated_text(x) && r@[j].name@ == self.agents()[x].0 by {
                    if j < i {
                        assert(r@[j] == before[j]);
                        assert(listed_agents(before, self.agents()));
                    } else {
                        assert(self.agents().contains_key(k) && r@[j].id@ == hyphenated_text(k)
                            && r@[j].name@ == self.agents()[k].0);
                    }
                }
            }
        }
        proof {
            self.agents.lemma_wf();
            assert(self.agents().dom() =~= self.agents.map().dom());
            let e = self.agents.entries();
            let order = self.deployment_order();
            assert forall|a: int, b: int| 0 <= a < order.len() && 0 <= b < order.len() && a != b implies order[a]
                != order[b] by {
                assert(order[a] == e[a].0);
                assert(order[b] == e[b].0);
            }
            assert forall|k: u128| #[trigger] self.agents().contains_key(k) <==> order.contains(k) by {
                if self.agents().contains_key(k) {
                    assert(self.agents.map().contains_key(k));
                    let j = crate::table::seq_key_index(e, k);
                    assert(order[j] == k);
                }
                if order.contains(k) {
                    let j = choose|j: int| 0 <= j < order.len() && order[j] == k;
                    assert(order[j] == e[j].0);
                    assert(self.agents.map().contains_key(e[j].0));
                }
            }
        }
        r
    }

    /// A listing that follows the store's deployment order lists each
    /// stored agent at exactly one position, with its identifier and name,
    /// and lists nothing else.
    pub proof fn lemma_each_agent_listed_once(store: Self, r: Seq<Agent>, k: u128)
        requires
            r.len() == store.deployment_order().len(),
            forall|i: int|
                0 <= i < r.len() ==> #[trigger] r[i].id@ == hyphenated_text(store.deployment_order()[i])
                    && r[i].name@ == store.agents()[store.deployment_order()[i]].0,
            store.deployment_order().no_duplicates(),
            forall|x: u128| #[trigger] store.agents().contains_key(x) <==> store.deployment_order().contains(x),
        ensures
            store.agents().contains_key(k) ==> exists|i: int| {
                &&& 0 <= i < r.len()
                &&& store.deployment_order()[i] == k
                &&& r[i].id@ == hyphenated_text(k)
                &&& r[i].name@ == store.agents()[k].0
                &&& forall|j: int| 0 <= j < r.len() && j != i ==> store.deployment_order()[j] != k
            },
            forall|i: int| 0 <= i < r.len() ==> store.agents().contains_key(#[trigger] store.deployment_order()[i]),
    {
        if store.agents().contains_key(k) {
            let i = choose|i: int| 0 <= i < store.deployment_order().len() && store.deployment_order()[i] == k;
            assert(r[i].id@ == hyphenated_text(store.deployment_order()[i]));
        }
        assert forall|i: int| 0 <= i < r.len() implies store.agents().contains_key(#[trigger] store.deployment_order()[i]) by {
            assert(store.deployment_order().contains(store.deployment_order()[i]));
        }
    }

    /// The get endpoint: 400 for text that is not a UUID, 404 for an
    /// unknown agent, else 200 with the agent.
    pub fn get_agent_by_id(&self, id_str: &str) -> (r: ApiResponse)
        requires
            self.wf(),
        ensures
            uuid_parse_result(id_str@) is None ==> (r matches ApiResponse::BadRequest(e) && e.error@
                == "Invalid agent ID format"@ && e.details is Some && e.details.unwrap()@
                == "Agent ID must be a valid UUID"@),
            uuid_parse_result(id_str@) is Some && !self.agents().contains_key(
                uuid_parse_result(id_str@).unwrap(),
            ) ==> (r matches ApiResponse::NotFound(e) && e.error@ == "Agent not found"@
                && e.details is Some && e.details.unwrap()@ == "No agent found with ID: "@ + id_str@),
            ({
                let v = uuid_parse_result(id_str@).unwrap();
                uuid_parse_result(id_str@) is Some && self.agents().contains_key(v) ==> (r matches ApiResponse::Found(
                    a,
                ) && a.id@ == hyphenated_text(v) && a.name@ == self.agents()[v].0 && a.wasm_module@
                    == self.agents()[v].1 && a.resource_limits == self.agents()[v].2)
            }),
    {
        let agent_id = match AgentId::parse(id_str) {
            Some(id) => id,
            None => {
                return ApiResponse::BadRequest(
                    ErrorResponse {
                        error: String::from_str("Invalid agent ID format"),
                        details: Some(String::from_str("Agent ID must be a valid UUID")),
                    },
                );
            },
        };
        match self.agents.get(agent_id.value) {
            Some(domain_agent) => ApiResponse::Found(Agent::from_domain(domain_agent)),
            None => ApiResponse::NotFound(
                ErrorResponse {
                    error: String::from_str("Agent not found"),
                    details: Some(String::from_str("No agent found with ID: ").concat(id_str)),
                },
            ),
        }
    }
}

/// Each listed agent is stored, under its identifier, with its name.
pub open spec fn listed_agents(r: Seq<Agent>, agents: Map<u128, (Seq<char>, Seq<char>, ResourceLimits)>) -> bool {
    forall|j: int|
        #![trigger r[j]]
        0 <= j < r.len() ==> exists|x: u128| #[trigger] agents.contains_key(x) && r[j].id@
            == hyphenated_text(x) && r[j].name@ == agents[x].0
}

} // verus!
