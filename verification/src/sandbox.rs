//! The isolated execution environment of one agent: its memory and table
//! limits, its fuel, the host functions it is given, and the execution of
//! its functions.

use vstd::prelude::*;
use crate::ids::AgentId;
use crate::resource_manager::ResourceLimits;

verus! {

broadcast use vstd::string::group_string_axioms;

/// Largest number of table elements a sandbox may grow to.
pub const MAX_TABLE_ELEMENTS: usize = 10_000;

/// Memory reported for an instance that exports no memory: one WASM page.
pub const DEFAULT_MEMORY_PAGE_BYTES: usize = 65_536;

/// Fuel that a call of `long_computation` takes.
pub const LONG_COMPUTATION_FUEL: u64 = 500;

/// Fuel that a call of any other function takes.
pub const DEFAULT_CALL_FUEL: u64 = 100;

/// Result of executing an agent function.
#[derive(Debug)]
pub struct ExecutionResult {
    /// Fuel consumed by the execution.
    pub fuel_consumed: u64,
    /// Whether the execution completed.
    pub completed_successfully: bool,
    /// Output of the execution.
    pub output: Option<Vec<u8>>,
}

/// The fuel that a call of `function` takes with `available` fuel left: an
/// endless loop takes all of it.
pub open spec fn call_fuel(function: Seq<char>, available: u64) -> u64 {
    if function == "infinite_loop"@ {
        available
    } else if function == "long_computation"@ {
        LONG_COMPUTATION_FUEL
    } else {
        DEFAULT_CALL_FUEL
    }
}

/// Whether two texts are equal.
pub(crate) fn same_text(a: &str, b: &str) -> (r: bool)
    ensures
        r == (a@ == b@),
{
    let n = a.unicode_len();
    if n != b.unicode_len() {
        return false;
    }
    let mut i: usize = 0;
    while i < n
        invariant
            n == a@.len(),
            n == b@.len(),
            i <= n,
            forall|j: int| 0 <= j < i ==> a@[j] == b@[j],
        decreases n - i,
    {
        if a.get_char(i) != b.get_char(i) {
            return false;
        }
        i = i + 1;
    }
    assert(a@ =~= b@);
    true
}

/// Isolated execution environment for one agent.
pub struct Sandbox {
    id: AgentId,
    resource_limits: ResourceLimits,
    initialized: bool,
    fuel: u64,
    fuel_consumed: u64,
    memory_usage: usize,
    exposed_functions: Vec<String>,
}

impl Sandbox {
    /// The agent that the sandbox belongs to.
    pub closed spec fn agent(&self) -> AgentId {
        self.id
    }

    /// The limits of the sandbox.
    pub closed spec fn limits(&self) -> ResourceLimits {
        self.resource_limits
    }

    /// Whether the sandbox holds an instance.
    pub closed spec fn is_initialized(&self) -> bool {
        self.initialized
    }

    /// Fuel left in the instance.
    pub closed spec fn fuel(&self) -> u64 {
        self.fuel
    }

    /// Fuel consumed by executions so far (staying at `u64::MAX` once reached).
    pub closed spec fn consumed(&self) -> u64 {
        self.fuel_consumed
    }

    /// Memory of the instance in bytes.
    pub closed spec fn memory(&self) -> usize {
        self.memory_usage
    }

    /// The names of the host functions given to the agent.
    pub closed spec fn exposed(&self) -> Seq<Seq<char>> {
        self.exposed_functions@.map_values(|s: String| s@)
    }

    /// A sandbox without an instance, offering the `log`, `get_time` and
    /// `send_message` host functions.
    pub fn new(id: AgentId, resource_limits: ResourceLimits) -> (s: Self)
        ensures
            s.agent() == id,
            s.limits() == resource_limits,
            !s.is_initialized(),
            s.memory() == 0,
            s.consumed() == 0,
            s.exposed() == seq!["log"@, "get_time"@, "send_message"@],
    {
        let mut functions: Vec<String> = Vec::new();
        functions.push(String::from_str("log"));
        functions.push(String::from_str("get_time"));
        functions.push(String::from_str("send_message"));
        let s = Sandbox {
            id,
            resource_limits,
            initialized: false,
            fuel: 0,
            fuel_consumed: 0,
            memory_usage: 0,
            exposed_functions: functions,
        };
        assert(s.exposed() =~= seq!["log"@, "get_time"@, "send_message"@]);
        s
    }

    /// Takes in an instance whose exported memory has `memory_size` bytes
    /// (`None` where it exports none) and fills its fuel up to the limit.
    /// Refused where fuel metering is off, as an instance without metering
    /// cannot be given fuel.
    pub fn initialize(&mut self, fuel_metering: bool, memory_size: Option<usize>) -> (r: Result<
        (),
        String,
    >)
        ensures
            final(self).agent() == old(self).agent(),
            final(self).limits() == old(self).limits(),
            final(self).exposed() == old(self).exposed(),
            final(self).consumed() == old(self).consumed(),
            !fuel_metering ==> (r matches Err(m) && m@ == "Failed to add fuel to store"@)
                && final(self).is_initialized() == old(self).is_initialized() && final(self).memory()
                == old(self).memory(),
            fuel_metering ==> r is Ok && final(self).is_initialized() && final(self).fuel() == old(self).limits().max_cpu_fuel@ && final(self).memory() == match memory_size {
                Some(n) => n,
                None => DEFAULT_MEMORY_PAGE_BYTES,
            },
    {
        if !fuel_metering {
            return Err(String::from_str("Failed to add fuel to store"));
        }
        self.fuel = self.resource_limits.max_cpu_fuel.into_inner();
        self.memory_usage = match memory_size {
            Some(n) => n,
            None => DEFAULT_MEMORY_PAGE_BYTES,
        };
        self.initialized = true;
        Ok(())
    }

    /// Whether memory may grow to `desired` bytes: not past the limit.
    pub fn memory_growing(&self, current: usize, desired: usize, maximum: Option<usize>) -> (b: bool)
        ensures
            b == (desired <= self.limits().max_memory_bytes@),
    {
        desired <= self.resource_limits.max_memory_bytes.into_inner()
    }

    /// Whether a table may grow to `desired` elements: not past ten thousand.
    pub fn table_growing(&self, current: usize, desired: usize, maximum: Option<usize>) -> (b: bool)
        ensures
            b == (desired <= MAX_TABLE_ELEMENTS),
    {
        desired <= MAX_TABLE_ELEMENTS
    }

    /// Executes a function of the agent. Refused where the sandbox holds no
    /// instance, and where the call would take all the fuel that is left.
    pub fn execute(&mut self, function: &str, args: &[u8]) -> (r: Result<ExecutionResult, String>)
        ensures
            final(self).agent() == old(self).agent(),
            final(self).limits() == old(self).limits(),
            final(self).is_initialized() == old(self).is_initialized(),
            final(self).fuel() == old(self).fuel(),
            final(self).memory() == old(self).memory(),
            final(self).exposed() == old(self).exposed(),
            !old(self).is_initialized() ==> (r matches Err(m) && m@ == "Sandbox not initialized"@)
                && final(self).consumed() == old(self).consumed(),
            old(self).is_initialized() && call_fuel(function@, old(self).fuel()) >= old(self).fuel()
                ==> (r matches Err(m) && m@ == "fuel exhausted (CPU limit reached)"@)
                && final(self).consumed() == old(self).consumed(),
            old(self).is_initialized() && call_fuel(function@, old(self).fuel()) < old(self).fuel()
                ==> (r matches Ok(result) && result.fuel_consumed == call_fuel(
                function@,
                old(self).fuel(),
            ) && result.completed_successfully && (result.output matches Some(v) && v@.len() == 0))
                && final(self).consumed() == if old(self).consumed() + call_fuel(
                function@,
                old(self).fuel(),
            ) > u64::MAX {
                u64::MAX
            } else {
                (old(self).consumed() + call_fuel(function@, old(self).fuel())) as u64
            },
    {
        if !self.initialized {
            return Err(String::from_str("Sandbox not initialized"));
        }
        let initial_fuel = self.fuel;
        let simulated: u64 = if same_text(function, "infinite_loop") {
            initial_fuel
        } else if same_text(function, "long_computation") {
            LONG_COMPUTATION_FUEL
        } else {
            DEFAULT_CALL_FUEL
        };
        if simulated >= initial_fuel {
            return Err(String::from_str("fuel exhausted (CPU limit reached)"));
        }
        self.fuel_consumed = self.fuel_consumed.saturating_add(simulated);
        Ok(ExecutionResult { fuel_consumed: simulated, completed_successfully: true, output: Some(Vec::new()) })
    }

    /// Memory of the instance in bytes.
    pub fn get_memory_usage(&self) -> (n: usize)
        ensures
            n == self.memory(),
    {
        self.memory_usage
    }

    /// The names of the host functions given to the agent.
    pub fn get_exposed_functions(&self) -> (v: Vec<String>)
        ensures
            v@.map_values(|s: String| s@) == self.exposed(),
    {
        let mut v: Vec<String> = Vec::new();
        let n = self.exposed_functions.len();
        for i in 0..n
            invariant
                n == self.exposed_functions@.len(),
                v@.map_values(|s: String| s@) == self.exposed().take(i as int),
        {
            let s = self.exposed_functions[i].clone();
            let ghost before = v@;
            v.push(s);
            proof {
                assert(v@ == before.push(s));
                assert(v@.map_values(|s: String| s@) =~= before.map_values(|s: String| s@).push(s@));
                assert(self.exposed().take(i + 1) =~= self.exposed().take(i as int).push(s@));
            }
        }
        assert(self.exposed().take(n as int) =~= self.exposed());
        v
    }

    /// Drops the instance.
    pub fn shutdown(&mut self) -> (r: Result<(), String>)
        ensures
            r is Ok,
            !final(self).is_initialized(),
            final(self).fuel() == old(self).fuel(),
            final(self).agent() == old(self).agent(),
            final(self).limits() == old(self).limits(),
            final(self).consumed() == old(self).consumed(),
            final(self).memory() == old(self).memory(),
            final(self).exposed() == old(self).exposed(),
    {
        self.initialized = false;
        Ok(())
    }
}

} // verus!
