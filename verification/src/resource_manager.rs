//! Resource accounting for agents: bounded memory allocations, CPU fuel
//! budgets, message size limits and per-agent usage records.

use vstd::prelude::*;
use crate::base::{
    CpuFuel, CpuFuelConsumed, ExecutionTime, MaxAgentMemory, MaxTotalMemory, MemoryBytes,
    MessageSize,
};
use crate::config::u128_text;
use crate::ids::AgentId;
use crate::table::{seq_key_index, IdTable};
use crate::text::decimal_text;

verus! {

broadcast use vstd::string::group_string_axioms;

/// Largest number of bytes that all agents together may be given.
pub const MAX_TOTAL_MEMORY_BYTES: usize = 1_073_741_824;

/// Largest number of bytes that one agent may request.
pub const MAX_AGENT_MEMORY_BYTES: usize = 10_485_760;

/// An amount of CPU fuel to consume.
#[derive(Debug, Clone, Copy, PartialEq, Eq, Structural)]
pub struct CpuFuelAmount {
    value: u64,
}

impl View for CpuFuelAmount {
    type V = u64;

    closed spec fn view(&self) -> u64 {
        self.value
    }
}

impl CpuFuelAmount {
    /// The amount `value`.
    pub fn new(value: u64) -> (a: Self)
        ensures
            a@ == value,
    {
        CpuFuelAmount { value }
    }

    /// The amount.
    pub fn into_inner(&self) -> (v: u64)
        ensures
            v == self@,
    {
        self.value
    }
}

/// A CPU fuel budget.
#[derive(Debug, Clone, Copy, PartialEq, Eq, Structural)]
pub struct CpuFuelBudget {
    value: u64,
}

impl View for CpuFuelBudget {
    type V = u64;

    closed spec fn view(&self) -> u64 {
        self.value
    }
}

impl CpuFuelBudget {
    /// The budget `value`.
    pub fn new(value: u64) -> (b: Self)
        ensures
            b@ == value,
    {
        CpuFuelBudget { value }
    }

    /// The budget.
    pub fn into_inner(&self) -> (v: u64)
        ensures
            v == self@,
    {
        self.value
    }
}

impl Default for CpuFuelBudget {
    /// An empty budget.
    fn default() -> (b: Self)
        ensures
            b@ == 0,
    {
        CpuFuelBudget { value: 0 }
    }
}

/// Errors of fuel consumption.
#[derive(Debug, Clone, Copy, PartialEq, Eq, Structural)]
pub enum FuelError {
    /// More fuel was requested than the budget has left.
    InsufficientFuel { requested: u64, available: u64 },
    /// The budget is used up.
    FuelExhausted,
}

/// Resource limits for agent execution.
#[derive(Debug, Clone, Copy)]
pub struct ResourceLimits {
    /// Largest memory allocation in bytes.
    pub max_memory_bytes: MemoryBytes,
    /// Largest amount of CPU fuel.
    pub max_cpu_fuel: CpuFuel,
    /// Longest execution time of one operation.
    pub max_execution_time: ExecutionTime,
    /// Largest message size in bytes.
    pub max_message_size: MessageSize,
}

impl Default for ResourceLimits {
    /// 10 MiB of memory, one million fuel units, 5 seconds, 100 KiB messages.
    fn default() -> (l: Self)
        ensures
            l.max_memory_bytes@ == 10 * 1024 * 1024,
            l.max_cpu_fuel@ == 1_000_000,
            l.max_execution_time.millis == 5000,
            l.max_message_size@ == 100 * 1024,
    {
        let memory = match MemoryBytes::from_mb(10) {
            Ok(m) => m,
            Err(_) => vstd::pervasive::unreached(),
        };
        let fuel = match CpuFuel::try_new(1_000_000) {
            Ok(f) => f,
            Err(_) => vstd::pervasive::unreached(),
        };
        let size = match MessageSize::from_kb(100) {
            Ok(s) => s,
            Err(_) => vstd::pervasive::unreached(),
        };
        ResourceLimits {
            max_memory_bytes: memory,
            max_cpu_fuel: fuel,
            max_execution_time: ExecutionTime::from_secs(5),
            max_message_size: size,
        }
    }
}

/// A memory request of one agent: 1 to 10_485_760 bytes.
#[derive(Debug, Copy, PartialEq, Eq, Structural)]
pub struct AgentMemoryRequest {
    bytes: MaxAgentMemory,
}

impl Clone for AgentMemoryRequest {
    fn clone(&self) -> (r: Self)
        ensures
            r == *self,
    {
        *self
    }
}

impl View for AgentMemoryRequest {
    type V = usize;

    closed spec fn view(&self) -> usize {
        self.bytes@
    }
}

impl AgentMemoryRequest {
    #[verifier::type_invariant]
    closed spec fn positive(self) -> bool {
        self.bytes@ > 0
    }

    /// Whether a request of `bytes` bytes is accepted.
    pub open spec fn accepts(bytes: usize) -> bool {
        0 < bytes <= MAX_AGENT_MEMORY_BYTES
    }

    /// A request of `bytes` bytes; zero and more than the per-agent maximum
    /// are refused with a message.
    pub fn try_new(bytes: usize) -> (r: Result<Self, String>)
        ensures
            r is Ok <==> Self::accepts(bytes),
            r matches Ok(q) ==> q@ == bytes,
            bytes == 0 ==> (r matches Err(m) && m@ == "Memory request must be greater than 0"@),
            bytes > MAX_AGENT_MEMORY_BYTES ==> (r matches Err(m) && m@
                == "Invalid memory request: value must be less or equal to 10485760"@),
    {
        if bytes == 0 {
            return Err(String::from_str("Memory request must be greater than 0"));
        }
        match MaxAgentMemory::try_new(bytes) {
            Ok(m) => Ok(AgentMemoryRequest { bytes: m }),
            Err(_) => Err(
                String::from_str("Invalid memory request: value must be less or equal to 10485760"),
            ),
        }
    }

    /// The requested bytes.
    pub fn into_inner(&self) -> (v: usize)
        ensures
            v == self@,
            Self::accepts(v),
    {
        proof {
            use_type_invariant(self);
        }
        self.bytes.into_inner()
    }

    /// The request as a per-agent memory amount.
    pub fn as_max_memory(&self) -> (m: MaxAgentMemory)
        ensures
            m@ == self@,
    {
        self.bytes
    }
}

/// Errors of memory allocation.
#[allow(inconsistent_fields)]
#[derive(Debug, Clone, Copy, PartialEq, Eq, Structural)]
pub enum MemoryError {
    /// The request is above the per-agent limit.
    AgentLimitExceeded { requested: MaxAgentMemory, limit: MaxAgentMemory },
    /// The request would take the total above its limit.
    TotalLimitExceeded { requested: MaxAgentMemory, current: MaxTotalMemory, limit: MaxTotalMemory },
    /// The agent has no allocation.
    AgentNotFound { agent: AgentId },
    /// The agent has an allocation already.
    AgentAlreadyAllocated { agent: AgentId },
}

/// Memory allocated to all agents together: 0 to 1_073_741_824 bytes.
#[derive(Debug, Clone, Copy, PartialEq, Eq, Structural)]
pub struct TotalMemoryAllocated {
    bytes: MaxTotalMemory,
}

impl View for TotalMemoryAllocated {
    type V = usize;

    closed spec fn view(&self) -> usize {
        self.bytes@
    }
}

impl TotalMemoryAllocated {
    /// Nothing allocated.
    pub fn zero() -> (t: Self)
        ensures
            t@ == 0,
    {
        match MaxTotalMemory::try_new(0) {
            Ok(m) => TotalMemoryAllocated { bytes: m },
            Err(_) => vstd::pervasive::unreached(),
        }
    }

    /// A total of `bytes` bytes; more than the total maximum is refused.
    pub fn try_new(bytes: usize) -> (r: Result<Self, String>)
        ensures
            r is Ok <==> bytes <= MAX_TOTAL_MEMORY_BYTES,
            r matches Ok(t) ==> t@ == bytes,
            r matches Err(m) ==> m@ == "Invalid total memory: value must be less or equal to 1073741824"@,
    {
        match MaxTotalMemory::try_new(bytes) {
            Ok(m) => Ok(TotalMemoryAllocated { bytes: m }),
            Err(_) => Err(
                String::from_str("Invalid total memory: value must be less or equal to 1073741824"),
            ),
        }
    }

    /// The allocated bytes.
    pub fn into_inner(&self) -> (v: usize)
        ensures
            v == self@,
            v <= MAX_TOTAL_MEMORY_BYTES,
    {
        self.bytes.into_inner()
    }

    /// The total as a total memory amount.
    pub fn as_max_total_memory(&self) -> (m: MaxTotalMemory)
        ensures
            m@ == self@,
    {
        self.bytes
    }

    /// The total with `amount` added; refused where it would pass the
    /// total maximum.
    pub fn add(&self, amount: AgentMemoryRequest) -> (r: Result<Self, MemoryError>)
        ensures
            r is Ok <==> self@ + amount@ <= MAX_TOTAL_MEMORY_BYTES,
            r matches Ok(t) ==> t@ == self@ + amount@,
            r matches Err(e) ==> e matches MemoryError::TotalLimitExceeded { requested, current, limit }
                && requested@ == amount@ && current@ == self@ && limit@ == MAX_TOTAL_MEMORY_BYTES,
    {
        let new_total = self.bytes.into_inner() + amount.into_inner();
        match MaxTotalMemory::try_new(new_total) {
            Ok(m) => Ok(TotalMemoryAllocated { bytes: m }),
            Err(_) => Err(
                MemoryError::TotalLimitExceeded {
                    requested: amount.as_max_memory(),
                    current: self.bytes,
                    limit: MaxTotalMemory::default(),
                },
            ),
        }
    }

    /// The total with `amount` taken away, staying at zero.
    pub fn subtract(&self, amount: usize) -> (t: Self)
        ensures
            t@ == if amount >= self@ { 0 } else { self@ - amount },
    {
        let current = self.bytes.into_inner();
        let new_value = current.saturating_sub(amount);
        match MaxTotalMemory::try_new(new_value) {
            Ok(m) => TotalMemoryAllocated { bytes: m },
            Err(_) => Self::zero(),
        }
    }
}

/// Sum of the requested bytes of a sequence of allocations.
pub open spec fn requested_total(s: Seq<(u128, AgentMemoryRequest)>) -> int
    decreases s.len(),
{
    if s.len() == 0 {
        0
    } else {
        requested_total(s.drop_last()) + s.last().1@
    }
}

/// Removing the allocation at position `i` takes its bytes off the sum.
proof fn lemma_requested_total_remove(s: Seq<(u128, AgentMemoryRequest)>, i: int)
    requires
        0 <= i < s.len(),
    ensures
        requested_total(s.remove(i)) + s[i].1@ == requested_total(s),
    decreases s.len(),
{
    if i == s.len() - 1 {
        assert(s.remove(i) =~= s.drop_last());
    } else {
        lemma_requested_total_remove(s.drop_last(), i);
        assert(s.remove(i).drop_last() =~= s.drop_last().remove(i));
        assert(s.remove(i).last() == s.last());
    }
}

/// The sum of requested bytes is never negative.
proof fn lemma_requested_total_nonneg(s: Seq<(u128, AgentMemoryRequest)>)
    ensures
        requested_total(s) >= 0,
    decreases s.len(),
{
    if s.len() > 0 {
        lemma_requested_total_nonneg(s.drop_last());
    }
}

/// The allocations and total after a successful `allocate`, or `None` where
/// the agent has an allocation already or the total would pass its maximum.
pub open spec fn allocate_outcome(
    allocations: Map<u128, usize>,
    total: int,
    agent: u128,
    bytes: usize,
) -> Option<(Map<u128, usize>, int)> {
    if allocations.contains_key(agent) || total + bytes > MAX_TOTAL_MEMORY_BYTES {
        None
    } else {
        Some((allocations.insert(agent, bytes), total + bytes))
    }
}

/// The allocations, total and released bytes after a successful
/// `deallocate`, or `None` where the agent has no allocation.
pub open spec fn deallocate_outcome(allocations: Map<u128, usize>, total: int, agent: u128) -> Option<
    (Map<u128, usize>, int, usize),
> {
    if allocations.contains_key(agent) {
        Some((allocations.remove(agent), total - allocations[agent], allocations[agent]))
    } else {
        None
    }
}

/// Memory pool: one allocation per agent, and the total of all of them.
pub struct BoundedMemoryPool {
    allocations: IdTable<AgentMemoryRequest>,
    total_allocated: TotalMemoryAllocated,
}

impl BoundedMemoryPool {
    /// Well-formedness: the total is the sum of the allocations.
    pub closed spec fn wf(&self) -> bool {
        &&& self.allocations.wf()
        &&& self.total_allocated@ == requested_total(self.allocations.entries())
    }

    /// The requested bytes of each agent with an allocation.
    pub closed spec fn allocations(&self) -> Map<u128, usize> {
        self.allocations.map().map_values(|r: AgentMemoryRequest| r@)
    }

    /// The total of all allocations.
    pub closed spec fn total(&self) -> int {
        self.total_allocated@ as int
    }

    /// An empty pool.
    pub fn new() -> (p: Self)
        ensures
            p.wf(),
            p.allocations() == Map::<u128, usize>::empty(),
            p.total() == 0,
    {
        let p = BoundedMemoryPool {
            allocations: IdTable::new(),
            total_allocated: TotalMemoryAllocated::zero(),
        };
        assert(p.allocations() =~= Map::<u128, usize>::empty());
        p
    }

    /// Gives an agent its allocation. Refused for an agent that has one
    /// already, and where the total would pass its maximum.
    pub fn allocate(&mut self, agent_id: AgentId, request: AgentMemoryRequest) -> (r: Result<
        (),
        MemoryError,
    >)
        requires
            old(self).wf(),
        ensures
            final(self).wf(),
            match allocate_outcome(
                old(self).allocations(),
                old(self).total(),
                agent_id.value,
                request@,
            ) {
                Some((allocations, total)) => r is Ok && final(self).allocations() == allocations
                    && final(self).total() == total,
                None => r is Err && final(self).allocations() == old(self).allocations()
                    && final(self).total() == old(self).total(),
            },
            old(self).allocations().contains_key(agent_id.value) ==> r
                == Err::<(), MemoryError>(MemoryError::AgentAlreadyAllocated { agent: agent_id }),
            !old(self).allocations().contains_key(agent_id.value) && old(self).total() + request@
                > MAX_TOTAL_MEMORY_BYTES ==> (r matches Err(
                MemoryError::TotalLimitExceeded { requested, current, limit },
            ) && requested@ == request@ && current@ == old(self).total() && limit@
                == MAX_TOTAL_MEMORY_BYTES),
    {
        if self.allocations.contains_key(agent_id.value) {
            assert(self.allocations().contains_key(agent_id.value));
            return Err(MemoryError::AgentAlreadyAllocated { agent: agent_id });
        }
        assert(!self.allocations().contains_key(agent_id.value));
        let new_total = match self.total_allocated.add(request) {
            Ok(t) => t,
            Err(e) => {
                return Err(e);
            },
        };
        let ghost s0 = self.allocations.entries();
        self.allocations.insert_new(agent_id.value, request);
        self.total_allocated = new_total;
        proof {
            assert(self.allocations.entries().drop_last() =~= s0);
            assert(self.allocations() =~= old(self).allocations().insert(agent_id.value, request@));
        }
        Ok(())
    }

    /// Takes an agent's allocation away and hands it back. Refused for an
    /// agent that has none.
    pub fn deallocate(&mut self, agent_id: AgentId) -> (r: Result<AgentMemoryRequest, MemoryError>)
        requires
            old(self).wf(),
        ensures
            final(self).wf(),
            match deallocate_outcome(old(self).allocations(), old(self).total(), agent_id.value) {
                Some((allocations, total, bytes)) => r matches Ok(q) && q@ == bytes
                    && final(self).allocations() == allocations && final(self).total() == total,
                None => r == Err::<AgentMemoryRequest, MemoryError>(
                    MemoryError::AgentNotFound { agent: agent_id },
                ) && final(self).allocations() == old(self).allocations() && final(self).total()
                    == old(self).total(),
            },
    {
        let ghost s0 = self.allocations.entries();
        let allocation = match self.allocations.remove(agent_id.value) {
            Some(a) => a,
            None => {
                assert(!self.allocations().contains_key(agent_id.value));
                return Err(MemoryError::AgentNotFound { agent: agent_id });
            },
        };
        proof {
            let i = seq_key_index(s0, agent_id.value);
            lemma_requested_total_remove(s0, i);
            lemma_requested_total_nonneg(self.allocations.entries());
            assert(s0[i].1 == allocation);
        }
        self.total_allocated = self.total_allocated.subtract(allocation.into_inner());
        proof {
            assert(self.allocations() =~= old(self).allocations().remove(agent_id.value));
        }
        Ok(allocation)
    }

    /// The allocation of an agent, if it has one.
    pub fn get_allocation(&self, agent_id: &AgentId) -> (r: Option<AgentMemoryRequest>)
        requires
            self.wf(),
        ensures
            r is Some <==> self.allocations().contains_key(agent_id.value),
            r matches Some(q) ==> q@ == self.allocations()[agent_id.value],
    {
        match self.allocations.get(agent_id.value) {
            Some(q) => Some(*q),
            None => None,
        }
    }

    /// The total of all allocations.
    pub fn total_allocated(&self) -> (t: TotalMemoryAllocated)
        ensures
            t@ == self.total(),
    {
        self.total_allocated
    }
}

impl Default for BoundedMemoryPool {
    /// An empty pool.
    fn default() -> (p: Self)
        ensures
            p.wf(),
            p.allocations() == Map::<u128, usize>::empty(),
            p.total() == 0,
    {
        Self::new()
    }
}

/// Allocating memory for an agent that has none, where the total stays
/// within its maximum, and then releasing the agent's memory gives back the
/// request and leaves the allocations and the total as they were.
pub proof fn lemma_allocate_then_deallocate(
    allocations: Map<u128, usize>,
    total: int,
    agent: u128,
    bytes: usize,
)
    requires
        !allocations.contains_key(agent),
        total + bytes <= MAX_TOTAL_MEMORY_BYTES,
    ensures
        allocate_outcome(allocations, total, agent, bytes) is Some,
        deallocate_outcome(
            allocate_outcome(allocations, total, agent, bytes).unwrap().0,
            allocate_outcome(allocations, total, agent, bytes).unwrap().1,
            agent,
        ) == Some((allocations, total, bytes)),
{
    let after = allocations.insert(agent, bytes);
    assert(after.remove(agent) =~= allocations);
}

/// What one call of `consume` does: the budget is kept; an amount that fits
/// in what is left is accepted and added to the fuel used; any other is
/// refused and the fuel used stays.
pub open spec fn consume_step(before: SimpleFuelTracker, after: SimpleFuelTracker, amount: u64, accepted: bool) -> bool {
    &&& after.budget() == before.budget()
    &&& accepted <==> before.used() + amount <= before.budget()
    &&& accepted ==> after.used() == before.used() + amount
    &&& !accepted ==> after.used() == before.used()
}

/// The sum of the amounts whose call was accepted.
pub open spec fn accepted_sum(amounts: Seq<u64>, accepted: Seq<bool>) -> int
    decreases amounts.len(),
{
    if amounts.len() == 0 || accepted.len() == 0 {
        0
    } else {
        accepted_sum(amounts.drop_last(), accepted.drop_last()) + if accepted.last() {
            amounts.last() as int
        } else {
            0
        }
    }
}

/// A tracker made with some budget and then given a sequence of `consume`
/// calls, `states[i + 1]` being what the call with `amounts[i]` left of
/// `states[i]`: the fuel used is the sum of the accepted amounts, the budget
/// is the one it was made with, and the fuel used plus the fuel remaining is
/// that budget.
pub proof fn lemma_fuel_sequence(states: Seq<SimpleFuelTracker>, amounts: Seq<u64>, accepted: Seq<bool>)
    requires
        states.len() == amounts.len() + 1,
        accepted.len() == amounts.len(),
        states[0].used() == 0,
        forall|i: int| 0 <= i < amounts.len() ==> #[trigger] consume_step(states[i], states[i + 1], amounts[i], accepted[i]),
    ensures
        states.last().used() == accepted_sum(amounts, accepted),
        states.last().budget() == states[0].budget(),
        states.last().used() <= states.last().budget(),
        (states.last().budget() - states.last().used()) + states.last().used() == states[0].budget(),
    decreases amounts.len(),
{
    if amounts.len() > 0 {
        let n = amounts.len() - 1;
        let front = states.drop_last();
        assert forall|i: int| 0 <= i < amounts.drop_last().len() implies #[trigger] consume_step(
            front[i],
            front[i + 1],
            amounts.drop_last()[i],
            accepted.drop_last()[i],
        ) by {
            assert(consume_step(states[i], states[i + 1], amounts[i], accepted[i]));
        }
        lemma_fuel_sequence(front, amounts.drop_last(), accepted.drop_last());
        assert(consume_step(states[n], states[n + 1], amounts[n], accepted[n]));
        assert(front.last() == states[n]);
    }
}

/// Fuel accounting against a budget; what is consumed never passes the budget.
#[derive(Debug)]
pub struct SimpleFuelTracker {
    budget: CpuFuelBudget,
    consumed: CpuFuelConsumed,
}

impl SimpleFuelTracker {
    #[verifier::type_invariant]
    closed spec fn within_budget(self) -> bool {
        self.consumed.units <= self.budget@
    }

    /// The budget.
    pub closed spec fn budget(&self) -> u64 {
        self.budget@
    }

    /// The fuel consumed so far.
    pub closed spec fn used(&self) -> u64 {
        self.consumed.units
    }

    /// A tracker with nothing consumed.
    pub fn new(budget: CpuFuelBudget) -> (t: Self)
        ensures
            t.budget() == budget@,
            t.used() == 0,
    {
        SimpleFuelTracker { budget, consumed: CpuFuelConsumed::zero() }
    }

    /// Consumes `amount`; refused, with what is left, where the budget has
    /// less than that left.
    pub fn consume(&mut self, amount: CpuFuelAmount) -> (r: Result<(), FuelError>)
        ensures
            final(self).budget() == old(self).budget(),
            final(self).used() <= final(self).budget(),
            old(self).used() + amount@ <= old(self).budget() ==> r is Ok && final(self).used()
                == old(self).used() + amount@,
            old(self).used() + amount@ > old(self).budget() ==> r == Err::<(), FuelError>(
                FuelError::InsufficientFuel {
                    requested: amount@,
                    available: (old(self).budget() - old(self).used()) as u64,
                },
            ) && final(self).used() == old(self).used(),
            consume_step(*old(self), *final(self), amount@, r is Ok),
    {
        proof {
            use_type_invariant(&*self);
        }
        let current_consumed = self.consumed.into_inner();
        let budget = self.budget.into_inner();
        let amount_val = amount.into_inner();
        if amount_val > budget - current_consumed {
            return Err(
                FuelError::InsufficientFuel {
                    requested: amount_val,
                    available: budget - current_consumed,
                },
            );
        }
        self.consumed = self.consumed.saturating_add(amount_val);
        Ok(())
    }

    /// The fuel consumed so far.
    pub fn consumed(&self) -> (c: CpuFuelConsumed)
        ensures
            c.units == self.used(),
            c.units <= self.budget(),
    {
        proof {
            use_type_invariant(self);
        }
        self.consumed
    }

    /// The fuel left in the budget.
    pub fn remaining(&self) -> (b: CpuFuelBudget)
        ensures
            b@ == self.budget() - self.used(),
    {
        proof {
            use_type_invariant(self);
        }
        let budget = self.budget.into_inner();
        let consumed = self.consumed.into_inner();
        CpuFuelBudget::new(budget - consumed)
    }
}

impl Clone for SimpleFuelTracker {
    fn clone(&self) -> (t: Self)
        ensures
            t.budget() == self.budget(),
            t.used() == self.used(),
    {
        proof {
            use_type_invariant(self);
        }
        SimpleFuelTracker { budget: self.budget, consumed: self.consumed }
    }
}

/// Usage figures of one agent, kept for monitoring.
#[derive(Debug, Clone, Copy, PartialEq, Eq, Structural)]
pub struct AgentResourceUsage {
    /// Bytes allocated to the agent.
    pub memory_bytes: usize,
    /// Fuel the agent has consumed.
    pub cpu_fuel_consumed: u64,
    /// Messages the agent has sent, staying at the largest count once reached.
    pub message_count: usize,
}

impl AgentResourceUsage {
    /// Usage with every figure at zero.
    pub open spec fn zero_usage() -> AgentResourceUsage {
        AgentResourceUsage { memory_bytes: 0, cpu_fuel_consumed: 0, message_count: 0 }
    }

    /// Usage with every figure at zero.
    pub fn new() -> (u: Self)
        ensures
            u == Self::zero_usage(),
    {
        AgentResourceUsage { memory_bytes: 0, cpu_fuel_consumed: 0, message_count: 0 }
    }
}

/// Sum of the consumed fuel of a sequence of trackers, staying at
/// `u64::MAX` once reached.
pub open spec fn fuel_total(s: Seq<(u128, SimpleFuelTracker)>) -> u64
    decreases s.len(),
{
    if s.len() == 0 {
        0
    } else {
        let rest = fuel_total(s.drop_last());
        if rest + s.last().1.used() > u64::MAX {
            u64::MAX
        } else {
            (rest + s.last().1.used()) as u64
        }
    }
}

/// Sum of the consumed fuel of a sequence of trackers.
pub open spec fn fuel_sum(s: Seq<(u128, SimpleFuelTracker)>) -> int
    decreases s.len(),
{
    if s.len() == 0 {
        0
    } else {
        fuel_sum(s.drop_last()) + s.last().1.used()
    }
}

/// The capped total is the sum, or `u64::MAX` where the sum is larger.
pub proof fn lemma_fuel_total_is_capped_sum(s: Seq<(u128, SimpleFuelTracker)>)
    ensures
        fuel_sum(s) >= 0,
        fuel_total(s) == if fuel_sum(s) > u64::MAX { u64::MAX as int } else { fuel_sum(s) },
    decreases s.len(),
{
    if s.len() > 0 {
        lemma_fuel_total_is_capped_sum(s.drop_last());
    }
}

/// Replacing one tracker changes the sum by the difference of their fuel.
pub proof fn lemma_fuel_sum_update(s: Seq<(u128, SimpleFuelTracker)>, i: int, e: (u128, SimpleFuelTracker))
    requires
        0 <= i < s.len(),
    ensures
        fuel_sum(s.update(i, e)) == fuel_sum(s) - s[i].1.used() + e.1.used(),
    decreases s.len(),
{
    let t = s.update(i, e);
    if i == s.len() - 1 {
        assert(t.drop_last() =~= s.drop_last());
    } else {
        assert(t.drop_last() =~= s.drop_last().update(i, e));
        lemma_fuel_sum_update(s.drop_last(), i, e);
    }
}

/// Removing one tracker lowers the sum by its fuel.
pub proof fn lemma_fuel_sum_remove(s: Seq<(u128, SimpleFuelTracker)>, i: int)
    requires
        0 <= i < s.len(),
    ensures
        fuel_sum(s.remove(i)) == fuel_sum(s) - s[i].1.used(),
    decreases s.len(),
{
    let t = s.remove(i);
    if i == s.len() - 1 {
        assert(t =~= s.drop_last());
    } else {
        assert(t.drop_last() =~= s.drop_last().remove(i));
        assert(t.last() == s.last());
        lemma_fuel_sum_remove(s.drop_last(), i);
    }
}

/// Allocation and tracking of the resources of all agents.
pub struct ResourceManager {
    limits: ResourceLimits,
    memory_pool: BoundedMemoryPool,
    fuel_trackers: IdTable<SimpleFuelTracker>,
    agent_usage: IdTable<AgentResourceUsage>,
}

impl ResourceManager {
    /// Well-formedness of the pool and the tables.
    pub closed spec fn wf(&self) -> bool {
        &&& self.memory_pool.wf()
        &&& self.fuel_trackers.wf()
        &&& self.agent_usage.wf()
    }

    /// The configured limits.
    pub closed spec fn limits(&self) -> ResourceLimits {
        self.limits
    }

    /// The requested bytes of each agent with an allocation.
    pub closed spec fn allocations(&self) -> Map<u128, usize> {
        self.memory_pool.allocations()
    }

    /// The total of all allocations.
    pub closed spec fn total_memory(&self) -> int {
        self.memory_pool.total()
    }

    /// The fuel tracker of each agent that has consumed fuel.
    pub closed spec fn trackers(&self) -> Map<u128, SimpleFuelTracker> {
        self.fuel_trackers.map()
    }

    /// The trackers in the order they were created.
    pub closed spec fn tracker_entries(&self) -> Seq<(u128, SimpleFuelTracker)> {
        self.fuel_trackers.entries()
    }

    /// The usage record of each agent that has one.
    pub closed spec fn usage(&self) -> Map<u128, AgentResourceUsage> {
        self.agent_usage.map()
    }

    /// A manager with the given limits and nothing allocated.
    pub fn new(limits: ResourceLimits) -> (m: Self)
        ensures
            m.wf(),
            m.limits() == limits,
            m.allocations() == Map::<u128, usize>::empty(),
            m.total_memory() == 0,
            m.trackers() == Map::<u128, SimpleFuelTracker>::empty(),
            m.tracker_entries() == Seq::<(u128, SimpleFuelTracker)>::empty(),
            m.usage() == Map::<u128, AgentResourceUsage>::empty(),
    {
        ResourceManager {
            limits,
            memory_pool: BoundedMemoryPool::new(),
            fuel_trackers: IdTable::new(),
            agent_usage: IdTable::new(),
        }
    }

    /// The usage record of an agent, or a fresh one.
    fn usage_of(&self, agent_id: AgentId) -> (u: AgentResourceUsage)
        requires
            self.wf(),
        ensures
            u == if self.usage().contains_key(agent_id.value) {
                self.usage()[agent_id.value]
            } else {
                AgentResourceUsage::zero_usage()
            },
    {
        match self.agent_usage.get(agent_id.value) {
            Some(u) => *u,
            None => AgentResourceUsage::new(),
        }
    }

    /// Allocates memory for an agent and records it in the agent's usage.
    pub fn allocate_memory(&mut self, agent_id: AgentId, request: AgentMemoryRequest) -> (r: Result<
        (),
        MemoryError,
    >)
        requires
            old(self).wf(),
        ensures
            final(self).wf(),
            final(self).limits() == old(self).limits(),
            final(self).trackers() == old(self).trackers(),
            final(self).tracker_entries() == old(self).tracker_entries(),
            match allocate_outcome(
                old(self).allocations(),
                old(self).total_memory(),
                agent_id.value,
                request@,
            ) {
                Some((allocations, total)) => r is Ok && final(self).allocations() == allocations
                    && final(self).total_memory() == total && final(self).usage() == old(self).usage().insert(
                    agent_id.value,
                    AgentResourceUsage {
                        memory_bytes: request@,
                        ..if old(self).usage().contains_key(agent_id.value) {
                            old(self).usage()[agent_id.value]
                        } else {
                            AgentResourceUsage::zero_usage()
                        }
                    },
                ),
                None => r is Err && final(self).allocations() == old(self).allocations()
                    && final(self).total_memory() == old(self).total_memory() && final(self).usage()
                    == old(self).usage(),
            },
            old(self).allocations().contains_key(agent_id.value) ==> r
                == Err::<(), MemoryError>(MemoryError::AgentAlreadyAllocated { agent: agent_id }),
    {
        match self.memory_pool.allocate(agent_id, request) {
            Ok(()) => {},
            Err(e) => {
                return Err(e);
            },
        }
        let mut usage = self.usage_of(agent_id);
        usage.memory_bytes = request.into_inner();
        self.agent_usage.upsert(agent_id.value, usage);
        Ok(())
    }

    /// Releases the memory of an agent and clears it in the agent's usage.
    pub fn deallocate_memory(&mut self, agent_id: AgentId) -> (r: Result<
        AgentMemoryRequest,
        MemoryError,
    >)
        requires
            old(self).wf(),
        ensures
            final(self).wf(),
            final(self).limits() == old(self).limits(),
            final(self).trackers() == old(self).trackers(),
            final(self).tracker_entries() == old(self).tracker_entries(),
            match deallocate_outcome(
                old(self).allocations(),
                old(self).total_memory(),
                agent_id.value,
            ) {
                Some((allocations, total, bytes)) => r matches Ok(q) && q@ == bytes
                    && final(self).allocations() == allocations && final(self).total_memory()
                    == total && final(self).usage() == if old(self).usage().contains_key(
                    agent_id.value,
                ) {
                    old(self).usage().insert(
                        agent_id.value,
                        AgentResourceUsage { memory_bytes: 0, ..old(self).usage()[agent_id.value] },
                    )
                } else {
                    old(self).usage()
                },
                None => r == Err::<AgentMemoryRequest, MemoryError>(
                    MemoryError::AgentNotFound { agent: agent_id },
                ) && final(self).allocations() == old(self).allocations()
                    && final(self).total_memory() == old(self).total_memory() && final(self).usage()
                    == old(self).usage(),
            },
    {
        let deallocated = match self.memory_pool.deallocate(agent_id) {
            Ok(d) => d,
            Err(e) => {
                return Err(e);
            },
        };
        match self.agent_usage.find(agent_id.value) {
            Some(i) => {
                let (_, u) = self.agent_usage.entry_at(i);
                let mut usage = *u;
                usage.memory_bytes = 0;
                self.agent_usage.set_at(i, usage);
            },
            None => {},
        }
        Ok(deallocated)
    }

    /// Consumes fuel for an agent. An agent without a tracker is given one
    /// with the configured budget first, even where the consumption is then
    /// refused.
    pub fn consume_fuel(&mut self, agent_id: AgentId, fuel_amount: CpuFuelAmount) -> (r: Result<
        (),
        FuelError,
    >)
        requires
            old(self).wf(),
        ensures
            final(self).wf(),
            final(self).limits() == old(self).limits(),
            final(self).allocations() == old(self).allocations(),
            final(self).total_memory() == old(self).total_memory(),
            final(self).trackers().contains_key(agent_id.value),
            final(self).trackers().dom() == old(self).trackers().dom().insert(agent_id.value),
            forall|k: u128|
                k != agent_id.value && #[trigger] old(self).trackers().contains_key(k) ==> final(self).trackers()[k] == old(self).trackers()[k],
            ({
                let before_used: u64 = if old(self).trackers().contains_key(agent_id.value) {
                    old(self).trackers()[agent_id.value].used()
                } else {
                    0
                };
                let budget: u64 = if old(self).trackers().contains_key(agent_id.value) {
                    old(self).trackers()[agent_id.value].budget()
                } else {
                    old(self).limits().max_cpu_fuel@
                };
                let after = final(self).trackers()[agent_id.value];
                &&& after.budget() == budget
                &&& before_used + fuel_amount@ <= budget ==> r is Ok && after.used() == before_used
                    + fuel_amount@
                &&& before_used + fuel_amount@ > budget ==> r == Err::<(), FuelError>(
                    FuelError::InsufficientFuel {
                        requested: fuel_amount@,
                        available: (budget - before_used) as u64,
                    },
                ) && after.used() == before_used
            }),
            r is Ok ==> final(self).usage() == old(self).usage().insert(
                agent_id.value,
                AgentResourceUsage {
                    cpu_fuel_consumed: final(self).trackers()[agent_id.value].used(),
                    ..if old(self).usage().contains_key(agent_id.value) {
                        old(self).usage()[agent_id.value]
                    } else {
                        AgentResourceUsage::zero_usage()
                    }
                },
            ),
            r is Err ==> final(self).usage() == old(self).usage(),
            fuel_sum(final(self).tracker_entries()) == fuel_sum(old(self).tracker_entries())
                + final(self).trackers()[agent_id.value].used()
                - if old(self).trackers().contains_key(agent_id.value) {
                old(self).trackers()[agent_id.value].used() as int
            } else {
                0
            },
    {
        let ghost e0 = self.fuel_trackers.entries();
        let budget = CpuFuelBudget::new(self.limits.max_cpu_fuel.into_inner());
        let i = match self.fuel_trackers.find(agent_id.value) {
            Some(i) => i,
            None => {
                self.fuel_trackers.insert_new(agent_id.value, SimpleFuelTracker::new(budget));
                let n = self.fuel_trackers.len();
                proof {
                    self.fuel_trackers.lemma_wf();
                }
                n - 1
            },
        };
        let ghost mid = self.fuel_trackers.map();
        proof {
            self.fuel_trackers.lemma_wf();
        }
        let ghost e1 = self.fuel_trackers.entries();
        proof {
            if old(self).trackers().contains_key(agent_id.value) {
                assert(e1 == e0);
            } else {
                assert(e1.drop_last() =~= e0);
            }
        }
        let (_, t) = self.fuel_trackers.entry_at(i);
        let mut tracker = t.clone();
        let result = tracker.consume(fuel_amount);
        let consumed = tracker.consumed();
        self.fuel_trackers.set_at(i, tracker);
        proof {
            self.fuel_trackers.lemma_wf();
            lemma_fuel_sum_update(e1, i as int, (agent_id.value, tracker));
        }
        match result {
            Ok(()) => {},
            Err(e) => {
                return Err(e);
            },
        }
        let mut usage = self.usage_of(agent_id);
        usage.cpu_fuel_consumed = consumed.into_inner();
        self.agent_usage.upsert(agent_id.value, usage);
        Ok(())
    }

    /// Checks a message size against the configured limit.
    pub fn check_message_size(&self, size: MessageSize) -> (r: Result<(), String>)
        ensures
            size@ <= self.limits().max_message_size@ ==> r is Ok,
            size@ > self.limits().max_message_size@ ==> (r matches Err(m) && m@ == "Message size "@
                + decimal_text(size@ as nat) + " exceeds limit of "@ + decimal_text(
                self.limits().max_message_size@ as nat,
            ) + " bytes"@),
    {
        let size_val: usize = size.into_inner();
        let max_size: usize = self.limits.max_message_size.into_inner();
        if size_val > max_size {
            let message = String::from_str("Message size ").concat(
                u128_text(size_val as u128).as_str(),
            ).concat(" exceeds limit of ").concat(u128_text(max_size as u128).as_str()).concat(
                " bytes",
            );
            return Err(message);
        }
        Ok(())
    }

    /// The allocation of an agent, if it has one.
    pub fn get_agent_memory_usage(&self, agent_id: AgentId) -> (r: Option<AgentMemoryRequest>)
        requires
            self.wf(),
        ensures
            r is Some <==> self.allocations().contains_key(agent_id.value),
            r matches Some(q) ==> q@ == self.allocations()[agent_id.value],
    {
        self.memory_pool.get_allocation(&agent_id)
    }

    /// The fuel an agent has consumed; zero for an agent without a tracker.
    pub fn get_agent_fuel_usage(&self, agent_id: AgentId) -> (c: CpuFuelConsumed)
        requires
            self.wf(),
        ensures
            c.units == if self.trackers().contains_key(agent_id.value) {
                self.trackers()[agent_id.value].used()
            } else {
                0
            },
    {
        match self.fuel_trackers.get(agent_id.value) {
            Some(t) => t.consumed(),
            None => CpuFuelConsumed::zero(),
        }
    }

    /// The total of all allocations.
    pub fn get_total_memory_usage(&self) -> (t: TotalMemoryAllocated)
        requires
            self.wf(),
        ensures
            t@ == self.total_memory(),
    {
        self.memory_pool.total_allocated()
    }

    /// The fuel consumed by all agents together.
    pub fn get_total_fuel_usage(&self) -> (c: CpuFuelConsumed)
        requires
            self.wf(),
        ensures
            c.units == fuel_total(self.tracker_entries()),
            c.units == if fuel_sum(self.tracker_entries()) > u64::MAX {
                u64::MAX as int
            } else {
                fuel_sum(self.tracker_entries())
            },
    {
        proof {
            lemma_fuel_total_is_capped_sum(self.tracker_entries());
        }
        let n = self.fuel_trackers.len();
        let mut total: u64 = 0;
        for i in 0..n
            invariant
                n == self.fuel_trackers.entries().len(),
                total == fuel_total(self.fuel_trackers.entries().take(i as int)),
        {
            let (_, t) = self.fuel_trackers.entry_at(i);
            proof {
                let s = self.fuel_trackers.entries().take(i + 1);
                assert(s.drop_last() =~= self.fuel_trackers.entries().take(i as int));
            }
            total = total.saturating_add(t.consumed().into_inner());
        }
        assert(self.fuel_trackers.entries().take(n as int) =~= self.fuel_trackers.entries());
        CpuFuelConsumed::new(total)
    }

    /// Releases everything held for an agent: its memory, its fuel tracker
    /// and its usage record.
    pub fn cleanup_agent(&mut self, agent_id: AgentId)
        requires
            old(self).wf(),
        ensures
            final(self).wf(),
            final(self).limits() == old(self).limits(),
            final(self).allocations() == old(self).allocations().remove(agent_id.value),
            final(self).total_memory() == if old(self).allocations().contains_key(agent_id.value) {
                old(self).total_memory() - old(self).allocations()[agent_id.value]
            } else {
                old(self).total_memory()
            },
            final(self).trackers() == old(self).trackers().remove(agent_id.value),
            final(self).usage() == old(self).usage().remove(agent_id.value),
            fuel_sum(final(self).tracker_entries()) == fuel_sum(old(self).tracker_entries())
                - if old(self).trackers().contains_key(agent_id.value) {
                old(self).trackers()[agent_id.value].used() as int
            } else {
                0
            },
    {
        let ghost a0 = self.allocations();
        match self.deallocate_memory(agent_id) {
            Ok(_) => {},
            Err(_) => {
                assert(a0.remove(agent_id.value) =~= a0);
            },
        }
        let ghost u1 = self.usage();
        let ghost e0 = self.fuel_trackers.entries();
        let removed = self.fuel_trackers.remove(agent_id.value);
        proof {
            if removed is Some {
                lemma_fuel_sum_remove(e0, seq_key_index(e0, agent_id.value));
            }
        }
        let _ = self.agent_usage.remove(agent_id.value);
        proof {
            assert(self.usage() =~= old(self).usage().remove(agent_id.value));
        }
    }

    /// The configured limits.
    pub fn get_limits(&self) -> (l: &ResourceLimits)
        ensures
            *l == self.limits(),
    {
        &self.limits
    }

    /// Counts a message sent by an agent that has a usage record.
    pub fn record_message(&mut self, agent_id: AgentId)
        requires
            old(self).wf(),
        ensures
            final(self).wf(),
            final(self).limits() == old(self).limits(),
            final(self).allocations() == old(self).allocations(),
            final(self).total_memory() == old(self).total_memory(),
            final(self).trackers() == old(self).trackers(),
            final(self).usage() == if old(self).usage().contains_key(agent_id.value) {
                let u = old(self).usage()[agent_id.value];
                old(self).usage().insert(
                    agent_id.value,
                    AgentResourceUsage {
                        message_count: if u.message_count == usize::MAX {
                            usize::MAX
                        } else {
                            (u.message_count + 1) as usize
                        },
                        ..u
                    },
                )
            } else {
                old(self).usage()
            },
    {
        match self.agent_usage.find(agent_id.value) {
            Some(i) => {
                let (_, u) = self.agent_usage.entry_at(i);
                let mut usage = *u;
                usage.message_count = usage.message_count.saturating_add(1);
                self.agent_usage.set_at(i, usage);
            },
            None => {},
        }
    }

    /// The usage record of an agent, if it has one.
    pub fn get_agent_usage(&self, agent_id: AgentId) -> (r: Option<AgentResourceUsage>)
        requires
            self.wf(),
        ensures
            r is Some <==> self.usage().contains_key(agent_id.value),
            r matches Some(u) ==> u == self.usage()[agent_id.value],
    {
        match self.agent_usage.get(agent_id.value) {
            Some(u) => Some(*u),
            None => None,
        }
    }
}

} // verus!
