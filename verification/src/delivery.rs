//! Message delivery to local agent queues and remote node connections, the
//! failure handler, the metrics collector, and health reporting.

use vstd::prelude::*;
use crate::base::MessageCount;
use crate::errors::{DeliveryError, RouterError};
use crate::ids::{AgentId, MessageId, NodeId};
use crate::message_router::domain_types::{AgentState, FailureReason, FipaMessage, LocalAgent};
use crate::table::IdTable;

verus! {

broadcast use vstd::string::group_string_axioms;

/// The sending half of a bounded tokio channel.
#[verifier::external_type_specification]
#[verifier::external_body]
#[verifier::reject_recursive_types(T)]
pub struct ExSender<T>(tokio::sync::mpsc::Sender<T>);

/// What became of an attempt to put a message on a queue.
#[derive(Debug, Clone, Copy, PartialEq, Eq, Structural)]
pub enum SendOutcome {
    /// The message is on the queue.
    Sent,
    /// The queue has no room left.
    Full,
    /// The receiving side is gone.
    Closed,
}

/// Calls `tokio::sync::mpsc::Sender::try_send` and tells its three outcomes
/// apart. Which one comes depends on the state of the queue, so nothing is
/// stated of it.
#[verifier::external_body]
fn try_send_to_queue(queue: &tokio::sync::mpsc::Sender<FipaMessage>, message: FipaMessage) -> (o:
    SendOutcome) {
    match queue.try_send(message) {
        Ok(()) => SendOutcome::Sent,
        Err(tokio::sync::mpsc::error::TrySendError::Full(_)) => SendOutcome::Full,
        Err(tokio::sync::mpsc::error::TrySendError::Closed(_)) => SendOutcome::Closed,
    }
}

/// Health of a component.
#[derive(Debug, Clone)]
pub enum HealthStatus {
    /// Operating normally.
    Healthy,
    /// Operating with reduced performance.
    Degraded { reason: String },
    /// Serious problems affect its function.
    Unhealthy { reason: String },
}

/// States of a circuit breaker.
#[derive(Debug, Clone, Copy, PartialEq, Eq, Structural)]
pub enum CircuitBreakerState {
    /// Requests pass.
    Closed,
    /// A trial request is let through.
    HalfOpen,
    /// Requests are blocked.
    Open,
}

/// Why a message is retried.
#[derive(Debug, Clone, Copy, PartialEq, Eq, Hash, Structural)]
pub enum RetryReason {
    NetworkError,
    QueueFull,
    AgentUnavailable,
    ResourceExhausted,
    Timeout,
}

/// Statistics of the dead letter queue.
#[derive(Debug, Clone)]
pub struct DeadLetterStats {
    /// Messages in the queue.
    pub total_messages: MessageCount,
    /// Messages by failure reason.
    pub messages_by_reason: Vec<(FailureReason, MessageCount)>,
    /// Age of the oldest message in milliseconds.
    pub oldest_message_age_ms: Option<u64>,
    /// Storage taken by the queue in bytes.
    pub queue_size_bytes: usize,
}

/// The result of a local delivery, decided from the agent's availability
/// and what became of the attempt to queue the message (`None` where the
/// agent has no queue, in which case the message counts as delivered).
pub open spec fn local_delivery_ok(available: bool, outcome: Option<SendOutcome>) -> bool {
    available && (outcome is None || outcome == Some(SendOutcome::Sent))
}

/// The text of the cause of a failed local delivery.
pub open spec fn local_failure_cause(available: bool, outcome: Option<SendOutcome>) -> Seq<char> {
    if !available {
        "Agent is not available"@
    } else if outcome == Some(SendOutcome::Full) {
        "Agent queue is full"@
    } else {
        "Agent queue is closed"@
    }
}

/// The text of the cause of a failed remote delivery.
pub open spec fn remote_failure_cause(outcome: SendOutcome) -> Seq<char> {
    if outcome == SendOutcome::Full {
        "Remote connection queue is full"@
    } else {
        "Remote connection is closed"@
    }
}

/// Maps the outcome of queueing a message for a local agent to the result
/// of the delivery.
pub fn local_delivery_result(
    message_id: MessageId,
    available: bool,
    outcome: Option<SendOutcome>,
) -> (r: Result<MessageId, DeliveryError>)
    ensures
        r is Ok <==> local_delivery_ok(available, outcome),
        r matches Ok(id) ==> id == message_id,
        r matches Err(e) ==> (e matches DeliveryError::LocalDeliveryFailed { cause } && cause@
            == local_failure_cause(available, outcome)),
{
    if !available {
        return Err(
            DeliveryError::LocalDeliveryFailed { cause: String::from_str("Agent is not available") },
        );
    }
    match outcome {
        None => Ok(message_id),
        Some(SendOutcome::Sent) => Ok(message_id),
        Some(SendOutcome::Full) => Err(
            DeliveryError::LocalDeliveryFailed { cause: String::from_str("Agent queue is full") },
        ),
        Some(SendOutcome::Closed) => Err(
            DeliveryError::LocalDeliveryFailed { cause: String::from_str("Agent queue is closed") },
        ),
    }
}

/// Maps the outcome of queueing a message for a remote node to the result
/// of the delivery (`None` where there is no connection to the node, in
/// which case the message counts as queued).
pub fn remote_delivery_result(
    message_id: MessageId,
    node_id: NodeId,
    outcome: Option<SendOutcome>,
) -> (r: Result<MessageId, DeliveryError>)
    ensures
        r is Ok <==> (outcome is None || outcome == Some(SendOutcome::Sent)),
        r matches Ok(id) ==> id == message_id,
        r matches Err(e) ==> (e matches DeliveryError::RemoteDeliveryFailed { node_id: n, cause }
            && n == node_id && outcome is Some && cause@ == remote_failure_cause(outcome.unwrap())),
{
    match outcome {
        None => Ok(message_id),
        Some(SendOutcome::Sent) => Ok(message_id),
        Some(SendOutcome::Full) => Err(
            DeliveryError::RemoteDeliveryFailed {
                node_id,
                cause: String::from_str("Remote connection queue is full"),
            },
        ),
        Some(SendOutcome::Closed) => Err(
            DeliveryError::RemoteDeliveryFailed {
                node_id,
                cause: String::from_str("Remote connection is closed"),
            },
        ),
    }
}

/// Health of a delivery engine with the given numbers of agent queues and
/// remote connections: degraded where it has neither.
pub fn delivery_health(active_agents: usize, active_connections: usize) -> (h: HealthStatus)
    ensures
        active_agents == 0 && active_connections == 0 ==> (h matches HealthStatus::Degraded {
            reason,
        } && reason@ == "No active agents or connections"@),
        !(active_agents == 0 && active_connections == 0) ==> h is Healthy,
{
    if active_agents == 0 && active_connections == 0 {
        HealthStatus::Degraded { reason: String::from_str("No active agents or connections") }
    } else {
        HealthStatus::Healthy
    }
}

/// Delivers messages to the queues of local agents and to remote nodes.
pub struct DeliveryEngineImpl {
    agent_queues: IdTable<tokio::sync::mpsc::Sender<FipaMessage>>,
    remote_connections: IdTable<tokio::sync::mpsc::Sender<FipaMessage>>,
    handed_off: Ghost<Seq<(u128, MessageId)>>,
}

impl DeliveryEngineImpl {
    /// Well-formedness of the two tables.
    pub closed spec fn wf(&self) -> bool {
        self.agent_queues.wf() && self.remote_connections.wf()
    }

    /// The agents that have a queue.
    pub closed spec fn queued_agents(&self) -> Set<u128> {
        self.agent_queues.map().dom()
    }

    /// The nodes that have a connection.
    pub closed spec fn connected_nodes(&self) -> Set<u128> {
        self.remote_connections.map().dom()
    }

    /// The local deliveries whose message a queue accepted, in order: the
    /// agent and the message.
    pub closed spec fn handed_off(&self) -> Seq<(u128, MessageId)> {
        self.handed_off@
    }

    /// An engine with no queues and no connections.
    pub fn new() -> (e: Self)
        ensures
            e.wf(),
            e.queued_agents() == Set::<u128>::empty(),
            e.connected_nodes() == Set::<u128>::empty(),
            e.handed_off() == Seq::<(u128, MessageId)>::empty(),
    {
        let e = DeliveryEngineImpl {
            agent_queues: IdTable::new(),
            remote_connections: IdTable::new(),
            handed_off: Ghost(Seq::empty()),
        };
        assert(e.queued_agents() =~= Set::<u128>::empty());
        assert(e.connected_nodes() =~= Set::<u128>::empty());
        e
    }

    /// Registers the queue of a local agent, replacing any earlier one.
    pub fn register_agent_queue(
        &mut self,
        agent_id: AgentId,
        queue: tokio::sync::mpsc::Sender<FipaMessage>,
    )
        requires
            old(self).wf(),
        ensures
            final(self).wf(),
            final(self).queued_agents() == old(self).queued_agents().insert(agent_id.value),
            final(self).connected_nodes() == old(self).connected_nodes(),
            final(self).handed_off() == old(self).handed_off(),
    {
        self.agent_queues.upsert(agent_id.value, queue);
    }

    /// Removes the queue of a local agent.
    pub fn deregister_agent_queue(&mut self, agent_id: AgentId)
        requires
            old(self).wf(),
        ensures
            final(self).wf(),
            final(self).queued_agents() == old(self).queued_agents().remove(agent_id.value),
            final(self).connected_nodes() == old(self).connected_nodes(),
            final(self).handed_off() == old(self).handed_off(),
    {
        let _ = self.agent_queues.remove(agent_id.value);
    }

    /// Registers the connection to a remote node, replacing any earlier one.
    pub fn register_remote_connection(
        &mut self,
        node_id: NodeId,
        connection: tokio::sync::mpsc::Sender<FipaMessage>,
    )
        requires
            old(self).wf(),
        ensures
            final(self).wf(),
            final(self).queued_agents() == old(self).queued_agents(),
            final(self).connected_nodes() == old(self).connected_nodes().insert(node_id.value),
            final(self).handed_off() == old(self).handed_off(),
    {
        self.remote_connections.upsert(node_id.value, connection);
    }

    /// Delivers a message to a local agent: refused where the agent is not
    /// running; put on the agent's queue where it has one, refused where
    /// that queue is full or closed; counted as delivered where the agent
    /// has no queue. A delivery to an agent with a queue succeeds only where
    /// the queue took the message, which is then recorded as handed off.
    pub fn deliver_local(&mut self, message: FipaMessage, agent: LocalAgent) -> (r: Result<
        MessageId,
        DeliveryError,
    >)
        requires
            old(self).wf(),
        ensures
            final(self).wf(),
            final(self).queued_agents() == old(self).queued_agents(),
            final(self).connected_nodes() == old(self).connected_nodes(),
            agent.state != AgentState::Running ==> (r matches Err(e) && e matches DeliveryError::LocalDeliveryFailed { cause } && cause@
                == "Agent is not available"@),
            agent.state == AgentState::Running && !old(self).queued_agents().contains(
                agent.id.value,
            ) ==> r == Ok::<MessageId, DeliveryError>(message.message_id),
            r matches Ok(id) ==> id == message.message_id,
            r matches Err(e) ==> e is LocalDeliveryFailed,
            final(self).handed_off() == if r is Ok && old(self).queued_agents().contains(agent.id.value) {
                old(self).handed_off().push((agent.id.value, message.message_id))
            } else {
                old(self).handed_off()
            },
    {
        let message_id = message.message_id;
        let available = agent.is_available();
        if !available {
            return local_delivery_result(message_id, false, None);
        }
        let outcome = match self.agent_queues.get(agent.id.value) {
            Some(queue) => Some(try_send_to_queue(queue, message)),
            None => None,
        };
        match outcome {
            Some(SendOutcome::Sent) => {
                self.handed_off = Ghost(self.handed_off@.push((agent.id.value, message_id)));
            },
            _ => {},
        }
        local_delivery_result(message_id, true, outcome)
    }

    /// A local delivery to a running agent that has a queue succeeds exactly
    /// when the message is handed off to that agent, and then it is the
    /// last hand-off; a failed one hands nothing off. To an agent without a
    /// queue, or one that is not running, nothing is handed off.
    pub proof fn lemma_delivery_hands_off(
        before: Self,
        after: Self,
        message: FipaMessage,
        agent: LocalAgent,
        r: Result<MessageId, DeliveryError>,
    )
        requires
            agent.state != AgentState::Running ==> r is Err,
            agent.state == AgentState::Running && !before.queued_agents().contains(agent.id.value) ==> r
                is Ok,
            after.handed_off() == if r is Ok && before.queued_agents().contains(agent.id.value) {
                before.handed_off().push((agent.id.value, message.message_id))
            } else {
                before.handed_off()
            },
        ensures
            agent.state == AgentState::Running && before.queued_agents().contains(agent.id.value) ==> {
                &&& r is Ok <==> after.handed_off().len() == before.handed_off().len() + 1
                &&& r is Ok ==> after.handed_off().last() == (agent.id.value, message.message_id)
                    && after.handed_off().drop_last() == before.handed_off()
            },
            agent.state != AgentState::Running || !before.queued_agents().contains(agent.id.value)
                ==> after.handed_off() == before.handed_off(),
    {
        if r is Ok && before.queued_agents().contains(agent.id.value) {
            assert(after.handed_off().drop_last() =~= before.handed_off());
        }
    }

    /// Delivers a message to a remote node: put on the node's connection
    /// where there is one, refused where it is full or closed; counted as
    /// queued where there is no connection yet.
    pub fn deliver_remote(&self, message: FipaMessage, node_id: NodeId) -> (r: Result<
        MessageId,
        DeliveryError,
    >)
        requires
            self.wf(),
        ensures
            !self.connected_nodes().contains(node_id.value) ==> r == Ok::<MessageId, DeliveryError>(
                message.message_id,
            ),
            r matches Ok(id) ==> id == message.message_id,
            r matches Err(e) ==> (e matches DeliveryError::RemoteDeliveryFailed { node_id: n, .. }
                && n == node_id),
    {
        let message_id = message.message_id;
        let outcome = match self.remote_connections.get(node_id.value) {
            Some(connection) => Some(try_send_to_queue(connection, message)),
            None => None,
        };
        remote_delivery_result(message_id, node_id, outcome)
    }

    /// Accepts a batch of messages; each counts as delivered under its own
    /// identifier.
    pub fn deliver_batch(&self, messages: Vec<FipaMessage>) -> (r: Vec<
        Result<MessageId, DeliveryError>,
    >)
        ensures
            r@.len() == messages@.len(),
            forall|i: int|
                0 <= i < r@.len() ==> #[trigger] r@[i] == Ok::<MessageId, DeliveryError>(
                    messages@[i].message_id,
                ),
    {
        let mut results: Vec<Result<MessageId, DeliveryError>> = Vec::new();
        let n = messages.len();
        for i in 0..n
            invariant
                n == messages@.len(),
                results@.len() == i,
                forall|j: int|
                    0 <= j < i ==> #[trigger] results@[j] == Ok::<MessageId, DeliveryError>(
                        messages@[j].message_id,
                    ),
        {
            results.push(Ok(messages[i].message_id));
        }
        results
    }

    /// Degraded where there are neither agent queues nor remote connections.
    pub fn health_check(&self) -> (r: Result<HealthStatus, DeliveryError>)
        requires
            self.wf(),
        ensures
            r matches Ok(h) && (self.queued_agents().len() == 0 && self.connected_nodes().len() == 0
                ==> (h matches HealthStatus::Degraded { reason } && reason@
                == "No active agents or connections"@)) && (!(self.queued_agents().len() == 0
                && self.connected_nodes().len() == 0) ==> h is Healthy),
    {
        Ok(delivery_health(self.agent_queues.len(), self.remote_connections.len()))
    }
}

/// Handles routing failures; messages are accepted and nothing is kept.
pub struct FailureHandlerImpl;

impl FailureHandlerImpl {
    /// A failure handler.
    pub fn new() -> (h: Self) {
        FailureHandlerImpl
    }

    /// Accepts a failed message and hands back a fresh identifier for it: a
    /// random version-4 UUID.
    pub fn handle_routing_failure(&self, message: FipaMessage, error: RouterError) -> (r: Result<
        MessageId,
        RouterError,
    >)
        ensures
            r matches Ok(id) && crate::ids::is_v4_uuid(id.value),
    {
        Ok(MessageId::generate())
    }

    /// Accepts a message for a later retry.
    pub fn schedule_retry(&self, message: FipaMessage, retry_count: u8) -> (r: Result<
        (),
        RouterError,
    >)
        ensures
            r is Ok,
    {
        Ok(())
    }

    /// Accepts a message for the dead letter queue.
    pub fn dead_letter(&self, message: FipaMessage, reason: FailureReason) -> (r: Result<
        (),
        RouterError,
    >)
        ensures
            r is Ok,
    {
        Ok(())
    }

    /// Statistics of an empty dead letter queue.
    pub fn get_dead_letter_stats(&self) -> (r: Result<DeadLetterStats, RouterError>)
        ensures
            r matches Ok(s) && s.total_messages.count == 0 && s.messages_by_reason@.len() == 0
                && s.oldest_message_age_ms is None && s.queue_size_bytes == 0,
    {
        Ok(
            DeadLetterStats {
                total_messages: MessageCount::zero(),
                messages_by_reason: Vec::new(),
                oldest_message_age_ms: None,
                queue_size_bytes: 0,
            },
        )
    }
}

/// Collects router metrics; the events are not kept.
pub struct MetricsCollectorImpl;

impl MetricsCollectorImpl {
    /// A metrics collector.
    pub fn new() -> (m: Self) {
        MetricsCollectorImpl
    }
}

impl Default for MetricsCollectorImpl {
    fn default() -> (m: Self) {
        MetricsCollectorImpl
    }
}

} // verus!
