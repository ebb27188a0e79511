//! Errors of the message router and its components.
//!
//! Where an error carries an underlying cause from I/O or the network, the
//! error holds the text of that cause.

use vstd::prelude::*;
use crate::bounds::MaxRetries;
use crate::ids::{AgentId, ConversationId, NodeId};
use crate::message_router::domain_types::AgentState;
use crate::text::{ValidationField, ValidationReason};

verus! {

broadcast use vstd::string::group_string_axioms;

/// Errors of message routing.
#[derive(Debug)]
pub enum RouterError {
    /// The agent is not in the registry.
    AgentNotFound { agent_id: AgentId },
    /// The message is larger than allowed.
    MessageTooLarge { size: usize, max_size: usize },
    /// A queue has no room left.
    QueueFull { queue_type: String },
    /// Network communication failed.
    NetworkError { cause: String },
    /// A message could not be serialized or deserialized.
    SerializationError { cause: String },
    /// An operation took longer than allowed.
    Timeout { timeout_ms: u64 },
    /// The configuration is invalid.
    ConfigurationError { message: String },
    /// The storage layer failed.
    StorageError { cause: String },
    /// The circuit breaker for a node is open.
    CircuitBreakerOpen { node_id: NodeId },
    /// A message broke a FIPA rule.
    MessageValidationError { message: String },
    /// Conversation threading broke a FIPA rule.
    ConversationThreadingError { message: String },
    /// Message content is too large.
    ContentSizeError { message: String },
    /// A system resource is used up.
    ResourceExhausted { resource: String },
    /// A field of a message failed validation.
    ValidationError { field: ValidationField, reason: ValidationReason },
}

/// Errors of message delivery.
#[derive(Debug)]
pub enum DeliveryError {
    /// Delivery to a local agent failed.
    LocalDeliveryFailed { cause: String },
    /// Delivery to a remote node failed.
    RemoteDeliveryFailed { node_id: NodeId, cause: String },
    /// The circuit breaker for a node is open.
    CircuitBreakerOpen { node_id: NodeId },
    /// No connection to the node is free.
    ConnectionPoolExhausted { node_id: NodeId },
    /// The message could not be serialized.
    SerializationFailed { cause: String },
    /// The message was retried as often as allowed.
    RetryLimitExceeded { max_retries: MaxRetries },
}

/// Errors of conversation management.
#[derive(Debug)]
pub enum ConversationError {
    /// The conversation is not known.
    ConversationNotFound { conversation_id: ConversationId },
    /// The conversation would have more participants than allowed.
    TooManyParticipants { count: usize, max: usize },
    /// The storage layer failed.
    StorageError { cause: String },
    /// The conversation timed out.
    ConversationTimeout { conversation_id: ConversationId },
}

/// Errors of the agent registry.
#[derive(Debug)]
pub enum RegistryError {
    /// The agent is registered already.
    AgentAlreadyRegistered { agent_id: AgentId },
    /// The agent is not registered.
    AgentNotFound { agent_id: AgentId },
    /// The agent cannot move between these states.
    InvalidStateTransition { from: AgentState, to: AgentState },
    /// The storage layer failed.
    StorageError { cause: String },
    /// The agent failed its health check.
    HealthCheckFailed { agent_id: AgentId },
}

/// Whether an error is a validation error with the given field and reason.
pub open spec fn is_validation_error(e: RouterError, field: Seq<char>, reason: Seq<char>) -> bool {
    match e {
        RouterError::ValidationError { field: f, reason: r } => f@ == field && r@ == reason,
        _ => false,
    }
}

/// A validation error with the given field and reason.
pub fn create_validation_error(field: &str, reason: &str) -> (e: RouterError)
    requires
        ValidationField::accepts(field@),
        ValidationReason::accepts(reason@),
    ensures
        is_validation_error(e, ValidationField::sanitized(field@), ValidationReason::sanitized(reason@)),
{
    let f = ValidationField::try_new(field.to_string());
    let r = ValidationReason::try_new(reason.to_string());
    RouterError::ValidationError { field: f.unwrap(), reason: r.unwrap() }
}

} // verus!
