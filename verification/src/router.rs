//! The message router: admission of messages (running state, size limit,
//! FIPA rules, conversation threading), routing of queued messages to local
//! agents or remote nodes, counters, and throughput sampling.

use vstd::prelude::*;
use crate::base::MessageCount;
use crate::config::RouterConfig;
use crate::conversation::ConversationManagerImpl;
use crate::delivery::{DeliveryEngineImpl, HealthStatus};
use crate::errors::{
    is_validation_error, create_validation_error, ConversationError, DeliveryError, RegistryError, RouterError,
};
use crate::ids::{hyphenated_text, AgentId, ConversationId, MessageId};
use crate::message_router::domain_types::{
    is_standard_performative, json_content_ok, lemma_trimmed_plain, validate_json_content_format,
    validate_performative_fipa_compliance, AgentLocation, AgentLocationView, AgentState,
    DeliveryOptions, FipaMessage, LocalAgent, MessageContent, Performative,
};
use crate::registry::{lookup_outcome, AgentRegistryImpl};
use crate::storage::{content_text, lossy_text};
use crate::text::decimal_text;
use vstd::string::{StrSliceExecFns, StringSliceAdditionalSpecFns};
use vstd::utf8::{decode_utf8, encode_utf8, is_char_boundary, valid_utf8};
use crate::text::{ValidationField, ValidationReason};
use crate::time::{clock_now_millis, MessageTimestamp};

verus! {

broadcast use vstd::string::group_string_axioms;

/// The field and reason texts of threading errors are accepted as they are.
proof fn lemma_threading_texts()
    ensures
        ValidationField::accepts("in_reply_to"@),
        ValidationField::sanitized("in_reply_to"@) == "in_reply_to"@,
        ValidationReason::accepts("no corresponding reply_with found"@),
        ValidationReason::sanitized("no corresponding reply_with found"@)
            == "no corresponding reply_with found"@,
{
    reveal_strlit("in_reply_to");
    reveal_strlit("no corresponding reply_with found");
    lemma_trimmed_plain("in_reply_to"@);
    lemma_trimmed_plain("no corresponding reply_with found"@);
}

/// The field and reason texts of a too large error content are accepted as
/// they are.
proof fn lemma_error_content_texts()
    ensures
        ValidationField::accepts("error_content"@),
        ValidationField::sanitized("error_content"@) == "error_content"@,
        ValidationReason::accepts("generated error content exceeds maximum message size"@),
        ValidationReason::sanitized("generated error content exceeds maximum message size"@)
            == "generated error content exceeds maximum message size"@,
{
    reveal_strlit("error_content");
    reveal_strlit("generated error content exceeds maximum message size");
    lemma_trimmed_plain("error_content"@);
    lemma_trimmed_plain("generated error content exceeds maximum message size"@);
}

/// The error of a reply whose `reply_with` is not known in its conversation.
fn threading_error() -> (e: RouterError)
    ensures
        is_validation_error(e, "in_reply_to"@, "no corresponding reply_with found"@),
{
    proof {
        lemma_threading_texts();
    }
    create_validation_error("in_reply_to", "no corresponding reply_with found")
}

/// The conversation and message identifiers of a recorded reply target.
pub open spec fn reply_pair(e: (ConversationId, MessageId)) -> (u128, u128) {
    (e.0.value, e.1.value)
}

/// The pairs of a list of recorded reply targets.
pub open spec fn reply_pairs(v: Seq<(ConversationId, MessageId)>) -> Seq<(u128, u128)> {
    v.map_values(|e: (ConversationId, MessageId)| reply_pair(e))
}

/// Conversation threading: the `reply_with` identifiers seen in each
/// conversation, which later messages of the same conversation may answer.
pub struct ConversationThreadingTracker {
    entries: Vec<(ConversationId, MessageId)>,
}

impl ConversationThreadingTracker {
    /// The recorded pairs of a conversation and a `reply_with` identifier.
    pub closed spec fn replies(&self) -> Set<(u128, u128)> {
        reply_pairs(self.entries@).to_set()
    }

    /// A tracker with nothing recorded.
    pub fn new() -> (t: Self)
        ensures
            t.replies() == Set::<(u128, u128)>::empty(),
    {
        let t = ConversationThreadingTracker { entries: Vec::new() };
        assert(t.replies() =~= Set::<(u128, u128)>::empty());
        t
    }

    /// Accepts a reply only where its target was recorded in the same
    /// conversation.
    pub fn validate_reply_reference(
        &self,
        conversation_id: &ConversationId,
        in_reply_to: &MessageId,
    ) -> (r: Result<(), RouterError>)
        ensures
            r is Ok <==> self.replies().contains((conversation_id.value, in_reply_to.value)),
            r matches Err(e) ==> is_validation_error(
                e,
                "in_reply_to"@,
                "no corresponding reply_with found"@,
            ),
    {
        let ghost pairs = reply_pairs(self.entries@);
        let ghost target = (conversation_id.value, in_reply_to.value);
        for i in 0..self.entries.len()
            invariant
                pairs == reply_pairs(self.entries@),
                target == (conversation_id.value, in_reply_to.value),
                forall|j: int| 0 <= j < i ==> pairs[j] != target,
        {
            let e = &self.entries[i];
            assert(pairs[i as int] == reply_pair(*e));
            if e.0.value == conversation_id.value && e.1.value == in_reply_to.value {
                assert(pairs.contains(target));
                return Ok(());
            }
        }
        proof {
            if pairs.contains(target) {
                let j = choose|j: int| 0 <= j < pairs.len() && pairs[j] == target;
                assert(pairs[j] != target);
            }
        }
        Err(threading_error())
    }

    /// Records a `reply_with` identifier of a conversation.
    pub fn record_reply_with(&mut self, conversation_id: &ConversationId, reply_with: &MessageId)
        ensures
            final(self).replies() == old(self).replies().insert(
                (conversation_id.value, reply_with.value),
            ),
    {
        let ghost before = reply_pairs(self.entries@);
        self.entries.push((*conversation_id, *reply_with));
        proof {
            let p = (conversation_id.value, reply_with.value);
            let after = reply_pairs(self.entries@);
            assert(after =~= before.push(p));
            assert forall|y: (u128, u128)| #[trigger]
                after.to_set().contains(y) <==> before.to_set().insert(p).contains(y) by {
                if after.contains(y) {
                    let k = choose|k: int| 0 <= k < after.len() && after[k] == y;
                    if k < before.len() {
                        assert(before[k] == y);
                    }
                }
                if before.contains(y) {
                    let k = choose|k: int| 0 <= k < before.len() && before[k] == y;
                    assert(after[k] == y);
                }
                if y == p {
                    assert(after[before.len() as int] == y);
                }
            }
            assert(after.to_set() =~= before.to_set().insert(p));
        }
    }

}

/// A reply target recorded in one conversation answers no reply in another
/// conversation that was not recorded on its own.
pub proof fn lemma_threading_isolation(
    replies: Set<(u128, u128)>,
    conversation: u128,
    other: u128,
    message: u128,
)
    requires
        conversation != other,
        !replies.contains((other, message)),
    ensures
        replies.insert((conversation, message)).contains((conversation, message)),
        !replies.insert((conversation, message)).contains((other, message)),
{
}

/// Whether a message passes the threading rule against the recorded
/// replies: a message that answers another names its conversation and a
/// target recorded there.
pub open spec fn threading_ok(replies: Set<(u128, u128)>, message: FipaMessage) -> bool {
    match message.in_reply_to {
        None => true,
        Some(target) => match message.conversation_id {
            None => false,
            Some(c) => replies.contains((c.value, target.value)),
        },
    }
}

/// The recorded replies after a message that passed the threading rule:
/// its own `reply_with` is recorded in its conversation.
pub open spec fn replies_after(replies: Set<(u128, u128)>, message: FipaMessage) -> Set<(u128, u128)> {
    match (message.reply_with, message.conversation_id) {
        (Some(r), Some(c)) => replies.insert((c.value, r.value)),
        _ => replies,
    }
}

/// Checks the threading rule and records the message's own `reply_with`.
pub fn validate_conversation_threading(
    tracker: &mut ConversationThreadingTracker,
    message: &FipaMessage,
) -> (r: Result<(), RouterError>)
    ensures
        r is Ok <==> threading_ok(old(tracker).replies(), *message),
        r is Ok ==> final(tracker).replies() == replies_after(old(tracker).replies(), *message),
        r is Err ==> final(tracker).replies() == old(tracker).replies(),
        r matches Err(e) ==> is_validation_error(
            e,
            "in_reply_to"@,
            "no corresponding reply_with found"@,
        ),
{
    match &message.in_reply_to {
        Some(in_reply_to) => {
            match &message.conversation_id {
                None => {
                    return Err(threading_error());
                },
                Some(conversation_id) => {
                    match tracker.validate_reply_reference(conversation_id, in_reply_to) {
                        Ok(()) => {},
                        Err(e) => {
                            return Err(e);
                        },
                    }
                },
            }
        },
        None => {},
    }
    match (&message.reply_with, &message.conversation_id) {
        (Some(reply_with), Some(conversation_id)) => {
            tracker.record_reply_with(conversation_id, reply_with);
        },
        _ => {},
    }
    Ok(())
}

/// Checks a message against the FIPA rules, in order: conversation
/// threading, then the performative, then JSON content. Sender and receiver
/// differ and content is not empty by the types of the message.
pub fn validate_fipa_message(tracker: &mut ConversationThreadingTracker, message: &FipaMessage) -> (r:
    Result<(), RouterError>)
    ensures
        r is Ok <==> (threading_ok(old(tracker).replies(), *message) && is_standard_performative(
            message.performative,
        ) && json_content_ok(message.content@)),
        threading_ok(old(tracker).replies(), *message) ==> final(tracker).replies()
            == replies_after(old(tracker).replies(), *message),
        !threading_ok(old(tracker).replies(), *message) ==> final(tracker).replies() == old(
            tracker,
        ).replies(),
        !threading_ok(old(tracker).replies(), *message) ==> (r matches Err(e)
            && is_validation_error(e, "in_reply_to"@, "no corresponding reply_with found"@)),
        threading_ok(old(tracker).replies(), *message) && !is_standard_performative(
            message.performative,
        ) ==> (r matches Err(e) && is_validation_error(
            e,
            "performative"@,
            "not a standard FIPA performative"@,
        )),
        threading_ok(old(tracker).replies(), *message) && is_standard_performative(
            message.performative,
        ) && !json_content_ok(message.content@) ==> (r matches Err(e) && is_validation_error(
            e,
            "content"@,
            "invalid JSON format"@,
        )),
{
    match validate_conversation_threading(tracker, message) {
        Ok(()) => {},
        Err(e) => {
            return Err(e);
        },
    }
    match validate_performative_fipa_compliance(message) {
        Ok(()) => {},
        Err(e) => {
            return Err(e);
        },
    }
    validate_json_content_format(message)
}

/// Route storage; holds nothing yet.
pub struct RouteStorage;

impl RouteStorage {
    /// A route storage; creation does not fail.
    pub fn new() -> (r: Result<Self, RouterError>)
        ensures
            r is Ok,
    {
        Ok(RouteStorage)
    }
}

/// The message of a configuration error made from a registry error: it
/// names the error's variant.
pub open spec fn registry_error_message(e: RegistryError) -> Seq<char> {
    match e {
        RegistryError::AgentAlreadyRegistered { .. } => "Registry error: AgentAlreadyRegistered"@,
        RegistryError::AgentNotFound { .. } => "Registry error: AgentNotFound"@,
        RegistryError::InvalidStateTransition { .. } => "Registry error: InvalidStateTransition"@,
        RegistryError::StorageError { .. } => "Registry error: StorageError"@,
        RegistryError::HealthCheckFailed { .. } => "Registry error: HealthCheckFailed"@,
    }
}

/// A registry error as a router error: an unknown agent stays an unknown
/// agent; any other error becomes a configuration error naming it.
pub fn map_registry_error_to_router_error(error: &RegistryError) -> (r: RouterError)
    ensures
        *error matches RegistryError::AgentNotFound { agent_id } ==> r == (RouterError::AgentNotFound {
            agent_id,
        }),
        !(error is AgentNotFound) ==> (r matches RouterError::ConfigurationError { message }
            && message@ == registry_error_message(*error)),
{
    match error {
        RegistryError::AgentNotFound { agent_id } => RouterError::AgentNotFound { agent_id: *agent_id },
        RegistryError::AgentAlreadyRegistered { .. } => RouterError::ConfigurationError {
            message: String::from_str("Registry error: AgentAlreadyRegistered"),
        },
        RegistryError::InvalidStateTransition { .. } => RouterError::ConfigurationError {
            message: String::from_str("Registry error: InvalidStateTransition"),
        },
        RegistryError::StorageError { .. } => RouterError::ConfigurationError {
            message: String::from_str("Registry error: StorageError"),
        },
        RegistryError::HealthCheckFailed { .. } => RouterError::ConfigurationError {
            message: String::from_str("Registry error: HealthCheckFailed"),
        },
    }
}

/// The message of a configuration error made from a registry error in an
/// agent operation: a known agent is named by its identifier; any other
/// error names the operation and the error's variant.
pub open spec fn agent_operation_error_message(e: RegistryError, operation: Seq<char>) -> Seq<char> {
    match e {
        RegistryError::AgentAlreadyRegistered { agent_id } => "Agent already registered: "@ + hyphenated_text(
            agent_id.value,
        ),
        RegistryError::AgentNotFound { .. } => operation + " failed: AgentNotFound"@,
        RegistryError::InvalidStateTransition { .. } => operation + " failed: InvalidStateTransition"@,
        RegistryError::StorageError { .. } => operation + " failed: StorageError"@,
        RegistryError::HealthCheckFailed { .. } => operation + " failed: HealthCheckFailed"@,
    }
}

/// A registry error in an agent operation as a router error: an unknown
/// agent stays an unknown agent; any other error becomes a configuration
/// error.
pub fn map_registry_error_for_agent_ops(error: &RegistryError, operation: &str) -> (r: RouterError)
    ensures
        *error matches RegistryError::AgentNotFound { agent_id } ==> r == (RouterError::AgentNotFound {
            agent_id,
        }),
        !(error is AgentNotFound) ==> (r matches RouterError::ConfigurationError { message }
            && message@ == agent_operation_error_message(*error, operation@)),
{
    match error {
        RegistryError::AgentNotFound { agent_id } => RouterError::AgentNotFound { agent_id: *agent_id },
        RegistryError::AgentAlreadyRegistered { agent_id } => RouterError::ConfigurationError {
            message: String::from_str("Agent already registered: ").concat(agent_id.to_uuid_string().as_str()),
        },
        RegistryError::InvalidStateTransition { .. } => RouterError::ConfigurationError {
            message: operation.to_string().concat(" failed: InvalidStateTransition"),
        },
        RegistryError::StorageError { .. } => RouterError::ConfigurationError {
            message: operation.to_string().concat(" failed: StorageError"),
        },
        RegistryError::HealthCheckFailed { .. } => RouterError::ConfigurationError {
            message: operation.to_string().concat(" failed: HealthCheckFailed"),
        },
    }
}

/// The longest preview of content in a not-understood response, in bytes.
pub const MAX_CONTENT_PREVIEW: usize = 100;

/// The content's text as bytes.
pub open spec fn preview_bytes(content: Seq<u8>) -> Seq<u8> {
    encode_utf8(content_text(content))
}

/// The largest position at or before `k` at which a character of the text
/// ends.
pub open spec fn char_cut(bytes: Seq<u8>, k: int) -> int
    decreases k,
{
    if k <= 0 {
        0
    } else if is_char_boundary(bytes, k) {
        k
    } else {
        char_cut(bytes, k - 1)
    }
}

/// The cut is a character boundary at or before `k`.
proof fn lemma_char_cut(bytes: Seq<u8>, k: int)
    requires
        valid_utf8(bytes),
        0 <= k <= bytes.len(),
    ensures
        0 <= char_cut(bytes, k) <= k,
        is_char_boundary(bytes, char_cut(bytes, k)),
    decreases k,
{
    if k > 0 && !is_char_boundary(bytes, k) {
        lemma_char_cut(bytes, k - 1);
    }
}

/// The error text of a not-understood response: the content as text, cut
/// at the last character boundary within its first 100 bytes, with the
/// content's length noted, where it is longer.
pub open spec fn not_understood_text(content: Seq<u8>) -> Seq<char> {
    "Message content could not be understood or processed: "@ + if preview_bytes(content).len()
        > MAX_CONTENT_PREVIEW {
        decode_utf8(
            preview_bytes(content).subrange(0, char_cut(preview_bytes(content), MAX_CONTENT_PREVIEW as int)),
        ) + "... (truncated from "@ + decimal_text(content.len()) + " bytes)"@
    } else {
        content_text(content)
    }
}

/// The error text of a not-understood response to a message with this
/// content.
pub fn generate_not_understood_error_content(original_content: &MessageContent) -> (s: String)
    ensures
        s@ == not_understood_text(original_content@),
{
    let bytes = original_content.as_bytes();
    let preview = lossy_text(bytes);
    proof {
        vstd::utf8::encode_utf8_decode_utf8(preview@);
        vstd::utf8::encode_utf8_valid_utf8(preview@);
    }
    assert(preview@ == content_text(original_content@));
    let preview_len = preview.as_str().as_bytes().len();
    let text = if preview_len > MAX_CONTENT_PREVIEW {
        let ghost pb = preview_bytes(original_content@);
        assert(pb.len() > MAX_CONTENT_PREVIEW);
        let ps = preview.as_str();
        assert(ps.spec_bytes() == pb);
        let mut cut: usize = MAX_CONTENT_PREVIEW;
        while cut > 0 && !ps.is_char_boundary(cut)
            invariant
                cut <= MAX_CONTENT_PREVIEW,
                ps.spec_bytes() == pb,
                char_cut(pb, cut as int) == char_cut(pb, MAX_CONTENT_PREVIEW as int),
            decreases cut,
        {
            cut = cut - 1;
        }
        proof {
            lemma_char_cut(pb, MAX_CONTENT_PREVIEW as int);
            assert(cut as int == char_cut(pb, MAX_CONTENT_PREVIEW as int));
        }
        let (head, _) = ps.split_at(cut);
        proof {
            vstd::utf8::encode_utf8_decode_utf8(head@);
            assert(head@ == decode_utf8(pb.subrange(0, cut as int)));
        }
        let t = String::from_str(head).concat("... (truncated from ").concat(
            crate::config::u128_text(original_content.len() as u128).as_str(),
        ).concat(" bytes)");
        assert(t@ == decode_utf8(pb.subrange(0, char_cut(pb, MAX_CONTENT_PREVIEW as int))) + "... (truncated from "@
            + decimal_text(original_content@.len()) + " bytes)"@);
        t
    } else {
        preview
    };
    String::from_str("Message content could not be understood or processed: ").concat(text.as_str())
}

/// The not-understood response to a message: sent back by the receiver to
/// the sender in the same conversation, replying to the message's
/// reply-with, with a fresh reply-with, identifier and time of its own. Error
/// text too large for a message is refused.
pub fn create_not_understood_response(original_message: &FipaMessage, error_content: String) -> (r: Result<
    FipaMessage,
    RouterError,
>)
    ensures
        MessageContent::accepts(encode_utf8(error_content@)) ==> (r matches Ok(m) && m.performative
            == Performative::NotUnderstood && m.participants.sender_id()
            == original_message.participants.receiver_id() && m.participants.receiver_id()
            == original_message.participants.sender_id() && m.content@ == encode_utf8(error_content@)
            && m.conversation_id == original_message.conversation_id && m.in_reply_to
            == original_message.reply_with && m.reply_with is Some),
        !MessageContent::accepts(encode_utf8(error_content@)) ==> (r matches Err(e) && is_validation_error(
            e,
            "error_content"@,
            "generated error content exceeds maximum message size"@,
        )),
{
    let content = match MessageContent::try_new(error_content.as_str().as_bytes_vec()) {
        Ok(c) => c,
        Err(_) => {
            proof {
                lemma_error_content_texts();
            }
            return Err(create_validation_error("error_content", "generated error content exceeds maximum message size"));
        },
    };
    let participants = original_message.participants.reversed();
    Ok(FipaMessage {
        performative: Performative::NotUnderstood,
        participants,
        content,
        conversation_id: original_message.conversation_id,
        reply_with: Some(MessageId::generate()),
        in_reply_to: original_message.reply_with,
        message_id: MessageId::generate(),
        created_at: MessageTimestamp::now(),
        trace_context: original_message.trace_context.clone(),
        delivery_options: DeliveryOptions::default(),
    })
}

/// The message of a configuration error made from a delivery error: it
/// names the error's variant.
pub open spec fn delivery_error_message(e: DeliveryError) -> Seq<char> {
    match e {
        DeliveryError::LocalDeliveryFailed { .. } => "Delivery error: LocalDeliveryFailed"@,
        DeliveryError::RemoteDeliveryFailed { .. } => "Delivery error: RemoteDeliveryFailed"@,
        DeliveryError::CircuitBreakerOpen { .. } => "Delivery error: CircuitBreakerOpen"@,
        DeliveryError::ConnectionPoolExhausted { .. } => "Delivery error: ConnectionPoolExhausted"@,
        DeliveryError::SerializationFailed { .. } => "Delivery error: SerializationFailed"@,
        DeliveryError::RetryLimitExceeded { .. } => "Delivery error: RetryLimitExceeded"@,
    }
}

/// A delivery error as a router error: failed deliveries become network
/// errors with the same cause, an open circuit breaker stays one, and any
/// other error becomes a configuration error naming it.
pub fn map_delivery_error_to_router_error(error: DeliveryError) -> (r: RouterError)
    ensures
        error matches DeliveryError::LocalDeliveryFailed { cause } ==> (r matches RouterError::NetworkError {
            cause: c,
        } && c@ == cause@),
        error matches DeliveryError::RemoteDeliveryFailed { cause, .. } ==> (r matches RouterError::NetworkError {
            cause: c,
        } && c@ == cause@),
        error matches DeliveryError::CircuitBreakerOpen { node_id } ==> r == (RouterError::CircuitBreakerOpen {
            node_id,
        }),
        (error is ConnectionPoolExhausted || error is SerializationFailed
            || error is RetryLimitExceeded) ==> (r matches RouterError::ConfigurationError { message }
            && message@ == delivery_error_message(error)),
{
    match error {
        DeliveryError::LocalDeliveryFailed { cause } => RouterError::NetworkError { cause },
        DeliveryError::RemoteDeliveryFailed { cause, .. } => RouterError::NetworkError { cause },
        DeliveryError::CircuitBreakerOpen { node_id } => RouterError::CircuitBreakerOpen { node_id },
        DeliveryError::ConnectionPoolExhausted { .. } => RouterError::ConfigurationError {
            message: String::from_str("Delivery error: ConnectionPoolExhausted"),
        },
        DeliveryError::SerializationFailed { .. } => RouterError::ConfigurationError {
            message: String::from_str("Delivery error: SerializationFailed"),
        },
        DeliveryError::RetryLimitExceeded { .. } => RouterError::ConfigurationError {
            message: String::from_str("Delivery error: RetryLimitExceeded"),
        },
    }
}

/// The start of the time window that ends at `current_time`.
pub fn calculate_cutoff_timestamp(current_time: u64, window_seconds: u64) -> (c: u64)
    ensures
        c == if current_time >= window_seconds { current_time - window_seconds } else { 0 },
{
    current_time.saturating_sub(window_seconds)
}

/// A message count, capped at one million.
pub fn safe_message_count_from_u64(value: u64) -> (c: MessageCount)
    ensures
        c.count == if value > 1_000_000 { 1_000_000 } else { value },
{
    if value > 1_000_000 {
        MessageCount::new(1_000_000)
    } else {
        MessageCount::new(value as usize)
    }
}

/// Sum of the counts of samples taken at or after `cutoff`, staying at
/// `u64::MAX` once reached.
pub open spec fn window_total(samples: Seq<(u64, u64)>, cutoff: u64) -> u64
    decreases samples.len(),
{
    if samples.len() == 0 {
        0
    } else {
        let rest = window_total(samples.drop_last(), cutoff);
        let add: int = if samples.last().0 >= cutoff { samples.last().1 as int } else { 0 };
        if rest + add > u64::MAX {
            u64::MAX
        } else {
            (rest + add) as u64
        }
    }
}

/// Sum of the counts of the samples taken at or after `cutoff`.
pub fn sum_messages_in_window(samples: &Vec<(u64, u64)>, cutoff: u64) -> (total: u64)
    ensures
        total == window_total(samples@, cutoff),
{
    let mut total: u64 = 0;
    for i in 0..samples.len()
        invariant
            total == window_total(samples@.take(i as int), cutoff),
    {
        let (timestamp, count) = samples[i];
        proof {
            assert(samples@.take(i + 1).drop_last() =~= samples@.take(i as int));
        }
        if timestamp >= cutoff {
            total = total.saturating_add(count);
        }
    }
    assert(samples@.take(samples.len() as int) =~= samples@);
    total
}

/// The queue size of each local agent, in order.
pub fn create_agent_queue_depths(local_agents: &Vec<LocalAgent>) -> (r: Vec<(AgentId, usize)>)
    ensures
        r@.len() == local_agents@.len(),
        forall|i: int|
            0 <= i < r@.len() ==> #[trigger] r@[i] == (local_agents@[i].id, local_agents@[i].queue_size@),
{
    let mut r: Vec<(AgentId, usize)> = Vec::new();
    for i in 0..local_agents.len()
        invariant
            r@.len() == i,
            forall|j: int|
                0 <= j < i ==> #[trigger] r@[j] == (local_agents@[j].id, local_agents@[j].queue_size@),
    {
        let a = &local_agents[i];
        r.push((a.id, a.queue_size.as_usize()));
    }
    r
}

/// Message counts per second over a sliding window.
pub struct ThroughputTracker {
    window_seconds: u64,
    samples: Vec<(u64, u64)>,
}

impl ThroughputTracker {
    /// Samples, as pairs of a second and the messages counted in it.
    pub closed spec fn samples(&self) -> Seq<(u64, u64)> {
        self.samples@
    }

    /// Length of the window in seconds.
    pub closed spec fn window(&self) -> u64 {
        self.window_seconds
    }

    /// A tracker with an empty window of `window_seconds` seconds.
    pub fn new(window_seconds: u64) -> (t: Self)
        ensures
            t.window() == window_seconds,
            t.samples() == Seq::<(u64, u64)>::empty(),
    {
        ThroughputTracker { window_seconds, samples: Vec::new() }
    }

    /// Counts a message in second `now` and drops the samples that fell out
    /// of the window.
    pub fn record_message_at(&mut self, now: u64)
        ensures
            final(self).window() == old(self).window(),
            forall|i: int|
                0 <= i < final(self).samples().len() ==> #[trigger] final(self).samples()[i].0
                    >= if now >= old(self).window() {
                    now - old(self).window()
                } else {
                    0
                },
    {
        let mut found = false;
        let n = self.samples.len();
        for i in 0..n
            invariant
                n == self.samples@.len(),
                self.window_seconds == old(self).window_seconds,
        {
            if self.samples[i].0 == now && !found {
                let c = self.samples[i].1;
                self.samples.set(i, (now, c.saturating_add(1)));
                found = true;
            }
        }
        if !found {
            self.samples.push((now, 1));
        }
        let cutoff = calculate_cutoff_timestamp(now, self.window_seconds);
        let mut kept: Vec<(u64, u64)> = Vec::new();
        for i in 0..self.samples.len()
            invariant
                forall|j: int| 0 <= j < kept@.len() ==> #[trigger] kept@[j].0 >= cutoff,
        {
            if self.samples[i].0 >= cutoff {
                kept.push(self.samples[i]);
            }
        }
        self.samples = kept;
    }

    /// Messages counted in the window that ends at second `now`.
    pub fn messages_in_window_at(&self, now: u64) -> (n: u64)
        ensures
            n == window_total(
                self.samples(),
                if now >= self.window() { (now - self.window()) as u64 } else { 0 },
            ),
    {
        let cutoff = calculate_cutoff_timestamp(now, self.window_seconds);
        sum_messages_in_window(&self.samples, cutoff)
    }
}

/// Integer statistics of the router; the rates are left to the caller.
#[derive(Debug, Clone)]
pub struct RouterStatsCore {
    /// Messages processed, capped at one million.
    pub total_messages_processed: MessageCount,
    /// Routing errors, capped at one million.
    pub total_errors: MessageCount,
    /// The queue size of each local agent.
    pub agent_queue_depths: Vec<(AgentId, usize)>,
    /// Active conversations.
    pub active_conversations: usize,
    /// Conversations created, capped at one million.
    pub total_conversations: MessageCount,
    /// Routing latency percentiles in microseconds.
    pub routing_latency_p50: u64,
    pub routing_latency_p90: u64,
    pub routing_latency_p99: u64,
    pub routing_latency_p999: u64,
}

/// What routing `message` gives on a router in state `before`, apart from
/// the counters: the message's own id on success; `AgentNotFound` for a
/// receiver that is not found or whose location is unknown; a network error
/// for a local agent that is not running; success for a running local agent
/// without a queue and for a remote agent whose node has no connection; and
/// otherwise, whatever the queue or connection did, success or a network
/// error.
pub open spec fn routing_outcome(
    before: MessageRouterImpl,
    message: FipaMessage,
    r: Result<MessageId, RouterError>,
) -> bool {
    let receiver = message.participants.receiver_id();
    let found = lookup_outcome(before.registry().routes(), before.registry().agents(), receiver.value);
    &&& r matches Ok(id) ==> id == message.message_id
    &&& found is None ==> r == Err::<MessageId, RouterError>(RouterError::AgentNotFound { agent_id: receiver })
    &&& found == Some(AgentLocationView::Unknown) ==> r == Err::<MessageId, RouterError>(
        RouterError::AgentNotFound { agent_id: receiver },
    )
    &&& (found matches Some(AgentLocationView::Local(a)) && a.state != AgentState::Running) ==> (r matches Err(
        RouterError::NetworkError { cause },
    ) && cause@ == "Agent is not available"@)
    &&& (found matches Some(AgentLocationView::Local(a)) && a.state == AgentState::Running
        && !before.engine().queued_agents().contains(a.id.value)) ==> r == Ok::<MessageId, RouterError>(
        message.message_id,
    )
    &&& (found matches Some(AgentLocationView::Remote(n)) && !before.engine().connected_nodes().contains(
        n.value,
    )) ==> r == Ok::<MessageId, RouterError>(message.message_id)
    &&& (found matches Some(AgentLocationView::Local(_)) || found matches Some(AgentLocationView::Remote(_)))
        ==> (r is Ok || r matches Err(RouterError::NetworkError { .. }))
}

/// Whether the local hand-offs of the delivery engine `after` routing
/// `message` are those `before`, with the message added for the receiving
/// agent exactly where it was routed to a running local agent whose queue
/// took it.
pub open spec fn handoff_after_routing(
    before: MessageRouterImpl,
    after: MessageRouterImpl,
    message: FipaMessage,
    r: Result<MessageId, RouterError>,
) -> bool {
    let receiver = message.participants.receiver_id();
    let found = lookup_outcome(before.registry().routes(), before.registry().agents(), receiver.value);
    after.engine().handed_off() == if found matches Some(AgentLocationView::Local(a)) && a.state
        == AgentState::Running && before.engine().queued_agents().contains(a.id.value) && r is Ok {
        before.engine().handed_off().push((found->0->Local_0.id.value, message.message_id))
    } else {
        before.engine().handed_off()
    }
}

/// Whether the conversations `after` routing `message` are those `before`
/// with the message recorded in its conversation at some time, as
/// `update_conversation_at` records it; unchanged for a message without a
/// conversation.
pub open spec fn conversations_after_routing(
    before: ConversationManagerImpl,
    after: ConversationManagerImpl,
    message: FipaMessage,
) -> bool {
    match message.conversation_id {
        Some(c) => exists|now: u64, r: Result<(), ConversationError>| #[trigger] ConversationManagerImpl::updated_at(
            before,
            after,
            c,
            message,
            now,
            r,
        ),
        None => after == before,
    }
}

/// The message router with its registry, conversation manager and delivery
/// engine.
pub struct MessageRouterImpl {
    config: RouterConfig,
    delivery_engine: DeliveryEngineImpl,
    conversation_manager: ConversationManagerImpl,
    agent_registry: AgentRegistryImpl,
    threading: ConversationThreadingTracker,
    is_running: bool,
    is_shutdown: bool,
    start_time_millis: Option<u64>,
    message_counter: u64,
    error_counter: u64,
}

impl MessageRouterImpl {
    /// Well-formedness of the components.
    pub closed spec fn wf(&self) -> bool {
        &&& self.delivery_engine.wf()
        &&& self.conversation_manager.wf()
        &&& self.agent_registry.wf()
    }

    /// Whether the router has been started.
    pub closed spec fn running(&self) -> bool {
        self.is_running
    }

    /// Whether the router is shutting down.
    pub closed spec fn shutting_down(&self) -> bool {
        self.is_shutdown
    }

    /// When the router was started, in milliseconds since the Unix epoch.
    pub closed spec fn started_at(&self) -> Option<u64> {
        self.start_time_millis
    }

    /// Messages handled so far (wrapping).
    pub closed spec fn messages(&self) -> u64 {
        self.message_counter
    }

    /// Routing errors so far (wrapping).
    pub closed spec fn errors(&self) -> u64 {
        self.error_counter
    }

    /// The configuration.
    pub closed spec fn config(&self) -> RouterConfig {
        self.config
    }

    /// The registry.
    pub closed spec fn registry(&self) -> AgentRegistryImpl {
        self.agent_registry
    }

    /// The delivery engine.
    pub closed spec fn engine(&self) -> DeliveryEngineImpl {
        self.delivery_engine
    }

    /// The conversation manager.
    pub closed spec fn conversations(&self) -> ConversationManagerImpl {
        self.conversation_manager
    }

    /// The threading tracker.
    pub closed spec fn threading(&self) -> ConversationThreadingTracker {
        self.threading
    }

    /// A stopped router with empty components.
    pub fn new(config: RouterConfig) -> (r: Result<Self, RouterError>)
        ensures
            r matches Ok(router) && router.wf() && !router.running() && !router.shutting_down()
                && router.started_at() is None && router.messages() == 0 && router.errors() == 0
                && router.config() == config && router.threading().replies() == Set::<
                (u128, u128),
            >::empty(),
    {
        match RouteStorage::new() {
            Ok(_) => {},
            Err(e) => {
                return Err(e);
            },
        }
        let conversation_manager = ConversationManagerImpl::new(&config);
        Ok(
            MessageRouterImpl {
                config,
                delivery_engine: DeliveryEngineImpl::new(),
                conversation_manager,
                agent_registry: AgentRegistryImpl::new(),
                threading: ConversationThreadingTracker::new(),
                is_running: false,
                is_shutdown: false,
                start_time_millis: None,
                message_counter: 0,
                error_counter: 0,
            },
        )
    }

    /// Starts the router at time `now`; refused where it runs already.
    pub fn start_at(&mut self, now: u64) -> (r: Result<(), RouterError>)
        ensures
            final(self).wf() == old(self).wf(),
            final(self).shutting_down() == old(self).shutting_down(),
            final(self).messages() == old(self).messages(),
            final(self).errors() == old(self).errors(),
            final(self).config() == old(self).config(),
            old(self).running() ==> (r matches Err(RouterError::ConfigurationError { message })
                && message@ == "Router is already running"@ && final(self).running()
                && final(self).started_at() == old(self).started_at()),
            !old(self).running() ==> r is Ok && final(self).running() && final(self).started_at()
                == Some(now),
    {
        if self.is_running {
            return Err(
                RouterError::ConfigurationError {
                    message: String::from_str("Router is already running"),
                },
            );
        }
        self.start_time_millis = Some(now);
        self.is_running = true;
        Ok(())
    }

    /// Starts the router, stamped with the system clock.
    pub fn start(&mut self) -> (r: Result<(), RouterError>)
        ensures
            final(self).wf() == old(self).wf(),
            old(self).running() ==> r is Err,
            !old(self).running() ==> r is Ok && final(self).running(),
    {
        let now = clock_now_millis();
        self.start_at(now)
    }

    /// Marks the router as shutting down and stopped.
    pub fn shutdown(&mut self) -> (r: Result<(), RouterError>)
        ensures
            r is Ok,
            final(self).wf() == old(self).wf(),
            final(self).shutting_down(),
            !final(self).running(),
            final(self).messages() == old(self).messages(),
    {
        self.is_shutdown = true;
        self.is_running = false;
        Ok(())
    }

    /// Whether the router is running.
    pub fn is_running(&self) -> (b: bool)
        ensures
            b == self.running(),
    {
        self.is_running
    }

    /// Admits a message for routing: refused where the router is not running
    /// or is shutting down, where validation is on and the content is larger
    /// than allowed, and where the FIPA rules refuse it. An admitted
    /// message's `reply_with` is recorded for threading.
    pub fn admit_message(&mut self, message: &FipaMessage) -> (r: Result<MessageId, RouterError>)
        ensures
            final(self).wf() == old(self).wf(),
            final(self).running() == old(self).running(),
            final(self).messages() == old(self).messages(),
            final(self).config() == old(self).config(),
            !old(self).running() ==> (r matches Err(RouterError::ConfigurationError { message: m })
                && m@ == "Router is not running"@),
            old(self).running() && old(self).shutting_down() ==> (r matches Err(
                RouterError::ConfigurationError { message: m },
            ) && m@ == "Router is shutting down"@),
            old(self).running() && !old(self).shutting_down()
                && old(self).config().enable_message_validation && message.content@.len()
                > old(self).config().max_message_size_bytes ==> (r matches Err(
                RouterError::MessageTooLarge { size, max_size },
            ) && size == message.content@.len() && max_size
                == old(self).config().max_message_size_bytes),
            ({
                let size_ok = !old(self).config().enable_message_validation
                    || message.content@.len() <= old(self).config().max_message_size_bytes;
                old(self).running() && !old(self).shutting_down() && size_ok ==> {
                    &&& r is Ok <==> (threading_ok(old(self).threading().replies(), *message)
                        && is_standard_performative(message.performative) && json_content_ok(
                        message.content@,
                    ))
                    &&& r matches Ok(id) ==> id == message.message_id
                }
            }),
    {
        if !self.is_running {
            return Err(
                RouterError::ConfigurationError { message: String::from_str("Router is not running") },
            );
        }
        if self.is_shutdown {
            return Err(
                RouterError::ConfigurationError {
                    message: String::from_str("Router is shutting down"),
                },
            );
        }
        let size = message.content.len();
        if self.config.enable_message_validation && size > self.config.max_message_size_bytes {
            return Err(
                RouterError::MessageTooLarge { size, max_size: self.config.max_message_size_bytes },
            );
        }
        match validate_fipa_message(&mut self.threading, message) {
            Ok(()) => Ok(message.message_id),
            Err(e) => Err(e),
        }
    }

    /// Routes a queued message: records it in its conversation (a failure
    /// there does not stop the routing), finds the receiver, and delivers
    /// to the local agent or the remote node.
    pub fn process_routing_task(&mut self, message: FipaMessage) -> (r: Result<MessageId, RouterError>)
        requires
            old(self).wf(),
        ensures
            final(self).wf(),
            final(self).running() == old(self).running(),
            final(self).messages() == old(self).messages(),
            final(self).errors() == old(self).errors(),
            routing_outcome(*old(self), message, r),
            conversations_after_routing(old(self).conversations(), final(self).conversations(), message),
            handoff_after_routing(*old(self), *final(self), message, r),
            final(self).engine().queued_agents() == old(self).engine().queued_agents(),
    {
        match message.conversation_id {
            Some(conversation_id) => {
                let _ = self.conversation_manager.update_conversation(conversation_id, &message);
            },
            None => {},
        }
        let ghost recorded = self.conversations();
        assert(conversations_after_routing(old(self).conversations(), recorded, message));
        let receiver = *message.receiver();
        let location = match self.agent_registry.lookup(&receiver) {
            Ok(l) => l,
            Err(e) => {
                return Err(map_registry_error_to_router_error(&e));
            },
        };
        match location {
            AgentLocation::Local(local_agent) => {
                match self.delivery_engine.deliver_local(message, local_agent) {
                    Ok(id) => Ok(id),
                    Err(e) => Err(map_delivery_error_to_router_error(e)),
                }
            },
            AgentLocation::Remote(node_id) => {
                match self.delivery_engine.deliver_remote(message, node_id) {
                    Ok(id) => Ok(id),
                    Err(e) => Err(map_delivery_error_to_router_error(e)),
                }
            },
            AgentLocation::Unknown => Err(RouterError::AgentNotFound { agent_id: receiver }),
        }
    }

    /// One step of the message processor: routes a task taken from the
    /// inbound queue. The router's statistics counters are left alone: a
    /// message is counted once, when it is accepted.
    pub fn process_next_task(&mut self, message: FipaMessage) -> (r: Result<MessageId, RouterError>)
        requires
            old(self).wf(),
        ensures
            final(self).wf(),
            final(self).running() == old(self).running(),
            final(self).messages() == old(self).messages(),
            final(self).errors() == old(self).errors(),
            routing_outcome(*old(self), message, r),
            conversations_after_routing(old(self).conversations(), final(self).conversations(), message),
            handoff_after_routing(*old(self), *final(self), message, r),
            final(self).engine().queued_agents() == old(self).engine().queued_agents(),
    {
        self.process_routing_task(message)
    }

    /// Counts a message accepted onto the inbound queue.
    pub fn record_accepted(&mut self)
        ensures
            final(self).wf() == old(self).wf(),
            final(self).messages() == (old(self).messages() + 1) % 0x1_0000_0000_0000_0000,
            final(self).errors() == old(self).errors(),
    {
        self.message_counter = self.message_counter.wrapping_add(1);
    }

    /// Registers a local agent with its capabilities.
    pub fn register_agent(&mut self, agent: LocalAgent, capabilities: Vec<crate::text::CapabilityName>) -> (r:
        Result<(), RouterError>)
        requires
            old(self).wf(),
        ensures
            final(self).wf(),
            r is Ok <==> !old(self).registry().agents().contains_key(agent.id.value),
            r is Ok ==> final(self).registry().agents() == old(self).registry().agents().insert(
                agent.id.value,
                agent@,
            ),
            r is Err ==> (r matches Err(RouterError::ConfigurationError { message }) && message@
                == "Agent already registered: "@ + hyphenated_text(agent.id.value)),
    {
        let ghost id = agent.id;
        match self.agent_registry.register_local_agent(agent, capabilities) {
            Ok(()) => Ok(()),
            Err(e) => {
                assert(e == (RegistryError::AgentAlreadyRegistered { agent_id: id }));
                Err(map_registry_error_for_agent_ops(&e, "Agent registration"))
            },
        }
    }

    /// Deregisters a local agent.
    pub fn deregister_agent(&mut self, agent_id: AgentId) -> (r: Result<(), RouterError>)
        requires
            old(self).wf(),
        ensures
            final(self).wf(),
            r is Ok <==> old(self).registry().agents().contains_key(agent_id.value),
            r is Ok ==> final(self).registry().agents() == old(self).registry().agents().remove(
                agent_id.value,
            ),
            r is Err ==> r == Err::<(), RouterError>(RouterError::AgentNotFound { agent_id }),
    {
        match self.agent_registry.deregister_local_agent(agent_id) {
            Ok(()) => Ok(()),
            Err(e) => Err(map_registry_error_for_agent_ops(&e, "Agent deregistration")),
        }
    }

    /// Checks that an agent's state may be set: the agent must be known and
    /// local. The registry keeps no state to set, so nothing else changes;
    /// looking the agent up caches its location.
    pub fn update_agent_state(&mut self, agent_id: AgentId, state: AgentState) -> (r: Result<(), RouterError>)
        requires
            old(self).wf(),
        ensures
            final(self).wf(),
            final(self).registry().agents() == old(self).registry().agents(),
            match lookup_outcome(old(self).registry().routes(), old(self).registry().agents(), agent_id.value) {
                None => r == Err::<(), RouterError>(RouterError::AgentNotFound { agent_id }),
                Some(AgentLocationView::Local(_)) => r is Ok,
                Some(_) => r matches Err(RouterError::ConfigurationError { message }) && message@
                    == "Cannot update state of remote agent"@,
            },
    {
        match self.agent_registry.lookup(&agent_id) {
            Err(e) => Err(map_registry_error_for_agent_ops(&e, "Agent lookup")),
            Ok(AgentLocation::Local(_)) => Ok(()),
            Ok(_) => Err(RouterError::ConfigurationError {
                message: String::from_str("Cannot update state of remote agent"),
            }),
        }
    }

    /// Registers the queue of a local agent with the delivery engine.
    pub fn register_agent_queue(
        &mut self,
        agent_id: AgentId,
        queue: tokio::sync::mpsc::Sender<FipaMessage>,
    )
        requires
            old(self).wf(),
        ensures
            final(self).wf(),
            final(self).engine().queued_agents() == old(self).engine().queued_agents().insert(
                agent_id.value,
            ),
    {
        self.delivery_engine.register_agent_queue(agent_id, queue);
    }

    /// Integer statistics: counters capped at one million, the queue size of
    /// each local agent, the conversation figures, and the fixed latency
    /// percentiles.
    pub fn get_stats_core(&self) -> (s: RouterStatsCore)
        requires
            self.wf(),
        ensures
            s.total_messages_processed.count == if self.messages() > 1_000_000 {
                1_000_000
            } else {
                self.messages()
            },
            s.total_errors.count == if self.errors() > 1_000_000 {
                1_000_000
            } else {
                self.errors()
            },
            s.agent_queue_depths@.len() == self.registry().agent_list().len(),
            forall|i: int|
                0 <= i < s.agent_queue_depths@.len() ==> #[trigger] s.agent_queue_depths@[i] == (
                    self.registry().agent_list()[i].id,
                    self.registry().agent_list()[i].queue_size@,
                ),
            s.active_conversations == self.conversations().conversations().dom().len(),
            s.total_conversations.count == if self.conversations().total_created() > 1_000_000 {
                1_000_000
            } else {
                self.conversations().total_created()
            },
            s.routing_latency_p50 == 500,
            s.routing_latency_p90 == 1_000,
            s.routing_latency_p99 == 2_000,
            s.routing_latency_p999 == 5_000,
    {
        let agents = match self.agent_registry.list_local_agents() {
            Ok(a) => a,
            Err(_) => vstd::pervasive::unreached(),
        };
        let depths = create_agent_queue_depths(&agents);
        proof {
            assert forall|i: int| 0 <= i < agents@.len() implies agents@[i]@ == self.registry().agent_list()[i] by {
                assert(agents@.map_values(|a: LocalAgent| a@)[i] == agents@[i]@);
            }
        }
        let active = self.conversation_manager.len();
        let total_created = self.conversation_manager.total_created_count();
        RouterStatsCore {
            total_messages_processed: safe_message_count_from_u64(self.message_counter),
            total_errors: safe_message_count_from_u64(self.error_counter),
            agent_queue_depths: depths,
            active_conversations: active,
            total_conversations: safe_message_count_from_u64(total_created),
            routing_latency_p50: 500,
            routing_latency_p90: 1_000,
            routing_latency_p99: 2_000,
            routing_latency_p999: 5_000,
        }
    }

    /// Health of the router: refused where it is not running, unhealthy
    /// while it shuts down, else the health of its delivery engine.
    pub fn health_check(&self) -> (r: Result<HealthStatus, RouterError>)
        requires
            self.wf(),
        ensures
            !self.running() ==> (r matches Err(RouterError::ConfigurationError { message }) && message@
                == "Router is not running"@),
            self.running() && self.shutting_down() ==> (r matches Ok(HealthStatus::Unhealthy { reason })
                && reason@ == "Router is shutting down"@),
            self.running() && !self.shutting_down() ==> {
                let idle = self.engine().queued_agents().len() == 0 && self.engine().connected_nodes().len() == 0;
                &&& idle ==> (r matches Ok(HealthStatus::Degraded { reason }) && reason@
                    == "No active agents or connections"@)
                &&& !idle ==> (r matches Ok(h) && h is Healthy)
            },
    {
        if !self.is_running {
            return Err(
                RouterError::ConfigurationError { message: String::from_str("Router is not running") },
            );
        }
        if self.is_shutdown {
            return Ok(HealthStatus::Unhealthy { reason: String::from_str("Router is shutting down") });
        }
        match self.delivery_engine.health_check() {
            Ok(h) => Ok(h),
            // The engine's own check does not fail.
            Err(_) => Ok(HealthStatus::Unhealthy { reason: String::from_str("Health check error") }),
        }
    }

    /// The not-understood response to a message, with the error text of
    /// `generate_not_understood_error_content`.
    pub fn generate_not_understood_response(&self, original_message: &FipaMessage) -> (r: Result<
        FipaMessage,
        RouterError,
    >)
        ensures
            ({
                let text = not_understood_text(original_message.content@);
                &&& MessageContent::accepts(encode_utf8(text)) ==> (r matches Ok(m) && m.performative
                    == Performative::NotUnderstood && m.participants.sender_id()
                    == original_message.participants.receiver_id() && m.participants.receiver_id()
                    == original_message.participants.sender_id() && m.content@ == encode_utf8(text)
                    && m.conversation_id == original_message.conversation_id && m.in_reply_to
                    == original_message.reply_with && m.reply_with is Some)
                &&& !MessageContent::accepts(encode_utf8(text)) ==> (r matches Err(e)
                    && is_validation_error(
                    e,
                    "error_content"@,
                    "generated error content exceeds maximum message size"@,
                ))
            }),
    {
        let error_content = generate_not_understood_error_content(&original_message.content);
        create_not_understood_response(original_message, error_content)
    }
}

} // verus!
