//! FIPA-ACL messages and the domain types that travel with them.

use vstd::prelude::*;
use crate::bounds::{AgentQueueSize, MaxRetries, MessageTimeoutMs, RouteHops};
use crate::base::MessageCount;
use crate::errors::{is_validation_error, create_validation_error, RouterError};
use crate::ids::{AgentId, ConversationId, MessageId, NodeId};
use crate::text::{
    is_white, trim_end, trim_start, trimmed, AgentName, CapabilityName, SpanId, TraceId,
    ValidationField, ValidationReason,
};
use crate::time::{ConversationCreatedAt, MessageTimestamp};

verus! {

broadcast use vstd::string::group_string_axioms;

/// FIPA message performatives, the intent of a message.
#[derive(Debug, Clone, Copy, PartialEq, Eq, Hash, Structural)]
pub enum Performative {
    Request,
    Inform,
    QueryIf,
    QueryRef,
    Propose,
    AcceptProposal,
    RejectProposal,
    Agree,
    Refuse,
    Failure,
    NotUnderstood,
    /// Liveness signal between agents (an extension of this system).
    Heartbeat,
    /// Capability announcement (an extension of this system).
    Capability,
}

/// Whether a performative is one of the eleven that the FIPA-ACL
/// specification defines, not an extension of this system.
pub open spec fn is_standard_performative(p: Performative) -> bool {
    !(p is Heartbeat || p is Capability)
}

impl Performative {
    /// Whether this is a standard FIPA performative.
    pub fn is_standard_fipa(&self) -> (b: bool)
        ensures
            b == is_standard_performative(*self),
    {
        match self {
            Performative::Heartbeat | Performative::Capability => false,
            _ => true,
        }
    }
}

/// Message delivery priority.
#[derive(Debug, Clone, Copy, PartialEq, Eq, PartialOrd, Ord, Structural)]
pub enum MessagePriority {
    Low,
    Normal,
    High,
    Critical,
}

/// The numeric level of a priority.
pub open spec fn priority_level(p: MessagePriority) -> u8 {
    match p {
        MessagePriority::Low => 1,
        MessagePriority::Normal => 5,
        MessagePriority::High => 8,
        MessagePriority::Critical => 10,
    }
}

impl MessagePriority {
    /// The numeric level: 1, 5, 8 or 10.
    pub fn level(&self) -> (n: u8)
        ensures
            n == priority_level(*self),
    {
        match self {
            MessagePriority::Low => 1,
            MessagePriority::Normal => 5,
            MessagePriority::High => 8,
            MessagePriority::Critical => 10,
        }
    }
}

impl Default for MessagePriority {
    fn default() -> (p: Self)
        ensures
            p == MessagePriority::Normal,
    {
        MessagePriority::Normal
    }
}

/// Reasons for message delivery failure.
#[derive(Debug, Clone, Copy, PartialEq, Eq, Hash, Structural)]
pub enum FailureReason {
    AgentNotFound,
    AgentNotResponding,
    NetworkError,
    ResourceExhausted,
    MessageTooLarge,
    InvalidMessage,
    CircuitBreakerOpen,
    QueueFull,
    Timeout,
}

/// The state of an agent in its lifecycle.
#[derive(Debug, Clone, Copy, PartialEq, Eq, Structural)]
pub enum AgentState {
    Unloaded,
    Loaded,
    Running,
    Draining,
    Stopped,
}

/// Largest accepted message content, in bytes (10 MiB).
pub const MAX_MESSAGE_CONTENT_BYTES: usize = 10_485_760;

/// Why message content was refused.
#[derive(Debug, Clone, Copy, PartialEq, Eq, Structural)]
pub enum MessageContentError {
    /// The content is empty or larger than the limit.
    PredicateViolated,
}

impl MessageContentError {
    /// A description of the error.
    pub fn message(&self) -> (s: String)
        ensures
            s@ == "MessageContent failed the predicate test."@,
    {
        String::from_str("MessageContent failed the predicate test.")
    }
}

/// Message content: at least one byte, at most 10 MiB.
#[derive(Debug)]
pub struct MessageContent {
    bytes: Vec<u8>,
}

impl View for MessageContent {
    type V = Seq<u8>;

    closed spec fn view(&self) -> Seq<u8> {
        self.bytes@
    }
}

impl Clone for MessageContent {
    fn clone(&self) -> (r: Self)
        ensures
            r@ == self@,
    {
        proof {
            use_type_invariant(self);
        }
        MessageContent { bytes: self.bytes.clone() }
    }
}

impl MessageContent {
    #[verifier::type_invariant]
    closed spec fn within_limits(self) -> bool {
        1 <= self.bytes@.len() <= MAX_MESSAGE_CONTENT_BYTES
    }

    /// Whether content of these bytes is accepted.
    pub open spec fn accepts(bytes: Seq<u8>) -> bool {
        1 <= bytes.len() <= MAX_MESSAGE_CONTENT_BYTES
    }

    /// Creates the content, refusing empty content and content above 10 MiB.
    pub fn try_new(bytes: Vec<u8>) -> (r: Result<Self, MessageContentError>)
        ensures
            r is Ok <==> Self::accepts(bytes@),
            r matches Ok(c) ==> c@ == bytes@,
    {
        if bytes.len() == 0 || bytes.len() > MAX_MESSAGE_CONTENT_BYTES {
            Err(MessageContentError::PredicateViolated)
        } else {
            Ok(MessageContent { bytes })
        }
    }

    /// Length of the content in bytes, between 1 and 10 MiB.
    pub fn len(&self) -> (n: usize)
        ensures
            n == self@.len(),
            1 <= n <= MAX_MESSAGE_CONTENT_BYTES,
    {
        proof {
            use_type_invariant(self);
        }
        self.bytes.len()
    }

    /// Whether the content is empty; never so.
    pub fn is_empty(&self) -> (b: bool)
        ensures
            b == (self@.len() == 0),
            !b,
    {
        proof {
            use_type_invariant(self);
        }
        self.bytes.len() == 0
    }

    /// The content as bytes.
    pub fn as_bytes(&self) -> (b: &[u8])
        ensures
            b@ == self@,
            Self::accepts(b@),
    {
        proof {
            use_type_invariant(self);
        }
        self.bytes.as_slice()
    }

    /// The content as bytes.
    pub fn as_slice(&self) -> (b: &[u8])
        ensures
            b@ == self@,
            Self::accepts(b@),
    {
        self.as_bytes()
    }
}

/// Sender and receiver of a message; they are always different agents.
#[derive(Debug)]
pub struct MessageParticipants {
    sender: AgentId,
    receiver: AgentId,
}

impl Clone for MessageParticipants {
    fn clone(&self) -> (r: Self)
        ensures
            r.sender_id() == self.sender_id(),
            r.receiver_id() == self.receiver_id(),
    {
        proof {
            use_type_invariant(self);
        }
        MessageParticipants { sender: self.sender, receiver: self.receiver }
    }
}

impl MessageParticipants {
    #[verifier::type_invariant]
    closed spec fn distinct(self) -> bool {
        self.sender != self.receiver
    }

    /// The sender.
    pub closed spec fn sender_id(self) -> AgentId {
        self.sender
    }

    /// The receiver.
    pub closed spec fn receiver_id(self) -> AgentId {
        self.receiver
    }

    /// Creates the participants; refuses a sender that equals the receiver.
    pub fn try_new(sender: AgentId, receiver: AgentId) -> (r: Result<Self, RouterError>)
        ensures
            r is Ok <==> sender != receiver,
            r matches Ok(p) ==> p.sender_id() == sender && p.receiver_id() == receiver,
            r matches Err(e) ==> is_validation_error(
                e,
                "sender/receiver"@,
                "sender cannot equal receiver"@,
            ),
    {
        if sender == receiver {
            proof {
                lemma_plain_text("sender/receiver"@);
                lemma_plain_text("sender cannot equal receiver"@);
            }
            return Err(create_validation_error("sender/receiver", "sender cannot equal receiver"));
        }
        Ok(MessageParticipants { sender, receiver })
    }

    /// The same agents with the roles swapped.
    pub fn reversed(&self) -> (r: Self)
        ensures
            r.sender_id() == self.receiver_id(),
            r.receiver_id() == self.sender_id(),
    {
        proof {
            use_type_invariant(self);
        }
        MessageParticipants { sender: self.receiver, receiver: self.sender }
    }

    /// The sender.
    pub fn sender(&self) -> (s: &AgentId)
        ensures
            *s == self.sender_id(),
    {
        &self.sender
    }

    /// The receiver.
    pub fn receiver(&self) -> (r: &AgentId)
        ensures
            *r == self.receiver_id(),
    {
        &self.receiver
    }

    /// Sender and receiver are different.
    pub fn distinct_fact(&self)
        ensures
            self.sender_id() != self.receiver_id(),
    {
        proof {
            use_type_invariant(self);
        }
    }
}

/// A text that neither starts nor ends with white space is its own trimmed text.
pub proof fn lemma_trimmed_plain(s: Seq<char>)
    requires
        s.len() > 0,
        !is_white(s[0]),
        !is_white(s.last()),
    ensures
        trimmed(s) == s,
{
    assert(trim_start(s) == s);
    assert(trim_end(s) == s);
}

/// The field and reason texts of this module's validation errors are
/// accepted as they are.
proof fn lemma_plain_text(s: Seq<char>)
    requires
        s == "sender/receiver"@ || s == "sender cannot equal receiver"@ || s == "performative"@
            || s == "not a standard FIPA performative"@ || s == "content"@
            || s == "invalid JSON format"@,
    ensures
        trimmed(s) == s,
        ValidationField::sanitized(s) == s,
        ValidationReason::sanitized(s) == s,
        s.len() <= 50,
        s.len() >= 1,
{
    reveal_strlit("sender/receiver");
    reveal_strlit("sender cannot equal receiver");
    reveal_strlit("performative");
    reveal_strlit("not a standard FIPA performative");
    reveal_strlit("content");
    reveal_strlit("invalid JSON format");
    lemma_trimmed_plain(s);
}

/// OpenTelemetry trace context.
#[derive(Debug, Clone)]
pub struct TraceContext {
    pub trace_id: TraceId,
    pub span_id: SpanId,
    pub trace_flags: u8,
    pub trace_state: Option<String>,
}

/// Delivery options of a message.
#[derive(Debug, Clone, Copy)]
pub struct DeliveryOptions {
    pub priority: MessagePriority,
    pub timeout: Option<MessageTimeoutMs>,
    pub require_receipt: bool,
    pub max_retries: MaxRetries,
}

impl Default for DeliveryOptions {
    fn default() -> (d: Self)
        ensures
            d.priority == MessagePriority::Normal,
            d.timeout is None,
            !d.require_receipt,
            d.max_retries@ == 3,
    {
        DeliveryOptions {
            priority: MessagePriority::Normal,
            timeout: None,
            require_receipt: false,
            max_retries: MaxRetries::default(),
        }
    }
}

/// A FIPA-ACL message.
#[derive(Debug, Clone)]
pub struct FipaMessage {
    pub performative: Performative,
    pub participants: MessageParticipants,
    pub content: MessageContent,
    pub conversation_id: Option<ConversationId>,
    pub reply_with: Option<MessageId>,
    pub in_reply_to: Option<MessageId>,
    pub message_id: MessageId,
    pub created_at: MessageTimestamp,
    pub trace_context: Option<TraceContext>,
    pub delivery_options: DeliveryOptions,
}

/// Everything needed to create and validate a FIPA message.
#[derive(Debug, Clone)]
pub struct FipaMessageParams {
    pub performative: Performative,
    pub sender: AgentId,
    pub receiver: AgentId,
    pub content: MessageContent,
    pub conversation_id: Option<ConversationId>,
    pub reply_with: Option<MessageId>,
    pub in_reply_to: Option<MessageId>,
    pub message_id: MessageId,
    pub created_at: MessageTimestamp,
    pub trace_context: Option<TraceContext>,
    pub delivery_options: DeliveryOptions,
}

/// What `serde_json::from_slice::<serde_json::Value>` decides of a byte
/// string: whether it is one well-formed JSON value.
pub uninterp spec fn json_value_parses(bytes: Seq<u8>) -> bool;

/// Calls `serde_json::from_slice::<serde_json::Value>` and reports whether it
/// read a value; which byte strings it accepts is left to the name
/// `json_value_parses`.
#[verifier::external_body]
fn parses_as_json(bytes: &[u8]) -> (b: bool)
    ensures
        b == json_value_parses(bytes@),
{
    match serde_json::from_slice::<serde_json::Value>(bytes) {
        Ok(_) => true,
        Err(_) => false,
    }
}

/// Whether content starts like a JSON object or array (`{` or `[`).
pub open spec fn looks_like_json(c: Seq<u8>) -> bool {
    c.len() > 0 && (c[0] == 123u8 || c[0] == 91u8)
}

/// Content passes the JSON check: where it looks like JSON, it parses.
pub open spec fn json_content_ok(c: Seq<u8>) -> bool {
    looks_like_json(c) ==> json_value_parses(c)
}

/// Checks the performative of a message: only standard FIPA performatives pass.
pub fn validate_performative_fipa_compliance(message: &FipaMessage) -> (r: Result<(), RouterError>)
    ensures
        r is Ok <==> is_standard_performative(message.performative),
        r matches Err(e) ==> is_validation_error(
            e,
            "performative"@,
            "not a standard FIPA performative"@,
        ),
{
    if message.performative.is_standard_fipa() {
        Ok(())
    } else {
        proof {
            lemma_plain_text("performative"@);
            lemma_plain_text("not a standard FIPA performative"@);
        }
        Err(create_validation_error("performative", "not a standard FIPA performative"))
    }
}

/// Checks the content of a message: content that starts with `{` or `[` must
/// be well-formed JSON; other content passes.
pub fn validate_json_content_format(message: &FipaMessage) -> (r: Result<(), RouterError>)
    ensures
        r is Ok <==> json_content_ok(message.content@),
        r matches Err(e) ==> is_validation_error(e, "content"@, "invalid JSON format"@),
{
    let bytes = message.content.as_slice();
    if bytes.len() == 0 {
        return Ok(());
    }
    let first = bytes[0];
    if first == 123u8 || first == 91u8 {
        if parses_as_json(bytes) {
            Ok(())
        } else {
            proof {
                lemma_plain_text("content"@);
                lemma_plain_text("invalid JSON format"@);
            }
            Err(create_validation_error("content", "invalid JSON format"))
        }
    } else {
        Ok(())
    }
}

impl FipaMessage {
    /// Creates a validated FIPA message.
    ///
    /// Refuses, in this order: a sender that equals the receiver; a
    /// performative that is not a standard FIPA performative; content that
    /// starts with `{` or `[` and is not well-formed JSON.
    pub fn try_new_validated(params: FipaMessageParams) -> (r: Result<Self, RouterError>)
        ensures
            r is Ok <==> (params.sender != params.receiver && is_standard_performative(
                params.performative,
            ) && json_content_ok(params.content@)),
            params.sender == params.receiver ==> (r matches Err(e) && is_validation_error(
                e,
                "sender/receiver"@,
                "sender cannot equal receiver"@,
            )),
            params.sender != params.receiver && !is_standard_performative(params.performative)
                ==> (r matches Err(e) && is_validation_error(
                e,
                "performative"@,
                "not a standard FIPA performative"@,
            )),
            params.sender != params.receiver && is_standard_performative(params.performative)
                && !json_content_ok(params.content@) ==> (r matches Err(e) && is_validation_error(
                e,
                "content"@,
                "invalid JSON format"@,
            )),
            r matches Ok(m) ==> {
                &&& m.performative == params.performative
                &&& m.participants.sender_id() == params.sender
                &&& m.participants.receiver_id() == params.receiver
                &&& m.content == params.content
                &&& m.conversation_id == params.conversation_id
                &&& m.reply_with == params.reply_with
                &&& m.in_reply_to == params.in_reply_to
                &&& m.message_id == params.message_id
                &&& m.created_at == params.created_at
                &&& m.trace_context == params.trace_context
                &&& m.delivery_options == params.delivery_options
            },
    {
        let participants = match MessageParticipants::try_new(params.sender, params.receiver) {
            Ok(p) => p,
            Err(e) => return Err(e),
        };
        let message = FipaMessage {
            performative: params.performative,
            participants,
            content: params.content,
            conversation_id: params.conversation_id,
            reply_with: params.reply_with,
            in_reply_to: params.in_reply_to,
            message_id: params.message_id,
            created_at: params.created_at,
            trace_context: params.trace_context,
            delivery_options: params.delivery_options,
        };
        match validate_performative_fipa_compliance(&message) {
            Ok(()) => {},
            Err(e) => return Err(e),
        }
        match validate_json_content_format(&message) {
            Ok(()) => {},
            Err(e) => return Err(e),
        }
        Ok(message)
    }

    /// The sender.
    pub fn sender(&self) -> (s: &AgentId)
        ensures
            *s == self.participants.sender_id(),
    {
        self.participants.sender()
    }

    /// The receiver.
    pub fn receiver(&self) -> (r: &AgentId)
        ensures
            *r == self.participants.receiver_id(),
    {
        self.participants.receiver()
    }
}

/// Information about an agent that runs on this node.
#[derive(Debug)]
pub struct LocalAgent {
    pub id: AgentId,
    pub name: AgentName,
    pub state: AgentState,
    pub capabilities: Vec<CapabilityName>,
    pub last_heartbeat: MessageTimestamp,
    pub queue_size: AgentQueueSize,
}

impl LocalAgent {
    /// Creates the agent information.
    pub fn new(
        id: AgentId,
        name: AgentName,
        state: AgentState,
        capabilities: Vec<CapabilityName>,
        last_heartbeat: MessageTimestamp,
        queue_size: AgentQueueSize,
    ) -> (a: Self)
        ensures
            a == (LocalAgent { id, name, state, capabilities, last_heartbeat, queue_size }),
    {
        LocalAgent { id, name, state, capabilities, last_heartbeat, queue_size }
    }

    /// Whether the agent can receive messages: only while it is running.
    pub fn is_available(&self) -> (b: bool)
        ensures
            b == (self.state == AgentState::Running),
    {
        match self.state {
            AgentState::Running => true,
            _ => false,
        }
    }
}

/// What a `LocalAgent` holds, with texts as character sequences.
pub struct LocalAgentView {
    pub id: AgentId,
    pub name: Seq<char>,
    pub state: AgentState,
    pub capabilities: Seq<Seq<char>>,
    pub last_heartbeat: MessageTimestamp,
    pub queue_size: AgentQueueSize,
}

impl View for LocalAgent {
    type V = LocalAgentView;

    open spec fn view(&self) -> LocalAgentView {
        LocalAgentView {
            id: self.id,
            name: self.name@,
            state: self.state,
            capabilities: self.capabilities@.map_values(|c: CapabilityName| c@),
            last_heartbeat: self.last_heartbeat,
            queue_size: self.queue_size,
        }
    }
}

/// Copies a list of capability names.
pub fn clone_capabilities(v: &Vec<CapabilityName>) -> (r: Vec<CapabilityName>)
    ensures
        r@.map_values(|c: CapabilityName| c@) == v@.map_values(|c: CapabilityName| c@),
{
    let mut r: Vec<CapabilityName> = Vec::new();
    for i in 0..v.len()
        invariant
            r@.map_values(|c: CapabilityName| c@) == v@.take(i as int).map_values(
                |c: CapabilityName| c@,
            ),
    {
        let c = v[i].clone();
        let ghost before = r@;
        r.push(c);
        assert(r@ == before.push(c));
        assert(r@.map_values(|c: CapabilityName| c@) =~= before.map_values(|c: CapabilityName| c@).push(c@));
        assert(v@.take(i + 1) =~= v@.take(i as int).push(v@[i as int]));
        assert(v@.take(i + 1).map_values(|c: CapabilityName| c@) =~= v@.take(i as int).map_values(
            |c: CapabilityName| c@,
        ).push(v@[i as int]@));
        assert(r@.map_values(|c: CapabilityName| c@) =~= v@.take(i + 1).map_values(
            |c: CapabilityName| c@,
        ));
    }
    assert(v@.take(v.len() as int) =~= v@);
    r
}

impl Clone for LocalAgent {
    fn clone(&self) -> (r: Self)
        ensures
            r@ == self@,
    {
        LocalAgent {
            id: self.id,
            name: self.name.clone(),
            state: self.state,
            capabilities: clone_capabilities(&self.capabilities),
            last_heartbeat: self.last_heartbeat,
            queue_size: self.queue_size,
        }
    }
}

/// Where an agent can be reached.
#[derive(Debug)]
pub enum AgentLocation {
    Local(LocalAgent),
    Remote(NodeId),
    Unknown,
}

/// What an `AgentLocation` holds.
pub enum AgentLocationView {
    Local(LocalAgentView),
    Remote(NodeId),
    Unknown,
}

impl View for AgentLocation {
    type V = AgentLocationView;

    open spec fn view(&self) -> AgentLocationView {
        match self {
            AgentLocation::Local(a) => AgentLocationView::Local(a@),
            AgentLocation::Remote(n) => AgentLocationView::Remote(*n),
            AgentLocation::Unknown => AgentLocationView::Unknown,
        }
    }
}

impl Clone for AgentLocation {
    fn clone(&self) -> (r: Self)
        ensures
            r@ == self@,
    {
        match self {
            AgentLocation::Local(a) => AgentLocation::Local(a.clone()),
            AgentLocation::Remote(n) => AgentLocation::Remote(*n),
            AgentLocation::Unknown => AgentLocation::Unknown,
        }
    }
}

/// Time that a route stays valid after it was updated: five minutes.
pub const ROUTE_TTL_MILLIS: u64 = 300_000;

/// Route to an agent on another node.
#[derive(Debug, Clone, Copy)]
pub struct RouteInfo {
    pub node_id: NodeId,
    pub hops: RouteHops,
    pub updated_at: MessageTimestamp,
    pub expires_at: MessageTimestamp,
}

impl RouteInfo {
    /// Creates a route that expires five minutes after its update.
    pub fn new(node_id: NodeId, hops: RouteHops, updated_at: MessageTimestamp) -> (r: Self)
        requires
            updated_at.millis + ROUTE_TTL_MILLIS <= u64::MAX,
        ensures
            r.node_id == node_id,
            r.hops == hops,
            r.updated_at == updated_at,
            r.expires_at.millis == updated_at.millis + ROUTE_TTL_MILLIS,
    {
        RouteInfo {
            node_id,
            hops,
            updated_at,
            expires_at: MessageTimestamp::new(updated_at.millis + ROUTE_TTL_MILLIS),
        }
    }

    /// Whether the route is younger than `ttl_millis` at time `now`; a clock
    /// that reads earlier than the update makes the route stale.
    pub fn is_fresh_at(&self, now: MessageTimestamp, ttl_millis: u64) -> (b: bool)
        ensures
            b == (now.millis >= self.updated_at.millis && now.millis - self.updated_at.millis
                < ttl_millis),
    {
        now.millis >= self.updated_at.millis && now.millis - self.updated_at.millis < ttl_millis
    }

    /// Whether the route is younger than `ttl_millis` now, by the system
    /// clock: the answer of `is_fresh_at` for the time read.
    pub fn is_fresh(&self, ttl_millis: u64) -> (b: bool)
        ensures
            exists|now: u64| b == #[trigger] route_fresh_at(self.updated_at.millis, now, ttl_millis),
    {
        let now = MessageTimestamp::now();
        let b = self.is_fresh_at(now, ttl_millis);
        assert(b == route_fresh_at(self.updated_at.millis, now.millis, ttl_millis));
        b
    }
}

/// Whether a route updated at `updated` is younger than `ttl` at `now`.
pub open spec fn route_fresh_at(updated: u64, now: u64, ttl: u64) -> bool {
    now >= updated && now - updated < ttl
}

/// No agent occurs twice.
pub open spec fn no_duplicate_agents(s: Seq<AgentId>) -> bool {
    forall|i: int, j: int| 0 <= i < s.len() && 0 <= j < s.len() && i != j ==> s[i] != s[j]
}

/// The agents of a list in the order in which they first occur, each once.
pub open spec fn first_occurrences(s: Seq<AgentId>) -> Seq<AgentId>
    decreases s.len(),
{
    if s.len() == 0 {
        Seq::empty()
    } else {
        let p = first_occurrences(s.drop_last());
        if p.contains(s.last()) {
            p
        } else {
            p.push(s.last())
        }
    }
}

/// The first occurrences hold each agent of the list once, and no other.
pub proof fn lemma_first_occurrences(s: Seq<AgentId>)
    ensures
        no_duplicate_agents(first_occurrences(s)),
        forall|a: AgentId| #[trigger] first_occurrences(s).contains(a) <==> s.contains(a),
    decreases s.len(),
{
    if s.len() > 0 {
        let t = s.drop_last();
        lemma_first_occurrences(t);
        let p = first_occurrences(t);
        assert forall|a: AgentId| #[trigger] first_occurrences(s).contains(a) <==> s.contains(a) by {
            if s.contains(a) && !t.contains(a) {
                let k = choose|k: int| 0 <= k < s.len() && s[k] == a;
                if k < t.len() {
                    assert(t[k] == a);
                }
                assert(a == s.last());
            }
            if t.contains(a) {
                let k = choose|k: int| 0 <= k < t.len() && t[k] == a;
                assert(s[k] == a);
            }
            if !p.contains(s.last()) {
                let q = p.push(s.last());
                if q.contains(a) {
                    let k = choose|k: int| 0 <= k < q.len() && q[k] == a;
                    if k < p.len() {
                        assert(p[k] == a);
                    }
                }
                if p.contains(a) {
                    let k = choose|k: int| 0 <= k < p.len() && p[k] == a;
                    assert(q[k] == a);
                }
                if a == s.last() {
                    assert(q[p.len() as int] == a);
                }
            }
            if s.contains(a) {
                assert(t.contains(a) || a == s.last());
                if a == s.last() {
                    assert(s[s.len() - 1] == a);
                }
            }
        }
    }
}

/// The agents of a list in the order in which they first occur, each once.
pub fn dedup_agents(v: &Vec<AgentId>) -> (r: Vec<AgentId>)
    ensures
        r@ == first_occurrences(v@),
{
    let mut r: Vec<AgentId> = Vec::new();
    for i in 0..v.len()
        invariant
            r@ == first_occurrences(v@.take(i as int)),
    {
        let a = v[i];
        let mut found = false;
        for j in 0..r.len()
            invariant
                found <==> exists|k: int| 0 <= k < j && r@[k] == a,
        {
            if r[j] == a {
                found = true;
            }
        }
        assert(v@.take(i + 1).drop_last() =~= v@.take(i as int));
        assert(v@.take(i + 1).last() == a);
        if !found {
            r.push(a);
        }
    }
    assert(v@.take(v.len() as int) =~= v@);
    r
}

/// A copy of a list of agents.
pub fn copy_agents(v: &Vec<AgentId>) -> (r: Vec<AgentId>)
    ensures
        r@ == v@,
{
    let mut r: Vec<AgentId> = Vec::new();
    for i in 0..v.len()
        invariant
            r@ == v@.take(i as int),
    {
        r.push(v[i]);
        assert(r@ =~= v@.take(i + 1));
    }
    assert(v@.take(v.len() as int) =~= v@);
    r
}

/// A conversation between agents.
#[derive(Debug)]
pub struct Conversation {
    pub id: ConversationId,
    pub participants: Vec<AgentId>,
    pub created_at: ConversationCreatedAt,
    pub last_activity: MessageTimestamp,
    pub message_count: MessageCount,
}

/// A conversation as a mathematical value.
pub struct ConversationView {
    pub id: ConversationId,
    pub participants: Seq<AgentId>,
    pub created_at: ConversationCreatedAt,
    pub last_activity: MessageTimestamp,
    pub message_count: MessageCount,
}

impl View for Conversation {
    type V = ConversationView;

    open spec fn view(&self) -> ConversationView {
        ConversationView {
            id: self.id,
            participants: self.participants@,
            created_at: self.created_at,
            last_activity: self.last_activity,
            message_count: self.message_count,
        }
    }
}

impl Clone for Conversation {
    fn clone(&self) -> (r: Self)
        ensures
            r@ == self@,
    {
        Conversation {
            id: self.id,
            participants: copy_agents(&self.participants),
            created_at: self.created_at,
            last_activity: self.last_activity,
            message_count: self.message_count,
        }
    }
}

impl Conversation {
    /// Whether an agent takes part in the conversation.
    pub fn has_participant(&self, agent: AgentId) -> (b: bool)
        ensures
            b == self.participants@.contains(agent),
    {
        let mut i: usize = 0;
        while i < self.participants.len()
            invariant
                i <= self.participants@.len(),
                forall|j: int| 0 <= j < i ==> self.participants@[j] != agent,
            decreases self.participants@.len() - i,
        {
            if self.participants[i] == agent {
                assert(self.participants@[i as int] == agent);
                return true;
            }
            i = i + 1;
        }
        false
    }

    /// Creates a conversation with no messages, last active at `now`.
    pub fn new_at(
        id: ConversationId,
        participants: Vec<AgentId>,
        created_at: ConversationCreatedAt,
        now: MessageTimestamp,
    ) -> (c: Self)
        ensures
            c.id == id,
            c.participants@ == participants@,
            c.created_at == created_at,
            c.last_activity == now,
            c.message_count.count == 0,
    {
        Conversation {
            id,
            participants,
            created_at,
            last_activity: now,
            message_count: MessageCount::zero(),
        }
    }

    /// Creates a conversation with no messages, last active now.
    pub fn new(
        id: ConversationId,
        participants: Vec<AgentId>,
        created_at: ConversationCreatedAt,
    ) -> (c: Self)
        ensures
            c.id == id,
            c.participants@ == participants@,
            c.created_at == created_at,
            c.message_count.count == 0,
    {
        Self::new_at(id, participants, created_at, MessageTimestamp::now())
    }

    /// Counts one more message, which arrived at `now`.
    pub fn add_message_at(&mut self, _message: &FipaMessage, now: MessageTimestamp)
        ensures
            final(self)@ == (ConversationView {
                message_count: old(self).message_count.spec_increment(),
                last_activity: now,
                ..old(self)@
            }),
    {
        self.message_count = self.message_count.increment();
        self.last_activity = now;
    }

    /// Counts one more message, which arrived now.
    pub fn add_message(&mut self, message: &FipaMessage)
        ensures
            final(self).id == old(self).id,
            final(self).participants@ == old(self).participants@,
            final(self).created_at == old(self).created_at,
            final(self).message_count == old(self).message_count.spec_increment(),
    {
        self.add_message_at(message, MessageTimestamp::now());
    }

    /// Sets the time of the last activity.
    pub fn update_last_activity(&mut self, timestamp: MessageTimestamp)
        ensures
            final(self)@ == (ConversationView { last_activity: timestamp, ..old(self)@ }),
    {
        self.last_activity = timestamp;
    }
}

} // verus!
