//! Batched message routing: validation of messages, a routing table of
//! agent endpoints, batches handed on in priority order, and the
//! statistics of routing and of batch processing.
//!
//! Durations are counted in nanoseconds.

use vstd::prelude::*;
use crate::ids::AgentId;
use crate::sandbox::same_text;
use crate::table::IdTable;
use std::time::Instant;

verus! {

broadcast use vstd::string::group_string_axioms;

/// The sending half of an unbounded tokio channel.
#[verifier::external_type_specification]
#[verifier::external_body]
#[verifier::reject_recursive_types(T)]
pub struct ExUnboundedSender<T>(tokio::sync::mpsc::UnboundedSender<T>);

/// A point of the monotonic clock.
#[verifier::external_type_specification]
#[verifier::external_body]
pub struct ExInstant(Instant);

/// The longest span a `Duration` holds, in nanoseconds: `u64::MAX` seconds
/// and 999 999 999 nanoseconds.
pub const MAX_DURATION_NANOS: u128 = 18_446_744_073_709_551_615_999_999_999;

/// Reads the monotonic clock through `Instant::now`; the value depends on
/// the clock, so nothing is stated of it.
#[verifier::external_body]
pub(crate) fn instant_now() -> (t: Instant) {
    Instant::now()
}

/// Calls `Instant::elapsed` and `Duration::as_nanos`: the nanoseconds since
/// `start`, which depend on the clock. A `Duration` holds at most
/// `MAX_DURATION_NANOS` nanoseconds.
#[verifier::external_body]
pub(crate) fn elapsed_nanos(start: &Instant) -> (n: u128)
    ensures
        n <= MAX_DURATION_NANOS,
{
    start.elapsed().as_nanos()
}

/// Calls `tokio::sync::mpsc::UnboundedSender::send`, which fails only where
/// the receiving side is gone; whether it is depends on the other side, so
/// nothing is stated of the outcome.
#[verifier::external_body]
fn send_unbounded(
    sender: &tokio::sync::mpsc::UnboundedSender<FipaMessage>,
    message: FipaMessage,
) -> (sent: bool) {
    sender.send(message).is_ok()
}

/// Adds two spans, staying at the longest span a `Duration` holds.
pub open spec fn add_span(a: u128, b: u128) -> u128 {
    if a + b > MAX_DURATION_NANOS {
        MAX_DURATION_NANOS
    } else {
        (a + b) as u128
    }
}

fn add_span_exec(a: u128, b: u128) -> (r: u128)
    requires
        a <= MAX_DURATION_NANOS,
        b <= MAX_DURATION_NANOS,
    ensures
        r == add_span(a, b),
        r <= MAX_DURATION_NANOS,
{
    if a > MAX_DURATION_NANOS - b {
        MAX_DURATION_NANOS
    } else {
        a + b
    }
}

/// What a message asks of its receiver.
#[derive(Debug, Clone, Copy, PartialEq, Eq, Structural)]
pub enum Performative {
    Query,
    QueryRef,
    Inform,
    InformRef,
    NotUnderstood,
    Request,
    RequestWhen,
    RequestWhenever,
    Cfp,
    Propose,
    AcceptProposal,
    RejectProposal,
    Agree,
    Refuse,
    Cancel,
    Confirm,
    Disconfirm,
    Failure,
    Custom(u8),
}

/// How urgently a message is routed; later variants are more urgent.
#[derive(Debug, Clone, Copy, PartialEq, Eq, PartialOrd, Ord, Structural)]
pub enum MessagePriority {
    Low,
    Normal,
    High,
    Critical,
}

impl Default for MessagePriority {
    fn default() -> (p: Self)
        ensures
            p == MessagePriority::Normal,
    {
        MessagePriority::Normal
    }
}

/// A message as the batched router carries it.
#[derive(Debug, Clone)]
pub struct FipaMessage {
    pub performative: Performative,
    pub sender: AgentId,
    pub receiver: AgentId,
    pub conversation_id: u128,
    pub reply_with: Option<String>,
    pub in_reply_to: Option<String>,
    pub content: Vec<u8>,
    pub ontology: Option<String>,
    pub language: Option<String>,
    /// Milliseconds since the Unix epoch.
    pub timestamp: u64,
    pub priority: MessagePriority,
}

/// Errors of batched routing.
#[derive(Debug)]
pub enum RoutingError {
    SelfMessage,
    EmptyContent,
    MissingReplyWith,
    AgentNotFound,
    ChannelClosed,
    SerializationError(String),
    DeliveryTimeout,
}

/// The description of a routing error.
pub open spec fn routing_error_text(e: RoutingError) -> Seq<char> {
    match e {
        RoutingError::SelfMessage => "Message sender and receiver are the same"@,
        RoutingError::EmptyContent => "Message content is empty"@,
        RoutingError::MissingReplyWith => "Query message missing reply-with field"@,
        RoutingError::AgentNotFound => "Agent not found in routing table"@,
        RoutingError::ChannelClosed => "Message channel closed"@,
        RoutingError::SerializationError(s) => "Serialization error: "@ + s@,
        RoutingError::DeliveryTimeout => "Delivery timeout"@,
    }
}

impl RoutingError {
    /// The description of the error.
    pub fn message(&self) -> (s: String)
        ensures
            s@ == routing_error_text(*self),
    {
        match self {
            RoutingError::SelfMessage => String::from_str("Message sender and receiver are the same"),
            RoutingError::EmptyContent => String::from_str("Message content is empty"),
            RoutingError::MissingReplyWith => String::from_str("Query message missing reply-with field"),
            RoutingError::AgentNotFound => String::from_str("Agent not found in routing table"),
            RoutingError::ChannelClosed => String::from_str("Message channel closed"),
            RoutingError::SerializationError(s) => String::from_str("Serialization error: ").concat(
                s.as_str(),
            ),
            RoutingError::DeliveryTimeout => String::from_str("Delivery timeout"),
        }
    }
}

/// Why a message is refused for routing, checked in order: it is sent to
/// its own sender, it has no content, or it is a query without a
/// reply-with field.
pub open spec fn routing_problem(m: FipaMessage) -> Option<RoutingError> {
    if m.sender == m.receiver {
        Some(RoutingError::SelfMessage)
    } else if m.content@.len() == 0 {
        Some(RoutingError::EmptyContent)
    } else if (m.performative == Performative::Query || m.performative == Performative::QueryRef)
        && m.reply_with is None {
        Some(RoutingError::MissingReplyWith)
    } else {
        None
    }
}

/// Checks a message before it is routed.
pub fn validate_message(message: &FipaMessage) -> (r: Result<(), RoutingError>)
    ensures
        r == (match routing_problem(*message) {
            Some(e) => Err(e),
            None => Ok(()),
        }),
{
    if message.sender == message.receiver {
        return Err(RoutingError::SelfMessage);
    }
    if message.content.len() == 0 {
        return Err(RoutingError::EmptyContent);
    }
    match message.performative {
        Performative::Query | Performative::QueryRef => {
            if message.reply_with.is_none() {
                return Err(RoutingError::MissingReplyWith);
            }
        },
        _ => {},
    }
    Ok(())
}

/// The messages of a batch with the given priority, in their order.
pub open spec fn with_priority(s: Seq<FipaMessage>, p: MessagePriority) -> Seq<FipaMessage> {
    s.filter(|m: FipaMessage| m.priority == p)
}

/// A batch in the order it is processed: by priority, most urgent first,
/// and in arrival order among messages of equal priority (the order a
/// stable sort by descending priority gives).
pub open spec fn priority_order(s: Seq<FipaMessage>) -> Seq<FipaMessage> {
    with_priority(s, MessagePriority::Critical) + with_priority(s, MessagePriority::High)
        + with_priority(s, MessagePriority::Normal) + with_priority(s, MessagePriority::Low)
}

/// How urgent a priority is, from 0 for `Low` to 3 for `Critical`.
pub open spec fn urgency(p: MessagePriority) -> int {
    match p {
        MessagePriority::Low => 0,
        MessagePriority::Normal => 1,
        MessagePriority::High => 2,
        MessagePriority::Critical => 3,
    }
}

/// The four priority groups of a batch hold its messages, each once.
proof fn lemma_groups_multiset(s: Seq<FipaMessage>)
    ensures
        with_priority(s, MessagePriority::Critical).to_multiset().add(
            with_priority(s, MessagePriority::High).to_multiset(),
        ).add(with_priority(s, MessagePriority::Normal).to_multiset()).add(
            with_priority(s, MessagePriority::Low).to_multiset(),
        ) == s.to_multiset(),
    decreases s.len(),
{
    broadcast use vstd::multiset::group_multiset_axioms;
    broadcast use vstd::seq_lib::group_to_multiset_ensures;

    if s.len() == 0 {
        reveal(Seq::filter);
        assert(s.to_multiset() =~= vstd::multiset::Multiset::<FipaMessage>::empty());
        assert(with_priority(s, MessagePriority::Critical).to_multiset() =~= vstd::multiset::Multiset::<FipaMessage>::empty());
        assert(with_priority(s, MessagePriority::High).to_multiset() =~= vstd::multiset::Multiset::<FipaMessage>::empty());
        assert(with_priority(s, MessagePriority::Normal).to_multiset() =~= vstd::multiset::Multiset::<FipaMessage>::empty());
        assert(with_priority(s, MessagePriority::Low).to_multiset() =~= vstd::multiset::Multiset::<FipaMessage>::empty());
    } else {
        let t = s.drop_last();
        let x = s.last();
        assert(s =~= t.push(x));
        lemma_groups_multiset(t);
        t.lemma_filter_push(x, |m: FipaMessage| m.priority == MessagePriority::Critical);
        t.lemma_filter_push(x, |m: FipaMessage| m.priority == MessagePriority::High);
        t.lemma_filter_push(x, |m: FipaMessage| m.priority == MessagePriority::Normal);
        t.lemma_filter_push(x, |m: FipaMessage| m.priority == MessagePriority::Low);
        t.to_multiset_ensures();
        with_priority(t, MessagePriority::Critical).to_multiset_ensures();
        with_priority(t, MessagePriority::High).to_multiset_ensures();
        with_priority(t, MessagePriority::Normal).to_multiset_ensures();
        with_priority(t, MessagePriority::Low).to_multiset_ensures();
        assert(s.to_multiset() == t.to_multiset().insert(x));
        let a = with_priority(t, MessagePriority::Critical).to_multiset();
        let b = with_priority(t, MessagePriority::High).to_multiset();
        let c = with_priority(t, MessagePriority::Normal).to_multiset();
        let d = with_priority(t, MessagePriority::Low).to_multiset();
        match x.priority {
            MessagePriority::Critical => {
                assert(a.insert(x).add(b).add(c).add(d) =~= a.add(b).add(c).add(d).insert(x));
            },
            MessagePriority::High => {
                assert(a.add(b.insert(x)).add(c).add(d) =~= a.add(b).add(c).add(d).insert(x));
            },
            MessagePriority::Normal => {
                assert(a.add(b).add(c.insert(x)).add(d) =~= a.add(b).add(c).add(d).insert(x));
            },
            MessagePriority::Low => {
                assert(a.add(b).add(c).add(d.insert(x)) =~= a.add(b).add(c).add(d).insert(x));
            },
        }
    }
}

/// Processing order keeps every message of the batch, each once, and puts
/// no message before a more urgent one.
pub proof fn lemma_priority_order(s: Seq<FipaMessage>)
    ensures
        priority_order(s).to_multiset() == s.to_multiset(),
        priority_order(s).len() == s.len(),
        forall|i: int, j: int|
            0 <= i < j < priority_order(s).len() ==> urgency(#[trigger] priority_order(s)[i].priority)
                >= urgency(#[trigger] priority_order(s)[j].priority),
{
    broadcast use vstd::seq_lib::group_filter_ensures;
    broadcast use vstd::seq_lib::group_to_multiset_ensures;

    let a = with_priority(s, MessagePriority::Critical);
    let b = with_priority(s, MessagePriority::High);
    let c = with_priority(s, MessagePriority::Normal);
    let d = with_priority(s, MessagePriority::Low);
    let r = priority_order(s);
    lemma_groups_multiset(s);
    vstd::seq_lib::lemma_multiset_commutative(a, b);
    vstd::seq_lib::lemma_multiset_commutative(a + b, c);
    vstd::seq_lib::lemma_multiset_commutative(a + b + c, d);
    r.to_multiset_ensures();
    s.to_multiset_ensures();
    assert(r.to_multiset() == s.to_multiset());
    assert forall|k: int| 0 <= k < r.len() implies #[trigger] urgency(r[k].priority) == (if k < a.len() {
        3int
    } else if k < a.len() + b.len() {
        2int
    } else if k < a.len() + b.len() + c.len() {
        1int
    } else {
        0int
    }) by {
        if k < a.len() {
            assert(r[k] == a[k]);
            s.lemma_filter_pred(|m: FipaMessage| m.priority == MessagePriority::Critical, k);
        } else if k < a.len() + b.len() {
            assert(r[k] == b[k - a.len()]);
            s.lemma_filter_pred(|m: FipaMessage| m.priority == MessagePriority::High, k - a.len());
        } else if k < a.len() + b.len() + c.len() {
            assert(r[k] == c[k - a.len() - b.len()]);
            s.lemma_filter_pred(|m: FipaMessage| m.priority == MessagePriority::Normal, k - a.len() - b.len());
        } else {
            assert(r[k] == d[k - a.len() - b.len() - c.len()]);
            s.lemma_filter_pred(|m: FipaMessage| m.priority == MessagePriority::Low, k - a.len() - b.len() - c.len());
        }
    }
}

/// Puts a batch in processing order.
pub fn order_by_priority(batch: Vec<FipaMessage>) -> (r: Vec<FipaMessage>)
    ensures
        r@ == priority_order(batch@),
{
    broadcast use vstd::seq_lib::group_seq_properties;

    let ghost orig = batch@;
    let mut critical: Vec<FipaMessage> = Vec::new();
    let mut high: Vec<FipaMessage> = Vec::new();
    let mut normal: Vec<FipaMessage> = Vec::new();
    let mut low: Vec<FipaMessage> = Vec::new();
    let mut rest = batch;
    let mut k: usize = rest.len();
    assert(orig.skip(k as int) =~= Seq::<FipaMessage>::empty());
    while k > 0
        invariant
            k == rest@.len(),
            k <= orig.len(),
            rest@ == orig.take(k as int),
            critical@ == with_priority(orig.skip(k as int), MessagePriority::Critical),
            high@ == with_priority(orig.skip(k as int), MessagePriority::High),
            normal@ == with_priority(orig.skip(k as int), MessagePriority::Normal),
            low@ == with_priority(orig.skip(k as int), MessagePriority::Low),
        decreases k,
    {
        let m = rest.pop().unwrap();
        let ghost tail0 = orig.skip(k as int);
        k = k - 1;
        let ghost tail1 = orig.skip(k as int);
        assert(tail1 =~= seq![m] + tail0);
        assert(rest@ =~= orig.take(k as int));
        proof {
            tail0.lemma_filter_prepend(m, |x: FipaMessage| x.priority == MessagePriority::Critical);
            tail0.lemma_filter_prepend(m, |x: FipaMessage| x.priority == MessagePriority::High);
            tail0.lemma_filter_prepend(m, |x: FipaMessage| x.priority == MessagePriority::Normal);
            tail0.lemma_filter_prepend(m, |x: FipaMessage| x.priority == MessagePriority::Low);
        }
        match m.priority {
            MessagePriority::Critical => critical.insert(0, m),
            MessagePriority::High => high.insert(0, m),
            MessagePriority::Normal => normal.insert(0, m),
            MessagePriority::Low => low.insert(0, m),
        }
        assert(critical@ =~= with_priority(tail1, MessagePriority::Critical));
        assert(high@ =~= with_priority(tail1, MessagePriority::High));
        assert(normal@ =~= with_priority(tail1, MessagePriority::Normal));
        assert(low@ =~= with_priority(tail1, MessagePriority::Low));
    }
    assert(orig.skip(0) =~= orig);
    critical.append(&mut high);
    critical.append(&mut normal);
    critical.append(&mut low);
    critical
}

/// Settings of the batched router; spans in milliseconds.
#[derive(Debug, Clone, Copy)]
pub struct RouterConfig {
    /// Most messages in one batch.
    pub max_batch_size: usize,
    /// A partial batch is processed after this long.
    pub batch_timeout_ms: u64,
    /// Most messages processed at once.
    pub max_concurrent_messages: usize,
    /// How often timed-out agents are removed.
    pub cleanup_interval_ms: u64,
    /// An agent not seen for this long is removed.
    pub agent_timeout_ms: u64,
}

impl Default for RouterConfig {
    fn default() -> (c: Self)
        ensures
            c.max_batch_size == 100,
            c.batch_timeout_ms == 10,
            c.max_concurrent_messages == 1000,
            c.cleanup_interval_ms == 60_000,
            c.agent_timeout_ms == 300_000,
    {
        RouterConfig {
            max_batch_size: 100,
            batch_timeout_ms: 10,
            max_concurrent_messages: 1000,
            cleanup_interval_ms: 60_000,
            agent_timeout_ms: 300_000,
        }
    }
}

/// Where an agent is reached and what it can do.
#[derive(Debug)]
pub struct AgentEndpoint {
    pub agent_id: AgentId,
    pub address: String,
    pub capabilities: Vec<String>,
    /// When the agent was last seen, in milliseconds since the Unix epoch.
    pub last_seen_ms: u64,
    pub message_queue: tokio::sync::mpsc::UnboundedSender<FipaMessage>,
}

/// Whether an endpoint offers a capability.
pub open spec fn offers(e: AgentEndpoint, capability: Seq<char>) -> bool {
    e.capabilities@.map_values(|c: String| c@).contains(capability)
}

/// The agents of the entries that offer a capability, in table order.
pub open spec fn agents_offering(entries: Seq<(u128, AgentEndpoint)>, capability: Seq<char>) -> Seq<
    AgentId,
> {
    entries.filter(|e: (u128, AgentEndpoint)| offers(e.1, capability)).map_values(
        |e: (u128, AgentEndpoint)| e.1.agent_id,
    )
}

/// Whether a list of texts holds a text.
fn holds_text(texts: &Vec<String>, text: &str) -> (b: bool)
    ensures
        b == texts@.map_values(|c: String| c@).contains(text@),
{
    let ghost views = texts@.map_values(|c: String| c@);
    for i in 0..texts.len()
        invariant
            views == texts@.map_values(|c: String| c@),
            forall|j: int| 0 <= j < i ==> views[j] != text@,
    {
        if same_text(texts[i].as_str(), text) {
            assert(views[i as int] == text@);
            return true;
        }
    }
    proof {
        if views.contains(text@) {
            let j = choose|j: int| 0 <= j < views.len() && views[j] == text@;
            assert(views[j] != text@);
        }
    }
    false
}

/// Whether an agent seen at `last_seen_ms` is still fresh at `now_ms`.
pub open spec fn is_fresh(last_seen_ms: u64, now_ms: u64, timeout_ms: u64) -> bool {
    crate::time::elapsed_millis(last_seen_ms, now_ms) < timeout_ms
}

/// Counters of routed messages.
#[derive(Debug, Clone, Copy)]
pub struct RouterMetrics {
    pub messages_routed: u64,
    pub routing_errors: u64,
    pub total_routing_time_nanos: u128,
}

/// Statistics of batch processing.
#[derive(Debug, Clone, Copy)]
pub struct BatchProcessorStats {
    pub batches_processed: u64,
    pub total_messages_processed: u64,
    pub total_processing_time_nanos: u128,
}

impl Default for BatchProcessorStats {
    fn default() -> (s: Self)
        ensures
            s.batches_processed == 0,
            s.total_messages_processed == 0,
            s.total_processing_time_nanos == 0,
    {
        BatchProcessorStats { batches_processed: 0, total_messages_processed: 0, total_processing_time_nanos: 0 }
    }
}

/// A span divided by a count taken modulo 2^32, as dividing a `Duration`
/// by the count cast to `u32` does; 0 for a count of 0.
pub open spec fn span_per(total_nanos: u128, count: u64) -> u128 {
    if count == 0 {
        0
    } else {
        (total_nanos / ((count as u32) as u128)) as u128
    }
}

/// Whether a count can divide a span: it is 0, or it is not 0 modulo 2^32
/// (dividing a `Duration` by 0 panics).
pub open spec fn divides_span(count: u64) -> bool {
    count == 0 || count as u32 != 0
}

impl BatchProcessorStats {
    /// The average time to process a batch, in nanoseconds; 0 before any
    /// batch.
    pub fn average_processing_time(&self) -> (n: u128)
        requires
            divides_span(self.batches_processed),
        ensures
            n == span_per(self.total_processing_time_nanos, self.batches_processed),
    {
        if self.batches_processed == 0 {
            0
        } else {
            let d: u32 = self.batches_processed as u32;
            self.total_processing_time_nanos / (d as u128)
        }
    }
}

/// Performance statistics of the batched router.
#[derive(Debug, Clone, Copy)]
pub struct RouterPerformanceStats {
    pub active_agents: usize,
    pub messages_routed: u64,
    pub routing_errors: u64,
    /// Average routing latency in nanoseconds.
    pub average_routing_latency_nanos: u128,
    pub batch_processing_stats: BatchProcessorStats,
}

/// A router that validates messages and hands them to a batch processor
/// through a channel, with a table of agent endpoints for discovery.
pub struct OptimizedMessageRouter {
    routing_table: IdTable<AgentEndpoint>,
    batch_sender: tokio::sync::mpsc::UnboundedSender<FipaMessage>,
    metrics: RouterMetrics,
    config: RouterConfig,
    handed: Ghost<Seq<FipaMessage>>,
}

/// The messages of a batch whose outcome is a success, in order.
pub open spec fn accepted_messages(messages: Seq<FipaMessage>, results: Seq<Result<(), RoutingError>>) -> Seq<
    FipaMessage,
>
    decreases messages.len(),
{
    if messages.len() == 0 || results.len() == 0 {
        Seq::empty()
    } else {
        accepted_messages(messages.drop_last(), results.drop_last()) + if results.last() is Ok {
            seq![messages.last()]
        } else {
            Seq::<FipaMessage>::empty()
        }
    }
}

/// The messages of a batch that pass validation, in order.
pub open spec fn valid_messages(messages: Seq<FipaMessage>) -> Seq<FipaMessage> {
    messages.filter(|m: FipaMessage| routing_problem(m) is None)
}

/// While the batch channel takes every message, the messages of a batch
/// handed to it are exactly its valid messages, in their order; in any case
/// none of them is invalid.
pub proof fn lemma_batch_hands_off_valid_messages(
    messages: Seq<FipaMessage>,
    results: Seq<Result<(), RoutingError>>,
)
    requires
        results.len() == messages.len(),
        forall|i: int| 0 <= i < messages.len() ==> {
            &&& (routing_problem(#[trigger] messages[i]) matches Some(e) ==> results[i] == Err::<(), RoutingError>(e))
            &&& (routing_problem(messages[i]) is None ==> results[i] is Ok || results[i] matches Err(
                RoutingError::ChannelClosed,
            ))
        },
    ensures
        forall|j: int| 0 <= j < accepted_messages(messages, results).len() ==> routing_problem(
            #[trigger] accepted_messages(messages, results)[j],
        ) is None,
        (forall|i: int| 0 <= i < messages.len() ==> !(#[trigger] results[i] matches Err(RoutingError::ChannelClosed)))
            ==> accepted_messages(messages, results) == valid_messages(messages),
    decreases messages.len(),
{
    broadcast use vstd::seq_lib::group_seq_properties;

    if messages.len() > 0 {
        let ms = messages.drop_last();
        let rs = results.drop_last();
        assert forall|i: int| 0 <= i < ms.len() implies {
            &&& (routing_problem(#[trigger] ms[i]) matches Some(e) ==> rs[i] == Err::<(), RoutingError>(e))
            &&& (routing_problem(ms[i]) is None ==> rs[i] is Ok || rs[i] matches Err(RoutingError::ChannelClosed))
        } by {
            assert(ms[i] == messages[i]);
            assert(rs[i] == results[i]);
        }
        lemma_batch_hands_off_valid_messages(ms, rs);
        let last = messages.last();
        assert(routing_problem(messages[messages.len() - 1]) matches Some(e) ==> results[messages.len() - 1] == Err::<(), RoutingError>(e));
        let pre = accepted_messages(ms, rs);
        let acc = accepted_messages(messages, results);
        assert forall|j: int| 0 <= j < acc.len() implies routing_problem(#[trigger] acc[j]) is None by {
            if j < pre.len() {
                assert(acc[j] == pre[j]);
            } else {
                assert(acc[j] == last);
            }
        }
        if forall|i: int| 0 <= i < messages.len() ==> !(#[trigger] results[i] matches Err(RoutingError::ChannelClosed)) {
            assert forall|i: int| 0 <= i < ms.len() implies !(#[trigger] rs[i] matches Err(RoutingError::ChannelClosed)) by {
                assert(rs[i] == results[i]);
            }
            assert(messages =~= ms.push(last));
            let valid = |m: FipaMessage| routing_problem(m) is None;
            assert(valid_messages(messages) == ms.push(last).filter(valid));
            assert(ms.push(last).filter(valid) == if valid(last) { ms.filter(valid).push(last) } else { ms.filter(valid) }) by {
                ms.lemma_filter_push(last, valid);
            }
            assert(!(results[messages.len() - 1] matches Err(RoutingError::ChannelClosed)));
            if valid(last) {
                assert(acc =~= pre.push(last));
            } else {
                assert(acc =~= pre);
            }
        }
    } else {
        assert(valid_messages(messages) =~= Seq::<FipaMessage>::empty());
    }
}

impl OptimizedMessageRouter {
    /// The table of endpoints, by agent.
    pub closed spec fn table(self) -> IdTable<AgentEndpoint> {
        self.routing_table
    }

    /// The routing counters.
    pub closed spec fn counters(self) -> RouterMetrics {
        self.metrics
    }

    /// The settings.
    pub closed spec fn settings(self) -> RouterConfig {
        self.config
    }

    /// The messages handed to the batch channel so far, in order.
    pub closed spec fn handed_to_batch(self) -> Seq<FipaMessage> {
        self.handed@
    }

    /// The router with another record of the messages handed to the batch
    /// channel, and nothing else changed.
    pub closed spec fn with_handed(self, handed: Seq<FipaMessage>) -> Self {
        OptimizedMessageRouter { handed: Ghost(handed), ..self }
    }

    /// Well-formedness: the table has each key once, and each endpoint is
    /// filed under its own agent; spans fit a `Duration`.
    pub closed spec fn wf(self) -> bool {
        &&& self.routing_table.wf()
        &&& forall|k: u128| #[trigger]
            self.routing_table.map().contains_key(k) ==> self.routing_table.map()[k].agent_id.value
                == k
        &&& self.metrics.total_routing_time_nanos <= MAX_DURATION_NANOS
    }

    /// A router with an empty table that hands messages to `batch_sender`.
    pub fn new(config: RouterConfig, batch_sender: tokio::sync::mpsc::UnboundedSender<FipaMessage>) -> (r: Self)
        ensures
            r.wf(),
            r.table().map() == Map::<u128, AgentEndpoint>::empty(),
            r.counters().messages_routed == 0,
            r.counters().routing_errors == 0,
            r.counters().total_routing_time_nanos == 0,
            r.settings() == config,
            r.handed_to_batch() == Seq::<FipaMessage>::empty(),
    {
        OptimizedMessageRouter {
            routing_table: IdTable::new(),
            batch_sender,
            metrics: RouterMetrics { messages_routed: 0, routing_errors: 0, total_routing_time_nanos: 0 },
            config,
            handed: Ghost(Seq::empty()),
        }
    }

    /// Files an endpoint for an agent, seen at `now_ms`, replacing any
    /// endpoint it had.
    pub fn register_agent_at(
        &mut self,
        agent_id: AgentId,
        address: String,
        capabilities: Vec<String>,
        message_queue: tokio::sync::mpsc::UnboundedSender<FipaMessage>,
        now_ms: u64,
    )
        requires
            old(self).wf(),
        ensures
            final(self).wf(),
            final(self).table().map() == old(self).table().map().insert(
                agent_id.value,
                AgentEndpoint { agent_id, address, capabilities, last_seen_ms: now_ms, message_queue },
            ),
            final(self).counters() == old(self).counters(),
            final(self).settings() == old(self).settings(),
    {
        let endpoint = AgentEndpoint { agent_id, address, capabilities, last_seen_ms: now_ms, message_queue };
        self.routing_table.upsert(agent_id.value, endpoint);
    }

    /// Files an endpoint for an agent, seen now by the system clock.
    pub fn register_agent(
        &mut self,
        agent_id: AgentId,
        address: String,
        capabilities: Vec<String>,
        message_queue: tokio::sync::mpsc::UnboundedSender<FipaMessage>,
    )
        requires
            old(self).wf(),
        ensures
            final(self).wf(),
            final(self).table().map().dom() == old(self).table().map().dom().insert(agent_id.value),
            final(self).table().map()[agent_id.value].agent_id == agent_id,
            final(self).table().map()[agent_id.value].address == address,
            final(self).table().map()[agent_id.value].capabilities == capabilities,
            forall|k: u128|
                k != agent_id.value && #[trigger] old(self).table().map().contains_key(k)
                    ==> final(self).table().map()[k] == old(self).table().map()[k],
            final(self).counters() == old(self).counters(),
            final(self).settings() == old(self).settings(),
    {
        let now_ms = crate::time::clock_now_millis();
        self.register_agent_at(agent_id, address, capabilities, message_queue, now_ms);
    }

    /// Removes an agent's endpoint, if it has one.
    pub fn unregister_agent(&mut self, agent_id: AgentId)
        requires
            old(self).wf(),
        ensures
            final(self).wf(),
            final(self).table().map() == old(self).table().map().remove(agent_id.value),
            final(self).counters() == old(self).counters(),
            final(self).settings() == old(self).settings(),
    {
        let _ = self.routing_table.remove(agent_id.value);
    }

    /// Number of messages routed so far.
    pub fn messages_routed(&self) -> (n: u64)
        ensures
            n == self.counters().messages_routed,
    {
        self.metrics.messages_routed
    }

    /// Number of agents in the table.
    pub fn active_agents(&self) -> (n: usize)
        requires
            self.wf(),
        ensures
            n == self.table().map().dom().len(),
    {
        self.routing_table.len()
    }

    /// The agents that offer a capability, in table order.
    pub fn find_agents_by_capability(&self, capability: &str) -> (r: Vec<AgentId>)
        requires
            self.wf(),
        ensures
            r@ == agents_offering(self.table().entries(), capability@),
    {
        broadcast use vstd::seq_lib::group_seq_properties;

        let mut found: Vec<AgentId> = Vec::new();
        let n = self.routing_table.len();
        let ghost entries = self.routing_table.entries();
        let mut i: usize = 0;
        while i < n
            invariant
                n == entries.len(),
                entries == self.routing_table.entries(),
                i <= n,
                found@ == agents_offering(entries.take(i as int), capability@),
            decreases n - i,
        {
            let (_, endpoint) = self.routing_table.entry_at(i);
            let ghost e = entries[i as int];
            assert(entries.take(i + 1) =~= entries.take(i as int).push(e));
            proof {
                entries.take(i as int).lemma_filter_push(
                    e,
                    |x: (u128, AgentEndpoint)| offers(x.1, capability@),
                );
            }
            if holds_text(&endpoint.capabilities, capability) {
                found.push(endpoint.agent_id);
            }
            assert(found@ =~= agents_offering(entries.take(i + 1), capability@));
            i = i + 1;
        }
        assert(entries.take(n as int) =~= entries);
        found
    }

    /// Hands a message that passes validation to the batch processor,
    /// counting it and the time taken as routed. A refused message comes
    /// back as its error, and a closed channel as `ChannelClosed`; neither
    /// is counted.
    pub fn route_message(&mut self, message: FipaMessage) -> (r: Result<(), RoutingError>)
        requires
            old(self).wf(),
            old(self).counters().messages_routed < u64::MAX,
        ensures
            final(self).wf(),
            final(self).table() == old(self).table(),
            final(self).settings() == old(self).settings(),
            final(self).counters().routing_errors == old(self).counters().routing_errors,
            routing_problem(message) matches Some(e) ==> r == Err::<(), RoutingError>(e),
            routing_problem(message) is None ==> r is Ok || r matches Err(RoutingError::ChannelClosed),
            r is Ok ==> final(self).counters().messages_routed == old(self).counters().messages_routed + 1
                && final(self).counters().total_routing_time_nanos
                >= old(self).counters().total_routing_time_nanos,
            r is Err ==> final(self).counters() == old(self).counters(),
            final(self).handed_to_batch() == if r is Ok {
                old(self).handed_to_batch().push(message)
            } else {
                old(self).handed_to_batch()
            },
    {
        let start = instant_now();
        match validate_message(&message) {
            Err(e) => return Err(e),
            Ok(()) => {},
        }
        let ghost m = message;
        if !send_unbounded(&self.batch_sender, message) {
            return Err(RoutingError::ChannelClosed);
        }
        self.handed = Ghost(self.handed@.push(m));
        let elapsed = elapsed_nanos(&start);
        self.metrics.messages_routed = self.metrics.messages_routed + 1;
        self.metrics.total_routing_time_nanos = add_span_exec(
            self.metrics.total_routing_time_nanos,
            elapsed,
        );
        Ok(())
    }

    /// Routes each message of a batch as `route_message` does, without
    /// counting them, and gives each message's outcome in order.
    pub fn route_messages_batch(&mut self, messages: Vec<FipaMessage>) -> (r: Result<
        Vec<Result<(), RoutingError>>,
        RoutingError,
    >)
        requires
            old(self).wf(),
        ensures
            r matches Ok(results) && *final(self) == old(self).with_handed(
                old(self).handed_to_batch() + accepted_messages(messages@, results@),
            ),
            r matches Ok(results) && results@.len() == messages@.len() && forall|i: int|
                0 <= i < messages@.len() ==> {
                    &&& (routing_problem(#[trigger] messages@[i]) matches Some(e) ==> results@[i] == Err::<
                        (),
                        RoutingError,
                    >(e))
                    &&& (routing_problem(messages@[i]) is None ==> results@[i] is Ok
                        || results@[i] matches Err(RoutingError::ChannelClosed))
                },
    {
        let ghost orig = messages@;
        let mut results: Vec<Result<(), RoutingError>> = Vec::new();
        let mut rest = messages;
        let mut pending: Vec<FipaMessage> = Vec::new();
        while rest.len() > 0
            invariant
                rest@.len() + pending@.len() == orig.len(),
                forall|i: int| 0 <= i < pending@.len() ==> pending@[i] == orig[orig.len() - 1 - i],
                forall|i: int| 0 <= i < rest@.len() ==> rest@[i] == orig[i],
            decreases rest@.len(),
        {
            let m = rest.pop().unwrap();
            pending.push(m);
        }
        let n = pending.len();
        while pending.len() > 0
            invariant
                n == orig.len(),
                results@.len() + pending@.len() == n,
                forall|i: int| 0 <= i < pending@.len() ==> pending@[i] == orig[n - 1 - i],
                *self == old(self).with_handed(
                    old(self).handed_to_batch() + accepted_messages(orig.take(results@.len() as int), results@),
                ),
                forall|i: int|
                    0 <= i < results@.len() ==> {
                        &&& (routing_problem(#[trigger] orig[i]) matches Some(e) ==> results@[i] == Err::<
                            (),
                            RoutingError,
                        >(e))
                        &&& (routing_problem(orig[i]) is None ==> results@[i] is Ok
                            || results@[i] matches Err(RoutingError::ChannelClosed))
                    },
            decreases pending@.len(),
        {
            let m = pending.pop().unwrap();
            let ghost mv = m;
            let ghost k = results@.len() as int;
            let ghost before = results@;
            let ghost prev_self = *self;
            let outcome = match validate_message(&m) {
                Err(e) => Err(e),
                Ok(()) => if send_unbounded(&self.batch_sender, m) {
                    self.handed = Ghost(self.handed@.push(mv));
                    Ok(())
                } else {
                    Err(RoutingError::ChannelClosed)
                },
            };
            results.push(outcome);
            proof {
                assert(orig.take(k + 1).drop_last() =~= orig.take(k));
                assert(results@.drop_last() =~= before);
                assert(orig.take(k + 1).last() == mv);
                let h0 = old(self).handed_to_batch();
                let a0 = accepted_messages(orig.take(k), before);
                let a1 = accepted_messages(orig.take(k + 1), results@);
                assert(prev_self == old(self).with_handed(h0 + a0));
                if outcome is Ok {
                    assert(a1 =~= a0 + seq![mv]);
                    assert(h0 + a1 =~= (h0 + a0).push(mv));
                    assert(*self == old(self).with_handed(h0 + a1));
                } else {
                    assert(a1 =~= a0);
                    assert(*self == prev_self);
                }
            }
        }
        proof {
            assert(orig.take(n as int) =~= orig);
        }
        Ok(results)
    }

    /// Removes the agents not seen within the agent timeout before `now_ms`
    /// and gives how many were removed; the others keep their order.
    pub fn cleanup_timed_out_agents(&mut self, now_ms: u64) -> (removed: usize)
        requires
            old(self).wf(),
        ensures
            final(self).wf(),
            final(self).table().entries() == old(self).table().entries().filter(
                |e: (u128, AgentEndpoint)|
                    is_fresh(e.1.last_seen_ms, now_ms, old(self).settings().agent_timeout_ms),
            ),
            removed + final(self).table().entries().len() == old(self).table().entries().len(),
            final(self).counters() == old(self).counters(),
            final(self).settings() == old(self).settings(),
    {
        broadcast use vstd::seq_lib::group_seq_properties;

        let timeout = self.config.agent_timeout_ms;
        let ghost fresh = |e: (u128, AgentEndpoint)| is_fresh(e.1.last_seen_ms, now_ms, timeout);
        let ghost e0 = self.routing_table.entries();
        let ghost mut j: int = 0;
        let n0 = self.routing_table.len();
        let mut removed: usize = 0;
        let mut i: usize = 0;
        assert(e0.take(0).filter(fresh) =~= Seq::<(u128, AgentEndpoint)>::empty());
        assert(e0.skip(0) =~= e0);
        while i < self.routing_table.len()
            invariant
                self.wf(),
                self.config == old(self).config,
                self.metrics == old(self).metrics,
                timeout == self.config.agent_timeout_ms,
                fresh == (|e: (u128, AgentEndpoint)| is_fresh(e.1.last_seen_ms, now_ms, timeout)),
                e0 == old(self).routing_table.entries(),
                e0.len() == n0,
                0 <= j <= e0.len(),
                self.routing_table.entries() == e0.take(j).filter(fresh) + e0.skip(j),
                i == e0.take(j).filter(fresh).len(),
                removed + self.routing_table.entries().len() == e0.len(),
            decreases self.routing_table.entries().len() - i,
        {
            let ghost cur = self.routing_table.entries();
            let ghost kept = e0.take(j).filter(fresh);
            assert(cur[i as int] == e0[j]);
            let (_, endpoint) = self.routing_table.entry_at(i);
            let last_seen = endpoint.last_seen_ms;
            let elapsed: u64 = if now_ms >= last_seen {
                now_ms - last_seen
            } else {
                0
            };
            assert(e0.take(j + 1) =~= e0.take(j).push(e0[j]));
            proof {
                e0.take(j).lemma_filter_push(e0[j], fresh);
            }
            if elapsed >= timeout {
                let ghost m0 = self.routing_table.map();
                let _ = self.routing_table.remove_at(i);
                removed = removed + 1;
                proof {
                    assert(self.routing_table.entries() =~= kept + e0.skip(j + 1));
                    assert forall|k: u128| #[trigger]
                        self.routing_table.map().contains_key(k) implies self.routing_table.map()[k].agent_id.value
                        == k by {
                        assert(m0.contains_key(k));
                    }
                    j = j + 1;
                }
            } else {
                i = i + 1;
                proof {
                    assert(self.routing_table.entries() =~= e0.take(j + 1).filter(fresh) + e0.skip(j + 1));
                    j = j + 1;
                }
            }
        }
        proof {
            assert(e0.skip(j).len() == 0);
            assert(j == e0.len());
            assert(e0.take(j) =~= e0);
            assert(self.routing_table.entries() =~= e0.filter(fresh));
        }
        removed
    }

    /// The performance statistics, with those of the batch processor.
    pub fn get_performance_stats(&self, batch_stats: BatchProcessorStats) -> (s: RouterPerformanceStats)
        requires
            self.wf(),
            divides_span(self.counters().messages_routed),
        ensures
            s.active_agents == self.table().map().dom().len(),
            s.messages_routed == self.counters().messages_routed,
            s.routing_errors == self.counters().routing_errors,
            s.average_routing_latency_nanos == span_per(
                self.counters().total_routing_time_nanos,
                self.counters().messages_routed,
            ),
            s.batch_processing_stats == batch_stats,
    {
        let average = if self.metrics.messages_routed == 0 {
            0
        } else {
            let d: u32 = self.metrics.messages_routed as u32;
            self.metrics.total_routing_time_nanos / (d as u128)
        };
        RouterPerformanceStats {
            active_agents: self.routing_table.len(),
            messages_routed: self.metrics.messages_routed,
            routing_errors: self.metrics.routing_errors,
            average_routing_latency_nanos: average,
            batch_processing_stats: batch_stats,
        }
    }
}

/// Whether the counters can take one more batch of `n` messages.
pub open spec fn can_record_batch(stats: BatchProcessorStats, n: int) -> bool {
    stats.batches_processed < u64::MAX && stats.total_messages_processed + n <= u64::MAX
        && stats.total_processing_time_nanos <= MAX_DURATION_NANOS
}

/// The counters after a batch of `n` messages, with the time it took left
/// open: it only grows.
pub open spec fn recorded_batch(before: BatchProcessorStats, after: BatchProcessorStats, n: int) -> bool {
    &&& after.batches_processed == before.batches_processed + 1
    &&& after.total_messages_processed == before.total_messages_processed + n
    &&& before.total_processing_time_nanos <= after.total_processing_time_nanos <= MAX_DURATION_NANOS
}

/// Gathers routed messages into batches and hands each batch on in
/// priority order, once it is full or when flushed.
pub struct MessageBatchProcessor {
    batch: Vec<FipaMessage>,
    max_batch_size: usize,
    stats: BatchProcessorStats,
}

impl MessageBatchProcessor {
    /// The messages gathered so far, in arrival order.
    pub closed spec fn pending(self) -> Seq<FipaMessage> {
        self.batch@
    }

    /// The number of messages that makes a batch full.
    pub closed spec fn batch_size(self) -> usize {
        self.max_batch_size
    }

    /// The statistics of the batches processed.
    pub closed spec fn statistics(self) -> BatchProcessorStats {
        self.stats
    }

    /// An empty processor whose batches are full at `max_batch_size`.
    pub fn new(max_batch_size: usize) -> (p: Self)
        ensures
            p.pending() == Seq::<FipaMessage>::empty(),
            p.batch_size() == max_batch_size,
            p.statistics().batches_processed == 0,
            p.statistics().total_messages_processed == 0,
            p.statistics().total_processing_time_nanos == 0,
    {
        MessageBatchProcessor { batch: Vec::new(), max_batch_size, stats: BatchProcessorStats::default() }
    }

    /// Processes the gathered messages: hands them back in priority order
    /// and counts the batch and the time it took.
    fn process(&mut self) -> (r: Vec<FipaMessage>)
        requires
            can_record_batch(old(self).stats, old(self).batch@.len() as int),
        ensures
            r@ == priority_order(old(self).batch@),
            final(self).batch@ == Seq::<FipaMessage>::empty(),
            final(self).max_batch_size == old(self).max_batch_size,
            recorded_batch(old(self).stats, final(self).stats, old(self).batch@.len() as int),
    {
        let start = instant_now();
        let mut taken: Vec<FipaMessage> = Vec::new();
        std::mem::swap(&mut taken, &mut self.batch);
        let size = taken.len();
        let ordered = order_by_priority(taken);
        let elapsed = elapsed_nanos(&start);
        self.stats.batches_processed = self.stats.batches_processed + 1;
        self.stats.total_messages_processed = self.stats.total_messages_processed + size as u64;
        self.stats.total_processing_time_nanos = add_span_exec(
            self.stats.total_processing_time_nanos,
            elapsed,
        );
        ordered
    }

    /// Adds a message; once the batch is full it is processed and handed
    /// back in priority order.
    pub fn receive(&mut self, message: FipaMessage) -> (r: Option<Vec<FipaMessage>>)
        requires
            can_record_batch(old(self).statistics(), old(self).pending().len() + 1 as int),
        ensures
            final(self).batch_size() == old(self).batch_size(),
            old(self).pending().len() + 1 >= old(self).batch_size() ==> {
                &&& r matches Some(b) && b@ == priority_order(old(self).pending().push(message))
                &&& final(self).pending() == Seq::<FipaMessage>::empty()
                &&& recorded_batch(
                    old(self).statistics(),
                    final(self).statistics(),
                    old(self).pending().len() + 1 as int,
                )
            },
            old(self).pending().len() + 1 < old(self).batch_size() ==> {
                &&& r is None
                &&& final(self).pending() == old(self).pending().push(message)
                &&& final(self).statistics() == old(self).statistics()
            },
    {
        self.batch.push(message);
        if self.batch.len() >= self.max_batch_size {
            Some(self.process())
        } else {
            None
        }
    }

    /// Processes a partial batch: hands back the gathered messages in
    /// priority order, or nothing where none are gathered.
    pub fn flush(&mut self) -> (r: Option<Vec<FipaMessage>>)
        requires
            can_record_batch(old(self).statistics(), old(self).pending().len() as int),
        ensures
            final(self).batch_size() == old(self).batch_size(),
            old(self).pending().len() == 0 ==> r is None && *final(self) == *old(self),
            old(self).pending().len() > 0 ==> {
                &&& r matches Some(b) && b@ == priority_order(old(self).pending())
                &&& final(self).pending() == Seq::<FipaMessage>::empty()
                &&& recorded_batch(old(self).statistics(), final(self).statistics(), old(self).pending().len() as int)
            },
    {
        if self.batch.len() == 0 {
            None
        } else {
            Some(self.process())
        }
    }

    /// Whether the counters can take the batch that one more message may
    /// complete.
    pub fn can_receive(&self) -> (b: bool)
        ensures
            b == can_record_batch(self.statistics(), self.pending().len() + 1 as int),
    {
        self.stats.batches_processed < u64::MAX && self.stats.total_processing_time_nanos
            <= MAX_DURATION_NANOS && (self.batch.len() as u64) < u64::MAX
            && self.stats.total_messages_processed <= u64::MAX - (self.batch.len() as u64 + 1)
    }

    /// Whether the counters can take the batch gathered so far.
    pub fn can_flush(&self) -> (b: bool)
        ensures
            b == can_record_batch(self.statistics(), self.pending().len() as int),
    {
        self.stats.batches_processed < u64::MAX && self.stats.total_processing_time_nanos
            <= MAX_DURATION_NANOS && self.stats.total_messages_processed <= u64::MAX - (self.batch.len() as u64)
    }

    /// The statistics of the batches processed.
    pub fn get_stats(&self) -> (s: BatchProcessorStats)
        ensures
            s == self.statistics(),
    {
        self.stats
    }
}

} // verus!
