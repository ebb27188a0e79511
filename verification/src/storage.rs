//! The storage layer's own logic: the SQL statements, the mapping of domain
//! values to and from database columns, the text form of performatives and
//! message content, and a mock agent store for tests.

use vstd::prelude::*;
use vstd::utf8::{decode_utf8, encode_utf8, valid_utf8};
use vstd::string::StringSliceAdditionalSpecFns;
use crate::base::MessageCount;
use crate::config::u128_text;
use crate::errors::RouterError;
use crate::ids::{hyphenated_text, parse_uuid, uuid_parse_result, AgentId, ConversationId, MessageId};
use crate::message_router::domain_types::{
    dedup_agents, first_occurrences, Conversation, DeliveryOptions, FipaMessage, MessageContent,
    MessageParticipants, Performative,
};
use crate::errors::{is_validation_error, ConversationError};
use crate::text::{decimal_text, AgentName, LengthViolation};
use crate::time::{clock_now_millis, ConversationCreatedAt, MessageTimestamp};

verus! {

broadcast use vstd::string::group_string_axioms;

/// Errors of the storage layer.
#[derive(Debug)]
pub enum StorageError {
    /// The database refused an operation or holds a bad value.
    Database { message: String },
}

/// SQL that creates the agents table.
pub fn create_agents_table() -> (s: &'static str)
    ensures
        s@ == "CREATE TABLE IF NOT EXISTS agents (id TEXT PRIMARY KEY, name TEXT NOT NULL)"@,
{
    "CREATE TABLE IF NOT EXISTS agents (id TEXT PRIMARY KEY, name TEXT NOT NULL)"
}

/// SQL that inserts or replaces an agent.
pub fn upsert_agent() -> (s: &'static str)
    ensures
        s@ == "INSERT OR REPLACE INTO agents (id, name) VALUES (?, ?)"@,
{
    "INSERT OR REPLACE INTO agents (id, name) VALUES (?, ?)"
}

/// SQL that selects an agent by identifier.
pub fn select_agent_by_id() -> (s: &'static str)
    ensures
        s@ == "SELECT id, name FROM agents WHERE id = ?"@,
{
    "SELECT id, name FROM agents WHERE id = ?"
}

/// SQL that creates the conversations table.
pub fn create_conversations_table() -> (s: &'static str)
    ensures
        s@ == "CREATE TABLE IF NOT EXISTS conversations (id TEXT PRIMARY KEY, created_at INTEGER NOT NULL, last_activity INTEGER NOT NULL, message_count INTEGER NOT NULL)"@,
{
    "CREATE TABLE IF NOT EXISTS conversations (id TEXT PRIMARY KEY, created_at INTEGER NOT NULL, last_activity INTEGER NOT NULL, message_count INTEGER NOT NULL)"
}

/// SQL that creates the conversation participants table.
pub fn create_conversation_participants_table() -> (s: &'static str)
    ensures
        s@ == "CREATE TABLE IF NOT EXISTS conversation_participants (conversation_id TEXT NOT NULL, agent_id TEXT NOT NULL, PRIMARY KEY (conversation_id, agent_id), FOREIGN KEY (conversation_id) REFERENCES conversations(id))"@,
{
    "CREATE TABLE IF NOT EXISTS conversation_participants (conversation_id TEXT NOT NULL, agent_id TEXT NOT NULL, PRIMARY KEY (conversation_id, agent_id), FOREIGN KEY (conversation_id) REFERENCES conversations(id))"
}

/// SQL that inserts or replaces a conversation.
pub fn upsert_conversation() -> (s: &'static str)
    ensures
        s@ == "INSERT OR REPLACE INTO conversations (id, created_at, last_activity, message_count) VALUES (?, ?, ?, ?)"@,
{
    "INSERT OR REPLACE INTO conversations (id, created_at, last_activity, message_count) VALUES (?, ?, ?, ?)"
}

/// SQL that adds a participant to a conversation unless it is there.
pub fn insert_conversation_participant() -> (s: &'static str)
    ensures
        s@ == "INSERT OR IGNORE INTO conversation_participants (conversation_id, agent_id) VALUES (?, ?)"@,
{
    "INSERT OR IGNORE INTO conversation_participants (conversation_id, agent_id) VALUES (?, ?)"
}

/// SQL that selects a conversation by identifier.
pub fn select_conversation_by_id() -> (s: &'static str)
    ensures
        s@ == "SELECT id, created_at, last_activity, message_count FROM conversations WHERE id = ?"@,
{
    "SELECT id, created_at, last_activity, message_count FROM conversations WHERE id = ?"
}

/// SQL that selects the participants of a conversation.
pub fn select_conversation_participants() -> (s: &'static str)
    ensures
        s@ == "SELECT agent_id FROM conversation_participants WHERE conversation_id = ?"@,
{
    "SELECT agent_id FROM conversation_participants WHERE conversation_id = ?"
}

/// SQL that deletes the participants of a conversation.
pub fn delete_conversation_participants() -> (s: &'static str)
    ensures
        s@ == "DELETE FROM conversation_participants WHERE conversation_id = ?"@,
{
    "DELETE FROM conversation_participants WHERE conversation_id = ?"
}

/// The text of an agent name, for its column.
pub fn agent_name_to_string(name: &AgentName) -> (s: String)
    ensures
        s@ == name@,
{
    name.as_str().to_string()
}

/// An agent name read from its column; refused where it is empty or longer
/// than 255 characters.
pub fn parse_agent_name(name_str: &str) -> (r: Result<AgentName, StorageError>)
    ensures
        r is Ok <==> AgentName::accepts(name_str@),
        r matches Ok(n) ==> n@ == AgentName::sanitized(name_str@),
        AgentName::sanitized(name_str@).len() < 1 ==> (r matches Err(StorageError::Database { message })
            && message@ == "Invalid agent name: AgentName is too short"@),
        AgentName::sanitized(name_str@).len() > 255 ==> (r matches Err(StorageError::Database { message })
            && message@ == "Invalid agent name: AgentName is too long"@),
{
    match AgentName::try_new(name_str.to_string()) {
        Ok(n) => Ok(n),
        Err(LengthViolation::LenCharMinViolated) => Err(
            StorageError::Database {
                message: String::from_str("Invalid agent name: AgentName is too short"),
            },
        ),
        Err(LengthViolation::LenCharMaxViolated) => Err(
            StorageError::Database {
                message: String::from_str("Invalid agent name: AgentName is too long"),
            },
        ),
    }
}

/// Seconds since the Unix epoch of a creation time, for its column.
pub fn created_at_to_timestamp(created_at: ConversationCreatedAt) -> (t: i64)
    ensures
        t == created_at.millis / 1000,
{
    (created_at.millis / 1000) as i64
}

/// Seconds since the Unix epoch of a message time, for its column.
pub fn message_timestamp_to_timestamp(timestamp: MessageTimestamp) -> (t: i64)
    ensures
        t == timestamp.millis / 1000,
{
    (timestamp.millis / 1000) as i64
}

/// A message count for its column, staying at `i64::MAX`.
pub fn message_count_to_i64(count: MessageCount) -> (n: i64)
    ensures
        n == if count.count > i64::MAX { i64::MAX as int } else { count.count as int },
{
    if count.count as u128 > 9_223_372_036_854_775_807u128 {
        9_223_372_036_854_775_807i64
    } else {
        count.count as i64
    }
}

/// Milliseconds of a column's seconds: negative seconds read as zero, and
/// the result stays at `u64::MAX`.
pub open spec fn column_millis(seconds: i64) -> u64 {
    if seconds < 0 {
        0
    } else if seconds * 1000 > u64::MAX {
        u64::MAX
    } else {
        (seconds * 1000) as u64
    }
}

fn millis_of_seconds(seconds: i64) -> (ms: u64)
    ensures
        ms == column_millis(seconds),
{
    if seconds < 0 {
        0
    } else if seconds as u64 > 18_446_744_073_709_551u64 {
        18_446_744_073_709_551_615u64
    } else {
        (seconds as u64) * 1000
    }
}

/// A creation time read from its column of seconds.
pub fn parse_created_at(timestamp: i64) -> (c: ConversationCreatedAt)
    ensures
        c.millis == column_millis(timestamp),
{
    ConversationCreatedAt::new(millis_of_seconds(timestamp))
}

/// A message time read from its column of seconds.
pub fn parse_message_timestamp(timestamp: i64) -> (m: MessageTimestamp)
    ensures
        m.millis == column_millis(timestamp),
{
    MessageTimestamp::new(millis_of_seconds(timestamp))
}

/// A message count read from its column; a negative count, or one too
/// large for the machine, reads as zero.
pub fn parse_message_count(count: i64) -> (c: MessageCount)
    ensures
        c.count == if count < 0 || count > usize::MAX { 0 } else { count as int },
{
    if count < 0 {
        MessageCount::new(0)
    } else if count as u128 > usize::MAX as u128 {
        MessageCount::new(0)
    } else {
        MessageCount::new(count as usize)
    }
}

/// The name of a performative, as it is stored.
pub open spec fn performative_name(p: Performative) -> Seq<char> {
    match p {
        Performative::Request => "Request"@,
        Performative::Inform => "Inform"@,
        Performative::Agree => "Agree"@,
        Performative::Refuse => "Refuse"@,
        Performative::NotUnderstood => "NotUnderstood"@,
        Performative::Failure => "Failure"@,
        Performative::QueryIf => "QueryIf"@,
        Performative::QueryRef => "QueryRef"@,
        Performative::Propose => "Propose"@,
        Performative::AcceptProposal => "AcceptProposal"@,
        Performative::RejectProposal => "RejectProposal"@,
        Performative::Heartbeat => "Heartbeat"@,
        Performative::Capability => "Capability"@,
    }
}

/// The name of a performative, as it is stored.
pub fn performative_to_str(performative: Performative) -> (s: &'static str)
    ensures
        s@ == performative_name(performative),
{
    match performative {
        Performative::Request => "Request",
        Performative::Inform => "Inform",
        Performative::Agree => "Agree",
        Performative::Refuse => "Refuse",
        Performative::NotUnderstood => "NotUnderstood",
        Performative::Failure => "Failure",
        Performative::QueryIf => "QueryIf",
        Performative::QueryRef => "QueryRef",
        Performative::Propose => "Propose",
        Performative::AcceptProposal => "AcceptProposal",
        Performative::RejectProposal => "RejectProposal",
        Performative::Heartbeat => "Heartbeat",
        Performative::Capability => "Capability",
    }
}

/// The list of the stored names of the performatives, in the order they
/// are tried.
pub open spec fn performative_order() -> Seq<Performative> {
    seq![
        Performative::Inform,
        Performative::Request,
        Performative::Agree,
        Performative::Refuse,
        Performative::NotUnderstood,
        Performative::Failure,
        Performative::QueryIf,
        Performative::QueryRef,
        Performative::Propose,
        Performative::AcceptProposal,
        Performative::RejectProposal,
        Performative::Heartbeat,
        Performative::Capability,
    ]
}

/// The performatives have different stored names.
proof fn lemma_performative_names_distinct(p: Performative, q: Performative)
    requires
        p != q,
    ensures
        performative_name(p) != performative_name(q),
{
    reveal_strlit("Request");
    reveal_strlit("Inform");
    reveal_strlit("Agree");
    reveal_strlit("Refuse");
    reveal_strlit("NotUnderstood");
    reveal_strlit("Failure");
    reveal_strlit("QueryIf");
    reveal_strlit("QueryRef");
    reveal_strlit("Propose");
    reveal_strlit("AcceptProposal");
    reveal_strlit("RejectProposal");
    reveal_strlit("Heartbeat");
    reveal_strlit("Capability");
    let a = performative_name(p);
    let b = performative_name(q);
    if a.len() == b.len() {
        assert(a[0] != b[0] || a[1] != b[1] || a[a.len() - 1] != b[b.len() - 1] || a[5] != b[5]);
    }
}

/// The message for a stored performative name that is unknown.
pub open spec fn unknown_performative_message(text: Seq<char>) -> Seq<char> {
    "Unknown performative '"@ + text
        + "'. Valid values: Inform, Request, Agree, Refuse, NotUnderstood, Failure, QueryIf, QueryRef, Propose, AcceptProposal, RejectProposal, Heartbeat, Capability"@
}

/// A performative read from its stored name; an unknown name is refused.
pub fn parse_performative(performative_str: &str) -> (r: Result<Performative, RouterError>)
    ensures
        (exists|p: Performative| performative_name(p) == performative_str@) ==> (r matches Ok(p)
            && performative_name(p) == performative_str@),
        !(exists|p: Performative| performative_name(p) == performative_str@) ==> (r matches Err(
            RouterError::StorageError { cause },
        ) && cause@ == unknown_performative_message(performative_str@)),
{
    let order: [Performative; 13] = [
        Performative::Inform,
        Performative::Request,
        Performative::Agree,
        Performative::Refuse,
        Performative::NotUnderstood,
        Performative::Failure,
        Performative::QueryIf,
        Performative::QueryRef,
        Performative::Propose,
        Performative::AcceptProposal,
        Performative::RejectProposal,
        Performative::Heartbeat,
        Performative::Capability,
    ];
    for i in 0..13
        invariant
            order@ == performative_order(),
            forall|j: int| 0 <= j < i ==> performative_name(#[trigger] order@[j]) != performative_str@,
    {
        let p = order[i];
        if crate::sandbox::same_text(performative_to_str(p), performative_str) {
            return Ok(p);
        }
    }
    proof {
        if exists|p: Performative| performative_name(p) == performative_str@ {
            let p = choose|p: Performative| performative_name(p) == performative_str@;
            let k: int = match p {
                Performative::Inform => 0,
                Performative::Request => 1,
                Performative::Agree => 2,
                Performative::Refuse => 3,
                Performative::NotUnderstood => 4,
                Performative::Failure => 5,
                Performative::QueryIf => 6,
                Performative::QueryRef => 7,
                Performative::Propose => 8,
                Performative::AcceptProposal => 9,
                Performative::RejectProposal => 10,
                Performative::Heartbeat => 11,
                Performative::Capability => 12,
            };
            assert(order@[k] == p);
            assert(performative_name(order@[k]) != performative_str@);
        }
    }
    Err(
        RouterError::StorageError {
            cause: String::from_str("Unknown performative '").concat(performative_str).concat(
                "'. Valid values: Inform, Request, Agree, Refuse, NotUnderstood, Failure, QueryIf, QueryRef, Propose, AcceptProposal, RejectProposal, Heartbeat, Capability",
            ),
        },
    )
}

/// A performative's stored name reads back as the same performative.
pub proof fn lemma_performative_round_trip(p: Performative)
    ensures
        forall|q: Performative| performative_name(q) == performative_name(p) ==> q == p,
{
    assert forall|q: Performative| performative_name(q) == performative_name(p) implies q == p by {
        if q != p {
            lemma_performative_names_distinct(q, p);
        }
    }
}

/// What `String::from_utf8_lossy` makes of a byte string: its UTF-8
/// decoding, with each invalid sequence replaced by U+FFFD.
pub uninterp spec fn utf8_lossy(bytes: Seq<u8>) -> Seq<char>;

/// Calls `String::from_utf8_lossy`. Its documentation promises the decoded
/// text for valid UTF-8; for other bytes which text it gives is left to the
/// name `utf8_lossy`.
#[verifier::external_body]
pub(crate) fn lossy_text(bytes: &[u8]) -> (s: String)
    ensures
        s@ == utf8_lossy(bytes@),
        valid_utf8(bytes@) ==> s@ == decode_utf8(bytes@),
{
    String::from_utf8_lossy(bytes).into_owned()
}

/// The text of stored content: the decoded text of valid UTF-8, else the
/// lossy decoding.
pub open spec fn content_text(bytes: Seq<u8>) -> Seq<char> {
    if valid_utf8(bytes) {
        decode_utf8(bytes)
    } else {
        utf8_lossy(bytes)
    }
}

/// The length-prefixed form of message content: the number of bytes in
/// decimal, `::`, then the content as text.
pub open spec fn length_prefixed(bytes: Seq<u8>) -> Seq<char> {
    decimal_text(bytes.len()) + "::"@ + content_text(bytes)
}

/// Writes message content in length-prefixed form.
pub fn serialize_message_content(content_bytes: &[u8]) -> (s: String)
    ensures
        s@ == length_prefixed(content_bytes@),
{
    let len = content_bytes.len();
    u128_text(len as u128).concat("::").concat(lossy_text(content_bytes).as_str())
}

/// The byte of `:`.
pub const COLON_BYTE: u8 = 58;

/// The bytes after the first `::`, where the bytes hold one.
pub open spec fn after_separator(b: Seq<u8>) -> Option<Seq<u8>>
    decreases b.len(),
{
    if b.len() < 2 {
        None
    } else if b[0] == COLON_BYTE && b[1] == COLON_BYTE {
        Some(b.skip(2))
    } else {
        after_separator(b.drop_first())
    }
}

/// The message for stored content without a `::` separator.
pub open spec fn bad_content_message(content: Seq<char>, message_id: Seq<char>) -> Seq<char> {
    "Invalid length-prefixed content format for message '"@ + message_id
        + "': expected 'length::content', got '"@ + content + "'"@
}

/// Reads stored content in length-prefixed form: the bytes after the first
/// `::` (the length before it is not checked).
pub fn parse_message_content(content_string: &str, message_id: &str) -> (r: Result<Vec<u8>, RouterError>)
    ensures
        match after_separator(content_string.spec_bytes()) {
            Some(rest) => r matches Ok(b) && b@ == rest,
            None => r matches Err(RouterError::StorageError { cause }) && cause@ == bad_content_message(
                content_string@,
                message_id@,
            ),
        },
{
    let bytes = content_string.as_bytes();
    let ghost all = content_string.spec_bytes();
    let n = bytes.len();
    let mut i: usize = 0;
    assert(all.skip(0) =~= all);
    while n - i > 1
        invariant
            all == content_string.spec_bytes(),
            bytes@ == all,
            n == all.len(),
            i <= n,
            after_separator(all) == after_separator(all.skip(i as int)),
        decreases n - i,
    {
        if bytes[i] == COLON_BYTE && bytes[i + 1] == COLON_BYTE {
            let mut rest: Vec<u8> = Vec::new();
            let mut k: usize = i + 2;
            while k < n
                invariant
                    all == content_string.spec_bytes(),
                    bytes@ == all,
                    n == all.len(),
                    i + 2 <= k <= n,
                    n - i > 1,
                    all[i as int] == COLON_BYTE,
                    all[i + 1] == COLON_BYTE,
                    after_separator(all) == after_separator(all.skip(i as int)),
                    rest@ == all.subrange(i + 2, k as int),
                decreases n - k,
            {
                rest.push(bytes[k]);
                assert(rest@ =~= all.subrange(i + 2, k + 1));
                k = k + 1;
            }
            assert(all.skip(i as int)[0] == all[i as int]);
            assert(all.skip(i as int)[1] == all[i + 1]);
            assert(all.skip(i as int).skip(2) =~= all.subrange(i + 2, n as int));
            assert(after_separator(all.skip(i as int)) == Some(all.skip(i as int).skip(2)));
            assert(rest@ == all.subrange(i + 2, n as int));
            return Ok(rest);
        }
        assert(all.skip(i as int).drop_first() =~= all.skip(i + 1));
        i = i + 1;
    }
    assert(all.skip(i as int).len() < 2);
    let cause = String::from_str("Invalid length-prefixed content format for message '").concat(message_id).concat(
        "': expected 'length::content', got '",
    ).concat(content_string).concat("'");
    Err(RouterError::StorageError { cause })
}

/// The start of the error text for a stored identifier that is no UUID;
/// the uuid crate's own description of the fault follows it.
pub open spec fn bad_uuid_prefix(label: Seq<char>, text: Seq<char>) -> Seq<char> {
    "Invalid "@ + label + " UUID '"@ + text + "': "@
}

/// Reads an identifier column through `uuid::Uuid::parse_str`.
fn parse_column_uuid(label: &str, text: &str) -> (r: Result<u128, RouterError>)
    ensures
        match uuid_parse_result(text@) {
            Some(v) => r == Ok::<u128, RouterError>(v),
            None => r matches Err(RouterError::StorageError { cause }) && bad_uuid_prefix(label@, text@).is_prefix_of(
                cause@,
            ),
        },
{
    match parse_uuid(text) {
        Ok(v) => Ok(v),
        Err(e) => {
            let prefix = String::from_str("Invalid ").concat(label).concat(" UUID '").concat(text).concat("': ");
            let cause = prefix.concat(e.as_str());
            assert(cause@.subrange(0, prefix@.len() as int) =~= prefix@);
            Err(RouterError::StorageError { cause })
        },
    }
}

/// The error text for stored content that makes no valid message content.
pub open spec fn bad_message_content_message(message_id: Seq<char>) -> Seq<char> {
    "Invalid message content for message '"@ + message_id + "': MessageContent failed the predicate test."@
}

/// The UUID of an optional conversation column, where it has one and it
/// reads.
pub open spec fn conversation_column_ok(conversation_id: Option<Seq<char>>) -> bool {
    match conversation_id {
        Some(c) => uuid_parse_result(c) is Some,
        None => true,
    }
}

/// The conversation of an optional column that reads.
pub open spec fn conversation_column_value(conversation_id: Option<Seq<char>>) -> Option<ConversationId> {
    match conversation_id {
        Some(c) => Some(ConversationId { value: uuid_parse_result(c)->0 }),
        None => None,
    }
}

/// The text of an optional column.
pub open spec fn optional_text(t: Option<&str>) -> Option<Seq<char>> {
    match t {
        Some(c) => Some(c@),
        None => None,
    }
}

/// A stored message rebuilt from its columns. The columns are read in this
/// order, and the first that fails decides the error: the message, sender
/// and receiver identifiers and the conversation identifier (where there is
/// one), each through `uuid::Uuid::parse_str`; the length-prefixed content,
/// which must then make valid message content; the performative's name; the
/// creation time in seconds. A sender that equals the receiver is refused
/// last. The fields that are not stored come back empty or at their
/// defaults.
pub fn message_from_columns(
    message_id: &str,
    sender_id: &str,
    receiver_id: &str,
    conversation_id: Option<&str>,
    message_content: &str,
    performative: &str,
    created_at: i64,
) -> (r: Result<FipaMessage, RouterError>)
    ensures
        ({
            let mid = uuid_parse_result(message_id@);
            let sid = uuid_parse_result(sender_id@);
            let rid = uuid_parse_result(receiver_id@);
            let conv = optional_text(conversation_id);
            let ids_ok = mid is Some && sid is Some && rid is Some && conversation_column_ok(conv);
            let body = after_separator(message_content.spec_bytes());
            let perf_ok = exists|p: Performative| performative_name(p) == performative@;
            &&& mid is None ==> (r matches Err(RouterError::StorageError { cause })
                && bad_uuid_prefix("message ID"@, message_id@).is_prefix_of(cause@))
            &&& mid is Some && sid is None ==> (r matches Err(RouterError::StorageError { cause })
                && bad_uuid_prefix("sender"@, sender_id@).is_prefix_of(cause@))
            &&& mid is Some && sid is Some && rid is None ==> (r matches Err(RouterError::StorageError { cause })
                && bad_uuid_prefix("receiver"@, receiver_id@).is_prefix_of(cause@))
            &&& mid is Some && sid is Some && rid is Some && !conversation_column_ok(conv) ==> (r matches Err(
                RouterError::StorageError { cause },
            ) && bad_uuid_prefix("conversation"@, conv->0).is_prefix_of(cause@))
            &&& ids_ok && body is None ==> (r matches Err(RouterError::StorageError { cause }) && cause@
                == bad_content_message(message_content@, message_id@))
            &&& ids_ok && body is Some && !MessageContent::accepts(body->0) ==> (r matches Err(
                RouterError::StorageError { cause },
            ) && cause@ == bad_message_content_message(message_id@))
            &&& ids_ok && body is Some && MessageContent::accepts(body->0) && !perf_ok ==> (r matches Err(
                RouterError::StorageError { cause },
            ) && cause@ == unknown_performative_message(performative@))
            &&& ids_ok && body is Some && MessageContent::accepts(body->0) && perf_ok && created_at < 0 ==> (
            r matches Err(RouterError::StorageError { cause }) && cause@ == bad_timestamp_message(
                created_at,
                message_id@,
            ))
            &&& ids_ok && body is Some && MessageContent::accepts(body->0) && perf_ok && created_at >= 0
                && sid == rid ==> (r matches Err(e) && is_validation_error(
                e,
                "sender/receiver"@,
                "sender cannot equal receiver"@,
            ))
            &&& ids_ok && body is Some && MessageContent::accepts(body->0) && perf_ok && created_at >= 0
                && sid != rid ==> (r matches Ok(m) && m.message_id.value == mid->0
                && m.participants.sender_id().value == sid->0 && m.participants.receiver_id().value == rid->0
                && m.conversation_id == conversation_column_value(conv) && m.content@ == body->0
                && performative_name(m.performative) == performative@ && m.created_at.millis == column_millis(
                created_at,
            ) && m.reply_with is None && m.in_reply_to is None && m.trace_context is None
                && m.delivery_options.priority == crate::message_router::domain_types::MessagePriority::Normal
                && m.delivery_options.timeout is None && !m.delivery_options.require_receipt
                && m.delivery_options.max_retries@ == 3)
        }),
{
    let mid = match parse_column_uuid("message ID", message_id) {
        Ok(v) => v,
        Err(e) => return Err(e),
    };
    let sid = match parse_column_uuid("sender", sender_id) {
        Ok(v) => v,
        Err(e) => return Err(e),
    };
    let rid = match parse_column_uuid("receiver", receiver_id) {
        Ok(v) => v,
        Err(e) => return Err(e),
    };
    let conversation = match conversation_id {
        Some(c) => match parse_column_uuid("conversation", c) {
            Ok(v) => Some(ConversationId::new(v)),
            Err(e) => return Err(e),
        },
        None => None,
    };
    let bytes = match parse_message_content(message_content, message_id) {
        Ok(b) => b,
        Err(e) => return Err(e),
    };
    let content = match MessageContent::try_new(bytes) {
        Ok(c) => c,
        Err(_) => {
            let cause = String::from_str("Invalid message content for message '").concat(message_id).concat(
                "': MessageContent failed the predicate test.",
            );
            return Err(RouterError::StorageError { cause });
        },
    };
    let perf = match parse_performative(performative) {
        Ok(p) => p,
        Err(e) => return Err(e),
    };
    let created = match parse_timestamp(created_at, message_id) {
        Ok(t) => t,
        Err(e) => return Err(e),
    };
    let participants = match MessageParticipants::try_new(AgentId::new(sid), AgentId::new(rid)) {
        Ok(p) => p,
        Err(e) => return Err(e),
    };
    Ok(
        FipaMessage {
            performative: perf,
            participants,
            content,
            conversation_id: conversation,
            reply_with: None,
            in_reply_to: None,
            message_id: MessageId::new(mid),
            created_at: created,
            trace_context: None,
            delivery_options: DeliveryOptions::default(),
        },
    )
}

/// Whether every participant column reads as a UUID.
pub open spec fn participants_parse(ids: Seq<String>) -> bool {
    forall|i: int| 0 <= i < ids.len() ==> #[trigger] uuid_parse_result(ids[i]@) is Some
}

/// The agents that the participant columns read as.
pub open spec fn participant_agents(ids: Seq<String>) -> Seq<AgentId> {
    ids.map_values(|t: String| AgentId { value: uuid_parse_result(t@)->0 })
}

/// The error text of a column value that does not convert: a negative time,
/// or a count too large for its column.
pub open spec fn conversion_failure_message() -> Seq<char> {
    "out of range integral type conversion attempted"@
}

/// A stored conversation rebuilt from its columns: each participant
/// column through `uuid::Uuid::parse_str` (a participant given twice counts
/// once), then the creation and last-activity times in seconds, which must
/// not be negative, and the message count. A participant that is no UUID
/// is refused with the uuid crate's description of the fault, whose wording
/// is not stated.
pub fn conversation_from_columns(
    id: ConversationId,
    participant_ids: &Vec<String>,
    created_at_secs: i64,
    last_activity_secs: i64,
    message_count: u32,
) -> (r: Result<Conversation, ConversationError>)
    ensures
        !participants_parse(participant_ids@) ==> r matches Err(ConversationError::StorageError { .. }),
        participants_parse(participant_ids@) && created_at_secs < 0 ==> (r matches Err(
            ConversationError::StorageError { cause },
        ) && cause@ == conversion_failure_message()),
        participants_parse(participant_ids@) && created_at_secs >= 0 && last_activity_secs < 0 ==> (r matches Err(
            ConversationError::StorageError { cause },
        ) && cause@ == conversion_failure_message()),
        participants_parse(participant_ids@) && created_at_secs >= 0 && last_activity_secs >= 0 ==> (r matches Ok(c)
            && c.id == id && c.participants@ == first_occurrences(participant_agents(participant_ids@))
            && c.created_at.millis == column_millis(created_at_secs) && c.last_activity.millis
            == column_millis(last_activity_secs) && c.message_count.count == message_count),
{
    let mut parsed: Vec<AgentId> = Vec::new();
    for i in 0..participant_ids.len()
        invariant
            parsed@ == participant_agents(participant_ids@.take(i as int)),
            forall|j: int| 0 <= j < i ==> #[trigger] uuid_parse_result(participant_ids@[j]@) is Some,
    {
        match parse_uuid(participant_ids[i].as_str()) {
            Ok(v) => {
                parsed.push(AgentId::new(v));
                assert(parsed@ =~= participant_agents(participant_ids@.take(i + 1)));
            },
            Err(e) => {
                return Err(ConversationError::StorageError { cause: e });
            },
        }
    }
    assert(participant_ids@.take(participant_ids.len() as int) =~= participant_ids@);
    let participants = dedup_agents(&parsed);
    if created_at_secs < 0 || last_activity_secs < 0 {
        return Err(
            ConversationError::StorageError {
                cause: String::from_str("out of range integral type conversion attempted"),
            },
        );
    }
    Ok(
        Conversation {
            id,
            participants,
            created_at: parse_created_at(created_at_secs),
            last_activity: parse_message_timestamp(last_activity_secs),
            message_count: MessageCount::new(message_count as usize),
        },
    )
}

/// The columns of a conversation as it is saved: its identifier, each
/// participant's identifier, the creation and last-activity times in whole
/// seconds since the Unix epoch, and the message count, which must fit in
/// 32 bits.
pub fn conversation_to_columns(c: &Conversation) -> (r: Result<(String, Vec<String>, i64, i64, u32), ConversationError>)
    ensures
        c.message_count.count > u32::MAX ==> (r matches Err(ConversationError::StorageError { cause })
            && cause@ == conversion_failure_message()),
        c.message_count.count <= u32::MAX ==> (r matches Ok(cols) && cols.0@ == hyphenated_text(c.id.value)
            && cols.1@.len() == c.participants@.len() && (forall|i: int|
            0 <= i < cols.1@.len() ==> #[trigger] cols.1@[i]@ == hyphenated_text(c.participants@[i].value))
            && cols.2 == c.created_at.millis / 1000 && cols.3 == c.last_activity.millis / 1000 && cols.4
            == c.message_count.count),
{
    if c.message_count.into_inner() > 4_294_967_295usize {
        return Err(
            ConversationError::StorageError {
                cause: String::from_str("out of range integral type conversion attempted"),
            },
        );
    }
    let mut participants: Vec<String> = Vec::new();
    for i in 0..c.participants.len()
        invariant
            participants@.len() == i,
            i <= c.participants@.len(),
            forall|j: int| 0 <= j < i ==> #[trigger] participants@[j]@ == hyphenated_text(c.participants@[j].value),
    {
        participants.push(c.participants[i].to_uuid_string());
    }
    let created = (c.created_at.as_millis() / 1000) as i64;
    let last = (c.last_activity.as_millis() / 1000) as i64;
    Ok((c.id.to_uuid_string(), participants, created, last, c.message_count.into_inner() as u32))
}

/// The message for a stored message time that is negative.
pub open spec fn bad_timestamp_message(secs: i64, message_id: Seq<char>) -> Seq<char> {
    "Invalid timestamp "@ + crate::runtime::signed_text(secs as int) + " for message '"@ + message_id
        + "': out of range integral type conversion attempted"@
}

/// Reads a stored message time of seconds since the Unix epoch; a negative
/// time is refused.
pub fn parse_timestamp(created_at_secs: i64, message_id: &str) -> (r: Result<MessageTimestamp, RouterError>)
    ensures
        created_at_secs >= 0 ==> (r matches Ok(t) && t.millis == column_millis(created_at_secs)),
        created_at_secs < 0 ==> (r matches Err(RouterError::StorageError { cause }) && cause@
            == bad_timestamp_message(created_at_secs, message_id@)),
{
    if created_at_secs < 0 {
        let magnitude = u128_text((-(created_at_secs as i128)) as u128);
        let cause = String::from_str("Invalid timestamp -").concat(magnitude.as_str()).concat(
            " for message '",
        ).concat(message_id).concat("': out of range integral type conversion attempted");
        proof {
            reveal_strlit("Invalid timestamp -");
            reveal_strlit("Invalid timestamp ");
            reveal_strlit("-");
            assert("Invalid timestamp -"@ =~= "Invalid timestamp "@ + "-"@);
        }
        return Err(RouterError::StorageError { cause });
    }
    Ok(MessageTimestamp::new(millis_of_seconds(created_at_secs)))
}

/// The UTF-8 encoding of two texts one after the other is the two
/// encodings one after the other.
proof fn lemma_encode_concat(a: Seq<char>, b: Seq<char>)
    ensures
        encode_utf8(a + b) == encode_utf8(a) + encode_utf8(b),
    decreases a.len(),
{
    if a.len() == 0 {
        assert(a + b =~= b);
        assert(encode_utf8(a) =~= Seq::<u8>::empty());
        assert(encode_utf8(a) + encode_utf8(b) =~= encode_utf8(b));
    } else {
        assert((a + b).drop_first() =~= a.drop_first() + b);
        assert((a + b)[0] == a[0]);
        lemma_encode_concat(a.drop_first(), b);
        assert(encode_utf8(a + b) =~= encode_utf8(a) + encode_utf8(b));
    }
}

/// The characters of a decimal text are digits.
proof fn lemma_decimal_digits(n: nat)
    ensures
        forall|i: int| 0 <= i < decimal_text(n).len() ==> '0' <= #[trigger] decimal_text(n)[i] <= '9',
    decreases n,
{
    if n >= 10 {
        lemma_decimal_digits(n / 10);
        let t = decimal_text(n / 10);
        assert(decimal_text(n) == t.push(crate::text::digit_char(n % 10)));
        assert forall|i: int| 0 <= i < decimal_text(n).len() implies '0' <= #[trigger] decimal_text(n)[i] <= '9' by {
            if i < t.len() {
                assert(decimal_text(n)[i] == t[i]);
            }
        }
    }
}

/// Bytes without a colon, then `::`, then the rest: the rest comes after
/// the first separator.
proof fn lemma_after_separator(p: Seq<u8>, rest: Seq<u8>)
    requires
        forall|i: int| 0 <= i < p.len() ==> #[trigger] p[i] != COLON_BYTE,
    ensures
        after_separator(p + seq![COLON_BYTE, COLON_BYTE] + rest) == Some(rest),
    decreases p.len(),
{
    let whole = p + seq![COLON_BYTE, COLON_BYTE] + rest;
    if p.len() == 0 {
        assert(whole.skip(2) =~= rest);
    } else {
        assert(whole.drop_first() =~= p.drop_first() + seq![COLON_BYTE, COLON_BYTE] + rest);
        assert(whole[0] == p[0]);
        lemma_after_separator(p.drop_first(), rest);
    }
}

/// Content written in length-prefixed form reads back as the same bytes,
/// where the bytes are valid UTF-8.
pub proof fn lemma_content_round_trip(bytes: Seq<u8>)
    requires
        valid_utf8(bytes),
    ensures
        after_separator(encode_utf8(length_prefixed(bytes))) == Some(bytes),
{
    let d = decimal_text(bytes.len());
    let sep = "::"@;
    reveal_strlit("::");
    lemma_decimal_digits(bytes.len());
    lemma_encode_concat(d + sep, decode_utf8(bytes));
    lemma_encode_concat(d, sep);
    vstd::utf8::is_ascii_chars_encode_utf8(d);
    vstd::utf8::is_ascii_chars_encode_utf8(sep);
    vstd::utf8::decode_utf8_encode_utf8(bytes);
    let ed = encode_utf8(d);
    assert forall|i: int| 0 <= i < ed.len() implies #[trigger] ed[i] != COLON_BYTE by {
        assert(d[i] as u8 == ed[i]);
    }
    assert(encode_utf8(sep) =~= seq![COLON_BYTE, COLON_BYTE]) by {
        assert(sep[0] as u8 == encode_utf8(sep)[0]);
        assert(sep[1] as u8 == encode_utf8(sep)[1]);
    }
    lemma_after_separator(ed, bytes);
}

/// Seconds since the Unix epoch of a message time.
pub fn timestamp_to_unix_secs(timestamp: &MessageTimestamp) -> (r: Result<i64, RouterError>)
    ensures
        r matches Ok(t) && t == timestamp.millis / 1000,
{
    Ok((timestamp.millis / 1000) as i64)
}

/// Seconds since the Unix epoch now, by the system clock.
pub fn current_timestamp() -> (t: i64)
    ensures
        t >= 0,
{
    (clock_now_millis() / 1000) as i64
}

/// An agent store for tests: saving and removing succeed, and nothing is
/// ever found.
pub struct MockAgentStorage;

impl MockAgentStorage {
    /// A mock store.
    pub fn new() -> (s: Self) {
        MockAgentStorage
    }

    /// Accepts an agent.
    pub fn save_agent(&self, agent_id: AgentId, agent_name: AgentName) -> (r: Result<(), StorageError>)
        ensures
            r is Ok,
    {
        Ok(())
    }

    /// Finds nothing.
    pub fn find_agent_by_id(&self, agent_id: AgentId) -> (r: Result<Option<AgentName>, StorageError>)
        ensures
            r matches Ok(found) && found is None,
    {
        Ok(None)
    }

    /// Lists nothing.
    pub fn list_all_agents(&self) -> (r: Result<Vec<(AgentId, AgentName)>, StorageError>)
        ensures
            r matches Ok(v) && v@.len() == 0,
    {
        Ok(Vec::new())
    }

    /// Accepts a removal.
    pub fn remove_agent(&self, agent_id: AgentId) -> (r: Result<(), StorageError>)
        ensures
            r is Ok,
    {
        Ok(())
    }
}

impl Default for MockAgentStorage {
    fn default() -> (s: Self) {
        MockAgentStorage
    }
}

/// A fresh agent identifier, a random version-4 UUID, and the name
/// `test_agent`.
pub fn create_test_agent_data() -> (r: (AgentId, AgentName))
    ensures
        crate::ids::is_v4_uuid(r.0.value),
        r.1@ == "test_agent"@,
{
    proof {
        reveal_strlit("test_agent");
    }
    let agent_id = AgentId::generate();
    let agent_name = match AgentName::try_new(String::from_str("test_agent")) {
        Ok(n) => n,
        Err(_) => vstd::pervasive::unreached(),
    };
    (agent_id, agent_name)
}

} // verus!
