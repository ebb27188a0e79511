//! Identifiers of agents, messages, conversations and cluster nodes.
//!
//! Every identifier is a UUID, held as its 128-bit value.

use vstd::prelude::*;
use vstd::arithmetic::power::pow;

verus! {

/// Bits that a version 4 UUID fixes: the version nibble and the variant bits.
pub open spec fn uuid_v4_fixed_mask() -> u128 {
    0xF000_C000_0000_0000_0000u128
}

/// Value of the fixed bits of a version 4 UUID (version 4, RFC variant).
pub open spec fn uuid_v4_fixed_bits() -> u128 {
    0x4000_8000_0000_0000_0000u128
}

/// Whether a 128-bit value has the version and variant bits of a random UUID.
pub open spec fn is_v4_uuid(v: u128) -> bool {
    v & uuid_v4_fixed_mask() == uuid_v4_fixed_bits()
}

/// Lower-case hexadecimal digit for a value below 16.
pub open spec fn hex_digit(n: int) -> char {
    if n < 10 {
        ((48 + n) as u8) as char
    } else {
        ((87 + n) as u8) as char
    }
}

/// Number of hexadecimal digits that precede text position `p` of the
/// hyphenated form (8-4-4-4-12).
pub open spec fn digit_index(p: int) -> int {
    if p < 8 {
        p
    } else if p < 13 {
        p - 1
    } else if p < 18 {
        p - 2
    } else if p < 23 {
        p - 3
    } else {
        p - 4
    }
}

/// Whether text position `p` of the hyphenated form holds a hyphen.
pub open spec fn is_hyphen_position(p: int) -> bool {
    p == 8 || p == 13 || p == 18 || p == 23
}

/// The `i`-th hexadecimal digit (most significant first) of a 128-bit value.
pub open spec fn nibble(v: u128, i: int) -> int {
    (v as int / pow(16, (31 - i) as nat)) % 16
}

/// The lower-case hyphenated text of a UUID, such as
/// `a1a2a3a4-b1b2-c1c2-d1d2-d3d4d5d6d7d8`.
pub open spec fn hyphenated_text(v: u128) -> Seq<char> {
    Seq::new(
        36,
        |p: int|
            if is_hyphen_position(p) {
                '-'
            } else {
                hex_digit(nibble(v, digit_index(p)))
            },
    )
}

/// What `uuid::Uuid::parse_str` gives for a text: the value of the UUID it
/// reads, or `None` where the text is no UUID in any format it accepts.
pub uninterp spec fn uuid_parse_result(text: Seq<char>) -> Option<u128>;

/// Calls `uuid::Uuid::new_v4` and hands back the 128-bit value.
/// The value comes from the operating system's random source; of every
/// outcome the uuid source shows that the version nibble is 4 and the
/// variant bits are those of RFC 9562.
#[verifier::external_body]
fn random_uuid_value() -> (v: u128)
    ensures
        is_v4_uuid(v),
{
    uuid::Uuid::new_v4().as_u128()
}

/// Calls `uuid::Uuid::from_u128(v).to_string()`: the uuid crate's `Display`
/// writes the hyphenated form with lower-case hexadecimal digits.
#[verifier::external_body]
fn uuid_text(v: u128) -> (s: String)
    ensures
        s@ == hyphenated_text(v),
{
    uuid::Uuid::from_u128(v).to_string()
}

/// Calls `uuid::Uuid::parse_str` and hands back the value it read, or the
/// text of the error where it refused the text. Which texts it accepts
/// (hyphenated, simple, URN, braced) is left to the name
/// `uuid_parse_result`; the wording of the error is not stated.
#[verifier::external_body]
pub(crate) fn parse_uuid(text: &str) -> (r: Result<u128, String>)
    ensures
        match uuid_parse_result(text@) {
            Some(v) => r == Ok::<u128, String>(v),
            None => r is Err,
        },
{
    match uuid::Uuid::parse_str(text) {
        Ok(u) => Ok(u.as_u128()),
        Err(e) => Err(e.to_string()),
    }
}

/// Unique identifier of an agent.
#[derive(Debug, Clone, Copy, PartialEq, Eq, Hash, Structural)]
pub struct AgentId {
    pub value: u128,
}

/// Unique identifier of a message.
#[derive(Debug, Clone, Copy, PartialEq, Eq, Hash, Structural)]
pub struct MessageId {
    pub value: u128,
}

/// Unique identifier of a conversation.
#[derive(Debug, Clone, Copy, PartialEq, Eq, Hash, Structural)]
pub struct ConversationId {
    pub value: u128,
}

/// Unique identifier of a node in the cluster.
#[derive(Debug, Clone, Copy, PartialEq, Eq, Hash, Structural)]
pub struct NodeId {
    pub value: u128,
}

impl AgentId {
    /// Creates a new random agent identifier.
    pub fn generate() -> (id: Self)
        ensures
            is_v4_uuid(id.value),
    {
        AgentId { value: random_uuid_value() }
    }

    /// Wraps the value of a UUID.
    pub fn new(value: u128) -> (id: Self)
        ensures
            id.value == value,
    {
        AgentId { value }
    }

    /// The UUID value of this identifier.
    pub fn as_u128(&self) -> (v: u128)
        ensures
            v == self.value,
    {
        self.value
    }

    /// Parses an identifier from the text of a UUID.
    pub fn parse(text: &str) -> (r: Option<Self>)
        ensures
            r == (match uuid_parse_result(text@) {
                Some(v) => Some(AgentId { value: v }),
                None => None::<AgentId>,
            }),
    {
        match parse_uuid(text) {
            Ok(v) => Some(AgentId { value: v }),
            Err(_) => None,
        }
    }

    /// The hyphenated lower-case text of this identifier.
    pub fn to_uuid_string(&self) -> (s: String)
        ensures
            s@ == hyphenated_text(self.value),
    {
        uuid_text(self.value)
    }
}

impl MessageId {
    /// Creates a new random message identifier.
    pub fn generate() -> (id: Self)
        ensures
            is_v4_uuid(id.value),
    {
        MessageId { value: random_uuid_value() }
    }

    /// Wraps the value of a UUID.
    pub fn new(value: u128) -> (id: Self)
        ensures
            id.value == value,
    {
        MessageId { value }
    }

    /// Parses an identifier from the text of a UUID.
    pub fn parse(text: &str) -> (r: Option<Self>)
        ensures
            r == (match uuid_parse_result(text@) {
                Some(v) => Some(MessageId { value: v }),
                None => None::<MessageId>,
            }),
    {
        match parse_uuid(text) {
            Ok(v) => Some(MessageId { value: v }),
            Err(_) => None,
        }
    }

    /// The hyphenated lower-case text of this identifier.
    pub fn to_uuid_string(&self) -> (s: String)
        ensures
            s@ == hyphenated_text(self.value),
    {
        uuid_text(self.value)
    }
}

impl ConversationId {
    /// Creates a new random conversation identifier.
    pub fn generate() -> (id: Self)
        ensures
            is_v4_uuid(id.value),
    {
        ConversationId { value: random_uuid_value() }
    }

    /// Wraps the value of a UUID.
    pub fn new(value: u128) -> (id: Self)
        ensures
            id.value == value,
    {
        ConversationId { value }
    }

    /// Parses an identifier from the text of a UUID.
    pub fn parse(text: &str) -> (r: Option<Self>)
        ensures
            r == (match uuid_parse_result(text@) {
                Some(v) => Some(ConversationId { value: v }),
                None => None::<ConversationId>,
            }),
    {
        match parse_uuid(text) {
            Ok(v) => Some(ConversationId { value: v }),
            Err(_) => None,
        }
    }

    /// The hyphenated lower-case text of this identifier.
    pub fn to_uuid_string(&self) -> (s: String)
        ensures
            s@ == hyphenated_text(self.value),
    {
        uuid_text(self.value)
    }
}

impl NodeId {
    /// Creates a new random node identifier.
    pub fn generate() -> (id: Self)
        ensures
            is_v4_uuid(id.value),
    {
        NodeId { value: random_uuid_value() }
    }

    /// Wraps the value of a UUID.
    pub fn new(value: u128) -> (id: Self)
        ensures
            id.value == value,
    {
        NodeId { value }
    }

    /// The hyphenated lower-case text of this identifier.
    pub fn to_uuid_string(&self) -> (s: String)
        ensures
            s@ == hyphenated_text(self.value),
    {
        uuid_text(self.value)
    }
}

} // verus!
