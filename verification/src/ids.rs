//! Random identifiers for agents, push configs and outgoing messages,
//! produced by the `uuid` crate, and their textual forms.

use vstd::prelude::*;

verus! {

/// The lowercase hexadecimal digit of a value below sixteen.
pub open spec fn hex_digit(n: nat) -> char {
    if n < 10 {
        (48 + n) as char
    } else {
        (87 + n) as char
    }
}

/// The last `width` hexadecimal digits of `v`, most significant first, in lowercase.
pub open spec fn hex_text(v: nat, width: nat) -> Seq<char>
    decreases width,
{
    if width == 0 {
        Seq::empty()
    } else {
        hex_text(v / 16, (width - 1) as nat).push(hex_digit(v % 16))
    }
}

/// The "simple" form of a UUID: its 32 hexadecimal digits, lowercase, without separators.
pub open spec fn uuid_simple_text(u: u128) -> Seq<char> {
    hex_text(u as nat, 32)
}

/// The hyphenated form of a UUID: 8-4-4-4-12 lowercase hexadecimal digits.
pub open spec fn uuid_hyphenated_text(u: u128) -> Seq<char> {
    let s = uuid_simple_text(u);
    s.subrange(0, 8) + seq!['-'] + s.subrange(8, 12) + seq!['-'] + s.subrange(12, 16) + seq!['-']
        + s.subrange(16, 20) + seq!['-'] + s.subrange(20, 32)
}

/// An agent id: "agent_" and the simple form of a UUID.
pub open spec fn is_agent_id(s: Seq<char>) -> bool {
    exists|u: u128| s == "agent_"@ + uuid_simple_text(u)
}

/// A push-notification config id: "push_" and the simple form of a UUID.
pub open spec fn is_push_config_id(s: Seq<char>) -> bool {
    exists|u: u128| s == "push_"@ + uuid_simple_text(u)
}

/// A message id: the hyphenated form of a UUID.
pub open spec fn is_message_id(s: Seq<char>) -> bool {
    exists|u: u128| s == uuid_hyphenated_text(u)
}

/// A fresh agent id.
pub fn new_agent_id() -> (s: String)
    ensures
        is_agent_id(s@),
{
    let u = random_uuid();
    let hex = uuid_simple(u);
    let s = crate::text::join("agent_", hex.as_str());
    assert(s@ == "agent_"@ + uuid_simple_text(u));
    s
}

/// A fresh push-notification config id.
pub fn new_push_config_id() -> (s: String)
    ensures
        is_push_config_id(s@),
{
    let u = random_uuid();
    let hex = uuid_simple(u);
    let s = crate::text::join("push_", hex.as_str());
    assert(s@ == "push_"@ + uuid_simple_text(u));
    s
}

/// A fresh message id.
pub fn new_message_id() -> (s: String)
    ensures
        is_message_id(s@),
{
    let u = random_uuid();
    let s = uuid_hyphenated(u);
    assert(s@ == uuid_hyphenated_text(u));
    s
}

/// A random version-4 UUID from `uuid::Uuid::new_v4`, as its 128-bit value
/// (`Uuid::as_u128`). The bits are random; the contract states only the version
/// nibble (4) and the variant bits (binary 10) that `new_v4` fixes in its source.
#[verifier::external_body]
pub(crate) fn random_uuid() -> (u: u128)
    ensures
        (u >> 76u128) & 0xfu128 == 4,
        (u >> 62u128) & 3u128 == 2,
{
    uuid::Uuid::new_v4().as_u128()
}

/// The text of `uuid::Simple`'s `Display` for `Uuid::from_u128(u)`: the 32
/// lowercase hexadecimal digits of `u`, most significant first.
#[verifier::external_body]
pub(crate) fn uuid_simple(u: u128) -> (s: String)
    ensures
        s@ == uuid_simple_text(u),
{
    uuid::Uuid::from_u128(u).simple().to_string()
}

/// The text of `uuid::Hyphenated`'s `Display` for `Uuid::from_u128(u)`: the
/// lowercase hexadecimal digits of `u` in groups of 8, 4, 4, 4 and 12, joined by '-'.
#[verifier::external_body]
pub(crate) fn uuid_hyphenated(u: u128) -> (s: String)
    ensures
        s@ == uuid_hyphenated_text(u),
{
    uuid::Uuid::from_u128(u).hyphenated().to_string()
}

} // verus!
