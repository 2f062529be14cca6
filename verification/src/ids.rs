//! Identifiers of users, agents and sessions: the 128 bits of a UUID.

use vstd::prelude::*;

verus! {

/// Whether `bits` are those of a random UUID: version 4, variant 10.
pub open spec fn is_random_uuid(bits: u128) -> bool {
    (bits >> 76u128) & 0xF == 4 && (bits >> 62u128) & 3 == 2
}

/// `uuid::Uuid::new_v4`, as its 128 bits. The bits of the version and the variant are fixed; of
/// the other bits, which are random, nothing is stated.
#[verifier::external_body]
fn random_uuid() -> (r: u128)
    ensures
        is_random_uuid(r),
{
    uuid::Uuid::new_v4().as_u128()
}

/// A random UUID is not the nil UUID.
pub proof fn random_is_not_nil(bits: u128)
    requires
        is_random_uuid(bits),
    ensures
        bits != 0,
{
    assert((bits >> 76u128) & 0xF == 4 ==> bits != 0) by (bit_vector);
}

/// Unique identifier of a user.
#[derive(Debug, Clone, Copy, PartialEq, Eq, Hash, Structural)]
pub struct UserId(pub u128);

/// Unique identifier of an agent.
#[derive(Debug, Clone, Copy, PartialEq, Eq, Hash, Structural)]
pub struct AgentId(pub u128);

/// Unique identifier of a session.
#[derive(Debug, Clone, Copy, PartialEq, Eq, Hash, Structural)]
pub struct SessionId(pub u128);

impl UserId {
    /// A fresh identifier, which is never the nil one.
    pub fn new() -> (r: Self)
        ensures
            is_random_uuid(r.0),
            r.0 != 0,
    {
        let bits: u128 = random_uuid();
        proof {
            random_is_not_nil(bits);
        }
        UserId(bits)
    }

    /// The nil identifier, under which unattributed traffic is kept.
    pub fn nil() -> (r: Self)
        ensures
            r.0 == 0,
    {
        UserId(0)
    }
}

impl AgentId {
    /// A fresh identifier, which is never the nil one.
    pub fn new() -> (r: Self)
        ensures
            is_random_uuid(r.0),
            r.0 != 0,
    {
        let bits: u128 = random_uuid();
        proof {
            random_is_not_nil(bits);
        }
        AgentId(bits)
    }
}

impl SessionId {
    /// A fresh identifier, which is never the nil one.
    pub fn new() -> (r: Self)
        ensures
            is_random_uuid(r.0),
            r.0 != 0,
    {
        let bits: u128 = random_uuid();
        proof {
            random_is_not_nil(bits);
        }
        SessionId(bits)
    }
}

/// Hexadecimal digit `d`, in lower case.
pub open spec fn hex_digit(d: u128) -> char {
    if d < 10 {
        ('0' as u32 + d) as char
    } else {
        ('a' as u32 + d - 10) as char
    }
}

/// How many of the hyphens of a UUID text stand before place `i`.
pub open spec fn hyphens_before(i: int) -> int {
    if i > 23 {
        4
    } else if i > 18 {
        3
    } else if i > 13 {
        2
    } else if i > 8 {
        1
    } else {
        0
    }
}

/// The text of a UUID: its 32 hexadecimal digits, the highest first, in groups of 8, 4, 4, 4
/// and 12 with hyphens between them.
pub open spec fn hyphenated(bits: u128) -> Seq<char> {
    Seq::new(
        36,
        |i: int|
            if i == 8 || i == 13 || i == 18 || i == 23 {
                '-'
            } else {
                hex_digit((bits >> ((4 * (31 - (i - hyphens_before(i)))) as u128)) & 0xF)
            },
    )
}

/// `uuid::Uuid::to_string`: the hyphenated form in lower case.
#[verifier::external_body]
pub(crate) fn uuid_text(bits: u128) -> (r: String)
    ensures
        r@ == hyphenated(bits),
{
    uuid::Uuid::from_u128(bits).to_string()
}

/// A fresh random UUID as text.
pub(crate) fn fresh_uuid_text() -> (r: String)
    ensures
        exists|bits: u128| is_random_uuid(bits) && r@ == #[trigger] hyphenated(bits),
{
    let bits: u128 = random_uuid();
    uuid_text(bits)
}

impl UserId {
    /// The text of the identifier.
    pub fn to_string(&self) -> (r: String)
        ensures
            r@ == hyphenated(self.0),
    {
        uuid_text(self.0)
    }
}

impl AgentId {
    /// The text of the identifier.
    pub fn to_string(&self) -> (r: String)
        ensures
            r@ == hyphenated(self.0),
    {
        uuid_text(self.0)
    }
}

impl SessionId {
    /// The text of the identifier.
    pub fn to_string(&self) -> (r: String)
        ensures
            r@ == hyphenated(self.0),
    {
        uuid_text(self.0)
    }
}

} // verus!
