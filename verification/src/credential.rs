//! Credentials: the 128-bit identifier of an API key, read from the text a
//! client presents and written in the hyphenated form in which it is stored.

use uuid::Uuid;
use vstd::arithmetic::power::pow;
use vstd::prelude::*;

verus! {

/// The identifier that `Uuid::parse_str` reads from `text`, as a 128-bit
/// number whose most significant byte is the first byte of the identifier;
/// `None` where it rejects the text.
pub uninterp spec fn uuid_parse(text: Seq<char>) -> Option<u128>;

/// The lower-case hexadecimal digit of a value below sixteen.
pub open spec fn hex_digit(n: int) -> char {
    if n < 10 {
        (48 + n) as char
    } else {
        (87 + n) as char
    }
}

/// The `k`-th of the 32 hexadecimal digits of `key`, counted from the most
/// significant.
pub open spec fn nibble(key: u128, k: int) -> int {
    (key as int / pow(16, (31 - k) as nat)) % 16
}

/// How many hyphens stand before position `i` of the hyphenated form.
pub open spec fn hyphens_before(i: int) -> int {
    if i < 8 {
        0
    } else if i < 13 {
        1
    } else if i < 18 {
        2
    } else if i < 23 {
        3
    } else {
        4
    }
}

/// The hyphenated form of an identifier: 32 lower-case hexadecimal digits in
/// groups of 8, 4, 4, 4 and 12, with a hyphen between two groups.
pub open spec fn hyphenated(key: u128) -> Seq<char> {
    Seq::new(
        36,
        |i: int|
            if i == 8 || i == 13 || i == 18 || i == 23 {
                '-'
            } else {
                hex_digit(nibble(key, i - hyphens_before(i)))
            },
    )
}

/// Whether `key` carries the marks of a randomly drawn identifier: version
/// four, and the variant of RFC 4122.
pub open spec fn is_random_form(key: u128) -> bool {
    nibble(key, 12) == 4 && 8 <= nibble(key, 16) <= 11
}

/// Calls `Uuid::parse_str` and hands out the identifier by `Uuid::as_u128`.
/// The contract names the result and claims nothing more of it.
#[verifier::external_body]
fn parse_uuid(text: &str) -> (r: Option<u128>)
    ensures
        r == uuid_parse(text@),
{
    match Uuid::parse_str(text) {
        Ok(id) => Some(id.as_u128()),
        Err(_) => None,
    }
}

/// Writes the identifier made by `Uuid::from_u128` through
/// `Uuid::to_hyphenated`. The contract claims that the text is the
/// lower-case hyphenated form, and that `Uuid::parse_str` reads the same
/// identifier back from it.
#[verifier::external_body]
fn hyphenated_uuid(key: u128) -> (r: String)
    ensures
        r@ == hyphenated(key),
        uuid_parse(r@) == Some(key),
{
    Uuid::from_u128(key).to_hyphenated().to_string()
}

/// Draws an identifier with `Uuid::new_v4`. Which one comes is left to
/// chance; the contract claims only the version and variant marks that
/// every such identifier carries. `Uuid::new_v4` gives up where the machine
/// has no random bytes to give.
#[verifier::external_body]
fn random_uuid() -> (r: u128)
    ensures
        is_random_form(r),
{
    Uuid::new_v4().as_u128()
}

/// The identifier of an API key.
#[derive(Clone, Copy, Debug, PartialEq, Eq, Structural)]
pub struct Credential {
    pub key: u128,
}

/// The credential that `text` presents, if it presents one.
pub open spec fn credential_of(text: Seq<char>) -> Option<Credential> {
    match uuid_parse(text) {
        Some(key) => Some(Credential { key }),
        None => None,
    }
}

impl Credential {
    /// Reads a credential from the text that a client presented. No prefix
    /// is stripped and nothing is normalised before the text is read.
    pub fn parse(text: &str) -> (r: Option<Credential>)
        ensures
            r == credential_of(text@),
    {
        match parse_uuid(text) {
            Some(key) => Some(Credential { key }),
            None => None,
        }
    }

    /// The hyphenated text under which the credential is stored and looked
    /// up. Reading that text gives the credential back.
    pub fn to_hyphenated(&self) -> (r: String)
        ensures
            r@ == hyphenated(self.key),
            credential_of(r@) == Some(*self),
    {
        hyphenated_uuid(self.key)
    }

    /// A fresh credential, drawn at random.
    pub fn generate() -> (r: Credential)
        ensures
            is_random_form(r.key),
    {
        Credential { key: random_uuid() }
    }
}

} // verus!
