//! ASCII text as HTTP uses it: header names that match whatever their case,
//! and header values that are read as text only when every byte is visible.

use vstd::prelude::*;
use vstd::string::*;
use vstd::utf8::*;

verus! {

/// The lower-case form of an ASCII upper-case letter; any other character
/// is kept.
pub open spec fn ascii_lower(c: char) -> char {
    if 'A' <= c <= 'Z' {
        ((c as u8) + 32) as char
    } else {
        c
    }
}

/// `s` with each of its ASCII upper-case letters in lower case.
pub open spec fn lower(s: Seq<char>) -> Seq<char> {
    Seq::new(s.len(), |i: int| ascii_lower(s[i]))
}

/// Whether two header names are the same name: equal when case is ignored.
pub open spec fn same_name(a: Seq<char>, b: Seq<char>) -> bool {
    lower(a) == lower(b)
}

/// A byte that may stand in a header value that is read as text: a tab or a
/// printable ASCII character.
pub open spec fn is_visible(b: u8) -> bool {
    b == 9 || (32 <= b < 127)
}

/// Whether every byte of a header value is visible.
pub open spec fn all_visible(bytes: Seq<u8>) -> bool {
    forall|i: int| 0 <= i < bytes.len() ==> is_visible(#[trigger] bytes[i])
}

/// The text that a header value of visible bytes spells: one character for
/// each byte.
pub open spec fn bytes_as_text(bytes: Seq<u8>) -> Seq<char> {
    Seq::new(bytes.len(), |i: int| bytes[i] as char)
}

fn lower_byte(b: u8) -> (r: u8)
    requires
        b < 128,
    ensures
        r < 128,
        r as char == ascii_lower(b as char),
{
    if 65 <= b && b <= 90 {
        b + 32
    } else {
        b
    }
}

fn lower_char(c: char) -> (r: char)
    ensures
        r == ascii_lower(c),
{
    if 'A' <= c && c <= 'Z' {
        lower_byte(c as u8) as char
    } else {
        c
    }
}

/// Compares two names that are ASCII throughout, byte by byte.
fn ascii_names_match(a: &str, b: &str) -> (r: bool)
    requires
        is_ascii_chars(a@),
        is_ascii_chars(b@),
    ensures
        r == same_name(a@, b@),
{
    proof {
        is_ascii_chars_encode_utf8(a@);
        is_ascii_chars_encode_utf8(b@);
    }
    let x = a.as_bytes();
    let y = b.as_bytes();
    if x.len() != y.len() {
        assert(lower(a@).len() != lower(b@).len());
        return false;
    }
    let n: usize = x.len();
    let mut i: usize = 0;
    while i < n
        invariant
            i <= n,
            n == x@.len(),
            n == y@.len(),
            n == a@.len(),
            n == b@.len(),
            is_ascii_chars(a@),
            is_ascii_chars(b@),
            forall|j: int| 0 <= j < n ==> a@[j] as u8 == #[trigger] x@[j],
            forall|j: int| 0 <= j < n ==> b@[j] as u8 == #[trigger] y@[j],
            forall|j: int| 0 <= j < i ==> ascii_lower(a@[j]) == ascii_lower(#[trigger] b@[j]),
        decreases n - i,
    {
        assert(a@[i as int] as u8 == x@[i as int]);
        assert(b@[i as int] as u8 == y@[i as int]);
        assert(x@[i as int] < 128 && y@[i as int] < 128);
        let p: u8 = lower_byte(x[i]);
        let q: u8 = lower_byte(y[i]);
        proof {
            assert(x@[i as int] as char == a@[i as int]);
            assert(y@[i as int] as char == b@[i as int]);
            assert((p as char) as u8 == p);
            assert((q as char) as u8 == q);
        }
        if p != q {
            assert(lower(a@)[i as int] != lower(b@)[i as int]);
            return false;
        }
        i += 1;
    }
    assert(lower(a@) =~= lower(b@));
    true
}

/// Tells whether two header names are the same name, whatever their case.
/// Names that are ASCII throughout, as every well-formed header name is, are
/// compared byte by byte; others character by character.
pub fn names_match(a: &str, b: &str) -> (r: bool)
    ensures
        r == same_name(a@, b@),
{
    if a.is_ascii() && b.is_ascii() {
        return ascii_names_match(a, b);
    }
    let n: usize = a.unicode_len();
    if n != b.unicode_len() {
        assert(lower(a@).len() != lower(b@).len());
        return false;
    }
    let mut i: usize = 0;
    while i < n
        invariant
            i <= n,
            n == a@.len(),
            n == b@.len(),
            forall|j: int| 0 <= j < i ==> ascii_lower(a@[j]) == ascii_lower(#[trigger] b@[j]),
        decreases n - i,
    {
        if lower_char(a.get_char(i)) != lower_char(b.get_char(i)) {
            assert(lower(a@)[i as int] != lower(b@)[i as int]);
            return false;
        }
        i += 1;
    }
    assert(lower(a@) =~= lower(b@));
    true
}

/// Appends one character to a string, by `String::push` of std.
#[verifier::external_body]
fn push_char(text: &mut String, c: char)
    ensures
        final(text)@ == old(text)@.push(c),
{
    text.push(c);
}

/// Reads a header value as text. The value is text only when each of its
/// bytes is visible; then the text has one character for each byte.
pub fn visible_text(value: &[u8]) -> (r: Option<String>)
    ensures
        r is Some == all_visible(value@),
        r matches Some(text) ==> text@ == bytes_as_text(value@),
{
    let mut text = String::new();
    let mut i: usize = 0;
    while i < value.len()
        invariant
            i <= value@.len(),
            text@ == bytes_as_text(value@.subrange(0, i as int)),
            all_visible(value@.subrange(0, i as int)),
        decreases value@.len() - i,
    {
        let b: u8 = value[i];
        if !(b == 9 || (32 <= b && b < 127)) {
            return None;
        }
        push_char(&mut text, b as char);
        proof {
            let before = value@.subrange(0, i as int);
            let after = value@.subrange(0, i + 1);
            assert(after =~= before.push(b));
            assert(bytes_as_text(after) =~= bytes_as_text(before).push(b as char));
        }
        i += 1;
    }
    assert(value@.subrange(0, i as int) =~= value@);
    Some(text)
}

} // verus!
