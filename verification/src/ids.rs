//! Row identifiers: random version-4 UUIDs in their hyphenated text form.
use vstd::prelude::*;

verus! {

/// The lowercase hexadecimal digit of a value below 16.
pub open spec fn hex_digit(n: u128) -> char {
    if n < 10 {
        (n + 48) as char
    } else {
        (n + 87) as char
    }
}

/// The `k`-th of the 32 hexadecimal digits of `v`, most significant first.
pub open spec fn nibble(v: u128, k: int) -> u128 {
    (v >> ((124 - 4 * k) as u128)) & 0xf
}

/// Number of hyphens that precede position `i` of the hyphenated form.
pub open spec fn hyphens_before(i: int) -> int {
    (if i > 8 { 1int } else { 0int }) + (if i > 13 { 1int } else { 0int }) + (if i > 18 {
        1int
    } else {
        0int
    }) + (if i > 23 { 1int } else { 0int })
}

/// The hyphenated lowercase text of a UUID (8-4-4-4-12 hexadecimal digits).
pub open spec fn uuid_text(v: u128) -> Seq<char> {
    Seq::new(
        36,
        |i: int|
            if i == 8 || i == 13 || i == 18 || i == 23 {
                '-'
            } else {
                hex_digit(nibble(v, i - hyphens_before(i)))
            },
    )
}

/// `v` carries the marks of a random UUID: version nibble 4 and the RFC 4122 variant bits.
pub open spec fn is_random_uuid(v: u128) -> bool {
    &&& (v >> 76u128) & 0xf == 4
    &&& (v >> 62u128) & 0x3 == 2
}

/// `text` is the hyphenated form of some random UUID.
pub open spec fn is_random_uuid_text(text: Seq<char>) -> bool {
    exists|v: u128| #[trigger] is_random_uuid(v) && text == uuid_text(v)
}

/// Calls `uuid::Uuid::new_v4` and returns the UUID as a 128-bit number. The crate masks a
/// random number so that the version nibble is 4 and the top variant bits are `10`; that is all
/// that is claimed of the result.
#[verifier::external_body]
fn random_uuid() -> (v: u128)
    ensures
        is_random_uuid(v),
{
    uuid::Uuid::new_v4().as_u128()
}

/// Calls `uuid::Uuid::from_u128` and its `Display` impl (`to_string`), which the crate writes
/// as the hyphenated lowercase hexadecimal form; the contract claims exactly that text.
#[verifier::external_body]
pub(crate) fn format_uuid(v: u128) -> (text: String)
    ensures
        text@ == uuid_text(v),
{
    uuid::Uuid::from_u128(v).to_string()
}

/// A fresh identifier for a new row: the text of a random version-4 UUID.
pub fn new_id() -> (id: String)
    ensures
        is_random_uuid_text(id@),
{
    let v: u128 = random_uuid();
    let id = format_uuid(v);
    assert(is_random_uuid(v) && id@ == uuid_text(v));
    id
}

} // verus!
