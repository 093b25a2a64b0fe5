//! Instance identifiers: 128-bit values that are written as hyphenated
//! lower-case hexadecimal.

use vstd::prelude::*;

verus! {

/// The character of one hexadecimal digit, in lower case.
pub open spec fn hex_lower(d: int) -> char {
    if d == 0 {
        '0'
    } else if d == 1 {
        '1'
    } else if d == 2 {
        '2'
    } else if d == 3 {
        '3'
    } else if d == 4 {
        '4'
    } else if d == 5 {
        '5'
    } else if d == 6 {
        '6'
    } else if d == 7 {
        '7'
    } else if d == 8 {
        '8'
    } else if d == 9 {
        '9'
    } else if d == 10 {
        'a'
    } else if d == 11 {
        'b'
    } else if d == 12 {
        'c'
    } else if d == 13 {
        'd'
    } else if d == 14 {
        'e'
    } else {
        'f'
    }
}

/// The `k`-th hexadecimal digit of an identifier, counted from the most
/// significant one.
pub open spec fn id_digit(id: u128, k: int) -> int {
    ((id as int) / vstd::arithmetic::power::pow(16, (31 - k) as nat)) % 16
}

/// The character at position `i` of an identifier's text: hyphens after
/// the 8th, 12th, 16th and 20th digit.
pub open spec fn id_char(id: u128, i: int) -> char {
    if i == 8 || i == 13 || i == 18 || i == 23 {
        '-'
    } else if i < 8 {
        hex_lower(id_digit(id, i))
    } else if i < 13 {
        hex_lower(id_digit(id, i - 1))
    } else if i < 18 {
        hex_lower(id_digit(id, i - 2))
    } else if i < 23 {
        hex_lower(id_digit(id, i - 3))
    } else {
        hex_lower(id_digit(id, i - 4))
    }
}

/// The text of an identifier: 32 hexadecimal digits in groups of 8, 4, 4, 4
/// and 12.
pub open spec fn id_text(id: u128) -> Seq<char> {
    Seq::new(36, |i: int| id_char(id, i))
}

/// The bits of an identifier that hold its version and its variant.
pub open spec fn id_marks(id: u128) -> u128 {
    id & 0x0000_0000_0000_f000_c000_0000_0000_0000
}

/// Whether an identifier is marked as a random one: version 4, in the
/// variant of RFC 4122.
pub open spec fn is_random_id(id: u128) -> bool {
    id_marks(id) == 0x0000_0000_0000_4000_8000_0000_0000_0000
}

/// A random identifier is never the nil identifier.
pub proof fn lemma_random_id_not_nil(id: u128)
    requires
        is_random_id(id),
    ensures
        id != 0,
{
    assert(id & 0x0000_0000_0000_f000_c000_0000_0000_0000
        == 0x0000_0000_0000_4000_8000_0000_0000_0000 ==> id != 0) by (bit_vector);
}

/// Calls `uuid::Uuid::new_v4` and hands back the identifier's 128 bits
/// (`Uuid::as_u128`). The crate draws 128 random bits and then sets the
/// version to 4 and the variant to RFC 4122: only that is claimed. It
/// takes its randomness from the operating system.
#[verifier::external_body]
fn new_v4() -> (id: u128)
    ensures
        is_random_id(id),
{
    uuid::Uuid::new_v4().as_u128()
}

/// Calls `Display` of `uuid::Uuid` on the identifier made by
/// `Uuid::from_u128`: the hyphenated form in lower case, 36 characters.
#[verifier::external_body]
fn hyphenated(id: u128) -> (out: String)
    ensures
        out@ == id_text(id),
{
    uuid::Uuid::from_u128(id).to_string()
}

/// A fresh random identifier.
pub fn fresh_id() -> (id: u128)
    ensures
        is_random_id(id),
        id != 0,
{
    let id = new_v4();
    proof {
        lemma_random_id_not_nil(id);
    }
    id
}

/// Writes an identifier as text.
pub fn id_string(id: u128) -> (out: String)
    ensures
        out@ == id_text(id),
        out@.len() == 36,
{
    hyphenated(id)
}

} // verus!
