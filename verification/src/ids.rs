use vstd::prelude::*;

use uuid::Uuid;

verus! {

/// The lowercase hexadecimal digit of `n` (0..=15).
pub open spec fn hex_digit(n: int) -> char {
    if n < 10 {
        (n + 48) as char
    } else {
        (n + 87) as char
    }
}

/// Nibble `i` of `id`, counted from the most significant (0..=31).
pub open spec fn id_nibble(id: u128, i: int) -> int {
    (id as int / vstd::arithmetic::power::pow(16, (31 - i) as nat)) % 16
}

/// The nibble shown at position `j` of the hyphenated text.
pub open spec fn text_nibble(j: int) -> int {
    if j < 8 {
        j
    } else if j < 13 {
        j - 1
    } else if j < 18 {
        j - 2
    } else if j < 23 {
        j - 3
    } else {
        j - 4
    }
}

/// The hyphenated lowercase text of a 128-bit id: its 32 nibbles from the
/// most significant, grouped 8-4-4-4-12.
pub open spec fn id_text(id: u128) -> Seq<char> {
    Seq::new(
        36,
        |j: int|
            if j == 8 || j == 13 || j == 18 || j == 23 {
                '-'
            } else {
                hex_digit(id_nibble(id, text_nibble(j)))
            },
    )
}

/// The text of `Uuid::from_u128(id)` as uuid's `Display` writes it: the
/// hyphenated lowercase form of the id's big-endian bytes.
#[verifier::external_body]
pub(crate) fn id_to_text(id: u128) -> (text: String)
    ensures
        text@ == id_text(id),
{
    Uuid::from_u128(id).to_string()
}

/// A fresh random id from uuid's `Uuid::new_v4`, as a `u128`. Its version
/// nibble reads 4 and its variant bits read `10`; the other bits are random,
/// so nothing more is promised.
#[verifier::external_body]
pub(crate) fn random_instance_id() -> (id: u128)
    ensures
        id_nibble(id, 12) == 4,
        (id as int / vstd::arithmetic::power::pow(2, 62)) % 4 == 2,
{
    Uuid::new_v4().as_u128()
}

} // verus!
