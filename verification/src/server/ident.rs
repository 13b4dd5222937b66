//! Identifiers. An identifier is a UUID, held as the 128-bit number that its
//! sixteen bytes spell in big-endian order, so that `<` on the number is the
//! order of the UUIDs.

use vstd::prelude::*;

verus! {

/// A UUID as a 128-bit number (big-endian reading of its bytes).
pub type Id = u128;

/// Whether `id` carries the version and variant marks of a random UUID:
/// version nibble 4, variant bits `10`.
pub open spec fn is_random_id(id: Id) -> bool {
    (id >> 76u128) & 0xfu128 == 4u128 && (id >> 62u128) & 0x3u128 == 2u128
}

/// The lower-case hexadecimal digit for a number below sixteen.
pub open spec fn hex_digit(n: u128) -> char {
    if n < 10 {
        (48 + n) as char
    } else {
        (87 + n) as char
    }
}

/// Whether a hyphen stands at place `i` of an identifier's text.
pub open spec fn is_hyphen_place(i: int) -> bool {
    i == 8 || i == 13 || i == 18 || i == 23
}

/// Which of the 32 digits stands at place `i` of an identifier's text,
/// counted from the most significant.
pub open spec fn digit_at_place(i: int) -> int {
    if i < 8 {
        i
    } else if i < 13 {
        i - 1
    } else if i < 18 {
        i - 2
    } else if i < 23 {
        i - 3
    } else {
        i - 4
    }
}

/// Digit `k` of an identifier, counted from the most significant.
pub open spec fn nibble(id: Id, k: int) -> u128 {
    (id >> ((4 * (31 - k)) as u128)) & 0xf
}

/// The text of an identifier: 36 characters, the 32 lower-case hexadecimal
/// digits of the number in groups of 8-4-4-4-12 joined by hyphens.
pub open spec fn id_text(id: Id) -> Seq<char> {
    Seq::new(
        36,
        |i: int|
            if is_hyphen_place(i) {
                '-'
            } else {
                hex_digit(nibble(id, digit_at_place(i)))
            },
    )
}

/// What `uuid` reads from a text: the identifier it spells, or `None` where
/// the text is no UUID in any of the forms that `uuid` accepts.
pub uninterp spec fn id_parsed(text: Seq<char>) -> Option<Id>;

/// `uuid::Error`, carried as it is: nothing of its inside is known here.
#[verifier::external_type_specification]
#[verifier::external_body]
pub struct ExUuidError(uuid::Error);

/// `uuid::Uuid::new_v4`: a fresh random identifier. Nothing is claimed of the
/// random bits; the version and variant marks are those of a random UUID.
#[verifier::external_body]
pub(crate) fn fresh_id() -> (id: Id)
    ensures
        is_random_id(id),
{
    uuid::Uuid::new_v4().as_u128()
}

/// `uuid::Uuid::parse_str`: the identifier that `text` spells, or the error
/// of the `uuid` crate. The result is a function of the text alone.
#[verifier::external_body]
pub(crate) fn parse_id(text: &str) -> (r: Result<Id, uuid::Error>)
    ensures
        r matches Ok(id) ==> id_parsed(text@) == Some(id),
        r is Err ==> id_parsed(text@) is None,
{
    match uuid::Uuid::parse_str(text) {
        Ok(u) => Ok(u.as_u128()),
        Err(e) => Err(e),
    }
}

/// The `Display` form of `uuid::Uuid`: the hyphenated lower-case text of the
/// identifier, digit by digit as `id_text` spells it, which `parse_id`
/// reads back to the same identifier.
#[verifier::external_body]
pub(crate) fn id_to_string(id: Id) -> (text: String)
    ensures
        text@ == id_text(id),
        id_parsed(text@) == Some(id),
{
    uuid::Uuid::from_u128(id).to_string()
}

} // verus!
