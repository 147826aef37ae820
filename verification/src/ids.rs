//! Sandbox ids: 128-bit numbers that travel as UUID text.

use vstd::prelude::*;

verus! {

/// The number that `s` names as a UUID, as `uuid::Uuid::parse_str` reads it.
pub uninterp spec fn uuid_parsed(s: Seq<char>) -> Option<u128>;

/// `uuid::Uuid::parse_str`, as a number, most significant byte first. Which
/// texts are accepted, and what they mean, depends on the text alone.
#[verifier::external_body]
pub(crate) fn parse_uuid(s: &str) -> (r: Option<u128>)
    ensures
        r == uuid_parsed(s@),
{
    uuid::Uuid::parse_str(s).ok().map(|u| u.as_u128())
}

/// The character of a hexadecimal digit.
pub open spec fn hex_char(d: u128) -> char {
    if d < 10 {
        (48 + d) as char
    } else {
        (87 + d) as char
    }
}

/// The hexadecimal digit of `id` that has `i` digits before it.
pub open spec fn hex_digit_at(id: u128, i: int) -> char {
    hex_char((id >> ((124 - 4 * i) as u128)) & 0xf)
}

/// The canonical text of a UUID: 32 lower-case hexadecimal digits in groups of
/// 8, 4, 4, 4 and 12.
pub open spec fn uuid_hyphenated(id: u128) -> Seq<char> {
    Seq::new(
        36,
        |i: int|
            if i == 8 || i == 13 || i == 18 || i == 23 {
                '-'
            } else if i < 8 {
                hex_digit_at(id, i)
            } else if i < 13 {
                hex_digit_at(id, i - 1)
            } else if i < 18 {
                hex_digit_at(id, i - 2)
            } else if i < 23 {
                hex_digit_at(id, i - 3)
            } else {
                hex_digit_at(id, i - 4)
            },
    )
}

/// The `Display` text of `uuid::Uuid`: the canonical text, from which
/// `uuid::Uuid::parse_str` reads the id back.
#[verifier::external_body]
pub(crate) fn uuid_text(id: u128) -> (r: String)
    ensures
        r@ == uuid_hyphenated(id),
        uuid_parsed(r@) == Some(id),
{
    uuid::Uuid::from_u128(id).to_string()
}

/// `id` is marked as a random UUID: version 4 of the standard variant.
pub open spec fn is_v4(id: u128) -> bool {
    (id >> 76u128) & 0xf == 4 && (id >> 62u128) & 0x3 == 2
}

/// `uuid::Uuid::new_v4`: 122 random bits, with the version and the variant set.
/// It panics where the system has no randomness to give.
#[verifier::external_body]
pub fn fresh_uuid() -> (r: u128)
    ensures
        is_v4(r),
{
    uuid::Uuid::new_v4().as_u128()
}

} // verus!
