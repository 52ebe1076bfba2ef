//! Report ids (UUIDs kept as 128-bit numbers) and base64, through the `uuid`
//! and `base64` crates.
use base64::Engine;
use vstd::arithmetic::power::pow;
use vstd::prelude::*;

verus! {

/// What `Uuid::parse_str` reads from a text, as the 128-bit value of the UUID
/// (`Uuid::as_u128`), or `None` where it refuses the text.
pub uninterp spec fn uuid_parsed(text: Seq<char>) -> Option<u128>;

/// What the standard base64 engine (`general_purpose::STANDARD.decode`)
/// decodes from the bytes of a text, or `None` where it refuses them.
pub uninterp spec fn base64_decoded(text: Seq<char>) -> Option<Seq<u8>>;

/// A lower-case hexadecimal digit.
pub open spec fn hex_char(d: int) -> char {
    if d < 10 {
        (('0' as int) + d) as char
    } else {
        (('a' as int) + d - 10) as char
    }
}

/// The `k`-th hexadecimal digit of `id`, the most significant first.
pub open spec fn hex_digit(id: u128, k: int) -> int {
    ((id as int) / pow(16, (31 - k) as nat)) % 16
}

/// The number of hyphens before position `i` of a hyphenated UUID.
pub open spec fn hyphens_before(i: int) -> int {
    if i < 9 {
        0
    } else if i < 14 {
        1
    } else if i < 19 {
        2
    } else if i < 24 {
        3
    } else {
        4
    }
}

/// The hyphenated lower-case text of a UUID (8-4-4-4-12 hexadecimal digits).
pub open spec fn uuid_text(id: u128) -> Seq<char> {
    Seq::new(
        36,
        |i: int|
            if i == 8 || i == 13 || i == 18 || i == 23 {
                '-'
            } else {
                hex_char(hex_digit(id, i - hyphens_before(i)))
            },
    )
}

/// A fresh random report id: `Uuid::new_v4`, as its 128-bit value. Nothing is
/// stated of the value, which is random.
#[verifier::external_body]
pub(crate) fn new_report_id() -> u128 {
    uuid::Uuid::new_v4().as_u128()
}

/// The text of a report id: `Uuid::from_u128(id).to_string()`, which `uuid`
/// writes hyphenated in lower case; `Uuid::parse_str` reads that text back as
/// the same id.
#[verifier::external_body]
pub(crate) fn report_id_text(id: u128) -> (r: String)
    ensures
        r@ == uuid_text(id),
        uuid_parsed(r@) == Some(id),
{
    uuid::Uuid::from_u128(id).to_string()
}

/// Reads a report id: `Uuid::parse_str(text)`, as its 128-bit value.
#[verifier::external_body]
pub(crate) fn parse_report_id(text: &str) -> (r: Option<u128>)
    ensures
        r == uuid_parsed(text@),
{
    match uuid::Uuid::parse_str(text) {
        Ok(u) => Some(u.as_u128()),
        Err(_) => None,
    }
}

/// Decodes standard base64 (`general_purpose::STANDARD.decode`) from the bytes
/// of a text.
#[verifier::external_body]
pub(crate) fn decode_base64(text: &str) -> (r: Option<Vec<u8>>)
    ensures
        r is Some == base64_decoded(text@) is Some,
        r is Some ==> r->0@ == base64_decoded(text@)->0,
{
    match base64::engine::general_purpose::STANDARD.decode(text) {
        Ok(bytes) => Some(bytes),
        Err(_) => None,
    }
}

} // verus!
