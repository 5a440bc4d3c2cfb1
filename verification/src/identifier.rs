//! User ids as text: the hyphenated form of a UUID and back.
use uuid::Uuid;
use vstd::prelude::*;

verus! {

/// The error of `Uuid::parse_str`, carried as it is.
#[verifier::external_type_specification]
#[verifier::external_body]
pub struct ExUuidError(uuid::Error);

/// The lower-case hexadecimal digit of a value below sixteen.
pub open spec fn hex_digit(value: int) -> char {
    "0123456789abcdef"@[value]
}

/// Of the 32 groups of four bits of `id`, the one at `index`, counted from
/// the most significant.
pub open spec fn nibble(id: u128, index: int) -> int {
    ((id >> ((4 * (31 - index)) as u128)) & 0xf) as int
}

/// How many hyphens stand before a position of the hyphenated form.
pub open spec fn hyphens_before(position: int) -> int {
    if position > 23 {
        4
    } else if position > 18 {
        3
    } else if position > 13 {
        2
    } else if position > 8 {
        1
    } else {
        0
    }
}

/// The hyphenated form of a user id: its 32 hexadecimal digits in lower
/// case, most significant first, in groups of 8, 4, 4, 4 and 12.
pub open spec fn uuid_text(id: u128) -> Seq<char> {
    Seq::new(
        36,
        |position: int|
            if position == 8 || position == 13 || position == 18 || position == 23 {
                '-'
            } else {
                hex_digit(nibble(id, position - hyphens_before(position)))
            },
    )
}

/// What `Uuid::parse_str` makes of a text: the id where the text is a UUID
/// in one of the forms that the parser knows.
pub uninterp spec fn uuid_parse(text: Seq<char>) -> Option<u128>;

/// `Uuid::to_string` on the UUID with the given bits: the hyphenated
/// lower-case form, which `Uuid::parse_str` reads back as the same UUID.
#[verifier::external_body]
pub(crate) fn format_uuid(id: u128) -> (text: String)
    ensures
        text@ == uuid_text(id),
        uuid_parse(text@) == Some(id),
{
    Uuid::from_u128(id).to_string()
}

/// `Uuid::parse_str`, with the UUID given by its bits.
#[verifier::external_body]
pub(crate) fn parse_uuid(text: &str) -> (parsed: Result<u128, uuid::Error>)
    ensures
        match parsed {
            Ok(id) => uuid_parse(text@) == Some(id),
            Err(_) => uuid_parse(text@) is None,
        },
{
    match Uuid::parse_str(text) {
        Ok(uuid) => Ok(uuid.as_u128()),
        Err(error) => Err(error),
    }
}

} // verus!
