//! Public identifiers: 128-bit UUID values and their text form.

use vstd::prelude::*;

verus! {

/// The UUID that `uuid::Uuid::parse_str` reads from a text, as its 128-bit
/// value; `None` where it refuses the text.
pub uninterp spec fn uuid_of_text(text: Seq<char>) -> Option<u128>;

/// The text that `uuid::Uuid` displays for a 128-bit value: 32 lower-case
/// hexadecimal digits in five hyphenated groups.
pub uninterp spec fn text_of_uuid(id: u128) -> Seq<char>;

/// `uuid::Uuid::parse_str`, with the UUID handed back as its 128-bit value
/// (`Uuid::as_u128`). The result is a function of the text alone.
#[verifier::external_body]
pub(crate) fn parse_uuid(text: &str) -> (r: Option<u128>)
    ensures
        r == uuid_of_text(text@),
{
    uuid::Uuid::parse_str(text).ok().map(|id| id.as_u128())
}

/// The `Display` text of the `uuid::Uuid` with 128-bit value `id`
/// (`Uuid::from_u128`). `parse_str` is documented to read every format that
/// the crate writes, so the text parses back to `id`.
#[verifier::external_body]
pub(crate) fn format_uuid(id: u128) -> (r: String)
    ensures
        r@ == text_of_uuid(id),
        uuid_of_text(r@) == Some(id),
{
    uuid::Uuid::from_u128(id).to_string()
}

/// Reads a public identifier from its text form.
pub fn parse_public_id(text: &str) -> (r: Option<u128>)
    ensures
        r == uuid_of_text(text@),
{
    parse_uuid(text)
}

/// Writes a public identifier in its text form. The text reads back as the
/// same identifier.
pub fn public_id_text(id: u128) -> (r: String)
    ensures
        r@ == text_of_uuid(id),
        uuid_of_text(r@) == Some(id),
{
    format_uuid(id)
}

} // verus!
