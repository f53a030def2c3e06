//! Account identifiers as the `uuid` crate writes and reads them. The crate
//! itself holds an identifier as its 128-bit value.

use vstd::prelude::*;

verus! {

/// The hyphenated lower-case text of the identifier with value `id`.
pub uninterp spec fn uuid_text(id: u128) -> Seq<char>;

/// The value of the identifier that `text` spells, in any of the forms that
/// `uuid` reads, or `None` where it spells none.
pub uninterp spec fn uuid_value(text: Seq<char>) -> Option<u128>;

/// `uuid::Uuid::from_u128`, then `hyphenated().to_string()`. Claimed besides
/// the name: the text reads back as the same identifier, since the parser
/// accepts every form that the crate writes.
#[verifier::external_body]
pub(crate) fn uuid_format(id: u128) -> (text: String)
    ensures
        text@ == uuid_text(id),
        uuid_value(text@) == Some(id),
{
    uuid::Uuid::from_u128(id).hyphenated().to_string()
}

/// `uuid::Uuid::parse_str`, then `as_u128` on success; `None` where the
/// parser reports an error.
#[verifier::external_body]
pub(crate) fn uuid_parse(text: &str) -> (id: Option<u128>)
    ensures
        id == uuid_value(text@),
{
    match uuid::Uuid::parse_str(text) {
        Ok(parsed) => Some(parsed.as_u128()),
        Err(_) => None,
    }
}

} // verus!
