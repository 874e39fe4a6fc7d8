//! Identifiers as 128-bit values, with the outside UUID crate supplying
//! the canonical text form, parsing, and fresh random identifiers.

use vstd::prelude::*;

verus! {

/// The canonical (hyphenated, lower-case) text form of an identifier.
pub uninterp spec fn uuid_str_of(id: u128) -> Seq<char>;

/// The identifier a text form parses to, if any.
pub uninterp spec fn parsed_uuid_of(s: Seq<char>) -> Option<u128>;

/// Relies on uuid::Uuid::to_string: the canonical hyphenated form, a
/// function of the value alone.
#[verifier::external_body]
pub(crate) fn format_uuid(id: u128) -> (s: String)
    ensures
        s@ == uuid_str_of(id),
{
    uuid::Uuid::from_u128(id).to_string()
}

/// Relies on uuid::Uuid::parse_str: parsing is a function of the text
/// alone, and the canonical form of a value parses back to that value.
#[verifier::external_body]
pub(crate) fn parse_uuid(s: &str) -> (r: Option<u128>)
    ensures
        r == parsed_uuid_of(s@),
        forall|id: u128| s@ == uuid_str_of(id) ==> r == Some(id),
{
    match uuid::Uuid::parse_str(s) {
        Ok(u) => Some(u.as_u128()),
        Err(_) => None,
    }
}

/// Relies on uuid::Uuid::new_v4: a randomly drawn identifier. Nothing is
/// assumed of the value; callers check it against the store themselves.
#[verifier::external_body]
pub(crate) fn fresh_id() -> u128 {
    uuid::Uuid::new_v4().as_u128()
}

} // verus!
