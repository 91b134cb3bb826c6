//! Opaque 128-bit identifiers and their canonical textual form.
//!
//! Account ids and verification tokens are 128-bit values drawn at random;
//! on the wire they travel as canonical textual UUIDs.

use vstd::prelude::*;

verus! {

/// What `uuid::Uuid::parse_str` yields for a piece of text: the 128-bit
/// value of the identifier it denotes, or nothing when the text is not a
/// textual UUID. Parsing is a pure function of the text.
pub uninterp spec fn uuid_parse(s: Seq<char>) -> Option<u128>;

/// Relies on `uuid::Uuid::parse_str`, converting the parsed identifier to
/// its 128-bit value; a parse failure becomes `None`.
#[verifier::external_body]
pub(crate) fn parse_uuid(s: &str) -> (r: Option<u128>)
    ensures
        r == uuid_parse(s@),
{
    uuid::Uuid::parse_str(s).ok().map(|u| u.as_u128())
}

/// Relies on `uuid::Uuid::new_v4`: a freshly drawn random identifier.
/// Nothing is promised of the value; callers must check for collisions.
/// The call has no fallible form and aborts the process if the operating
/// system's randomness source fails — an environmental condition, not one
/// any input can avoid.
#[verifier::external_body]
pub(crate) fn fresh_uuid() -> (r: u128)
{
    uuid::Uuid::new_v4().as_u128()
}

/// Relies on `uuid::Uuid::to_string` (through `from_u128`): the canonical
/// hyphenated text of the identifier, which `uuid::Uuid::parse_str` parses
/// back to the same 128-bit value.
#[verifier::external_body]
pub(crate) fn uuid_text(v: u128) -> (r: String)
    ensures
        uuid_parse(r@) == Some(v),
{
    uuid::Uuid::from_u128(v).to_string()
}

} // verus!
