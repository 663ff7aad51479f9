//! Identifiers: UUIDs are held as their 128-bit values.
use vstd::prelude::*;

verus! {

/// The value that `uuid::Uuid::from_str` gives for `text`, or `None` where it refuses it.
pub uninterp spec fn uuid_parse(text: Seq<char>) -> Option<u128>;

/// A lowercase hexadecimal digit or a hyphen.
pub open spec fn is_hyphenated_hex_char(c: char) -> bool {
    ('0' <= c && c <= '9') || ('a' <= c && c <= 'f') || c == '-'
}

/// Calls `uuid::Uuid::from_str` (`str::parse`) and takes the 128-bit value.
/// Claimed: the result is `uuid_parse` of the text.
#[verifier::external_body]
pub(crate) fn parse_uuid(text: &str) -> (r: Option<u128>)
    ensures
        r == uuid_parse(text@),
{
    match text.parse::<uuid::Uuid>() {
        Ok(u) => Some(u.as_u128()),
        Err(_) => None,
    }
}

/// Calls `uuid::Uuid::new_v4` and renders it with `to_string`.
/// Claimed: the hyphenated lowercase form, 36 characters of hex digits and hyphens.
/// The value is random and left open.
#[verifier::external_body]
pub(crate) fn fresh_object_key() -> (r: String)
    ensures
        r@.len() == 36,
        forall|i: int| 0 <= i < r@.len() ==> is_hyphenated_hex_char(#[trigger] r@[i]),
{
    uuid::Uuid::new_v4().to_string()
}

} // verus!
