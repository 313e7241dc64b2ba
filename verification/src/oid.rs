//! Identities that the store assigns, in their text form.

use vstd::prelude::*;

verus! {

/// A hexadecimal digit, in either case.
pub open spec fn is_hex_digit(c: char) -> bool {
    ('0' <= c && c <= '9') || ('a' <= c && c <= 'f') || ('A' <= c && c <= 'F')
}

/// The text of an identity: exactly 24 hexadecimal digits.
pub open spec fn is_object_id(text: Seq<char>) -> bool {
    text.len() == 24 && forall|i: int| 0 <= i < text.len() ==> is_hex_digit(#[trigger] text[i])
}

/// Calls `ObjectId::new` and `ObjectId::to_hex` of bson. A new identity
/// depends on the clock, the process and a counter, so the contract claims
/// only its shape: `to_hex` writes the twelve bytes as 24 hexadecimal digits.
#[verifier::external_body]
pub(crate) fn new_object_id() -> (id: String)
    ensures
        is_object_id(id@),
{
    mongodb::bson::oid::ObjectId::new().to_hex()
}

/// Calls `ObjectId::parse_str` of bson, which decodes the text as
/// hexadecimal and accepts it where that gives twelve bytes: the text is
/// 24 hexadecimal digits.
#[verifier::external_body]
pub(crate) fn parses_as_object_id(text: &str) -> (ok: bool)
    ensures
        ok == is_object_id(text@),
{
    mongodb::bson::oid::ObjectId::parse_str(text).is_ok()
}

/// Whether a text is the text of an identity.
pub fn is_valid_id(text: &str) -> (ok: bool)
    ensures
        ok == is_object_id(text@),
{
    parses_as_object_id(text)
}

} // verus!
