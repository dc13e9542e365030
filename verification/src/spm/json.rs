//! Reading JSON documents with `serde_json`.

use vstd::prelude::*;

verus! {

/// A parsed document, `serde_json::Value`.
#[verifier::external_type_specification]
#[verifier::external_body]
pub struct ExValue(serde_json::Value);

/// The members of the object `v` whose value is a string, by name; none where
/// `v` is no object.
pub uninterp spec fn string_members(v: serde_json::Value) -> Map<Seq<char>, Seq<char>>;

/// What `serde_json::from_slice` makes of the bytes `raw` read as a document: its
/// string members, or the debug text of the error.
pub uninterp spec fn json_outcome(raw: Seq<u8>) -> Result<Map<Seq<char>, Seq<char>>, Seq<char>>;

/// Calls `serde_json::from_slice` for a `serde_json::Value`. Claims that success
/// or failure, the string members of the document and the debug text of the error
/// are determined by the bytes.
#[verifier::external_body]
pub(crate) fn parse_json(raw: &[u8]) -> (res: Result<serde_json::Value, String>)
    ensures
        match res {
            Ok(v) => json_outcome(raw@) == Ok::<Map<Seq<char>, Seq<char>>, Seq<char>>(
                string_members(v),
            ),
            Err(cause) => json_outcome(raw@) == Err::<Map<Seq<char>, Seq<char>>, Seq<char>>(
                cause@,
            ),
        },
{
    serde_json::from_slice::<serde_json::Value>(raw).map_err(|e| format!("{:?}", e))
}

/// Calls `serde_json::Value::get` with a member name, then
/// `serde_json::Value::as_str` on what it found. Claims that the text comes out
/// exactly where `v` is an object with a member of that name that is a string.
#[verifier::external_body]
pub(crate) fn string_member<'a>(v: &'a serde_json::Value, name: &str) -> (res: Option<&'a str>)
    ensures
        match res {
            Some(member) => string_members(*v).contains_key(name@) && string_members(*v)[name@]
                == member@,
            None => !string_members(*v).contains_key(name@),
        },
{
    match v.get(name) {
        Some(member) => member.as_str(),
        None => None,
    }
}

} // verus!
