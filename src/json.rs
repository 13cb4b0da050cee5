//! What the library reads out of JSON texts, and how it writes strings as
//! JSON, both through serde_json.
use vstd::prelude::*;

verus! {

#[verifier::external_type_specification]
#[verifier::external_body]
pub struct ExError(serde_json::Error);

/// Whether serde_json accepts a text as one JSON document.
pub uninterp spec fn is_json(s: Seq<char>) -> bool;

/// The string that serde_json finds in a text at a JSON Pointer: `None`
/// when the text is no JSON document, when nothing is there, or when what
/// is there is no string.
pub uninterp spec fn json_str_at(text: Seq<char>, pointer: Seq<char>) -> Option<Seq<char>>;

/// Whether serde_json finds an array in a text at a JSON Pointer.
pub uninterp spec fn json_is_array_at(text: Seq<char>, pointer: Seq<char>) -> bool;

/// Relies on `serde_json::from_str` into a `Value`, then `Value::pointer`
/// and `Value::as_str`: the string at `pointer` of the parsed text, which
/// depends on the two texts alone.
#[verifier::external_body]
pub fn str_at(text: &str, pointer: &str) -> (r: Option<String>)
    ensures
        r matches Some(s) ==> json_str_at(text@, pointer@) == Some(s@),
        r is None ==> json_str_at(text@, pointer@) is None,
        !is_json(text@) ==> r is None,
{
    match serde_json::from_str::<serde_json::Value>(text) {
        Ok(v) => v.pointer(pointer).and_then(|x| x.as_str()).map(|t| t.to_owned()),
        Err(_) => None,
    }
}

/// Relies on `serde_json::from_str` into a `Value`, then `Value::pointer`
/// and `Value::is_array`: whether an array stands at `pointer` of the
/// parsed text, which depends on the two texts alone.
#[verifier::external_body]
pub fn is_array_at(text: &str, pointer: &str) -> (r: bool)
    ensures
        r == json_is_array_at(text@, pointer@),
        !is_json(text@) ==> !r,
{
    match serde_json::from_str::<serde_json::Value>(text) {
        Ok(v) => v.pointer(pointer).is_some_and(|x| x.is_array()),
        Err(_) => false,
    }
}

/// Relies on `serde_json::from_str` into a `Value`: whether the text is one
/// JSON document. Where it is not, `str_at` and `is_array_at` find nothing
/// at any pointer, since they parse the same text the same way.
#[verifier::external_body]
pub fn parses(text: &str) -> (r: bool)
    ensures
        r == is_json(text@),
        !r ==> forall|p: Seq<char>| #[trigger] json_str_at(text@, p) is None,
        !r ==> forall|p: Seq<char>| !#[trigger] json_is_array_at(text@, p),
{
    serde_json::from_str::<serde_json::Value>(text).is_ok()
}

/// The JSON text of a string: quoted, with escapes.
pub uninterp spec fn json_quoted(s: Seq<char>) -> Seq<char>;

/// Relies on `serde_json::to_string` of a `str`: a string always serialises,
/// since it is written into a `Vec`, which takes every write.
#[verifier::external_body]
pub fn quote(s: &str) -> (r: Result<String, serde_json::Error>)
    ensures
        r is Ok,
        r->Ok_0@ == json_quoted(s@),
{
    serde_json::to_string(s)
}

} // verus!
