//! Strings inside JSON documents, found by the `serde_json` crate.

use vstd::prelude::*;

verus! {

/// What `serde_json` finds at a JSON pointer of a document: the text of the
/// value there, where the document is JSON, the pointer leads to a value
/// and the value is a string; `None` otherwise.
pub uninterp spec fn json_string_at(document: Seq<char>, pointer: Seq<char>) -> Option<Seq<char>>;

/// Calls `serde_json::Value::pointer` on the document, read by
/// `serde_json::from_str`, and takes what is found by `Value::as_str`.
/// Trusted: the text that comes back is the one named `json_string_at`.
#[verifier::external_body]
pub(crate) fn string_at(document: &str, pointer: &str) -> (found: Option<String>)
    ensures
        match found {
            Some(text) => json_string_at(document@, pointer@) == Some(text@),
            None => json_string_at(document@, pointer@) is None,
        },
{
    let value: serde_json::Value = serde_json::from_str(document).ok()?;
    value.pointer(pointer)?.as_str().map(str::to_owned)
}

} // verus!
