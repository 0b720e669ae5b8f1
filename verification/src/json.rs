//! Reading a text out of a JSON document.

use vstd::prelude::*;
use crate::text::text_view;

verus! {

/// The text that a JSON document holds at a JSON pointer: what
/// `serde_json::from_str` followed by `serde_json::Value::pointer` finds, where
/// `document` is JSON and the value found there is a string; `None` otherwise.
pub uninterp spec fn json_string_at(document: Seq<char>, pointer: Seq<char>) -> Option<Seq<char>>;

/// Parses `document` with `serde_json::from_str`, looks `pointer` up in it with
/// `serde_json::Value::pointer`, and hands out the value found where it is a
/// string. Trusted: the result is what [`json_string_at`] names.
#[verifier::external_body]
pub(crate) fn read_string_at(document: &str, pointer: &str) -> (found: Option<String>)
    ensures
        text_view(found) == json_string_at(document@, pointer@),
{
    match serde_json::from_str::<serde_json::Value>(document) {
        Ok(value) => match value.pointer(pointer) {
            Some(serde_json::Value::String(text)) => Some(text.clone()),
            _ => None,
        },
        Err(_) => None,
    }
}

} // verus!
