//! What the bytes of a JSON text hold.

use vstd::prelude::*;

use crate::telegram::commands::opt_view;

verus! {

/// Whether `serde_json` reads the bytes as a JSON value.
pub uninterp spec fn is_json(body: Seq<u8>) -> bool;

/// The string that a JSON value holds at a path, as `serde_json` reads it.
pub uninterp spec fn json_text(body: Seq<u8>, path: Seq<char>) -> Option<Seq<char>>;

/// The length of the list that a JSON value holds at a path, as `serde_json` reads it.
pub uninterp spec fn json_len(body: Seq<u8>, path: Seq<char>) -> Option<usize>;

/// `serde_json::from_slice` into a `serde_json::Value`: whether it succeeds. Which bytes
/// are JSON is left to `serde_json`.
#[verifier::external_body]
pub(crate) fn reads_as_json(body: &[u8]) -> (r: bool)
    ensures
        r == is_json(body@),
{
    serde_json::from_slice::<serde_json::Value>(body).is_ok()
}

/// `serde_json::Value::pointer`, then `Value::as_str`, on the value that the bytes write:
/// the string at a path such as `/0/name`. There is none when the bytes are no JSON, the
/// path leads nowhere, or to no string. What lies at a path is left to `serde_json`.
#[verifier::external_body]
pub(crate) fn text_at(body: &[u8], path: &str) -> (r: Option<String>)
    ensures
        opt_view(r) == json_text(body@, path@),
{
    let value = serde_json::from_slice::<serde_json::Value>(body).ok()?;
    value.pointer(path)?.as_str().map(|s| s.to_string())
}

/// `serde_json::Value::pointer`, then `Value::as_array`, on the value that the bytes write:
/// the length of the list at a path; the empty path is the whole value. There is none when
/// the bytes are no JSON, the path leads nowhere, or to no list. What lies at a path is left
/// to `serde_json`.
#[verifier::external_body]
pub(crate) fn len_at(body: &[u8], path: &str) -> (r: Option<usize>)
    ensures
        r == json_len(body@, path@),
{
    let value = serde_json::from_slice::<serde_json::Value>(body).ok()?;
    value.pointer(path)?.as_array().map(|a| a.len())
}

/// There is a list at the path, and it is not empty.
pub open spec fn has_items(body: Seq<u8>, path: Seq<char>) -> bool {
    match json_len(body, path) {
        Some(n) => n > 0,
        None => false,
    }
}

pub(crate) fn any_at(body: &[u8], path: &str) -> (r: bool)
    ensures
        r == has_items(body@, path@),
{
    match len_at(body, path) {
        Some(n) => n > 0,
        None => false,
    }
}

} // verus!
