//! Reading a member of a JSON document.

use vstd::prelude::*;

verus! {

/// The text under `key` in the JSON document `content`, as `serde_json`
/// reads it: there is one where `content` is a JSON document, the document
/// is an object, the object has the member `key`, and that member is a
/// string.
pub uninterp spec fn json_text_member(content: Seq<char>, key: Seq<char>) -> Option<Seq<char>>;

/// `serde_json::from_str` to a `serde_json::Value`, then `Value::get` with
/// `key` and `Value::as_str`. Text that is no JSON document gives nothing,
/// as does a document without such a member.
#[verifier::external_body]
pub(crate) fn text_member(content: &str, key: &str) -> (text: Option<String>)
    ensures
        match text {
            Some(t) => json_text_member(content@, key@) == Some(t@),
            None => json_text_member(content@, key@) is None,
        },
{
    match serde_json::from_str::<serde_json::Value>(content) {
        Ok(value) => value.get(key).and_then(|member| member.as_str()).map(|s| s.to_string()),
        Err(_) => None,
    }
}

} // verus!
