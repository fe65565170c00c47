//! JSON text, as `serde_json` writes it.

use vstd::prelude::*;

verus! {

/// Whether a JSON string holds `c` behind a backslash: the quote, the
/// backslash itself and the control characters below the space.
pub open spec fn is_escaped(c: char) -> bool {
    c == '"' || c == '\\' || (c as u32) < 0x20
}

/// Whether a JSON string holds `text` as it stands, no character of it
/// escaped.
pub open spec fn is_plain(text: Seq<char>) -> bool {
    forall|i: int| 0 <= i < text.len() ==> !is_escaped(#[trigger] text[i])
}

/// The text of the JSON object with the one member `key`, whose value is the
/// string `value`, in the compact form of `serde_json`.
pub uninterp spec fn json_member_text(key: Seq<char>, value: Seq<char>) -> Seq<char>;

/// The compact JSON object with one member when nothing in it is escaped:
/// key and value in quotes, a colon between them, in braces.
pub open spec fn plain_member_text(key: Seq<char>, value: Seq<char>) -> Seq<char> {
    "{\""@ + key + "\":\""@ + value + "\"}"@
}

/// Writes the JSON object with the one member `key`, whose value is the
/// string `value`.
///
/// Not verified: the body builds a `serde_json::Value::Object` of that one
/// member and has `serde_json` write it through `Value`'s `Display`
/// (`to_string`), which serialises in the compact form and cannot fail on a
/// value made of strings. The contract claims that key and value determine
/// the text, and spells the text out where `serde_json` escapes nothing: it
/// escapes the quote, the backslash and the characters below the space, and
/// writes every other character as it is.
#[verifier::external_body]
pub(crate) fn write_member(key: &str, value: &str) -> (text: String)
    ensures
        text@ == json_member_text(key@, value@),
        is_plain(key@) && is_plain(value@) ==> text@ == plain_member_text(key@, value@),
{
    let mut members = serde_json::Map::new();
    members.insert(String::from(key), serde_json::Value::String(String::from(value)));
    serde_json::Value::Object(members).to_string()
}

} // verus!
