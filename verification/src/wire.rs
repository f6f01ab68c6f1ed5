//! What the rewards API expects on the wire: JSON objects as request bodies
//! and header values that an HTTP client will take.

use vstd::prelude::*;

verus! {

/// The characters that a JSON string holds as they are: everything from the
/// space upwards but the quotation mark and the backslash.
pub open spec fn is_unescaped_char(c: char) -> bool {
    c as u32 >= 32 && c != '"' && c != '\\'
}

/// The texts that a JSON string holds as they are.
pub open spec fn is_unescaped_text(text: Seq<char>) -> bool {
    forall|i: int| 0 <= i < text.len() ==> is_unescaped_char(#[trigger] text[i])
}

/// The compact JSON text of the object with the one field `key`, whose value
/// is the string `value`, as `serde_json` writes it.
pub uninterp spec fn json_written(key: Seq<char>, value: Seq<char>) -> Seq<char>;

/// The two strings between quotation marks, a colon between them, in braces.
pub open spec fn json_framed(key: Seq<char>, value: Seq<char>) -> Seq<char> {
    "{\""@ + key + "\":\""@ + value + "\"}"@
}

/// The compact JSON text of the object with the one field `key`, whose value
/// is the string `value`: the two as they are, framed, where neither holds a
/// character to escape, and else what `serde_json` writes.
pub open spec fn json_object_text(key: Seq<char>, value: Seq<char>) -> Seq<char> {
    if is_unescaped_text(key) && is_unescaped_text(value) {
        json_framed(key, value)
    } else {
        json_written(key, value)
    }
}

/// Writes the JSON object `{key: value}` by `serde_json`'s `Display` for
/// `Value` (`to_string`), in its compact form. Trusted: the text depends on
/// the two strings alone, and a key and a value without quotation mark,
/// backslash and control character are written as they are, since
/// `serde_json` escapes those characters and no others.
#[verifier::external_body]
pub(crate) fn json_object(key: &str, value: &str) -> (text: String)
    ensures
        text@ == json_written(key@, value@),
        is_unescaped_text(key@) && is_unescaped_text(value@) ==> text@ == json_framed(
            key@,
            value@,
        ),
{
    let mut fields = serde_json::Map::new();
    fields.insert(key.to_owned(), serde_json::Value::String(value.to_owned()));
    serde_json::Value::Object(fields).to_string()
}

/// The characters that may stand in a header value: the tab, and everything
/// from the space upwards but the delete character.
pub open spec fn is_header_char(c: char) -> bool {
    c == '\t' || (c as u32 >= 32 && c as u32 != 127)
}

/// The texts that an HTTP client takes as a header value.
pub open spec fn is_header_text(text: Seq<char>) -> bool {
    forall|i: int| 0 <= i < text.len() ==> is_header_char(#[trigger] text[i])
}

/// Asks `HeaderValue::from_str` of the `http` crate, which `reqwest` hands on
/// as `reqwest::header`, whether it takes `text`. Trusted: it refuses a text
/// exactly when one of its bytes is below 32 and no tab, or is 127. A
/// character below 128 is one byte of its own value and every byte of any
/// other character is at least 128, so this is `is_header_text`.
#[verifier::external_body]
pub(crate) fn parses_as_header_value(text: &str) -> (accepted: bool)
    ensures
        accepted == is_header_text(text@),
{
    reqwest::header::HeaderValue::from_str(text).is_ok()
}

} // verus!
