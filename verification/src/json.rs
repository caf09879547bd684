use vstd::prelude::*;

verus! {

#[verifier::external_type_specification]
#[verifier::external_body]
pub struct ExJsonValue(serde_json::Value);

/// What `serde_json::from_str::<serde_json::Value>` makes of a text: `None`
/// where it parses, the parser's error message where it does not.
pub uninterp spec fn json_parse_error(text: Seq<char>) -> Option<Seq<char>>;

/// Of a text that parses as JSON, the string stored under `key` in the
/// top-level object (`value[key].as_str()`); `None` where the value is not
/// an object, lacks the key, or holds something other than a string there.
pub uninterp spec fn json_str_field(text: Seq<char>, key: Seq<char>) -> Option<Seq<char>>;

/// Of a text that parses as JSON, the integer under `key` in the top-level
/// object where it is a non-negative integer that fits in 64 bits
/// (`value[key].as_u64()`).
pub uninterp spec fn json_u64_field(text: Seq<char>, key: Seq<char>) -> Option<u64>;

/// Of a text that parses as JSON, the integer under `key` in the top-level
/// object where it is an integer that fits in a signed 64-bit one
/// (`value[key].as_i64()`).
pub uninterp spec fn json_i64_field(text: Seq<char>, key: Seq<char>) -> Option<i64>;

/// A parsed JSON document, together with the text that it was parsed from.
pub(crate) struct JsonDoc {
    value: serde_json::Value,
    text: Ghost<Seq<char>>,
}

impl View for JsonDoc {
    type V = Seq<char>;

    /// The text that the document was parsed from.
    closed spec fn view(&self) -> Seq<char> {
        self.text@
    }
}

/// Parses `text` with `serde_json::from_str` into a `serde_json::Value`.
/// Claimed: the call succeeds exactly where the name `json_parse_error` says
/// it does, and on failure the message is the `Display` text of serde_json's
/// error, which is what that name gives.
#[verifier::external_body]
pub(crate) fn parse_json(text: &str) -> (r: Result<JsonDoc, String>)
    ensures
        match r {
            Ok(doc) => doc@ == text@ && json_parse_error(text@) is None,
            Err(msg) => json_parse_error(text@) == Some(msg@),
        },
{
    match serde_json::from_str::<serde_json::Value>(text) {
        Ok(value) => Ok(JsonDoc { value, text: Ghost(text@) }),
        Err(e) => Err(e.to_string()),
    }
}

/// Reads `value[key].as_str()` (serde_json's `Index<&str>` then
/// `Value::as_str`). Claimed: the result is what `json_str_field` names for
/// the document's text and the key.
#[verifier::external_body]
pub(crate) fn json_get_str(doc: &JsonDoc, key: &str) -> (r: Option<String>)
    ensures
        match r {
            Some(s) => json_str_field(doc@, key@) == Some(s@),
            None => json_str_field(doc@, key@) is None,
        },
{
    doc.value[key].as_str().map(String::from)
}

/// Reads `value[key].as_u64()` (serde_json's `Index<&str>` then
/// `Value::as_u64`). Claimed: the result is what `json_u64_field` names for
/// the document's text and the key.
#[verifier::external_body]
pub(crate) fn json_get_u64(doc: &JsonDoc, key: &str) -> (r: Option<u64>)
    ensures
        r == json_u64_field(doc@, key@),
{
    doc.value[key].as_u64()
}

/// Reads `value[key].as_i64()` (serde_json's `Index<&str>` then
/// `Value::as_i64`). Claimed: the result is what `json_i64_field` names for
/// the document's text and the key.
#[verifier::external_body]
pub(crate) fn json_get_i64(doc: &JsonDoc, key: &str) -> (r: Option<i64>)
    ensures
        r == json_i64_field(doc@, key@),
{
    doc.value[key].as_i64()
}

} // verus!
