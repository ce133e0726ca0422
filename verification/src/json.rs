use vstd::prelude::*;

verus! {

/// The parsed, untyped JSON tree of the outside parser. The library
/// never reads inside it: it only carries a parsed value from the
/// parser to the renderer that turns it back into text for the log.
#[verifier::external_type_specification]
#[verifier::external_body]
pub struct ExValue(serde_json::Value);

/// The outside parser's error value. It is mapped at once to the
/// library's own error and never read.
#[verifier::external_type_specification]
#[verifier::external_body]
pub struct ExError(serde_json::Error);

/// Whether the bytes are a well-formed JSON document, as the outside
/// parser judges them. Parsing is a function of the bytes alone, so the
/// judgement may bear a name; no short statement of the JSON grammar
/// exists, so the name has no body.
pub uninterp spec fn json_accepts(body: Seq<u8>) -> bool;

/// Relies on serde_json::from_slice::<serde_json::Value>: it parses any
/// well-formed JSON document into an untyped value and fails on any
/// other input (an empty body among them), deterministically in the
/// bytes alone.
#[verifier::external_body]
pub(crate) fn parse_json(body: &Vec<u8>) -> (r: Result<serde_json::Value, serde_json::Error>)
    ensures
        r is Ok <==> json_accepts(body@),
{
    serde_json::from_slice::<serde_json::Value>(body.as_slice())
}

/// Relies on the `Display` impl of serde_json::Value, reached through
/// `ToString`: it renders the value as compact JSON text. The value is
/// opaque to the library, so nothing relates the text to it here; the
/// text only feeds the log record.
#[verifier::external_body]
pub(crate) fn render_json(value: &serde_json::Value) -> String {
    value.to_string()
}

/// The library's own error for a request body that is not JSON.
#[derive(Clone, Copy, Debug, PartialEq, Eq, Structural)]
pub struct BadJson;

/// Parses the body, or reports the library's own error. Success is owed
/// exactly on well-formed JSON.
pub fn parse_body(body: &Vec<u8>) -> (r: Result<serde_json::Value, BadJson>)
    ensures
        r is Ok <==> json_accepts(body@),
{
    match parse_json(body) {
        Ok(value) => Ok(value),
        Err(_) => Err(BadJson),
    }
}

} // verus!
