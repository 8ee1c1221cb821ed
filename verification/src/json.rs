//! JSON parsing and pretty-printing, done by `serde_json`.

use vstd::prelude::*;

verus! {

#[verifier::external_type_specification]
#[verifier::external_body]
pub struct ExJsonValue(serde_json::Value);

#[verifier::external_type_specification]
#[verifier::external_body]
pub struct ExJsonError(serde_json::Error);

/// What `serde_json::from_str` makes of a text: the document it holds, or
/// the parser's complaint.
pub uninterp spec fn json_parsed(text: Seq<char>) -> Result<serde_json::Value, serde_json::Error>;

/// What `serde_json::to_string_pretty` makes of a document.
pub uninterp spec fn json_rendered(value: serde_json::Value) -> Result<Seq<char>, serde_json::Error>;

/// The message that a `serde_json::Error` displays.
pub uninterp spec fn json_error_text(err: serde_json::Error) -> Seq<char>;

/// Whether a rendering is the one that `json_rendered` names.
pub open spec fn is_rendering(
    out: Result<String, serde_json::Error>,
    named: Result<Seq<char>, serde_json::Error>,
) -> bool {
    match out {
        Ok(s) => named == Ok::<Seq<char>, serde_json::Error>(s@),
        Err(e) => named == Err::<Seq<char>, serde_json::Error>(e),
    }
}

/// `serde_json::from_str` at `serde_json::Value`: parses one JSON document.
/// The outcome depends on the text alone.
#[verifier::external_body]
pub(crate) fn parse_json(input: &str) -> (parsed: Result<serde_json::Value, serde_json::Error>)
    ensures
        parsed == json_parsed(input@),
{
    serde_json::from_str::<serde_json::Value>(input)
}

/// `serde_json::to_string_pretty`: the document as indented JSON text.
/// The outcome depends on the document alone.
#[verifier::external_body]
pub(crate) fn render_json(value: &serde_json::Value) -> (out: Result<String, serde_json::Error>)
    ensures
        is_rendering(out, json_rendered(*value)),
{
    serde_json::to_string_pretty(value)
}

/// `Display` of `serde_json::Error`, through `to_string`: the error's
/// message, with line and column where the error has a position.
#[verifier::external_body]
pub(crate) fn error_text(err: &serde_json::Error) -> (text: String)
    ensures
        text@ == json_error_text(*err),
{
    err.to_string()
}

} // verus!
