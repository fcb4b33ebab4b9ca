//! How a line of standard output becomes the payload of a progress event.

use vstd::prelude::*;
use crate::event::{Payload, PayloadView};

verus! {

/// The value that `serde_json` reads from `text`, or `None` where it rejects
/// the text. It is a function of the text alone.
pub uninterp spec fn json_value_of(text: Seq<char>) -> Option<serde_json::Value>;

/// Calls `serde_json::from_str` for a `serde_json::Value`.
///
/// Nothing is proved of the parser. The contract only gives its outcome a
/// name: the value it built from the text, or `None` where it returned an
/// error, which is dropped.
#[verifier::external_body]
fn parse_json(text: &str) -> (parsed: Option<serde_json::Value>)
    ensures
        parsed == json_value_of(text@),
{
    serde_json::from_str::<serde_json::Value>(text).ok()
}

/// The payload of a line, given what the parser made of it: the parsed value
/// where there is one, the line itself where there is none.
pub open spec fn classified(line: Seq<char>, parsed: Option<serde_json::Value>) -> PayloadView {
    match parsed {
        Some(value) => PayloadView::Structured(value),
        None => PayloadView::Raw(line),
    }
}

/// Builds the payload of `line` from the parser's outcome `parsed`.
pub fn classify_parsed(line: String, parsed: Option<serde_json::Value>) -> (payload: Payload)
    ensures
        payload@ == classified(line@, parsed),
{
    match parsed {
        Some(value) => Payload::Structured(value),
        None => Payload::Raw(line),
    }
}

/// Classifies a line of standard output: structured data with the parsed
/// value where the line is a JSON text, raw text with the line unchanged
/// where it is not.
pub fn classify_line(line: String) -> (payload: Payload)
    ensures
        payload@ == classified(line@, json_value_of(line@)),
{
    let parsed = parse_json(line.as_str());
    classify_parsed(line, parsed)
}

} // verus!
