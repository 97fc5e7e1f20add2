//! The structured document that a command prints, and how its text is read.
use vstd::prelude::*;
use std::collections::HashMap;
use crate::retcode::CommandRetCode;

verus! {

#[verifier::external_type_specification]
#[verifier::external_body]
pub struct ExValue(serde_json::Value);

#[verifier::external_type_specification]
#[verifier::external_body]
pub struct ExError(serde_json::Error);

/// A command's output: the top-level object of the JSON document it printed.
pub type Document = HashMap<String, serde_json::Value>;

/// Whether serde_json reads the text as a JSON object with string keys.
pub uninterp spec fn accepted_as_document(text: Seq<char>) -> bool;

/// Relies on serde_json::from_str, read into a map from keys to values: it
/// succeeds exactly on the texts that it accepts as such an object, and the
/// answer depends on the text alone.
#[verifier::external_body]
fn parse_document(text: &str) -> (r: Result<Document, serde_json::Error>)
    ensures
        r is Ok <==> accepted_as_document(text@),
{
    serde_json::from_str(text)
}

/// The outcome for captured text, given what the parser made of it: the
/// document, or the parser's error together with the text unchanged.
pub fn outcome_of_parse(parsed: Result<Document, serde_json::Error>, text: String) -> (r: Result<
    Document,
    CommandRetCode,
>)
    ensures
        parsed matches Ok(doc) ==> r == Ok::<Document, CommandRetCode>(doc),
        parsed matches Err(e) ==> r == Err::<Document, CommandRetCode>(
            CommandRetCode::JsonDeserializationFailed((e, text)),
        ),
{
    match parsed {
        Ok(doc) => Ok(doc),
        Err(e) => Err(CommandRetCode::JsonDeserializationFailed((e, text))),
    }
}

/// Reads captured output as a document. Where the parser refuses it, the
/// error carries the parser's error and the captured text unchanged.
pub fn decode_output(text: String) -> (r: Result<Document, CommandRetCode>)
    ensures
        r is Ok <==> accepted_as_document(text@),
        !(r is Ok) ==> (r matches Err(CommandRetCode::JsonDeserializationFailed((_, raw)))
            && raw@ == text@),
{
    let parsed = parse_document(text.as_str());
    outcome_of_parse(parsed, text)
}

} // verus!
