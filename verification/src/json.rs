//! JSON text for the few values that the store keeps as JSON. The reading and
//! writing is the JSON library's; nothing of it is proved here.

use crate::text::views;
use std::collections::HashMap;
use vstd::prelude::*;

verus! {

/// The error of the JSON library; opaque here.
#[verifier::external_type_specification]
#[verifier::external_body]
pub struct ExJsonError(serde_json::Error);

/// Any JSON value; opaque here.
#[verifier::external_type_specification]
#[verifier::external_body]
pub struct ExJsonValue(serde_json::Value);

/// The JSON text that the JSON library writes for a list of texts.
pub uninterp spec fn json_of_texts(texts: Seq<Seq<char>>) -> Seq<char>;

/// The list of texts that the JSON library reads from a JSON text, if it
/// reads one.
pub uninterp spec fn texts_of_json(json: Seq<char>) -> Option<Seq<Seq<char>>>;

/// `serde_json::to_string` on a list of texts. It succeeds: the list is
/// written into a byte vector, which takes every write, and a list of texts
/// holds nothing that the writer refuses. The result is the text that the
/// library writes for that list, which depends on the list alone.
#[verifier::external_body]
pub(crate) fn texts_to_json(texts: &Vec<String>) -> (r: Result<String, serde_json::Error>)
    ensures
        r is Ok,
        r matches Ok(json) ==> json@ == json_of_texts(views(texts@)),
{
    serde_json::to_string(texts)
}

/// `serde_json::from_str` for a list of texts. Whether it succeeds, and with
/// which list, depends on the text alone.
#[verifier::external_body]
pub(crate) fn texts_from_json(json: &str) -> (r: Result<Vec<String>, serde_json::Error>)
    ensures
        match r {
            Ok(texts) => texts_of_json(json@) == Some(views(texts@)),
            Err(_) => texts_of_json(json@) is None,
        },
{
    serde_json::from_str(json)
}

/// `serde_json::to_string` on free-form metadata. The order of the keys in
/// the text is not fixed, so nothing is said of it.
#[verifier::external_body]
pub(crate) fn metadata_to_json(metadata: &HashMap<String, serde_json::Value>) -> Result<
    String,
    serde_json::Error,
> {
    serde_json::to_string(metadata)
}

/// `serde_json::from_str` for free-form metadata: a JSON object with any
/// values.
#[verifier::external_body]
pub(crate) fn metadata_from_json(json: &str) -> Result<
    HashMap<String, serde_json::Value>,
    serde_json::Error,
> {
    serde_json::from_str(json)
}

/// `serde_json::to_string` on request headers. It succeeds: keys and values
/// are texts and are written into a byte vector, which takes every write.
/// The order of the keys in the text is not fixed, so nothing is said of the
/// text.
#[verifier::external_body]
pub(crate) fn headers_to_json(headers: &HashMap<String, String>) -> (r: Result<
    String,
    serde_json::Error,
>)
    ensures
        r is Ok,
{
    serde_json::to_string(headers)
}

/// `serde_json::from_str` for request headers: a JSON object with text
/// values.
#[verifier::external_body]
pub(crate) fn headers_from_json(json: &str) -> Result<HashMap<String, String>, serde_json::Error> {
    serde_json::from_str(json)
}

/// The message of a JSON error, from its `Display`. Nothing is claimed of
/// the text: for an error that carries an I/O error it comes from the
/// platform's own messages.
#[verifier::external_body]
pub(crate) fn error_text(error: &serde_json::Error) -> String {
    error.to_string()
}

} // verus!
