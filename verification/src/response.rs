//! The response that answers a request.

use crate::errors::RequestError;
use std::collections::HashMap;
use vstd::prelude::*;
use vstd::string::*;

verus! {

/// The headers of a response.
#[derive(Debug)]
pub struct Headers {
    pub content_type: String,
}

/// The response to a request.
#[derive(Debug)]
pub struct EntityOutput {
    pub is_base64_encoded: bool,
    pub status_code: i32,
    pub headers: Headers,
    pub body: String,
}

/// The mathematical value of an [`EntityOutput`].
pub struct EntityOutputView {
    pub is_base64_encoded: bool,
    pub status_code: i32,
    pub content_type: Seq<char>,
    pub body: Seq<char>,
}

impl View for EntityOutput {
    type V = EntityOutputView;

    open spec fn view(&self) -> EntityOutputView {
        EntityOutputView {
            is_base64_encoded: self.is_base64_encoded,
            status_code: self.status_code,
            content_type: self.headers.content_type@,
            body: self.body@,
        }
    }
}

/// The response with a body and a status code: never base64, always
/// announced as JSON.
pub open spec fn lambda_output(body: Seq<char>, return_code: i32) -> EntityOutputView {
    EntityOutputView {
        is_base64_encoded: false,
        status_code: return_code,
        content_type: "application/json"@,
        body,
    }
}

/// The JSON text of the object whose one member has the name `key` and
/// the string `value`.
pub uninterp spec fn json_object(key: Seq<char>, value: Seq<char>) -> Seq<char>;

/// A text that JSON writes between quotes as it is: it holds no quote, no
/// backslash and no control character.
pub open spec fn is_unescaped(text: Seq<char>) -> bool {
    forall|i: int|
        0 <= i < text.len() ==> (#[trigger] text[i]) != '"' && text[i] != '\\' && text[i] >= ' '
}

/// `serde_json::Error`, which is carried through and never looked into.
#[verifier::external_type_specification]
#[verifier::external_body]
pub struct ExJsonError(serde_json::Error);

/// `serde_json::to_string` on a map that holds the one entry `key`,
/// `value`. The call succeeds: it writes into a byte vector, which takes
/// every write, and it writes both texts as strings, which is the one kind
/// of key that it accepts. Its result is the JSON text of that object;
/// where neither text needs escaping, that is the two texts, each between
/// quotes, with a colon between them and braces around them.
#[verifier::external_body]
fn encode_entry(key: &String, value: &String) -> (text: Result<String, serde_json::Error>)
    ensures
        text is Ok,
        text matches Ok(t) ==> t@ == json_object(key@, value@),
        text matches Ok(t) ==> (is_unescaped(key@) && is_unescaped(value@) ==> t@ == "{\""@ + key@
            + "\":\""@ + value@ + "\"}"@),
{
    let mut body: HashMap<String, String> = HashMap::new();
    body.insert(key.clone(), value.clone());
    serde_json::to_string(&body)
}

/// The response with an encoded body and a status code.
pub fn output_with_body(body: String, return_code: i32) -> (output: EntityOutput)
    ensures
        output@ == lambda_output(body@, return_code),
{
    EntityOutput {
        is_base64_encoded: false,
        status_code: return_code,
        headers: Headers { content_type: String::from_str("application/json") },
        body,
    }
}

/// The response whose body is the JSON object with the one member `key`,
/// `value`. It is owed for every key, value and code.
pub fn generate_lambda_output(key: String, value: String, return_code: i32) -> (output: Result<
    EntityOutput,
    RequestError,
>)
    ensures
        output matches Ok(out) && out@ == lambda_output(json_object(key@, value@), return_code),
        output matches Ok(out) ==> (is_unescaped(key@) && is_unescaped(value@) ==> out@.body
            == "{\""@ + key@ + "\":\""@ + value@ + "\"}"@),
{
    match encode_entry(&key, &value) {
        Ok(text) => Ok(output_with_body(text, return_code)),
        Err(_) => Err(RequestError::Encode),
    }
}

} // verus!
