//! JSON-RPC error replies for messages whose forward failed.

use vstd::prelude::*;
use crate::bridge::{error_text, ProxyError};

verus! {

/// The JSON string literal for `s`: quoted, with the characters JSON demands
/// escaped, as serde_json writes it.
pub uninterp spec fn json_string_literal(s: Seq<char>) -> Seq<char>;

/// Relies on serde_json's compact `Display` of `Value::String`: it writes the
/// JSON string literal for `s`, which depends on `s` alone.
#[verifier::external_body]
fn quote_json(s: &str) -> (r: String)
    ensures
        r@ == json_string_literal(s@),
{
    serde_json::Value::String(s.to_string()).to_string()
}

/// What the bridge reads of an outgoing JSON-RPC message.
pub struct JsonRpcMessage {
    /// The protocol version.
    pub jsonrpc: String,
    /// The compact JSON text of the `id` member, where it is present and not
    /// null; a message without one is a notification.
    pub id: Option<String>,
}

/// The error reply for request `id` (JSON text) with the message
/// `quoted_message` (a JSON string literal), code -32603.
pub open spec fn envelope_text(id: Seq<char>, quoted_message: Seq<char>) -> Seq<char> {
    "{\"jsonrpc\":\"2.0\",\"id\":"@ + id + ",\"error\":{\"code\":-32603,\"message\":"@
        + quoted_message + "}}"@
}

/// Writes the error reply for the request whose id has the JSON text `id`;
/// `quoted_message` is the error's text as a JSON string literal.
pub fn error_envelope(id: &str, quoted_message: &str) -> (r: String)
    ensures
        r@ == envelope_text(id@, quoted_message@),
{
    let mut r = String::from_str("{\"jsonrpc\":\"2.0\",\"id\":");
    r.append(id);
    r.append(",\"error\":{\"code\":-32603,\"message\":");
    r.append(quoted_message);
    r.append("}}");
    r
}

/// The reply owed for a message whose forward failed with `err`, where
/// `parsed` is the message read as JSON-RPC (`None` where it is not): an
/// error reply to a request, nothing to a notification or to unreadable text.
pub fn error_reply(parsed: &Option<JsonRpcMessage>, err: &ProxyError) -> (r: Option<String>)
    ensures
        r is Some <==> (parsed is Some && parsed->0.id is Some),
        r is Some ==> r->0@ == envelope_text(
            parsed->0.id->0@,
            json_string_literal(error_text(*err)),
        ),
{
    match parsed {
        Some(m) => match &m.id {
            Some(id) => {
                let text = err.message();
                let quoted = quote_json(text.as_str());
                Some(error_envelope(id.as_str(), quoted.as_str()))
            },
            None => None,
        },
        None => None,
    }
}

} // verus!
