//! JSON-RPC calls authenticated with DPoP.
//!
//! Each privileged call is a `POST` to the node's endpoint carrying
//! `Authorization: DPoP <bearer JWT>` and a `DPoP: <proof>` header minted
//! afresh for the call, so that no process-wide state is needed. The proof's
//! `htu` is the endpoint, unless `TENZRO_DPOP_HTU` names the URL the node
//! expects behind a reverse proxy.
//!
//! The transport is the caller's; here are the request and how a reply is
//! read.

use vstd::prelude::*;

use crate::error::{is_sdk_error, TenzroEdgeError};
use crate::text::{decimal, json_quoted, json_string, u64_text};

verus! {

/// The HTTP method of every call.
pub const RPC_HTTP_METHOD: &'static str = "POST";

/// The URL a proof binds (`htu`): the override when one is set, else the
/// endpoint.
pub fn select_htu(htu_override: Option<String>, endpoint: &str) -> (res: String)
    ensures
        res@ == match htu_override {
            Some(h) => h@,
            None => endpoint@,
        },
{
    match htu_override {
        Some(h) => h,
        None => String::from_str(endpoint),
    }
}

/// The `Authorization` header value for a bearer JWT.
pub fn authorization_header(bearer_jwt: &str) -> (res: String)
    ensures
        res@ == "DPoP "@ + bearer_jwt@,
{
    let mut h = String::from_str("DPoP ");
    h.append(bearer_jwt);
    h
}

/// The JSON-RPC request body, keys sorted, no whitespace.
pub open spec fn request_body_spec(method: Seq<char>, params_json: Seq<char>, id: u64) -> Seq<
    char,
> {
    "{\"id\":"@ + decimal(id as nat) + ",\"jsonrpc\":\"2.0\",\"method\":"@ + json_quoted(method)
        + ",\"params\":"@ + params_json + "}"@
}

/// The body of the call `id` to `method` with the given JSON parameters.
pub fn request_body(method: &str, params_json: &str, id: u64) -> (res: String)
    ensures
        res@ == request_body_spec(method@, params_json@, id),
{
    let mut b = String::from_str("{\"id\":");
    b.append(u64_text(id).as_str());
    b.append(",\"jsonrpc\":\"2.0\",\"method\":");
    b.append(json_string(method).as_str());
    b.append(",\"params\":");
    b.append(params_json);
    b.append("}");
    b
}

/// What a reply is read for.
#[derive(Clone, Debug)]
pub struct RpcReply {
    /// The HTTP status is a success (2xx).
    pub status_success: bool,
    /// The HTTP status as displayed (e.g. `500 Internal Server Error`).
    pub status_text: String,
    /// The body, as JSON text.
    pub body_text: String,
    /// The body's `error` member as JSON text, if it has one.
    pub error_json: Option<String>,
    /// The body's `result` member as JSON text, if it has one.
    pub result_json: Option<String>,
}

/// Read a reply: a failed HTTP status, an `error` member or a missing
/// `result` are SDK errors, in that order; otherwise the result.
pub fn interpret_reply(reply: RpcReply) -> (res: Result<String, TenzroEdgeError>)
    ensures
        !reply.status_success ==> (res matches Err(e) && is_sdk_error(
            e,
            "rpc HTTP "@ + reply.status_text@ + ": "@ + reply.body_text@,
        )),
        reply.status_success && reply.error_json is Some ==> (res matches Err(e) && is_sdk_error(
            e,
            "rpc error: "@ + reply.error_json->0@,
        )),
        reply.status_success && reply.error_json is None && reply.result_json is None ==> (
        res matches Err(e) && is_sdk_error(e, "rpc response missing result"@)),
        reply.status_success && reply.error_json is None && reply.result_json is Some ==> (
        res matches Ok(r) && r@ == reply.result_json->0@),
{
    if !reply.status_success {
        let mut m = String::from_str("rpc HTTP ");
        m.append(reply.status_text.as_str());
        m.append(": ");
        m.append(reply.body_text.as_str());
        return Err(TenzroEdgeError::Sdk(m));
    }
    match reply.error_json {
        Some(err) => {
            let mut m = String::from_str("rpc error: ");
            m.append(err.as_str());
            Err(TenzroEdgeError::Sdk(m))
        },
        None => match reply.result_json {
            Some(r) => Ok(r),
            None => Err(TenzroEdgeError::Sdk(String::from_str("rpc response missing result"))),
        },
    }
}

} // verus!
