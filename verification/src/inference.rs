//! Remote inference backed by Tenzro inference.
//!
//! A text completion is sent to the configured default model
//! (`inference.request`) and the result packaged as a text completion.
//! Tensor requests are declined: Tenzro's inference RPC takes text prompts
//! only, so `can_serve` turns them away and the caller falls back to a
//! local engine.

use vstd::prelude::*;

use crate::client::TenzroHandle;
use crate::sdk::{insufficient_funds_message, insufficient_funds_text, sdk_debug, SdkFailure};

verus! {

/// An inference request.
#[derive(Clone, Debug)]
pub enum InferRequest {
    /// Complete a text prompt.
    TextCompletion { prompt: String, max_tokens: Option<u32> },
    /// A tensor request (not served remotely).
    Tensor,
}

/// An inference response.
#[derive(Clone, Debug)]
pub enum InferResponse {
    /// A text completion.
    TextCompletion {
        text: String,
        completion_tokens: u32,
        prompt_tokens: u32,
        finish_reason: String,
    },
}

/// Why remote inference failed.
#[derive(Clone, Debug)]
pub enum RemoteInferenceError {
    /// Transient failure; retrying may help.
    Transient(String),
    /// The provider declined the request.
    Declined(String),
    /// Inference failed.
    Failed(String),
}

/// Map an SDK failure into inference errors.
pub fn map_sdk(e: SdkFailure) -> (res: RemoteInferenceError)
    ensures
        match e {
            SdkFailure::ConnectionError(s) => res matches RemoteInferenceError::Transient(m) && m@
                == s@,
            SdkFailure::RpcError(s) => res matches RemoteInferenceError::Transient(m) && m@ == s@,
            SdkFailure::Timeout => res matches RemoteInferenceError::Transient(m) && m@
                == "timeout"@,
            SdkFailure::NotFound(s) => res matches RemoteInferenceError::Declined(m) && m@
                == "not found: "@ + s@,
            SdkFailure::InvalidParameter(s) => res matches RemoteInferenceError::Declined(m) && m@
                == "invalid: "@ + s@,
            SdkFailure::InferenceError(s) => res matches RemoteInferenceError::Failed(m) && m@
                == s@,
            SdkFailure::InsufficientFunds { required, available } => res matches RemoteInferenceError::Declined(
                m,
            ) && m@ == insufficient_funds_text(required, available),
            _ => res matches RemoteInferenceError::Failed(m) && m@ == sdk_debug(e),
        },
{
    match e {
        SdkFailure::ConnectionError(s) => RemoteInferenceError::Transient(s),
        SdkFailure::RpcError(s) => RemoteInferenceError::Transient(s),
        SdkFailure::Timeout => RemoteInferenceError::Transient(String::from_str("timeout")),
        SdkFailure::NotFound(s) => {
            let mut m = String::from_str("not found: ");
            m.append(s.as_str());
            RemoteInferenceError::Declined(m)
        },
        SdkFailure::InvalidParameter(s) => {
            let mut m = String::from_str("invalid: ");
            m.append(s.as_str());
            RemoteInferenceError::Declined(m)
        },
        SdkFailure::InferenceError(s) => RemoteInferenceError::Failed(s),
        SdkFailure::InsufficientFunds { required, available } => RemoteInferenceError::Declined(
            insufficient_funds_message(required, available),
        ),
        other => RemoteInferenceError::Failed(other.debug_text()),
    }
}

/// A request this provider serves: a text completion.
pub open spec fn servable(req: InferRequest) -> bool {
    req is TextCompletion
}

/// Only text completions are served.
pub fn can_serve(req: &InferRequest) -> (res: bool)
    ensures
        res == servable(*req),
{
    match req {
        InferRequest::TextCompletion { .. } => true,
        InferRequest::Tensor => false,
    }
}

/// What is sent for a request: the prompt and token limit of a text
/// completion; any other request is declined.
pub fn completion_request(req: InferRequest) -> (res: Result<
    (String, Option<u32>),
    RemoteInferenceError,
>)
    ensures
        res is Ok <==> servable(req),
        match req {
            InferRequest::TextCompletion { prompt, max_tokens } => res matches Ok(
                (p, t),
            ) && p@ == prompt@ && t == max_tokens,
            InferRequest::Tensor => res matches Err(RemoteInferenceError::Declined(m)) && m@
                == "tenzro inference only supports text completion"@,
        },
{
    match req {
        InferRequest::TextCompletion { prompt, max_tokens } => Ok((prompt, max_tokens)),
        InferRequest::Tensor => Err(
            RemoteInferenceError::Declined(
                String::from_str("tenzro inference only supports text completion"),
            ),
        ),
    }
}

/// `tokens_used` as a `u32`, saturating at `u32::MAX`.
pub open spec fn saturate_u32(n: u64) -> u32 {
    if n > u32::MAX {
        u32::MAX
    } else {
        n as u32
    }
}

/// The response for a completed request. Tenzro reports one combined token
/// count; it is all attributed to the completion.
pub fn completion_response(output: String, tokens_used: u64) -> (res: InferResponse)
    ensures
        res matches InferResponse::TextCompletion {
            text,
            completion_tokens,
            prompt_tokens,
            finish_reason,
        } && text@ == output@ && completion_tokens == saturate_u32(tokens_used) && prompt_tokens
            == 0 && finish_reason@ == "tenzro"@,
{
    let completion_tokens = if tokens_used > u32::MAX as u64 {
        u32::MAX
    } else {
        tokens_used as u32
    };
    InferResponse::TextCompletion {
        text: output,
        completion_tokens,
        prompt_tokens: 0,
        finish_reason: String::from_str("tenzro"),
    }
}

/// Remote inference that delegates text completions to a configured Tenzro
/// model.
pub struct TenzroRemoteInference {
    id: String,
    handle: TenzroHandle,
    default_model_id: String,
}

impl TenzroRemoteInference {
    /// The handle it works through.
    pub closed spec fn handle_view(&self) -> TenzroHandle {
        self.handle
    }

    /// The provider's id.
    pub closed spec fn id_view(&self) -> Seq<char> {
        self.id@
    }

    /// The model every request goes to.
    pub closed spec fn model_view(&self) -> Seq<char> {
        self.default_model_id@
    }

    /// Construct a remote inference provider calling `default_model_id`.
    pub fn new(id: String, handle: TenzroHandle, default_model_id: String) -> (res: Self)
        ensures
            res.id_view() == id@,
            res.model_view() == default_model_id@,
            res.handle_view() == handle,
    {
        TenzroRemoteInference { id, handle, default_model_id }
    }

    /// The provider's id.
    pub fn id(&self) -> (res: String)
        ensures
            res@ == self.id_view(),
    {
        self.id.clone()
    }

    /// The model every request goes to.
    pub fn default_model_id(&self) -> (res: &str)
        ensures
            res@ == self.model_view(),
    {
        self.default_model_id.as_str()
    }

    /// The handle it calls through.
    pub fn handle(&self) -> (res: &TenzroHandle)
        ensures
            *res == self.handle_view(),
    {
        &self.handle
    }
}

} // verus!
