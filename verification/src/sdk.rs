//! The failures a Tenzro SDK call reports, as plain values.
//!
//! `SdkFailure` has one variant for each variant of
//! `tenzro_sdk::error::SdkError`, with the same fields; the caller that made
//! the SDK call converts the one into the other. Each component maps these
//! failures into its own error type (`map_sdk` in each module); where a
//! component has no variant of its own for a failure, it carries the
//! failure's `Debug` text, which `SdkFailure::debug_text` renders as the
//! derived `Debug` of `SdkError` does.

use vstd::prelude::*;

use crate::text::{debug_quoted, debug_string, decimal, u64_text};

verus! {

/// A failed Tenzro SDK call.
#[derive(Clone, Debug)]
pub enum SdkFailure {
    /// Connection error.
    ConnectionError(String),
    /// Authentication error.
    AuthenticationError(String),
    /// Inference error.
    InferenceError(String),
    /// Settlement error.
    SettlementError(String),
    /// Wallet error.
    WalletError(String),
    /// Agent error.
    AgentError(String),
    /// RPC error.
    RpcError(String),
    /// Serialization error.
    SerializationError,
    /// Timeout error.
    Timeout,
    /// Invalid configuration.
    InvalidConfiguration(String),
    /// Not found error.
    NotFound(String),
    /// Invalid parameter.
    InvalidParameter(String),
    /// Insufficient funds.
    InsufficientFunds { required: u64, available: u64 },
    /// Transaction failed.
    TransactionFailed(String),
}

/// `Name("text")`, the derived `Debug` of a one-field tuple variant.
pub open spec fn debug_tuple(name: Seq<char>, s: Seq<char>) -> Seq<char> {
    name + "("@ + debug_quoted(s) + ")"@
}

/// The derived `Debug` text of the failure.
pub open spec fn sdk_debug(e: SdkFailure) -> Seq<char> {
    match e {
        SdkFailure::ConnectionError(s) => debug_tuple("ConnectionError"@, s@),
        SdkFailure::AuthenticationError(s) => debug_tuple("AuthenticationError"@, s@),
        SdkFailure::InferenceError(s) => debug_tuple("InferenceError"@, s@),
        SdkFailure::SettlementError(s) => debug_tuple("SettlementError"@, s@),
        SdkFailure::WalletError(s) => debug_tuple("WalletError"@, s@),
        SdkFailure::AgentError(s) => debug_tuple("AgentError"@, s@),
        SdkFailure::RpcError(s) => debug_tuple("RpcError"@, s@),
        SdkFailure::SerializationError => "SerializationError"@,
        SdkFailure::Timeout => "Timeout"@,
        SdkFailure::InvalidConfiguration(s) => debug_tuple("InvalidConfiguration"@, s@),
        SdkFailure::NotFound(s) => debug_tuple("NotFound"@, s@),
        SdkFailure::InvalidParameter(s) => debug_tuple("InvalidParameter"@, s@),
        SdkFailure::InsufficientFunds { required, available } => "InsufficientFunds { required: "@
            + decimal(required as nat) + ", available: "@ + decimal(available as nat) + " }"@,
        SdkFailure::TransactionFailed(s) => debug_tuple("TransactionFailed"@, s@),
    }
}

/// `insufficient funds: required R, available A`.
pub open spec fn insufficient_funds_text(required: u64, available: u64) -> Seq<char> {
    "insufficient funds: required "@ + decimal(required as nat) + ", available "@ + decimal(
        available as nat,
    )
}

fn tuple_text(name: &str, s: &String) -> (res: String)
    ensures
        res@ == debug_tuple(name@, s@),
{
    let mut out = String::from_str(name);
    out.append("(");
    out.append(debug_string(s.as_str()).as_str());
    out.append(")");
    out
}

/// The message components give for an `InsufficientFunds` failure.
pub fn insufficient_funds_message(required: u64, available: u64) -> (res: String)
    ensures
        res@ == insufficient_funds_text(required, available),
{
    let mut out = String::from_str("insufficient funds: required ");
    out.append(u64_text(required).as_str());
    out.append(", available ");
    out.append(u64_text(available).as_str());
    out
}

impl SdkFailure {
    /// The derived `Debug` text of the failure (`format!("{e:?}")`).
    pub fn debug_text(&self) -> (res: String)
        ensures
            res@ == sdk_debug(*self),
    {
        match self {
            SdkFailure::ConnectionError(s) => tuple_text("ConnectionError", s),
            SdkFailure::AuthenticationError(s) => tuple_text("AuthenticationError", s),
            SdkFailure::InferenceError(s) => tuple_text("InferenceError", s),
            SdkFailure::SettlementError(s) => tuple_text("SettlementError", s),
            SdkFailure::WalletError(s) => tuple_text("WalletError", s),
            SdkFailure::AgentError(s) => tuple_text("AgentError", s),
            SdkFailure::RpcError(s) => tuple_text("RpcError", s),
            SdkFailure::SerializationError => String::from_str("SerializationError"),
            SdkFailure::Timeout => String::from_str("Timeout"),
            SdkFailure::InvalidConfiguration(s) => tuple_text("InvalidConfiguration", s),
            SdkFailure::NotFound(s) => tuple_text("NotFound", s),
            SdkFailure::InvalidParameter(s) => tuple_text("InvalidParameter", s),
            SdkFailure::InsufficientFunds { required, available } => {
                let mut out = String::from_str("InsufficientFunds { required: ");
                out.append(u64_text(*required).as_str());
                out.append(", available: ");
                out.append(u64_text(*available).as_str());
                out.append(" }");
                out
            },
            SdkFailure::TransactionFailed(s) => tuple_text("TransactionFailed", s),
        }
    }
}

/// The failure is one the network path reports (`ConnectionError` or
/// `RpcError`), with its text.
pub open spec fn is_link_failure(e: SdkFailure) -> bool {
    e is ConnectionError || e is RpcError
}

/// The text of a `ConnectionError` or `RpcError`.
pub open spec fn link_failure_text(e: SdkFailure) -> Seq<char> {
    match e {
        SdkFailure::ConnectionError(s) => s@,
        SdkFailure::RpcError(s) => s@,
        _ => Seq::<char>::empty(),
    }
}

} // verus!
