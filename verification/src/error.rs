//! The error type shared by every part of the library.

use vstd::prelude::*;

verus! {

/// Top-level error common across every Tenzro Pi-class component. Each
/// component maps these into its own error variants.
#[derive(Debug)]
pub enum TenzroEdgeError {
    /// Underlying SDK call failed (network, RPC, auth).
    Sdk(String),
    /// Local persistence (offline buffer / token cache) error.
    Store(String),
    /// Misconfiguration — typically a missing required env var.
    Config(String),
    /// The Tenzro SDK does not yet expose a surface needed for this
    /// operation; this is the underlying reason.
    NotYetSupported(&'static str),
}

/// The text the error displays.
pub open spec fn edge_error_text(e: TenzroEdgeError) -> Seq<char> {
    match e {
        TenzroEdgeError::Sdk(s) => "tenzro sdk: "@ + s@,
        TenzroEdgeError::Store(s) => "local store: "@ + s@,
        TenzroEdgeError::Config(s) => "config: "@ + s@,
        TenzroEdgeError::NotYetSupported(s) => "not yet supported by tenzro-sdk: "@ + s@,
    }
}

/// `e` is a `Config` error with message `m`.
pub open spec fn is_config_error(e: TenzroEdgeError, m: Seq<char>) -> bool {
    e matches TenzroEdgeError::Config(s) && s@ == m
}

/// `e` is an `Sdk` error with message `m`.
pub open spec fn is_sdk_error(e: TenzroEdgeError, m: Seq<char>) -> bool {
    e matches TenzroEdgeError::Sdk(s) && s@ == m
}

impl TenzroEdgeError {
    /// The text the error displays (`"config: ..."` and so on).
    pub fn message(&self) -> (res: String)
        ensures
            res@ == edge_error_text(*self),
    {
        let (prefix, detail): (&str, &str) = match self {
            TenzroEdgeError::Sdk(s) => ("tenzro sdk: ", s.as_str()),
            TenzroEdgeError::Store(s) => ("local store: ", s.as_str()),
            TenzroEdgeError::Config(s) => ("config: ", s.as_str()),
            TenzroEdgeError::NotYetSupported(s) => ("not yet supported by tenzro-sdk: ", *s),
        };
        let mut out = String::from_str(prefix);
        out.append(detail);
        out
    }
}

} // verus!
