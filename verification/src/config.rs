//! Pi-class configuration for the Tenzro handle.
//!
//! The configuration comes from environment variables:
//!
//! - `TENZRO_RPC_URL` (required) — RPC endpoint, e.g. `https://rpc.tenzro.network`
//! - `TENZRO_API_KEY` (optional) — API key for unattended boot
//! - `TENZRO_CHAIN_ID` (optional, default 1) — chain id
//! - `TENZRO_TIMEOUT_MS` (optional, default 30000) — request timeout
//! - `TENZRO_MAX_RETRIES` (optional, default 3) — retries before surfacing `Transient`
//!
//! Reading the environment is the caller's part; `TenzroEdgeConfig::from_values`
//! takes what was read (a variable that is unset or not Unicode counts as
//! absent) and decides.

use vstd::prelude::*;

use crate::error::{is_config_error, TenzroEdgeError};
use crate::text::{int_error_text, parse_u32, parse_u64, parse_unsigned, IntErrorKind};

verus! {

/// Default chain id.
pub const DEFAULT_CHAIN_ID: u64 = 1;

/// Default per-request timeout in milliseconds.
pub const DEFAULT_TIMEOUT_MS: u64 = 30000;

/// Default number of retries.
pub const DEFAULT_MAX_RETRIES: u32 = 3;

/// Pi-class configuration for the Tenzro handle.
#[derive(Clone, Debug)]
pub struct TenzroEdgeConfig {
    /// RPC endpoint.
    pub endpoint: String,
    /// Optional API key.
    pub api_key: Option<String>,
    /// Chain id.
    pub chain_id: u64,
    /// Per-request timeout in milliseconds.
    pub timeout_ms: u64,
    /// Max retries before falling back / surfacing Transient.
    pub max_retries: u32,
}

/// The values of the configuration's environment variables, `None` for each
/// that is unset (or not valid Unicode).
#[derive(Clone, Debug)]
pub struct EnvValues {
    /// `TENZRO_RPC_URL`.
    pub rpc_url: Option<String>,
    /// `TENZRO_API_KEY`.
    pub api_key: Option<String>,
    /// `TENZRO_CHAIN_ID`.
    pub chain_id: Option<String>,
    /// `TENZRO_TIMEOUT_MS`.
    pub timeout_ms: Option<String>,
    /// `TENZRO_MAX_RETRIES`.
    pub max_retries: Option<String>,
}

/// A numeric variable: `default` when unset, else its text parsed as an
/// unsigned integer no larger than `max`.
pub open spec fn optional_number(v: Option<String>, max: int, default: int) -> Result<
    int,
    IntErrorKind,
> {
    match v {
        None => Ok(default),
        Some(s) => parse_unsigned(s@, max),
    }
}

/// The message of the error for a variable whose text does not parse.
pub open spec fn number_error_text(var: Seq<char>, k: IntErrorKind) -> Seq<char> {
    var + ": "@ + int_error_text(k)
}

fn optional_u64(v: &Option<String>, default: u64) -> (res: Result<u64, IntErrorKind>)
    ensures
        match res {
            Ok(n) => optional_number(*v, u64::MAX as int, default as int) == Ok::<
                int,
                IntErrorKind,
            >(n as int),
            Err(k) => optional_number(*v, u64::MAX as int, default as int) == Err::<
                int,
                IntErrorKind,
            >(k),
        },
{
    match v {
        None => Ok(default),
        Some(s) => parse_u64(s.as_str()),
    }
}

fn number_error(var: &str, k: IntErrorKind) -> (res: TenzroEdgeError)
    ensures
        is_config_error(res, number_error_text(var@, k)),
{
    let mut m = String::from_str(var);
    m.append(": ");
    m.append(k.message());
    TenzroEdgeError::Config(m)
}

impl TenzroEdgeConfig {
    /// Build the configuration from the values of its environment variables.
    ///
    /// Fails with a `Config` error when `TENZRO_RPC_URL` is unset, or when a
    /// numeric variable that is set does not parse (the first such, in the
    /// order chain id, timeout, retries).
    pub fn from_values(env: EnvValues) -> (res: Result<Self, TenzroEdgeError>)
        ensures
            env.rpc_url is None ==> (res matches Err(e) && is_config_error(
                e,
                "TENZRO_RPC_URL is required"@,
            )),
            env.rpc_url is Some ==> match (
                optional_number(env.chain_id, u64::MAX as int, 1),
                optional_number(env.timeout_ms, u64::MAX as int, 30000),
                optional_number(env.max_retries, u32::MAX as int, 3),
            ) {
                (Err(k), _, _) => res matches Err(e) && is_config_error(
                    e,
                    number_error_text("TENZRO_CHAIN_ID"@, k),
                ),
                (Ok(_), Err(k), _) => res matches Err(e) && is_config_error(
                    e,
                    number_error_text("TENZRO_TIMEOUT_MS"@, k),
                ),
                (Ok(_), Ok(_), Err(k)) => res matches Err(e) && is_config_error(
                    e,
                    number_error_text("TENZRO_MAX_RETRIES"@, k),
                ),
                (Ok(c), Ok(t), Ok(r)) => res matches Ok(cfg) && cfg.endpoint@
                    == env.rpc_url->0@ && cfg.api_key == env.api_key && cfg.chain_id == c
                    && cfg.timeout_ms == t && cfg.max_retries == r,
            },
    {
        let endpoint = match env.rpc_url {
            Some(u) => u,
            None => {
                return Err(TenzroEdgeError::Config(String::from_str("TENZRO_RPC_URL is required")));
            },
        };
        let chain_id = match optional_u64(&env.chain_id, DEFAULT_CHAIN_ID) {
            Ok(n) => n,
            Err(k) => {
                return Err(number_error("TENZRO_CHAIN_ID", k));
            },
        };
        let timeout_ms = match optional_u64(&env.timeout_ms, DEFAULT_TIMEOUT_MS) {
            Ok(n) => n,
            Err(k) => {
                return Err(number_error("TENZRO_TIMEOUT_MS", k));
            },
        };
        let max_retries = match &env.max_retries {
            None => DEFAULT_MAX_RETRIES,
            Some(s) => match parse_u32(s.as_str()) {
                Ok(n) => n,
                Err(k) => {
                    return Err(number_error("TENZRO_MAX_RETRIES", k));
                },
            },
        };
        Ok(TenzroEdgeConfig { endpoint, api_key: env.api_key, chain_id, timeout_ms, max_retries })
    }
}

} // verus!
