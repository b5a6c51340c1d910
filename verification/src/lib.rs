//! Pi-class participation layer for the Tenzro Network: the verified core.
//!
//! The library holds the decisions of each Tenzro component (attestation,
//! receipt anchoring, inference, model fetching, storage, agents,
//! settlement, discovery, brokering), DPoP proof minting, configuration, and
//! the encodings they rest on. Calls to the network are made by the caller,
//! who hands their results to the functions here.
use vstd::prelude::*;

pub mod agents;
pub mod attester;
pub mod auth;
pub mod broker;
pub mod client;
pub mod codec;
pub mod config;
pub mod crypto;
pub mod discovery;
pub mod error;
pub mod inference;
pub mod model_source;
pub mod receipt_sink;
pub mod rpc;
pub mod sdk;
pub mod settlement;
pub mod span;
pub mod storage;
pub mod text;

verus! {
} // verus!
