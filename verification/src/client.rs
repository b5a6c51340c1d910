//! The shared handle on a connected Tenzro SDK client.
//!
//! Connecting is the caller's part (it is network I/O); the handle keeps the
//! connected client, shared, and the RPC endpoint it talks to, so that the
//! direct DPoP path reaches the same node.

use vstd::prelude::*;

use std::sync::Arc;

verus! {

/// The Tenzro SDK client, carried through as is.
#[verifier::external_type_specification]
#[verifier::external_body]
pub struct ExTenzroClient(tenzro_sdk::TenzroClient);

/// Shared handle wrapping a connected `tenzro_sdk::TenzroClient`. Cheap to
/// clone: the client is shared behind an `Arc`.
#[derive(Clone)]
pub struct TenzroHandle {
    inner: Arc<tenzro_sdk::TenzroClient>,
    endpoint: String,
}

impl TenzroHandle {
    /// The endpoint the handle's client is connected to.
    pub closed spec fn endpoint_view(&self) -> Seq<char> {
        self.endpoint@
    }

    /// The connected client.
    pub closed spec fn client_view(&self) -> tenzro_sdk::TenzroClient {
        *self.inner
    }

    /// Wrap a client connected to `endpoint`.
    pub fn from_client(client: tenzro_sdk::TenzroClient, endpoint: String) -> (res: Self)
        ensures
            res.endpoint_view() == endpoint@,
            res.client_view() == client,
    {
        TenzroHandle { inner: Arc::new(client), endpoint }
    }

    /// Borrow the inner SDK client.
    pub fn sdk(&self) -> (res: &tenzro_sdk::TenzroClient)
        ensures
            *res == self.client_view(),
    {
        &self.inner
    }

    /// RPC endpoint this handle is connected to.
    pub fn endpoint(&self) -> (res: &str)
        ensures
            res@ == self.endpoint_view(),
    {
        self.endpoint.as_str()
    }
}

} // verus!
