//! Peer discovery backed by Tenzro's provider directory.
//!
//! The directory is polled (`provider.list_providers()`, every 30 s by
//! default) and each provider becomes a `PeerAnnouncement`. When Tenzro is
//! unreachable the announcement stream simply ends, empty from then on, so
//! that LAN discovery carries on alone; other failures end it with an error.
//!
//! Tenzro provider ids are libp2p peer-id strings of varying length; mesh
//! peer ids are 32 bytes. The 32-byte id is the BLAKE3 hash of the libp2p
//! peer-id string, which is stable for a given string; the libp2p string itself
//! is kept in the labels.

use vstd::prelude::*;
use vstd::utf8::encode_utf8;

use crate::client::TenzroHandle;
use crate::span::Span;
use crate::crypto::{blake3_32, blake3_digest};
use crate::sdk::{sdk_debug, SdkFailure};

verus! {

/// A 32-byte mesh peer id.
#[derive(Clone, Copy, Debug)]
pub struct PeerId(pub [u8; 32]);

/// What the discovery logic reads of a Tenzro network provider.
#[derive(Clone, Debug)]
pub struct ProviderRecord {
    /// libp2p peer ID of the announcing node.
    pub peer_id: String,
    /// Provider type (e.g. "llm", "tee", "general").
    pub provider_type: String,
    /// Lifecycle status (e.g. "active", "draining").
    pub status: String,
    /// Capability labels.
    pub capabilities: Vec<String>,
    /// Model IDs currently being served.
    pub served_models: Vec<String>,
    /// HTTP RPC endpoint, empty when none.
    pub rpc_endpoint: String,
}

/// A peer as announced to the mesh.
#[derive(Clone, Debug)]
pub struct PeerAnnouncement {
    /// The peer's 32-byte id.
    pub peer: PeerId,
    /// Where to reach it, if it said.
    pub endpoint: Option<String>,
    /// Descriptive `key=value` labels.
    pub labels: Vec<String>,
}

/// Why discovery failed.
#[derive(Clone, Debug)]
pub enum DiscoveryError {
    /// The stream ended (link failure or timeout).
    Terminated(String),
    /// Discovery could not be set up.
    Setup(String),
}

/// Map an SDK failure into discovery errors: link failures and timeouts end
/// the stream; everything else is a setup failure.
pub fn map_sdk(e: SdkFailure) -> (res: DiscoveryError)
    ensures
        match e {
            SdkFailure::ConnectionError(s) => res matches DiscoveryError::Terminated(m) && m@ == s@,
            SdkFailure::RpcError(s) => res matches DiscoveryError::Terminated(m) && m@ == s@,
            SdkFailure::Timeout => res matches DiscoveryError::Terminated(m) && m@ == "timeout"@,
            _ => res matches DiscoveryError::Setup(m) && m@ == sdk_debug(e),
        },
{
    match e {
        SdkFailure::ConnectionError(s) => DiscoveryError::Terminated(s),
        SdkFailure::RpcError(s) => DiscoveryError::Terminated(s),
        SdkFailure::Timeout => DiscoveryError::Terminated(String::from_str("timeout")),
        other => DiscoveryError::Setup(other.debug_text()),
    }
}

/// The 32-byte peer id of a libp2p peer-id string.
pub open spec fn peer_id_spec(peer_id: Seq<char>) -> Seq<u8> {
    blake3_digest(encode_utf8(peer_id))
}

/// The peer id for a libp2p peer-id string: BLAKE3 of its UTF-8 bytes.
pub fn peer_id_from_libp2p(peer_id: &str) -> (res: PeerId)
    ensures
        res.0@ == peer_id_spec(peer_id@),
{
    PeerId(blake3_32(peer_id.as_bytes()))
}

/// `[prefix + value]` when `value` is non-empty, else nothing.
pub open spec fn label_if_set(prefix: Seq<char>, value: Seq<char>) -> Seq<Seq<char>> {
    if value.len() == 0 {
        Seq::<Seq<char>>::empty()
    } else {
        seq![prefix + value]
    }
}

/// `prefix + v` for each `v`.
pub open spec fn labels_for_each(prefix: Seq<char>, values: Seq<String>) -> Seq<Seq<char>> {
    values.map_values(|v: String| prefix + v@)
}

/// The labels of a provider's announcement, in order: its libp2p id, type
/// and status (each only when non-empty), then one per capability and one
/// per served model.
pub open spec fn provider_labels(p: ProviderRecord) -> Seq<Seq<char>> {
    label_if_set("libp2p="@, p.peer_id@) + label_if_set("type="@, p.provider_type@)
        + label_if_set("status="@, p.status@) + labels_for_each("cap="@, p.capabilities@)
        + labels_for_each("model="@, p.served_models@)
}

/// The views of a list of strings.
pub open spec fn string_views(v: Seq<String>) -> Seq<Seq<char>> {
    v.map_values(|s: String| s@)
}

fn push_label(labels: &mut Vec<String>, prefix: &str, value: &str)
    ensures
        string_views(final(labels)@) == string_views(old(labels)@) + seq![prefix@ + value@],
{
    let mut l = String::from_str(prefix);
    l.append(value);
    labels.push(l);
    assert(string_views(final(labels)@) =~= string_views(old(labels)@) + seq![prefix@ + value@]);
}

fn push_labels_for_each(labels: &mut Vec<String>, prefix: &str, values: &Vec<String>)
    ensures
        string_views(final(labels)@) == string_views(old(labels)@) + labels_for_each(
            prefix@,
            values@,
        ),
{
    let ghost start = string_views(labels@);
    let mut i: usize = 0;
    while i < values.len()
        invariant
            i <= values.len(),
            string_views(labels@) == start + labels_for_each(prefix@, values@.subrange(0, i as int)),
        decreases values.len() - i,
    {
        push_label(labels, prefix, values[i].as_str());
        assert(labels_for_each(prefix@, values@.subrange(0, i + 1)) =~= labels_for_each(
            prefix@,
            values@.subrange(0, i as int),
        ) + seq![prefix@ + values@[i as int]@]);
        i = i + 1;
    }
    assert(values@.subrange(0, values.len() as int) =~= values@);
}

/// The announcement for a provider: its hashed peer id, its RPC endpoint
/// when it has one, and its labels.
pub fn announcement_from_provider(p: &ProviderRecord) -> (res: PeerAnnouncement)
    ensures
        res.peer.0@ == peer_id_spec(p.peer_id@),
        res.endpoint matches Some(e) ==> e@ == p.rpc_endpoint@,
        res.endpoint is None <==> p.rpc_endpoint@.len() == 0,
        string_views(res.labels@) == provider_labels(*p),
{
    let mut labels: Vec<String> = Vec::new();
    assert(string_views(labels@) =~= Seq::<Seq<char>>::empty());
    if !p.peer_id.as_str().is_empty() {
        push_label(&mut labels, "libp2p=", p.peer_id.as_str());
    }
    if !p.provider_type.as_str().is_empty() {
        push_label(&mut labels, "type=", p.provider_type.as_str());
    }
    if !p.status.as_str().is_empty() {
        push_label(&mut labels, "status=", p.status.as_str());
    }
    push_labels_for_each(&mut labels, "cap=", &p.capabilities);
    push_labels_for_each(&mut labels, "model=", &p.served_models);
    let endpoint = if p.rpc_endpoint.as_str().is_empty() {
        None
    } else {
        Some(p.rpc_endpoint.clone())
    };
    PeerAnnouncement { peer: peer_id_from_libp2p(p.peer_id.as_str()), endpoint, labels }
}

/// The announcements for a polled list of providers, one per provider, in
/// order.
pub fn announcements(providers: &Vec<ProviderRecord>) -> (res: Vec<PeerAnnouncement>)
    ensures
        res@.len() == providers@.len(),
        forall|i: int|
            0 <= i < providers@.len() ==> {
                &&& (#[trigger] res@[i]).peer.0@ == peer_id_spec(providers@[i].peer_id@)
                &&& string_views(res@[i].labels@) == provider_labels(providers@[i])
                &&& res@[i].endpoint is None <==> providers@[i].rpc_endpoint@.len() == 0
                &&& res@[i].endpoint matches Some(e) ==> e@ == providers@[i].rpc_endpoint@
            },
{
    let mut out: Vec<PeerAnnouncement> = Vec::new();
    let mut i: usize = 0;
    while i < providers.len()
        invariant
            i <= providers.len(),
            out@.len() == i,
            forall|j: int|
                0 <= j < i ==> {
                    &&& (#[trigger] out@[j]).peer.0@ == peer_id_spec(providers@[j].peer_id@)
                    &&& string_views(out@[j].labels@) == provider_labels(providers@[j])
                    &&& out@[j].endpoint is None <==> providers@[j].rpc_endpoint@.len() == 0
                    &&& out@[j].endpoint matches Some(e) ==> e@ == providers@[j].rpc_endpoint@
                },
        decreases providers.len() - i,
    {
        out.push(announcement_from_provider(&providers[i]));
        i = i + 1;
    }
    out
}


/// `a` is the announcement of provider `p`.
pub open spec fn announces(p: ProviderRecord, a: PeerAnnouncement) -> bool {
    &&& a.peer.0@ == peer_id_spec(p.peer_id@)
    &&& string_views(a.labels@) == provider_labels(p)
    &&& (a.endpoint is None <==> p.rpc_endpoint@.len() == 0)
    &&& (a.endpoint matches Some(e) ==> e@ == p.rpc_endpoint@)
}

/// What one poll of the provider directory leads to.
#[derive(Debug)]
pub enum DiscoveryStep {
    /// Announce these peers, then wait and poll again.
    Announce(Vec<PeerAnnouncement>),
    /// Tenzro is unreachable: the stream ends with no further item, and LAN
    /// discovery carries on without it.
    End,
    /// Discovery cannot go on: the stream yields this error and ends.
    Fail(DiscoveryError),
}

/// Decide on one poll: the providers listed are announced in order; a link
/// failure or timeout (Tenzro unreachable) ends the stream quietly; any other
/// failure ends it with the error `map_sdk` gives.
pub fn discovery_step(polled: Result<Vec<ProviderRecord>, SdkFailure>) -> (res: DiscoveryStep)
    ensures
        match polled {
            Ok(ps) => res matches DiscoveryStep::Announce(a) && a@.len() == ps@.len() && forall|
                i: int,
            | 0 <= i < ps@.len() ==> announces(ps@[i], #[trigger] a@[i]),
            Err(e) => if e is ConnectionError || e is RpcError || e is Timeout {
                res is End
            } else {
                res matches DiscoveryStep::Fail(DiscoveryError::Setup(m)) && m@ == sdk_debug(e)
            },
        },
{
    match polled {
        Ok(ps) => {
            let a = announcements(&ps);
            assert forall|i: int| 0 <= i < ps@.len() implies announces(ps@[i], #[trigger] a@[i]) by {
                assert(a@[i].peer.0@ == peer_id_spec(ps@[i].peer_id@));
            }
            DiscoveryStep::Announce(a)
        },
        Err(e) => match e {
            SdkFailure::ConnectionError(_) => DiscoveryStep::End,
            SdkFailure::RpcError(_) => DiscoveryStep::End,
            SdkFailure::Timeout => DiscoveryStep::End,
            other => DiscoveryStep::Fail(map_sdk(other)),
        },
    }
}

/// Default poll interval of the provider directory, in seconds.
pub const DEFAULT_DISCOVERY_POLL_SECS: u64 = 30;

/// Discovery backed by Tenzro's provider directory.
pub struct TenzroDiscovery {
    handle: TenzroHandle,
    poll_interval: Span,
}

impl TenzroDiscovery {
    /// The handle it works through.
    pub closed spec fn handle_view(&self) -> TenzroHandle {
        self.handle
    }

    /// The poll interval.
    pub closed spec fn poll_interval_view(&self) -> Span {
        self.poll_interval
    }

    /// Construct a Tenzro discovery backend polling every 30 seconds.
    pub fn new(handle: TenzroHandle) -> (res: Self)
        ensures
            res.poll_interval_view() == (Span { secs: 30, nanos: 0 }),
            res.handle_view() == handle,
    {
        TenzroDiscovery { handle, poll_interval: Span { secs: DEFAULT_DISCOVERY_POLL_SECS, nanos: 0 } }
    }

    /// Override the poll interval.
    pub fn with_poll_interval(self, interval: Span) -> (res: Self)
        ensures
            res.poll_interval_view() == interval,
            res.handle_view() == self.handle_view(),
    {
        TenzroDiscovery { poll_interval: interval, ..self }
    }

    /// The poll interval.
    pub fn poll_interval(&self) -> (res: Span)
        ensures
            res == self.poll_interval_view(),
    {
        self.poll_interval
    }

    /// The handle it polls through.
    pub fn handle(&self) -> (res: &TenzroHandle)
        ensures
            *res == self.handle_view(),
    {
        &self.handle
    }
}

} // verus!
