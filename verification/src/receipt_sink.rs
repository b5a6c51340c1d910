//! Anchoring receipts via `tenzro_signMessage`.
//!
//! The receipt digest (BLAKE3 of the canonical receipt JSON, the same digest
//! the attester signs) is sent as `{"message_hex": "<hex>"}` to
//! `tenzro_signMessage`; the server signs it with the holder's wallet key,
//! which it identifies from the DPoP-bound JWT. No on-chain write, no
//! minimum amount. Any failure of the call is transient: the write reports
//! it, and the receipt's parameters wait in a `ReplayQueue`, oldest first,
//! until a flush sends them again.

use vstd::prelude::*;

use crate::attester::receipt_digest;
use crate::crypto::blake3_digest;
use crate::error::{edge_error_text, TenzroEdgeError};
use crate::text::{hex_encode, hex_lower, json_quoted, json_string};

verus! {

/// The JSON-RPC method receipts are anchored with.
pub const SIGN_MESSAGE_METHOD: &'static str = "tenzro_signMessage";

/// Why writing a receipt failed.
#[derive(Clone, Debug)]
pub enum SinkError {
    /// The receipt cannot be written as it is.
    Rejected(String),
    /// Writing failed for now; replay later.
    Transient(String),
}

/// The `message_hex` sent for a canonical receipt.
pub open spec fn receipt_message_hex(canonical: Seq<u8>) -> Seq<char> {
    hex_lower(blake3_digest(canonical))
}

/// The parameters of the call: `[{"message_hex":"<hex digest>"}]`.
pub open spec fn sign_message_params_spec(canonical: Seq<u8>) -> Seq<char> {
    "[{\"message_hex\":"@ + json_quoted(receipt_message_hex(canonical)) + "}]"@
}

/// The JSON parameters for anchoring a canonical receipt.
pub fn sign_message_params(canonical: &[u8]) -> (res: String)
    ensures
        res@ == sign_message_params_spec(canonical@),
{
    let digest = receipt_digest(canonical);
    let message_hex = hex_encode(&digest);
    let mut params = String::from_str("[{\"message_hex\":");
    params.append(json_string(message_hex.as_str()).as_str());
    params.append("}]");
    params
}

/// A failed anchoring call is transient.
pub fn transient_from_rpc(e: &TenzroEdgeError) -> (res: SinkError)
    ensures
        res matches SinkError::Transient(m) && m@ == "tenzro_signMessage: "@ + edge_error_text(*e),
{
    let mut m = String::from_str("tenzro_signMessage: ");
    m.append(e.message().as_str());
    SinkError::Transient(m)
}

/// A receipt that cannot be canonicalised is rejected.
pub fn rejected_receipt(detail: &str) -> (res: SinkError)
    ensures
        res matches SinkError::Rejected(m) && m@ == "canonicalise receipt: "@ + detail@,
{
    let mut m = String::from_str("canonicalise receipt: ");
    m.append(detail);
    SinkError::Rejected(m)
}

/// The parameters of anchoring calls that failed, waiting to be sent again,
/// oldest first.
pub struct ReplayQueue {
    pending: Vec<String>,
}

impl View for ReplayQueue {
    type V = Seq<Seq<char>>;

    closed spec fn view(&self) -> Seq<Seq<char>> {
        self.pending@.map_values(|p: String| p@)
    }
}

impl ReplayQueue {
    /// An empty queue.
    pub fn new() -> (res: Self)
        ensures
            res@ == Seq::<Seq<char>>::empty(),
    {
        let q = ReplayQueue { pending: Vec::new() };
        assert(q@ =~= Seq::<Seq<char>>::empty());
        q
    }

    /// Queue the parameters of a failed call, behind those already waiting.
    pub fn push(&mut self, params: String)
        ensures
            final(self)@ == old(self)@.push(params@),
    {
        self.pending.push(params);
        assert(final(self)@ =~= old(self)@.push(params@));
    }

    /// How many calls wait.
    pub fn len(&self) -> (res: usize)
        ensures
            res == self@.len(),
    {
        self.pending.len()
    }

    /// The oldest waiting call's parameters, if any wait.
    pub fn front(&self) -> (res: Option<String>)
        ensures
            match res {
                Some(p) => self@.len() > 0 && p@ == self@[0],
                None => self@.len() == 0,
            },
    {
        if self.pending.len() == 0 {
            None
        } else {
            Some(self.pending[0].clone())
        }
    }

    /// Drop the oldest waiting call, once it has been sent.
    pub fn pop_front(&mut self)
        ensures
            old(self)@.len() > 0 ==> final(self)@ == old(self)@.drop_first(),
            old(self)@.len() == 0 ==> final(self)@ == old(self)@,
    {
        if self.pending.len() > 0 {
            self.pending.remove(0);
            assert(final(self)@ =~= old(self)@.drop_first());
        }
    }
}

/// A failed anchoring call: its parameters join the queue, and the write
/// reports the failure as transient.
pub fn write_failed(queue: &mut ReplayQueue, params: String, e: &TenzroEdgeError) -> (res: SinkError)
    ensures
        final(queue)@ == old(queue)@.push(params@),
        res matches SinkError::Transient(m) && m@ == "tenzro_signMessage: "@ + edge_error_text(*e),
{
    queue.push(params);
    transient_from_rpc(e)
}

/// What a flush does next.
#[derive(Debug)]
pub enum FlushAction {
    /// Send these parameters (the oldest waiting call) again.
    Send(String),
    /// Nothing waits: the flush succeeded.
    Finished,
    /// The last send failed: the flush stops, the call stays queued.
    Stop(SinkError),
}

/// The queue after a flush step: the oldest call leaves it only once it
/// has been sent successfully.
pub open spec fn after_flush_step(
    waiting: Seq<Seq<char>>,
    last: Option<Result<(), TenzroEdgeError>>,
) -> Seq<Seq<char>> {
    match last {
        Some(Ok(())) => if waiting.len() > 0 {
            waiting.drop_first()
        } else {
            waiting
        },
        _ => waiting,
    }
}

/// One step of a flush. `last` is the outcome of sending the oldest waiting
/// call, or `None` before the first send. A success drops that call; a
/// failure stops the flush as transient and keeps it queued; otherwise the
/// oldest call still waiting is sent next, until none waits.
pub fn flush_step(queue: &mut ReplayQueue, last: Option<Result<(), TenzroEdgeError>>) -> (res:
    FlushAction)
    ensures
        final(queue)@ == after_flush_step(old(queue)@, last),
        match last {
            Some(Err(e)) => res matches FlushAction::Stop(SinkError::Transient(m)) && m@
                == "tenzro_signMessage: "@ + edge_error_text(e),
            _ => match res {
                FlushAction::Send(p) => final(queue)@.len() > 0 && p@ == final(queue)@[0],
                FlushAction::Finished => final(queue)@.len() == 0,
                FlushAction::Stop(_) => false,
            },
        },
{
    match last {
        Some(Err(e)) => {
            return FlushAction::Stop(transient_from_rpc(&e));
        },
        Some(Ok(())) => {
            queue.pop_front();
        },
        None => {},
    }
    match queue.front() {
        Some(p) => FlushAction::Send(p),
        None => FlushAction::Finished,
    }
}

/// Replay keeps order: sending and dropping the oldest waiting call while a
/// newer failure is queued leaves that newer one last, behind the rest.
pub proof fn law_replay_keeps_order(waiting: Seq<Seq<char>>, params: Seq<char>)
    requires
        waiting.len() > 0,
    ensures
        waiting.push(params).drop_first() == waiting.drop_first().push(params),
{
    assert(waiting.push(params).drop_first() =~= waiting.drop_first().push(params));
}

/// The sink anchors the very digest the attester signs: the `message_hex`
/// of a receipt is the hex of its attestation digest.
pub proof fn law_sink_anchors_attested_digest(canonical: Seq<u8>, digest: Seq<u8>)
    requires
        digest == blake3_digest(canonical),
    ensures
        receipt_message_hex(canonical) == hex_lower(digest),
{
}

} // verus!
