//! Work brokering over Tenzro's task marketplace.
//!
//! An offer is posted as a task (`task.post_task`), then the task is polled
//! (`task.get_task`) until it reaches a terminal status or the offer's
//! deadline passes. The work type is forwarded verbatim; the request bytes
//! travel base64-encoded (standard alphabet) and the executor's output comes
//! back the same way. `max_price` is forwarded as given (no cap: `u128::MAX`),
//! and the poster address is the one the broker was made with.
//!
//! The caller performs the calls and the waiting; the decisions are here:
//! what to post (`task_posting`), when the deadline has passed
//! (`deadline_outcome`), and what a polled task means (`poll_step`).

use vstd::prelude::*;
use vstd::utf8::encode_utf8;

use crate::codec::{b64std, b64std_decode, b64std_decode_error_text, b64std_encode};
use crate::crypto::{blake3_32, blake3_digest};
use crate::client::TenzroHandle;
use crate::discovery::PeerId;
use crate::span::{duration_debug, duration_text, span_nanos, Span};
use crate::sdk::{insufficient_funds_message, insufficient_funds_text, sdk_debug, SdkFailure};
use crate::text::{hex_decode_spec, lowercase, str_eq, to_lowercase};

verus! {

/// Default poll cadence: 2 s.
pub const DEFAULT_POLL_INTERVAL_SECS: u64 = 2;

/// Default deadline when an offer names none: 5 minutes.
pub const DEFAULT_DEADLINE_SECS: u64 = 300;

/// A unit of work offered to the marketplace.
#[derive(Clone, Debug)]
pub struct WorkOffer {
    /// Free-form work type, forwarded verbatim.
    pub work_type: String,
    /// Opaque request bytes.
    pub request: Vec<u8>,
    /// Most the poster will pay, if capped.
    pub max_price: Option<u128>,
    /// Seconds to wait for completion, if not the broker's default.
    pub deadline_secs: Option<u32>,
}

/// How an offer ended.
#[derive(Clone, Debug)]
pub enum WorkOutcome {
    /// The executor finished and replied.
    Completed { response: Vec<u8>, executor: PeerId },
    /// The task failed or timed out.
    Failed { reason: String },
    /// The task was refused (cancelled).
    Refused { reason: String },
}

/// Why brokering failed.
#[derive(Clone, Debug)]
pub enum WorkBrokerError {
    /// The marketplace cannot be reached.
    Unreachable(String),
    /// A transient failure; retrying may help.
    Transient(String),
    /// The operation failed.
    Failed(String),
}

/// Map an SDK failure into broker errors: link failures mean the market is
/// unreachable, a timeout is transient, and everything else fails.
pub fn map_sdk(e: SdkFailure) -> (res: WorkBrokerError)
    ensures
        match e {
            SdkFailure::ConnectionError(s) => res matches WorkBrokerError::Unreachable(m) && m@
                == s@,
            SdkFailure::RpcError(s) => res matches WorkBrokerError::Unreachable(m) && m@ == s@,
            SdkFailure::Timeout => res matches WorkBrokerError::Transient(m) && m@ == "timeout"@,
            SdkFailure::InsufficientFunds { required, available } => res matches WorkBrokerError::Failed(m)
                && m@ == insufficient_funds_text(required, available),
            _ => res matches WorkBrokerError::Failed(m) && m@ == sdk_debug(e),
        },
{
    match e {
        SdkFailure::ConnectionError(s) => WorkBrokerError::Unreachable(s),
        SdkFailure::RpcError(s) => WorkBrokerError::Unreachable(s),
        SdkFailure::Timeout => WorkBrokerError::Transient(String::from_str("timeout")),
        SdkFailure::InsufficientFunds { required, available } => WorkBrokerError::Failed(
            insufficient_funds_message(required, available),
        ),
        other => WorkBrokerError::Failed(other.debug_text()),
    }
}

/// `tenzro_sdk::types::Address::from_hex`: an optional `0x` prefix, then the
/// hex of 32 bytes, or of 20 bytes (an EVM address), which are followed by
/// twelve zero bytes.
pub open spec fn address_from_hex_spec(s: Seq<char>) -> Option<Seq<u8>> {
    let stripped = if s.len() >= 2 && s[0] == '0' && s[1] == 'x' {
        s.subrange(2, s.len() as int)
    } else {
        s
    };
    match hex_decode_spec(stripped) {
        Some(b) => if b.len() == 32 {
            Some(b)
        } else if b.len() == 20 {
            Some(b + Seq::new(12, |i: int| 0u8))
        } else {
            None
        },
        None => None,
    }
}

/// `tenzro_sdk::types::Address::from_hex`, as its 32 bytes. The contract
/// restates the function's source as `address_from_hex_spec`.
#[verifier::external_body]
fn address_from_hex(s: &str) -> (res: Option<[u8; 32]>)
    ensures
        match res {
            Some(a) => address_from_hex_spec(s@) == Some(a@),
            None => address_from_hex_spec(s@) is None,
        },
{
    tenzro_sdk::types::Address::from_hex(s).map(|a| a.0)
}

/// The poster address a broker is made with: a 32-byte address, or a
/// 20-byte one widened, in hex with or without `0x`.
pub fn parse_poster(poster_hex: &str) -> (res: Result<[u8; 32], WorkBrokerError>)
    ensures
        match address_from_hex_spec(poster_hex@) {
            Some(a) => res matches Ok(r) && r@ == a,
            None => res matches Err(WorkBrokerError::Failed(m)) && m@ == "invalid poster address: "@
                + poster_hex@,
        },
{
    match address_from_hex(poster_hex) {
        Some(a) => Ok(a),
        None => {
            let mut m = String::from_str("invalid poster address: ");
            m.append(poster_hex);
            Err(WorkBrokerError::Failed(m))
        },
    }
}

/// What is posted for an offer.
#[derive(Clone, Debug)]
pub struct TaskPosting {
    /// `furcate:<work type>`.
    pub title: String,
    /// A fixed description.
    pub description: String,
    /// The work type.
    pub task_type: String,
    /// The price cap, `u128::MAX` when the offer has none.
    pub max_price: u128,
    /// The request, standard base64.
    pub input_b64: String,
}

/// The description of every posted task.
pub open spec fn posting_description() -> Seq<char> {
    "Posted by furcate WorkBroker (tenzro-edge)"@
}

/// The task to post for an offer.
pub fn task_posting(offer: &WorkOffer) -> (res: TaskPosting)
    ensures
        res.title@ == "furcate:"@ + offer.work_type@,
        res.description@ == posting_description(),
        res.task_type@ == offer.work_type@,
        res.max_price == match offer.max_price {
            Some(p) => p,
            None => u128::MAX,
        },
        res.input_b64@ == b64std(offer.request@),
{
    let input_b64 = b64std_encode(offer.request.as_slice());
    let max_price = match offer.max_price {
        Some(p) => p,
        None => u128::MAX,
    };
    let mut title = String::from_str("furcate:");
    title.append(offer.work_type.as_str());
    TaskPosting {
        title,
        description: String::from_str("Posted by furcate WorkBroker (tenzro-edge)"),
        task_type: offer.work_type.clone(),
        max_price,
        input_b64,
    }
}

/// The deadline of an offer: its own in seconds, or the broker's default.
pub fn offer_deadline(deadline_secs: Option<u32>, default_deadline: Span) -> (res: Span)
    ensures
        match deadline_secs {
            Some(s) => res.secs == s && res.nanos == 0,
            None => res == default_deadline,
        },
{
    match deadline_secs {
        Some(s) => Span { secs: s as u64, nanos: 0 },
        None => default_deadline,
    }
}

/// The reason given when an offer's deadline passes.
pub open spec fn deadline_reason(deadline: Span, task_id: Seq<char>) -> Seq<char> {
    "deadline "@ + duration_debug(deadline.secs, deadline.nanos) + " exceeded for task "@ + task_id
}

/// Before each poll: once more time has elapsed than the deadline allows,
/// the offer has failed.
pub fn deadline_outcome(elapsed: &Span, deadline: &Span, task_id: &str) -> (res: Option<
    WorkOutcome,
>)
    requires
        elapsed.nanos < 1_000_000_000,
        deadline.nanos < 1_000_000_000,
    ensures
        res is Some <==> span_nanos(*elapsed) > span_nanos(*deadline),
        res matches Some(o) ==> o matches WorkOutcome::Failed { reason } && reason@
            == deadline_reason(*deadline, task_id@),
{
    if elapsed.secs > deadline.secs || (elapsed.secs == deadline.secs && elapsed.nanos
        > deadline.nanos) {
        let mut reason = String::from_str("deadline ");
        reason.append(duration_text(deadline).as_str());
        reason.append(" exceeded for task ");
        reason.append(task_id);
        Some(WorkOutcome::Failed { reason })
    } else {
        None
    }
}

/// The status of a polled task, lower-cased; empty when it is no string.
pub fn status_str(status: Option<&str>) -> (res: String)
    ensures
        res@ == match status {
            Some(s) => lowercase(s@),
            None => Seq::<char>::empty(),
        },
{
    match status {
        Some(s) => to_lowercase(s),
        None => String::new(),
    }
}

/// The executor's id: BLAKE3 of the assigned agent's id, or all zeros when
/// no agent was assigned.
pub open spec fn executor_id(assigned_agent: Option<String>) -> Seq<u8> {
    match assigned_agent {
        Some(a) => blake3_digest(encode_utf8(a@)),
        None => Seq::new(32, |i: int| 0u8),
    }
}

/// What one poll of the task means.
#[derive(Debug)]
pub enum PollStep {
    /// The offer is over, with this result.
    Done(Result<WorkOutcome, WorkBrokerError>),
    /// The task is still pending or running: wait and poll again.
    Pending,
}

/// The output text of a task: empty when it has none.
pub open spec fn output_text(output: Option<String>) -> Seq<char> {
    match output {
        Some(o) => o@,
        None => Seq::<char>::empty(),
    }
}

fn task_message(task_id: &str, tail: &str) -> (res: String)
    ensures
        res@ == "task "@ + task_id@ + tail@,
{
    let mut m = String::from_str("task ");
    m.append(task_id);
    m.append(tail);
    m
}

fn zero_peer() -> (res: PeerId)
    ensures
        res.0@ == Seq::new(32, |i: int| 0u8),
{
    let z: [u8; 32] = [0u8; 32];
    assert(z@ =~= Seq::new(32, |i: int| 0u8));
    PeerId(z)
}

/// Decide on a polled task by its (lower-cased) status: `completed` ends the
/// offer with the executor's decoded output, `failed` as failed, `cancelled`
/// as refused; any other status means poll again.
pub fn poll_step(
    task_id: &str,
    status: &str,
    output: Option<String>,
    assigned_agent: Option<String>,
) -> (res: PollStep)
    ensures
        status@ == "completed"@ ==> {
            let out = output_text(output);
            if exists|v: Seq<u8>| b64std(v) == out {
                res matches PollStep::Done(Ok(WorkOutcome::Completed { response, executor }))
                    && b64std(response@) == out && executor.0@ == executor_id(assigned_agent)
            } else {
                res matches PollStep::Done(Err(WorkBrokerError::Failed(m))) && m@ == "task "@
                    + task_id@ + " output is not valid base64: "@ + b64std_decode_error_text(out)
            }
        },
        status@ == "failed"@ ==> (res matches PollStep::Done(Ok(WorkOutcome::Failed { reason }))
            && reason@ == "task "@ + task_id@ + " failed"@),
        status@ == "cancelled"@ ==> (res matches PollStep::Done(
            Ok(WorkOutcome::Refused { reason }),
        ) && reason@ == "task "@ + task_id@ + " cancelled"@),
        (status@ != "completed"@ && status@ != "failed"@ && status@ != "cancelled"@)
            ==> res is Pending,
{
    proof {
        reveal_strlit("completed");
        reveal_strlit("failed");
        reveal_strlit("cancelled");
        assert("completed"@[1] != "cancelled"@[1]);
        assert("completed"@ != "cancelled"@);
        assert("failed"@.len() != "cancelled"@.len());
    }
    if str_eq(status, "completed") {
        let out = match output {
            Some(o) => o,
            None => String::new(),
        };
        match b64std_decode(out.as_str()) {
            Err(e) => {
                let mut m = task_message(task_id, " output is not valid base64: ");
                m.append(e.as_str());
                PollStep::Done(Err(WorkBrokerError::Failed(m)))
            },
            Ok(response) => {
                let executor = match &assigned_agent {
                    Some(a) => PeerId(blake3_32(a.as_str().as_bytes())),
                    None => zero_peer(),
                };
                PollStep::Done(Ok(WorkOutcome::Completed { response, executor }))
            },
        }
    } else if str_eq(status, "failed") {
        PollStep::Done(Ok(WorkOutcome::Failed { reason: task_message(task_id, " failed") }))
    } else if str_eq(status, "cancelled") {
        PollStep::Done(Ok(WorkOutcome::Refused { reason: task_message(task_id, " cancelled") }))
    } else {
        PollStep::Pending
    }
}


/// Work broker backed by Tenzro's task marketplace.
pub struct TenzroBroker {
    handle: TenzroHandle,
    poster: [u8; 32],
    poll_interval: Span,
    default_deadline: Span,
}

impl TenzroBroker {
    /// The handle it works through.
    pub closed spec fn handle_view(&self) -> TenzroHandle {
        self.handle
    }

    /// The address that posts tasks (and is charged on settlement).
    pub closed spec fn poster_view(&self) -> Seq<u8> {
        self.poster@
    }

    /// The completion-poll cadence.
    pub closed spec fn poll_interval_view(&self) -> Span {
        self.poll_interval
    }

    /// The deadline applied to offers that name none.
    pub closed spec fn default_deadline_view(&self) -> Span {
        self.default_deadline
    }

    /// Construct a Tenzro broker. `poster_hex` may be `0x`-prefixed or bare;
    /// it must spell a 32-byte address or a 20-byte EVM address, which is
    /// widened. Polls every 2 s; offers without a deadline get 5 minutes.
    pub fn new(handle: TenzroHandle, poster_hex: &str) -> (res: Result<Self, WorkBrokerError>)
        ensures
            match address_from_hex_spec(poster_hex@) {
                Some(a) => res matches Ok(b) && b.handle_view() == handle && b.poster_view() == a
                    && b.poll_interval_view()
                    == Span { secs: 2, nanos: 0 } && b.default_deadline_view() == Span {
                    secs: 300,
                    nanos: 0,
                },
                None => res matches Err(WorkBrokerError::Failed(m)) && m@
                    == "invalid poster address: "@ + poster_hex@,
            },
    {
        let poster = parse_poster(poster_hex)?;
        Ok(TenzroBroker {
            handle,
            poster,
            poll_interval: Span { secs: DEFAULT_POLL_INTERVAL_SECS, nanos: 0 },
            default_deadline: Span { secs: DEFAULT_DEADLINE_SECS, nanos: 0 },
        })
    }

    /// Override the completion-poll cadence.
    pub fn with_poll_interval(self, interval: Span) -> (res: Self)
        ensures
            res.poll_interval_view() == interval,
            res.handle_view() == self.handle_view(),
            res.poster_view() == self.poster_view(),
            res.default_deadline_view() == self.default_deadline_view(),
    {
        TenzroBroker { poll_interval: interval, ..self }
    }

    /// Override the deadline applied to offers that name none.
    pub fn with_default_deadline(self, deadline: Span) -> (res: Self)
        ensures
            res.default_deadline_view() == deadline,
            res.handle_view() == self.handle_view(),
            res.poster_view() == self.poster_view(),
            res.poll_interval_view() == self.poll_interval_view(),
    {
        TenzroBroker { default_deadline: deadline, ..self }
    }

    /// The poster address.
    pub fn poster(&self) -> (res: [u8; 32])
        ensures
            res@ == self.poster_view(),
    {
        self.poster
    }

    /// The completion-poll cadence.
    pub fn poll_interval(&self) -> (res: Span)
        ensures
            res == self.poll_interval_view(),
    {
        self.poll_interval
    }

    /// The deadline applied to offers that name none.
    pub fn default_deadline(&self) -> (res: Span)
        ensures
            res == self.default_deadline_view(),
    {
        self.default_deadline
    }

    /// The handle it posts through.
    pub fn handle(&self) -> (res: &TenzroHandle)
        ensures
            *res == self.handle_view(),
    {
        &self.handle
    }
}

} // verus!
