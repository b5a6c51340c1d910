//! Work settlement over Tenzro nanopayment channels.
//!
//! Channels are opened with `nanopayment.open_channel`, payments sent with
//! `nanopayment.send_nanopayment` (the receipt's `for_work` digest travels
//! hex-encoded in the memo, so the counterparty can correlate the payment
//! with the receipt it settles), and channels closed with
//! `nanopayment.close_channel`.
//!
//! Amounts arrive as decimal strings; the SDK takes `u64`. The string is
//! parsed as a `u128` and saturated to `u64`; anything that is not an integer
//! is refused. Sub-unit values (e.g. `"0.001"`) must be converted to the
//! asset's smallest unit by the caller.

use vstd::prelude::*;

use crate::client::TenzroHandle;
use crate::sdk::{insufficient_funds_message, insufficient_funds_text, sdk_debug, SdkFailure};
use crate::text::{contains_char, hex_encode, hex_lower, int_error_text, parse_u128, parse_unsigned};

verus! {

/// The asset of a channel opened without a deposit.
pub const DEFAULT_ASSET: &'static str = "TZN";

/// An amount of an asset, as a decimal string in its smallest unit.
#[derive(Clone, Debug)]
pub struct Amount {
    /// Decimal value.
    pub value: String,
    /// Asset symbol.
    pub asset: String,
}

/// A payment channel's id.
#[derive(Clone, Debug)]
pub struct ChannelId(pub String);

/// Proof that a payment for some work was made.
#[derive(Clone, Debug)]
pub struct SettlementReceipt {
    /// Payment id.
    pub txid: String,
    /// The channel it went through.
    pub channel: Option<ChannelId>,
    /// The receipt digest it settles.
    pub for_work: [u8; 32],
}

/// Why settlement failed.
#[derive(Clone, Debug)]
pub enum WorkSettlementError {
    /// Transient failure; retrying may help.
    Transient(String),
    /// The request was refused.
    Refused(String),
    /// Settlement failed.
    Failed(String),
}

/// Map an SDK failure into settlement errors.
pub fn map_sdk(e: SdkFailure) -> (res: WorkSettlementError)
    ensures
        match e {
            SdkFailure::ConnectionError(s) => res matches WorkSettlementError::Transient(m) && m@
                == s@,
            SdkFailure::RpcError(s) => res matches WorkSettlementError::Transient(m) && m@ == s@,
            SdkFailure::Timeout => res matches WorkSettlementError::Transient(m) && m@
                == "timeout"@,
            SdkFailure::InsufficientFunds { required, available } => res matches WorkSettlementError::Refused(
                m,
            ) && m@ == insufficient_funds_text(required, available),
            SdkFailure::SettlementError(s) => res matches WorkSettlementError::Failed(m) && m@
                == s@,
            _ => res matches WorkSettlementError::Failed(m) && m@ == sdk_debug(e),
        },
{
    match e {
        SdkFailure::ConnectionError(s) => WorkSettlementError::Transient(s),
        SdkFailure::RpcError(s) => WorkSettlementError::Transient(s),
        SdkFailure::Timeout => WorkSettlementError::Transient(String::from_str("timeout")),
        SdkFailure::InsufficientFunds { required, available } => WorkSettlementError::Refused(
            insufficient_funds_message(required, available),
        ),
        SdkFailure::SettlementError(s) => WorkSettlementError::Failed(s),
        other => WorkSettlementError::Failed(other.debug_text()),
    }
}

/// The message for an amount with a fractional part.
pub open spec fn sub_unit_text(value: Seq<char>) -> Seq<char> {
    "sub-unit amounts not supported by tenzro nanopayment ('"@ + value
        + "'); pre-convert to smallest unit"@
}

/// The u64 an amount string stands for: refused when it holds a `.`, or
/// when it is no unsigned integer that fits a `u128` (with the parse error's
/// text); otherwise its value, saturated at `u64::MAX`.
pub open spec fn amount_spec(value: Seq<char>) -> Result<u64, Seq<char>> {
    if value.contains('.') {
        Err(sub_unit_text(value))
    } else {
        match parse_unsigned(value, u128::MAX as int) {
            Ok(v) => Ok(
                if v > u64::MAX {
                    u64::MAX
                } else {
                    v as u64
                },
            ),
            Err(k) => Err("invalid amount '"@ + value + "': "@ + int_error_text(k)),
        }
    }
}

/// Parse an amount into the SDK's `u64`: integers only, saturating.
pub fn amount_to_u64(a: &Amount) -> (res: Result<u64, WorkSettlementError>)
    ensures
        match amount_spec(a.value@) {
            Ok(v) => res == Ok::<u64, WorkSettlementError>(v),
            Err(m) => res matches Err(WorkSettlementError::Refused(r)) && r@ == m,
        },
{
    if contains_char(a.value.as_str(), '.') {
        let mut m = String::from_str("sub-unit amounts not supported by tenzro nanopayment ('");
        m.append(a.value.as_str());
        m.append("'); pre-convert to smallest unit");
        return Err(WorkSettlementError::Refused(m));
    }
    match parse_u128(a.value.as_str()) {
        Ok(v) => Ok(
            if v > u64::MAX as u128 {
                u64::MAX
            } else {
                v as u64
            },
        ),
        Err(k) => {
            let mut m = String::from_str("invalid amount '");
            m.append(a.value.as_str());
            m.append("': ");
            m.append(k.message());
            Err(WorkSettlementError::Refused(m))
        },
    }
}

/// The deposit and asset a channel is opened with: the deposit's amount and
/// asset, or zero `TZN` (an unfunded channel) when there is none.
pub fn channel_terms(deposit: Option<&Amount>) -> (res: Result<(u64, String), WorkSettlementError>)
    ensures
        match deposit {
            None => res matches Ok((d, asset)) && d == 0 && asset@ == "TZN"@,
            Some(a) => match amount_spec(a.value@) {
                Ok(v) => res matches Ok((d, asset)) && d == v && asset@ == a.asset@,
                Err(m) => res matches Err(WorkSettlementError::Refused(r)) && r@ == m,
            },
        },
{
    match deposit {
        Some(a) => {
            let d = amount_to_u64(a)?;
            Ok((d, a.asset.clone()))
        },
        None => Ok((0, String::from_str(DEFAULT_ASSET))),
    }
}

/// What a micropayment sends: the channel, the amount, and the memo.
#[derive(Clone, Debug)]
pub struct PaymentTerms {
    /// The channel id.
    pub channel_id: String,
    /// The amount in the smallest unit.
    pub amount: u64,
    /// The hex of the settled receipt digest.
    pub memo: String,
}

/// The message when no channel is given.
pub open spec fn no_channel_text() -> Seq<char> {
    "tenzro nanopayments require a channel — call open_channel first"@
}

/// The terms of a micropayment: a channel is required; the amount must
/// parse; the memo is the hex of the receipt digest it settles.
pub fn payment_terms(channel: Option<&ChannelId>, amount: &Amount, for_work: &[u8; 32]) -> (res:
    Result<PaymentTerms, WorkSettlementError>)
    ensures
        match channel {
            None => res matches Err(WorkSettlementError::Refused(m)) && m@ == no_channel_text(),
            Some(c) => match amount_spec(amount.value@) {
                Ok(v) => res matches Ok(t) && t.channel_id@ == c.0@ && t.amount == v && t.memo@
                    == hex_lower(for_work@),
                Err(m) => res matches Err(WorkSettlementError::Refused(r)) && r@ == m,
            },
        },
{
    let c = match channel {
        Some(c) => c,
        None => {
            return Err(
                WorkSettlementError::Refused(
                    String::from_str(
                        "tenzro nanopayments require a channel — call open_channel first",
                    ),
                ),
            );
        },
    };
    let amount = amount_to_u64(amount)?;
    Ok(PaymentTerms { channel_id: c.0.clone(), amount, memo: hex_encode(for_work) })
}

/// The settlement receipt for a sent payment.
pub fn settlement_receipt(payment_id: String, channel_id: String, for_work: [u8; 32]) -> (res:
    SettlementReceipt)
    ensures
        res.txid@ == payment_id@,
        res.channel matches Some(c) && c.0@ == channel_id@,
        res.for_work == for_work,
{
    SettlementReceipt { txid: payment_id, channel: Some(ChannelId(channel_id)), for_work }
}

/// A settlement never pays a fraction: an amount holding a `.` is refused.
pub proof fn law_fractional_amounts_refused(value: Seq<char>)
    requires
        value.contains('.'),
    ensures
        amount_spec(value) is Err,
{
}


/// Work settlement backed by Tenzro nanopayments.
pub struct TenzroWorkSettlement {
    handle: TenzroHandle,
    payer: String,
}

impl TenzroWorkSettlement {
    /// The handle it works through.
    pub closed spec fn handle_view(&self) -> TenzroHandle {
        self.handle
    }

    /// The local payer address.
    pub closed spec fn payer_view(&self) -> Seq<char> {
        self.payer@
    }

    /// Construct a settlement gateway; `payer` is the local node's wallet
    /// address, the originator of payments.
    pub fn new(handle: TenzroHandle, payer: String) -> (res: Self)
        ensures
            res.payer_view() == payer@,
            res.handle_view() == handle,
    {
        TenzroWorkSettlement { handle, payer }
    }

    /// The local payer address.
    pub fn payer(&self) -> (res: &str)
        ensures
            res@ == self.payer_view(),
    {
        self.payer.as_str()
    }

    /// The handle it pays through.
    pub fn handle(&self) -> (res: &TenzroHandle)
        ensures
            *res == self.handle_view(),
    {
        &self.handle
    }
}

} // verus!
