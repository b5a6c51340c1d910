//! Lengths of time, as plain values.

use vstd::prelude::*;

verus! {

/// A length of time, as `std::time::Duration` holds it.
#[derive(Clone, Copy, Debug)]
pub struct Span {
    /// Whole seconds.
    pub secs: u64,
    /// Nanoseconds past the whole seconds, below one billion.
    pub nanos: u32,
}

/// The span in nanoseconds.
pub open spec fn span_nanos(s: Span) -> int {
    s.secs * 1_000_000_000 + s.nanos
}

/// What the `Debug` of a `Duration` of `secs` seconds and `nanos`
/// nanoseconds writes (`"300s"`, `"1.5s"`, `"20ms"` and so on).
pub uninterp spec fn duration_debug(secs: u64, nanos: u32) -> Seq<char>;

/// `format!("{:?}", Duration::new(secs, nanos))`; the contract names the
/// result.
#[verifier::external_body]
pub(crate) fn duration_text(d: &Span) -> (res: String)
    requires
        d.nanos < 1_000_000_000,
    ensures
        res@ == duration_debug(d.secs, d.nanos),
{
    format!("{:?}", std::time::Duration::new(d.secs, d.nanos))
}

/// `secs` whole seconds.
pub fn from_secs(secs: u64) -> (res: Span)
    ensures
        res.secs == secs,
        res.nanos == 0,
{
    Span { secs, nanos: 0 }
}

} // verus!
