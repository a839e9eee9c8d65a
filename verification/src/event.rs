//! Per-probe outcome events, emitted once per probe attempt by a prober
//! and consumed by the aggregator.

use vstd::prelude::*;

verus! {

/// What a single probe attempt produced: a matching echo reply with its
/// round-trip time in milliseconds, or no usable reply before the timeout.
#[derive(Clone, Copy, Debug, PartialEq, Eq, Structural)]
pub enum OutcomeKind {
    Replied(u64),
    TimedOut,
}

/// One probe attempt's result. Ownership moves from the prober to the
/// aggregator over the event channel; the value is never shared.
#[derive(Clone, Copy, Debug, PartialEq, Eq, Structural)]
pub struct ProbeOutcome {
    /// Index of the probed target in the aggregator's statistics vector.
    pub index: usize,
    /// ICMP sequence number of the request this outcome answers.
    pub seq: u16,
    /// Reply or timeout.
    pub kind: OutcomeKind,
    /// Milliseconds since an arbitrary epoch, recorded when the outcome
    /// was determined. Carried for display; the statistics do not read it.
    pub timestamp_ms: u64,
}

} // verus!
