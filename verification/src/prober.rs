//! Per-target prober state machine: identifier and sequence derivation,
//! pacing and termination decisions, and classification of what the
//! reply wait produced. The caller performs the socket work around each
//! decision; the machine only decides.

use vstd::prelude::*;
use crate::event::OutcomeKind;
use crate::packet::reply_matches;
use crate::packet::is_matching_reply;

verus! {

/// What the prober loop should do next.
#[derive(Clone, Copy, Debug, PartialEq, Eq, Structural)]
pub enum ProbeDecision {
    /// Probe count exhausted or the run flag observed false: stop.
    Stop,
    /// The inter-probe interval has not elapsed yet: idle and re-check.
    Wait,
    /// Send the next echo request.
    Send,
}

/// The 16-bit identifier of the prober of target `index`: process
/// identity plus target index, wrapping, so each prober's replies can be
/// attributed to it even when sockets observe each other's traffic.
pub fn make_identifier(pid: u16, index: u16) -> (id: u16)
    ensures
        id == (pid + index) % 0x10000,
{
    pid.wrapping_add(index)
}

/// The first sequence number of target `index`: a per-target offset of
/// 1000 requests, wrapping, plus one, so concurrently running probers do
/// not coincidentally collide.
pub fn initial_seq(index: u16) -> (seq: u16)
    ensures
        seq == (index * 1000 + 1) % 0x10000,
{
    (((index as u32) * 1000 + 1) % 0x10000) as u16
}

/// One prober's state: the identity its requests carry, where its
/// sequence numbers stand, and its pacing and termination configuration.
#[derive(Clone, Copy, Debug, PartialEq, Eq, Structural)]
pub struct ProberState {
    /// Identifier carried by every request of this prober.
    pub identifier: u16,
    /// Sequence number of the next request.
    pub seq: u16,
    /// Probes completed so far, replied or timed out.
    pub sent: u64,
    /// Configured probe count; 0 means unbounded.
    pub count: u64,
    /// Milliseconds between sends; also the bound on each reply wait.
    pub interval_ms: u64,
}

/// Whether the configured probe count is exhausted.
pub open spec fn finished_spec(p: ProberState) -> bool {
    p.count != 0 && p.sent >= p.count
}

/// The loop's next action: stop when cancelled or exhausted, idle while
/// the interval has not elapsed since the last send, send otherwise.
pub open spec fn next_action_spec(p: ProberState, running: bool, elapsed_ms: u64) -> ProbeDecision {
    if !running || finished_spec(p) {
        ProbeDecision::Stop
    } else if elapsed_ms < p.interval_ms {
        ProbeDecision::Wait
    } else {
        ProbeDecision::Send
    }
}

impl ProberState {
    /// The initial state of the prober of target `index`.
    pub fn new(pid: u16, index: u16, count: u64, interval_ms: u64) -> (p: ProberState)
        ensures
            p.identifier == (pid + index) % 0x10000,
            p.seq == (index * 1000 + 1) % 0x10000,
            p.sent == 0,
            p.count == count,
            p.interval_ms == interval_ms,
    {
        ProberState {
            identifier: make_identifier(pid, index),
            seq: initial_seq(index),
            sent: 0,
            count,
            interval_ms,
        }
    }

    /// Whether the configured probe count is exhausted.
    pub fn finished(&self) -> (r: bool)
        ensures
            r == finished_spec(*self),
    {
        self.count != 0 && self.sent >= self.count
    }

    /// Decide the loop's next action from the run flag as last observed
    /// and the milliseconds elapsed since the last send.
    pub fn next_action(&self, running: bool, elapsed_ms: u64) -> (d: ProbeDecision)
        ensures
            d == next_action_spec(*self, running, elapsed_ms),
    {
        if !running || self.finished() {
            ProbeDecision::Stop
        } else if elapsed_ms < self.interval_ms {
            ProbeDecision::Wait
        } else {
            ProbeDecision::Send
        }
    }

    /// Account one completed probe: the completed count grows by one and
    /// the sequence number by one, wrapping.
    pub fn record_outcome(&mut self)
        requires
            old(self).sent < u64::MAX,
        ensures
            final(self).sent == old(self).sent + 1,
            final(self).seq == (old(self).seq + 1) % 0x10000,
            final(self).identifier == old(self).identifier,
            final(self).count == old(self).count,
            final(self).interval_ms == old(self).interval_ms,
    {
        self.sent = self.sent + 1;
        self.seq = self.seq.wrapping_add(1);
    }
}

/// Classify what one reply wait produced: the matching echo reply turns
/// into a reply outcome carrying the measured RTT; any other packet is a
/// timeout for this probe.
pub fn classify_reply(packet: &[u8], identifier: u16, seq: u16, rtt_ms: u64) -> (k: OutcomeKind)
    ensures
        k == if reply_matches(packet@, identifier, seq) {
            OutcomeKind::Replied(rtt_ms)
        } else {
            OutcomeKind::TimedOut
        },
{
    if is_matching_reply(packet, identifier, seq) {
        OutcomeKind::Replied(rtt_ms)
    } else {
        OutcomeKind::TimedOut
    }
}

} // verus!
