//! Per-target statistics: a bounded window of recent RTT samples, running
//! scalars, and the derived metrics the display consumes.
//!
//! The window holds the most recent samples, capacity [`RTT_WINDOW_CAP`],
//! oldest evicted first. A timeout is recorded as `None`, a no-sample
//! marker, so the time series keeps a gap at the right position.

use vstd::prelude::*;
use crate::event::OutcomeKind;

verus! {

/// Capacity of the recent-RTT window; the oldest sample is evicted first.
pub const RTT_WINDOW_CAP: usize = 10;

/// Mathematical model of one target's statistics.
pub struct StatsModel {
    /// The user-supplied target label.
    pub addr: Seq<char>,
    /// The resolved address, as text.
    pub ip: Seq<char>,
    /// Most recent samples; `None` marks a probe that timed out.
    pub rtts: Seq<Option<u64>>,
    /// RTT of the most recent reply, in milliseconds.
    pub last_rtt: u64,
    /// Least RTT ever received; 0 until the first reply.
    pub min_rtt: u64,
    /// Greatest RTT ever received; 0 until the first reply.
    pub max_rtt: u64,
    /// Replies received so far.
    pub received: u64,
    /// Probes that timed out so far.
    pub timeout: u64,
    /// Samples evicted from the window so far; keeps the global sample
    /// index stable after eviction.
    pub pop_count: u64,
}

/// The window after pushing one sample: append, and evict the oldest
/// sample when the window is already full.
pub open spec fn window_push(w: Seq<Option<u64>>, x: Option<u64>) -> Seq<Option<u64>> {
    if w.len() < RTT_WINDOW_CAP {
        w.push(x)
    } else {
        w.push(x).subrange(1, w.len() as int + 1)
    }
}

/// A fresh statistics record: no probe completed yet, window empty,
/// every scalar at its zero sentinel.
pub open spec fn fresh_stats(m: StatsModel) -> bool {
    &&& m.rtts.len() == 0
    &&& m.last_rtt == 0
    &&& m.min_rtt == 0
    &&& m.max_rtt == 0
    &&& m.received == 0
    &&& m.timeout == 0
    &&& m.pop_count == 0
}

/// Well-formedness: the window never exceeds its capacity, it is only
/// short while fewer samples than the capacity were ever pushed, and the
/// eviction count is exactly the number of pushes that no longer sit in
/// the window.
pub open spec fn stats_wf(m: StatsModel) -> bool {
    &&& m.rtts.len() <= RTT_WINDOW_CAP
    &&& m.received + m.timeout < RTT_WINDOW_CAP ==> m.rtts.len() == m.received + m.timeout
    &&& m.received + m.timeout >= RTT_WINDOW_CAP ==> m.rtts.len() == RTT_WINDOW_CAP
    &&& m.pop_count + m.rtts.len() == m.received + m.timeout
}

/// The statistics after one matching reply with round-trip time `rtt`.
pub open spec fn reply_step(m: StatsModel, rtt: u64) -> StatsModel {
    StatsModel {
        rtts: window_push(m.rtts, Some(rtt)),
        last_rtt: rtt,
        min_rtt: if m.received == 0 {
            rtt
        } else if rtt < m.min_rtt {
            rtt
        } else {
            m.min_rtt
        },
        max_rtt: if rtt > m.max_rtt {
            rtt
        } else {
            m.max_rtt
        },
        received: (m.received + 1) as u64,
        pop_count: if m.rtts.len() >= RTT_WINDOW_CAP {
            (m.pop_count + 1) as u64
        } else {
            m.pop_count
        },
        ..m
    }
}

/// The statistics after one probe that got no matching reply in time.
pub open spec fn timeout_step(m: StatsModel) -> StatsModel {
    StatsModel {
        rtts: window_push(m.rtts, None),
        timeout: (m.timeout + 1) as u64,
        pop_count: if m.rtts.len() >= RTT_WINDOW_CAP {
            (m.pop_count + 1) as u64
        } else {
            m.pop_count
        },
        ..m
    }
}

/// One target's authoritative statistics, owned and mutated only by the
/// aggregator.
pub struct IpData {
    /// The user-supplied target label.
    pub addr: String,
    /// The resolved address, as text.
    pub ip: String,
    /// Most recent samples; `None` marks a probe that timed out.
    pub rtts: Vec<Option<u64>>,
    /// RTT of the most recent reply, in milliseconds.
    pub last_rtt: u64,
    /// Least RTT ever received; 0 until the first reply.
    pub min_rtt: u64,
    /// Greatest RTT ever received; 0 until the first reply.
    pub max_rtt: u64,
    /// Replies received so far.
    pub received: u64,
    /// Probes that timed out so far.
    pub timeout: u64,
    /// Samples evicted from the window so far.
    pub pop_count: u64,
}

impl View for IpData {
    type V = StatsModel;

    open spec fn view(&self) -> StatsModel {
        StatsModel {
            addr: self.addr@,
            ip: self.ip@,
            rtts: self.rtts@,
            last_rtt: self.last_rtt,
            min_rtt: self.min_rtt,
            max_rtt: self.max_rtt,
            received: self.received,
            timeout: self.timeout,
            pop_count: self.pop_count,
        }
    }
}

impl IpData {
    /// A fresh record for one target, before any probe completed.
    pub fn new(addr: String, ip: String) -> (d: IpData)
        ensures
            d@.addr == addr@,
            d@.ip == ip@,
            fresh_stats(d@),
            stats_wf(d@),
    {
        IpData {
            addr,
            ip,
            rtts: Vec::new(),
            last_rtt: 0,
            min_rtt: 0,
            max_rtt: 0,
            received: 0,
            timeout: 0,
            pop_count: 0,
        }
    }

    /// Record one matching reply: bump the received count, refresh the
    /// last/min/max scalars, and push the sample into the window under
    /// the capacity/eviction rule.
    pub fn on_reply(&mut self, rtt: u64)
        requires
            stats_wf(old(self)@),
            old(self)@.received + old(self)@.timeout < u64::MAX,
        ensures
            final(self)@ == reply_step(old(self)@, rtt),
            stats_wf(final(self)@),
    {
        if self.received == 0 {
            self.min_rtt = rtt;
        } else if rtt < self.min_rtt {
            self.min_rtt = rtt;
        }
        if rtt > self.max_rtt {
            self.max_rtt = rtt;
        }
        self.received = self.received + 1;
        self.last_rtt = rtt;
        self.push_sample(Some(rtt));
    }

    /// Record one probe that got no matching reply in time: bump the
    /// timeout count and push a gap marker into the window under the
    /// capacity/eviction rule.
    pub fn on_timeout(&mut self)
        requires
            stats_wf(old(self)@),
            old(self)@.received + old(self)@.timeout < u64::MAX,
        ensures
            final(self)@ == timeout_step(old(self)@),
            stats_wf(final(self)@),
    {
        self.timeout = self.timeout + 1;
        self.push_sample(None);
    }

    /// Push one sample, evicting the oldest when the window is full.
    fn push_sample(&mut self, x: Option<u64>)
        requires
            old(self)@.rtts.len() <= RTT_WINDOW_CAP,
            old(self)@.pop_count + old(self)@.rtts.len() < u64::MAX,
        ensures
            final(self)@.rtts == window_push(old(self)@.rtts, x),
            final(self)@.pop_count == if old(self)@.rtts.len() >= RTT_WINDOW_CAP {
                old(self)@.pop_count + 1
            } else {
                old(self)@.pop_count as int
            },
            final(self)@ == (StatsModel {
                rtts: final(self)@.rtts,
                pop_count: final(self)@.pop_count,
                ..old(self)@
            }),
    {
        self.rtts.push(x);
        if self.rtts.len() > RTT_WINDOW_CAP {
            self.rtts.remove(0);
            self.pop_count = self.pop_count + 1;
            proof {
                assert(self@.rtts =~= window_push(old(self)@.rtts, x));
            }
        }
    }
}

impl Clone for IpData {
    /// An exact copy; snapshots handed to the display are made of these.
    fn clone(&self) -> (d: IpData)
        ensures
            d@ == self@,
    {
        IpData {
            addr: self.addr.clone(),
            ip: self.ip.clone(),
            rtts: copy_window(&self.rtts),
            last_rtt: self.last_rtt,
            min_rtt: self.min_rtt,
            max_rtt: self.max_rtt,
            received: self.received,
            timeout: self.timeout,
            pop_count: self.pop_count,
        }
    }
}

/// The statistics after one probe outcome of either kind.
pub open spec fn apply_kind(m: StatsModel, k: OutcomeKind) -> StatsModel {
    match k {
        OutcomeKind::Replied(rtt) => reply_step(m, rtt),
        OutcomeKind::TimedOut => timeout_step(m),
    }
}

/// The statistics a record reaches after a sequence of probe outcomes.
pub open spec fn run_kinds(m: StatsModel, ks: Seq<OutcomeKind>) -> StatsModel
    decreases ks.len(),
{
    if ks.len() == 0 {
        m
    } else {
        apply_kind(run_kinds(m, ks.drop_last()), ks.last())
    }
}

/// The RTTs of the replies in a sequence of outcomes, in order.
pub open spec fn replied_rtts(ks: Seq<OutcomeKind>) -> Seq<u64>
    decreases ks.len(),
{
    if ks.len() == 0 {
        Seq::empty()
    } else {
        let rest = replied_rtts(ks.drop_last());
        match ks.last() {
            OutcomeKind::Replied(r) => rest.push(r),
            OutcomeKind::TimedOut => rest,
        }
    }
}

/// Least value of a sequence of samples; 0 for an empty sequence.
pub open spec fn seq_min_u64(s: Seq<u64>) -> u64
    decreases s.len(),
{
    if s.len() == 0 {
        0
    } else if s.len() == 1 {
        s.last()
    } else {
        let m = seq_min_u64(s.drop_last());
        if s.last() < m {
            s.last()
        } else {
            m
        }
    }
}

/// Greatest value of a sequence of samples; 0 for an empty sequence.
pub open spec fn seq_max_u64(s: Seq<u64>) -> u64
    decreases s.len(),
{
    if s.len() == 0 {
        0
    } else if s.len() == 1 {
        s.last()
    } else {
        let m = seq_max_u64(s.drop_last());
        if s.last() > m {
            s.last()
        } else {
            m
        }
    }
}

/// After any sequence of probe outcomes, starting fresh, the window never
/// exceeds its capacity, and the eviction count is exactly the number of
/// pushes beyond the first `RTT_WINDOW_CAP`.
pub proof fn lemma_window_bounded(m0: StatsModel, ks: Seq<OutcomeKind>)
    requires
        fresh_stats(m0),
        ks.len() <= u64::MAX,
    ensures
        run_kinds(m0, ks).received + run_kinds(m0, ks).timeout == ks.len(),
        run_kinds(m0, ks).rtts.len() <= RTT_WINDOW_CAP,
        ks.len() <= RTT_WINDOW_CAP ==> run_kinds(m0, ks).rtts.len() == ks.len()
            && run_kinds(m0, ks).pop_count == 0,
        ks.len() > RTT_WINDOW_CAP ==> run_kinds(m0, ks).rtts.len() == RTT_WINDOW_CAP
            && run_kinds(m0, ks).pop_count == ks.len() - RTT_WINDOW_CAP,
    decreases ks.len(),
{
    if ks.len() > 0 {
        lemma_window_bounded(m0, ks.drop_last());
    }
}

/// After any sequence of probe outcomes, starting fresh, `min_rtt` and
/// `max_rtt` are the true least and greatest of all RTTs ever received,
/// and both sit at their 0 sentinel while no reply has arrived.
pub proof fn lemma_min_max_track_history(m0: StatsModel, ks: Seq<OutcomeKind>)
    requires
        fresh_stats(m0),
        ks.len() <= u64::MAX,
    ensures
        run_kinds(m0, ks).received + run_kinds(m0, ks).timeout == ks.len(),
        run_kinds(m0, ks).received == replied_rtts(ks).len(),
        replied_rtts(ks).len() == 0 ==> run_kinds(m0, ks).min_rtt == 0
            && run_kinds(m0, ks).max_rtt == 0,
        replied_rtts(ks).len() > 0 ==> run_kinds(m0, ks).min_rtt == seq_min_u64(replied_rtts(ks))
            && run_kinds(m0, ks).max_rtt == seq_max_u64(replied_rtts(ks)),
    decreases ks.len(),
{
    if ks.len() > 0 {
        lemma_min_max_track_history(m0, ks.drop_last());
        let rest = replied_rtts(ks.drop_last());
        match ks.last() {
            OutcomeKind::Replied(r) => {
                assert(replied_rtts(ks) == rest.push(r));
                assert(rest.push(r).drop_last() =~= rest);
                assert(rest.push(r).last() == r);
            },
            OutcomeKind::TimedOut => {
                assert(replied_rtts(ks) == rest);
            },
        }
    }
}

/// The numeric samples of a window, in order, with the gap markers left
/// out.
pub open spec fn samples(w: Seq<Option<u64>>) -> Seq<u64>
    decreases w.len(),
{
    if w.len() == 0 {
        Seq::empty()
    } else {
        let rest = samples(w.drop_last());
        match w.last() {
            Some(r) => rest.push(r),
            None => rest,
        }
    }
}

/// Sum of a sequence of samples.
pub open spec fn sum_u64(s: Seq<u64>) -> int
    decreases s.len(),
{
    if s.len() == 0 {
        0
    } else {
        sum_u64(s.drop_last()) + s.last()
    }
}

/// Absolute difference of two samples.
pub open spec fn abs_diff(a: u64, b: u64) -> int {
    if a < b {
        b - a
    } else {
        a - b
    }
}

/// Sum of the absolute differences of consecutive samples.
pub open spec fn abs_diffs(s: Seq<u64>) -> int
    decreases s.len(),
{
    if s.len() < 2 {
        0
    } else {
        abs_diffs(s.drop_last()) + abs_diff(s[s.len() - 2], s.last())
    }
}

/// Mean of the numeric samples in a window, in hundredths of a
/// millisecond; 0 if the window holds no numeric sample.
pub open spec fn avg_centi(w: Seq<Option<u64>>) -> int {
    let s = samples(w);
    if s.len() == 0 {
        0
    } else {
        100 * sum_u64(s) / s.len() as int
    }
}

/// Mean absolute difference of consecutive numeric samples in a window,
/// in hundredths of a millisecond; 0 if fewer than two numeric samples.
pub open spec fn jitter_centi(w: Seq<Option<u64>>) -> int {
    let s = samples(w);
    if s.len() < 2 {
        0
    } else {
        100 * abs_diffs(s) / (s.len() - 1) as int
    }
}

/// Share of completed probes that timed out, in hundredths of a percent;
/// 0 if no probe completed yet.
pub open spec fn loss_centi(timeout: u64, received: u64) -> int {
    if timeout + received == 0 {
        0
    } else {
        10000 * timeout / (timeout + received)
    }
}

/// A window's numeric samples never outnumber its entries.
pub proof fn lemma_samples_len(w: Seq<Option<u64>>)
    ensures
        samples(w).len() <= w.len(),
    decreases w.len(),
{
    if w.len() > 0 {
        lemma_samples_len(w.drop_last());
    }
}

/// The numeric samples of a window, as a vector, in order.
pub fn numeric_samples(rtts: &Vec<Option<u64>>) -> (s: Vec<u64>)
    ensures
        s@ == samples(rtts@),
{
    let mut s: Vec<u64> = Vec::new();
    let mut i: usize = 0;
    while i < rtts.len()
        invariant
            i <= rtts@.len(),
            s@ == samples(rtts@.take(i as int)),
        decreases rtts@.len() - i,
    {
        proof {
            assert(rtts@.take(i + 1).drop_last() =~= rtts@.take(i as int));
            assert(rtts@.take(i + 1).last() == rtts@[i as int]);
        }
        match rtts[i] {
            Some(r) => {
                s.push(r);
            },
            None => {},
        }
        i = i + 1;
    }
    proof {
        assert(rtts@.take(rtts@.len() as int) =~= rtts@);
    }
    s
}

/// Mean RTT over the numeric samples of a recent-RTT window, in
/// hundredths of a millisecond; 0 with no numeric sample.
pub fn calculate_avg_rtt(rtts: &Vec<Option<u64>>) -> (avg: u128)
    requires
        rtts@.len() <= RTT_WINDOW_CAP,
    ensures
        avg == avg_centi(rtts@),
{
    let s = numeric_samples(rtts);
    proof {
        lemma_samples_len(rtts@);
    }
    if s.len() == 0 {
        return 0;
    }
    let mut acc: u128 = 0;
    let mut i: usize = 0;
    while i < s.len()
        invariant
            i <= s@.len(),
            s@.len() <= RTT_WINDOW_CAP,
            s@ == samples(rtts@),
            acc == sum_u64(s@.take(i as int)),
            acc <= (i as int) * 0xffff_ffff_ffff_ffff,
        decreases s@.len() - i,
    {
        proof {
            assert(s@.take(i + 1).drop_last() =~= s@.take(i as int));
            assert(s@.take(i + 1).last() == s@[i as int]);
        }
        acc = acc + (s[i] as u128);
        i = i + 1;
    }
    proof {
        assert(s@.take(s@.len() as int) =~= s@);
    }
    (acc * 100) / (s.len() as u128)
}

/// Mean absolute difference of consecutive numeric samples of a
/// recent-RTT window, in hundredths of a millisecond; 0 with fewer than
/// two numeric samples.
pub fn calculate_jitter(rtts: &Vec<Option<u64>>) -> (jitter: u128)
    requires
        rtts@.len() <= RTT_WINDOW_CAP,
    ensures
        jitter == jitter_centi(rtts@),
{
    let s = numeric_samples(rtts);
    proof {
        lemma_samples_len(rtts@);
    }
    if s.len() < 2 {
        return 0;
    }
    let mut acc: u128 = 0;
    let mut i: usize = 1;
    while i < s.len()
        invariant
            1 <= i <= s@.len(),
            2 <= s@.len() <= RTT_WINDOW_CAP,
            s@ == samples(rtts@),
            acc == abs_diffs(s@.take(i as int)),
            acc <= (i as int) * 0xffff_ffff_ffff_ffff,
        decreases s@.len() - i,
    {
        proof {
            assert(s@.take(i + 1).drop_last() =~= s@.take(i as int));
            assert(s@.take(i + 1).last() == s@[i as int]);
            assert(s@.take(i + 1)[i - 1] == s@[i - 1]);
        }
        let prev: u64 = s[i - 1];
        let cur: u64 = s[i];
        let d: u64 = if prev > cur {
            prev - cur
        } else {
            cur - prev
        };
        acc = acc + (d as u128);
        i = i + 1;
    }
    proof {
        assert(s@.take(s@.len() as int) =~= s@);
    }
    (acc * 100) / ((s.len() - 1) as u128)
}

/// Loss percentage in hundredths of a percent: timeouts over completed
/// probes; 0 before any probe completed.
pub fn calculate_loss_pkg(timeout: u64, received: u64) -> (loss: u64)
    ensures
        loss == loss_centi(timeout, received),
        loss <= 10000,
{
    let n: u128 = (timeout as u128) + (received as u128);
    if n == 0 {
        return 0;
    }
    let scaled: u128 = 10000 * (timeout as u128);
    let q: u128 = scaled / n;
    proof {
        vstd::arithmetic::div_mod::lemma_div_is_ordered(
            10000 * (timeout as int),
            10000 * (n as int),
            n as int,
        );
        vstd::arithmetic::div_mod::lemma_div_multiples_vanish(10000, n as int);
    }
    q as u64
}

/// The stable global index of the window entry at `position`: entries
/// evicted before it, plus its place in the window, counted from 1.
pub fn global_index(pop_count: u64, position: usize) -> (idx: u64)
    requires
        pop_count + position + 1 <= u64::MAX,
    ensures
        idx == pop_count + position + 1,
{
    pop_count + (position as u64) + 1
}

/// An element-for-element copy of a sample window.
fn copy_window(w: &Vec<Option<u64>>) -> (r: Vec<Option<u64>>)
    ensures
        r@ == w@,
{
    let mut r: Vec<Option<u64>> = Vec::new();
    let mut i: usize = 0;
    while i < w.len()
        invariant
            i <= w@.len(),
            r@ == w@.take(i as int),
        decreases w@.len() - i,
    {
        r.push(w[i]);
        proof {
            assert(w@.take(i + 1) =~= w@.take(i as int).push(w@[i as int]));
        }
        i = i + 1;
    }
    proof {
        assert(w@.take(w@.len() as int) =~= w@);
    }
    r
}

} // verus!
