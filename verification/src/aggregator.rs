//! The aggregator: single consumer of probe outcome events, sole owner
//! and mutator of all per-target statistics, and source of the snapshots
//! handed to the display sink.

use vstd::prelude::*;
use crate::event::{OutcomeKind, ProbeOutcome};
use crate::stats::{apply_kind, fresh_stats, run_kinds, stats_wf, IpData, StatsModel};

verus! {

/// One target's statistics after one outcome: stepped, unless its
/// counters have exhausted a machine word, in which case the event is
/// not accepted and the statistics stay as they are.
pub open spec fn apply_outcome(m: StatsModel, k: OutcomeKind) -> StatsModel {
    if m.received + m.timeout < u64::MAX {
        apply_kind(m, k)
    } else {
        m
    }
}

/// All targets' statistics after one event: the event's target stepped,
/// every other target untouched. An event naming no known target changes
/// nothing.
pub open spec fn apply_event(stats: Seq<StatsModel>, e: ProbeOutcome) -> Seq<StatsModel> {
    if e.index < stats.len() {
        stats.update(e.index as int, apply_outcome(stats[e.index as int], e.kind))
    } else {
        stats
    }
}

/// All targets' statistics after a sequence of events, oldest first.
pub open spec fn apply_events(stats: Seq<StatsModel>, es: Seq<ProbeOutcome>) -> Seq<StatsModel>
    decreases es.len(),
{
    if es.len() == 0 {
        stats
    } else {
        apply_event(apply_events(stats, es.drop_last()), es.last())
    }
}

/// The outcome kinds of the events addressed to target `i`, in order.
pub open spec fn kinds_for(es: Seq<ProbeOutcome>, i: int) -> Seq<OutcomeKind>
    decreases es.len(),
{
    if es.len() == 0 {
        Seq::empty()
    } else {
        let rest = kinds_for(es.drop_last(), i);
        if es.last().index == i {
            rest.push(es.last().kind)
        } else {
            rest
        }
    }
}

/// A target receives at most one kind per event.
pub proof fn lemma_kinds_for_len(es: Seq<ProbeOutcome>, i: int)
    ensures
        kinds_for(es, i).len() <= es.len(),
    decreases es.len(),
{
    if es.len() > 0 {
        lemma_kinds_for_len(es.drop_last(), i);
    }
}

/// Single consumer of the event channel and sole mutator of the
/// per-target statistics.
pub struct Aggregator {
    /// Per-target statistics, indexed as the targets were supplied.
    pub stats: Vec<IpData>,
}

impl View for Aggregator {
    type V = Seq<StatsModel>;

    open spec fn view(&self) -> Seq<StatsModel> {
        Seq::new(self.stats@.len(), |i: int| self.stats@[i]@)
    }
}

/// Every target's statistics are well-formed.
pub open spec fn aggregator_wf(a: Aggregator) -> bool {
    forall|i: int| 0 <= i < a@.len() ==> stats_wf(#[trigger] a@[i])
}

impl Aggregator {
    /// Fresh statistics for the given `(label, resolved address)` pairs,
    /// in their supplied order.
    pub fn new(targets: &Vec<(String, String)>) -> (a: Aggregator)
        ensures
            a@.len() == targets@.len(),
            forall|i: int| 0 <= i < targets@.len() ==> fresh_stats(#[trigger] a@[i]),
            forall|i: int| 0 <= i < targets@.len() ==> (#[trigger] a@[i]).addr == targets@[i].0@
                && a@[i].ip == targets@[i].1@,
            aggregator_wf(a),
    {
        let mut stats: Vec<IpData> = Vec::new();
        let mut i: usize = 0;
        while i < targets.len()
            invariant
                i <= targets@.len(),
                stats@.len() == i,
                forall|j: int| 0 <= j < i ==> fresh_stats(#[trigger] stats@[j]@),
                forall|j: int| 0 <= j < i ==> (#[trigger] stats@[j]@).addr == targets@[j].0@
                    && stats@[j]@.ip == targets@[j].1@,
            decreases targets@.len() - i,
        {
            let label = targets[i].0.clone();
            let ip = targets[i].1.clone();
            stats.push(IpData::new(label, ip));
            i = i + 1;
        }
        Aggregator { stats }
    }

    /// Consume one event: step the statistics of the target it names and
    /// leave every other target untouched. Not accepted — and nothing
    /// changed — when the event names no known target or that target's
    /// counters have exhausted a machine word.
    pub fn process_event(&mut self, e: &ProbeOutcome) -> (accepted: bool)
        requires
            aggregator_wf(*old(self)),
        ensures
            final(self)@ == apply_event(old(self)@, *e),
            aggregator_wf(*final(self)),
            accepted == (e.index < old(self)@.len()
                && old(self)@[e.index as int].received + old(self)@[e.index as int].timeout
                < u64::MAX),
    {
        if e.index >= self.stats.len() {
            proof {
                assert(self@ =~= apply_event(old(self)@, *e));
            }
            return false;
        }
        let rec: u64 = self.stats[e.index].received;
        let to: u64 = self.stats[e.index].timeout;
        if rec >= u64::MAX - to {
            proof {
                assert(self@ =~= apply_event(old(self)@, *e));
            }
            return false;
        }
        proof {
            assert(stats_wf(self@[e.index as int]));
            assert(self@[e.index as int] == self.stats@[e.index as int]@);
        }
        match e.kind {
            OutcomeKind::Replied(rtt) => {
                self.stats[e.index].on_reply(rtt);
            },
            OutcomeKind::TimedOut => {
                self.stats[e.index].on_timeout();
            },
        }
        proof {
            assert(self@ =~= apply_event(old(self)@, *e));
        }
        true
    }

    /// An immutable copy of all per-target statistics at this moment,
    /// for the display sink.
    pub fn snapshot(&self) -> (s: Vec<IpData>)
        ensures
            s@.len() == self@.len(),
            forall|i: int| 0 <= i < s@.len() ==> (#[trigger] s@[i])@ == self@[i],
    {
        let mut s: Vec<IpData> = Vec::new();
        let mut i: usize = 0;
        while i < self.stats.len()
            invariant
                i <= self.stats@.len(),
                s@.len() == i,
                forall|j: int| 0 <= j < i ==> (#[trigger] s@[j])@ == self.stats@[j]@,
            decreases self.stats@.len() - i,
        {
            s.push(self.stats[i].clone());
            i = i + 1;
        }
        s
    }
}

/// No cross-contamination between targets: after any interleaving of
/// events, a target's statistics are exactly its own outcomes folded
/// over its fresh starting state — the other targets' event timing never
/// touches them.
pub proof fn lemma_no_cross_contamination(stats0: Seq<StatsModel>, es: Seq<ProbeOutcome>, i: int)
    requires
        0 <= i < stats0.len(),
        fresh_stats(stats0[i]),
        es.len() <= u64::MAX,
    ensures
        apply_events(stats0, es).len() == stats0.len(),
        apply_events(stats0, es)[i] == run_kinds(stats0[i], kinds_for(es, i)),
    decreases es.len(),
{
    if es.len() > 0 {
        let prev = apply_events(stats0, es.drop_last());
        let e = es.last();
        lemma_no_cross_contamination(stats0, es.drop_last(), i);
        lemma_kinds_for_len(es.drop_last(), i);
        if e.index == i {
            let ks = kinds_for(es.drop_last(), i);
            crate::stats::lemma_window_bounded(stats0[i], ks);
            assert(prev[i].received + prev[i].timeout == ks.len());
            assert(ks.push(e.kind).drop_last() =~= ks);
            assert(run_kinds(stats0[i], ks.push(e.kind)) == apply_kind(run_kinds(stats0[i], ks), e.kind));
        }
    }
}

} // verus!
