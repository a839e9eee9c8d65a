//! Aggregator scenarios: event consumption, snapshots, independence of
//! targets under interleaving.

use nping::{Aggregator, OutcomeKind, ProbeOutcome};

fn targets(n: usize) -> Vec<(String, String)> {
    (0..n)
        .map(|i| (format!("host{}", i), format!("10.0.0.{}", i + 1)))
        .collect()
}

fn reply(index: usize, seq: u16, rtt: u64) -> ProbeOutcome {
    ProbeOutcome { index, seq, kind: OutcomeKind::Replied(rtt), timestamp_ms: 0 }
}

fn timeout(index: usize, seq: u16) -> ProbeOutcome {
    ProbeOutcome { index, seq, kind: OutcomeKind::TimedOut, timestamp_ms: 0 }
}

#[test]
fn four_replies_yield_the_expected_final_snapshot() {
    // one target, four probes, all replied with RTTs 10, 12, 11, 13
    let mut agg = Aggregator::new(&targets(1));
    for (i, rtt) in [10u64, 12, 11, 13].into_iter().enumerate() {
        assert!(agg.process_event(&reply(0, 1 + i as u16, rtt)));
    }
    let snap = agg.snapshot();
    assert_eq!(snap.len(), 1);
    let d = &snap[0];
    assert_eq!(d.received, 4);
    assert_eq!(d.timeout, 0);
    assert_eq!(d.min_rtt, 10);
    assert_eq!(d.max_rtt, 13);
    assert_eq!(d.last_rtt, 13);
    let want: Vec<Option<u64>> = vec![Some(10), Some(12), Some(11), Some(13)];
    assert_eq!(d.rtts, want);
}

#[test]
fn a_timed_out_probe_leaves_a_gap_at_its_position() {
    // same setup, but the third probe times out
    let mut agg = Aggregator::new(&targets(1));
    assert!(agg.process_event(&reply(0, 1, 10)));
    assert!(agg.process_event(&reply(0, 2, 12)));
    assert!(agg.process_event(&timeout(0, 3)));
    assert!(agg.process_event(&reply(0, 4, 13)));
    let snap = agg.snapshot();
    let d = &snap[0];
    assert_eq!(d.received, 3);
    assert_eq!(d.timeout, 1);
    let want: Vec<Option<u64>> = vec![Some(10), Some(12), None, Some(13)];
    assert_eq!(d.rtts, want);
    // loss = 1 of 4 completed probes = 25%
    assert_eq!(nping::calculate_loss_pkg(d.timeout, d.received), 2500);
}

#[test]
fn interleaved_targets_do_not_contaminate_each_other() {
    // two targets, five probes each, events arriving interleaved
    let mut agg = Aggregator::new(&targets(2));
    for i in 0..5u16 {
        assert!(agg.process_event(&reply(0, 1 + i, 20 + i as u64)));
        if i == 2 {
            assert!(agg.process_event(&timeout(1, 1001 + i)));
        } else {
            assert!(agg.process_event(&reply(1, 1001 + i, 40 + i as u64)));
        }
    }
    let snap = agg.snapshot();
    let a = &snap[0];
    let b = &snap[1];
    assert_eq!((a.received, a.timeout), (5, 0));
    assert_eq!((b.received, b.timeout), (4, 1));
    assert_eq!((a.min_rtt, a.max_rtt, a.last_rtt), (20, 24, 24));
    assert_eq!((b.min_rtt, b.max_rtt, b.last_rtt), (40, 44, 44));
    let want_a: Vec<Option<u64>> = vec![Some(20), Some(21), Some(22), Some(23), Some(24)];
    let want_b: Vec<Option<u64>> = vec![Some(40), Some(41), None, Some(43), Some(44)];
    assert_eq!(a.rtts, want_a);
    assert_eq!(b.rtts, want_b);
}

#[test]
fn an_event_for_an_unknown_target_changes_nothing() {
    let mut agg = Aggregator::new(&targets(1));
    assert!(!agg.process_event(&reply(3, 1, 10)));
    let snap = agg.snapshot();
    assert_eq!(snap[0].received, 0);
    assert_eq!(snap[0].timeout, 0);
}

#[test]
fn new_aggregator_starts_fresh_with_the_given_labels() {
    let agg = Aggregator::new(&targets(2));
    let snap = agg.snapshot();
    assert_eq!(snap.len(), 2);
    assert_eq!(snap[0].addr, "host0");
    assert_eq!(snap[0].ip, "10.0.0.1");
    assert_eq!(snap[1].addr, "host1");
    assert_eq!(snap[1].ip, "10.0.0.2");
    for d in &snap {
        assert_eq!(d.received, 0);
        assert_eq!(d.timeout, 0);
        assert_eq!(d.pop_count, 0);
        assert!(d.rtts.is_empty());
        assert_eq!((d.last_rtt, d.min_rtt, d.max_rtt), (0, 0, 0));
    }
}

#[test]
fn snapshots_are_copies_not_shared_state() {
    let mut agg = Aggregator::new(&targets(1));
    assert!(agg.process_event(&reply(0, 1, 9)));
    let before = agg.snapshot();
    assert!(agg.process_event(&reply(0, 2, 11)));
    let after = agg.snapshot();
    assert_eq!(before[0].received, 1);
    assert_eq!(after[0].received, 2);
}
