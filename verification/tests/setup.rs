//! Startup rules and the prober state machine.

use nping::{
    classify_reply, dedup_targets, effective_ip_count, fanout_config_ok, initial_seq,
    make_identifier, normalize_interval_ms, worker_threads, OutcomeKind, ProbeDecision,
    ProberState,
};

#[test]
fn zero_interval_is_special_cased_to_500_ms() {
    assert_eq!(normalize_interval_ms(0), 500);
    assert_eq!(normalize_interval_ms(1), 1000);
    assert_eq!(normalize_interval_ms(3), 3000);
}

#[test]
fn duplicate_targets_collapse_to_one_in_first_seen_order() {
    let targets: Vec<String> = vec![
        "a.example".to_string(),
        "b.example".to_string(),
        "a.example".to_string(),
    ];
    let unique = dedup_targets(&targets);
    assert_eq!(unique, vec!["a.example".to_string(), "b.example".to_string()]);

    let many: Vec<String> =
        ["a", "b", "a", "c", "b", "a"].iter().map(|s| s.to_string()).collect();
    let want: Vec<String> = ["a", "b", "c"].iter().map(|s| s.to_string()).collect();
    assert_eq!(dedup_targets(&many), want);
}

#[test]
fn dedup_keeps_distinct_targets_untouched() {
    let targets: Vec<String> = vec!["x".to_string(), "y".to_string(), "z".to_string()];
    assert_eq!(dedup_targets(&targets), targets);
}

#[test]
fn dedup_of_nothing_is_nothing() {
    let targets: Vec<String> = vec![];
    assert_eq!(dedup_targets(&targets), targets);
}

#[test]
fn fan_out_overrides_the_count_only_for_a_single_target() {
    assert_eq!(effective_ip_count(1, 4), 4);
    assert_eq!(effective_ip_count(1, 0), 1);
    assert_eq!(effective_ip_count(3, 4), 3);
}

#[test]
fn one_worker_per_address_plus_the_sink() {
    assert_eq!(worker_threads(1), 2);
    assert_eq!(worker_threads(5), 6);
    assert_eq!(worker_threads(0), 1);
}

#[test]
fn fan_out_with_several_targets_is_a_configuration_error() {
    assert!(fanout_config_ok(1, 4));
    assert!(fanout_config_ok(2, 0));
    assert!(!fanout_config_ok(2, 4));
}

#[test]
fn identifiers_derive_from_process_identity_and_index() {
    assert_eq!(make_identifier(1000, 0), 1000);
    assert_eq!(make_identifier(1000, 3), 1003);
    // wrapping at 16 bits
    assert_eq!(make_identifier(0xffff, 2), 1);
}

#[test]
fn sequence_numbers_start_at_a_per_target_offset() {
    assert_eq!(initial_seq(0), 1);
    assert_eq!(initial_seq(1), 1001);
    assert_eq!(initial_seq(2), 2001);
    // wrapping at 16 bits: 66 * 1000 + 1 mod 65536
    assert_eq!(initial_seq(66), 465);
}

#[test]
fn the_prober_stops_waits_or_sends() {
    let p = ProberState::new(500, 0, 3, 500);
    assert_eq!(p.next_action(false, 1000), ProbeDecision::Stop);
    assert_eq!(p.next_action(true, 100), ProbeDecision::Wait);
    assert_eq!(p.next_action(true, 500), ProbeDecision::Send);
}

#[test]
fn the_prober_stops_when_its_count_is_exhausted() {
    let mut p = ProberState::new(500, 0, 2, 500);
    assert!(!p.finished());
    p.record_outcome();
    p.record_outcome();
    assert!(p.finished());
    assert_eq!(p.next_action(true, 1000), ProbeDecision::Stop);
}

#[test]
fn a_count_of_zero_means_unbounded() {
    let mut p = ProberState::new(500, 0, 0, 500);
    for _ in 0..100 {
        p.record_outcome();
    }
    assert!(!p.finished());
}

#[test]
fn sequence_numbers_increment_per_completed_probe() {
    let mut p = ProberState::new(77, 1, 5, 500);
    assert_eq!(p.seq, 1001);
    p.record_outcome();
    assert_eq!(p.seq, 1002);
    assert_eq!(p.sent, 1);
    assert_eq!(p.identifier, 78);
}

#[test]
fn sequence_numbers_wrap_at_16_bits() {
    let mut p = ProberState::new(0, 0, 0, 500);
    p.seq = 0xffff;
    p.record_outcome();
    assert_eq!(p.seq, 0);
}

#[test]
fn classification_turns_the_matching_reply_into_an_outcome() {
    let mut r = vec![0u8; 8];
    r[4] = 0x04;
    r[5] = 0xd2; // identifier 1234
    r[7] = 0x07; // sequence 7
    assert_eq!(classify_reply(&r, 1234, 7, 42), OutcomeKind::Replied(42));
    assert_eq!(classify_reply(&r, 1234, 8, 42), OutcomeKind::TimedOut);
    assert_eq!(classify_reply(&r, 1235, 7, 42), OutcomeKind::TimedOut);
}
