//! Core of a multi-target ICMP reachability and latency monitor.
//!
//! The library holds the verified probing-and-aggregation pipeline:
//! target de-duplication, ICMP echo packet construction and checksum,
//! reply matching, the per-target prober state machine, and the
//! windowed statistics aggregator. Socket I/O, the terminal dashboard
//! and argument parsing live outside the library and exchange plain
//! values with it.

pub mod aggregator;
pub mod config;
pub mod event;
pub mod packet;
pub mod prober;
pub mod stats;

pub use aggregator::Aggregator;
pub use config::{
    dedup_targets, effective_ip_count, fanout_config_ok, normalize_interval_ms, worker_threads,
};
pub use event::{OutcomeKind, ProbeOutcome};
pub use packet::{
    build_echo_request, checksum, is_matching_reply, ICMP_ECHO_REPLY, ICMP_ECHO_REQUEST,
    ICMP_PACKET_SIZE,
};
pub use prober::{classify_reply, initial_seq, make_identifier, ProbeDecision, ProberState};
pub use stats::{
    calculate_avg_rtt, calculate_jitter, calculate_loss_pkg, global_index, numeric_samples,
    IpData, StatsModel, RTT_WINDOW_CAP,
};
