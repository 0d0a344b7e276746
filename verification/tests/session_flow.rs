use rustyping::session::more_probes_wanted;
use rustyping::session::pacing_wait_us;
use rustyping::session::run_session;
use rustyping::session::session_succeeded;
use rustyping::session::ProbeOutcome;
use rustyping::session::SessionEnd;
use rustyping::stats::SessionStats;

#[test]
fn all_probes_answered() {
    // Every probe answered within the timeout, four probes in all: no loss,
    // minimum, maximum and average all set, and the session succeeds.
    let outcomes = vec![
        ProbeOutcome::Success(12_000),
        ProbeOutcome::Success(15_000),
        ProbeOutcome::Success(11_000),
        ProbeOutcome::Success(20_000),
    ];
    let (stats, end) = run_session(4, &outcomes, None);
    assert_eq!(end, SessionEnd::CountReached);
    assert_eq!(stats.transmitted(), 4);
    assert_eq!(stats.received(), 4);
    assert_eq!(stats.loss_percent(), 0);
    assert_eq!(stats.min_rtt(), Some(11_000));
    assert_eq!(stats.max_rtt(), Some(20_000));
    assert_eq!(stats.total_rtt_us(), 58_000);
    assert_eq!(stats.avg_rtt_us(), 14_500);
    assert!(session_succeeded(&stats, &end));
}

#[test]
fn nothing_answers() {
    // The destination never replies: full loss and the session fails.
    let outcomes = vec![ProbeOutcome::Timeout; 3];
    let (stats, end) = run_session(3, &outcomes, None);
    assert_eq!(end, SessionEnd::CountReached);
    assert_eq!(stats.transmitted(), 3);
    assert_eq!(stats.received(), 0);
    assert_eq!(stats.loss_percent(), 100);
    assert_eq!(stats.min_rtt(), None);
    assert_eq!(stats.max_rtt(), None);
    assert_eq!(stats.min_rtt_us(), 0);
    assert_eq!(stats.max_rtt_us(), 0);
    assert_eq!(stats.avg_rtt_us(), 0);
    assert!(!session_succeeded(&stats, &end));
}

#[test]
fn cancellation_waits_for_the_probe_in_flight() {
    // An unbounded session cancelled after two completed probes (one
    // success, one timeout) exits at the iteration boundary, not
    // mid-probe: both probes are folded in before the loop stops.
    let outcomes = vec![ProbeOutcome::Success(30_000), ProbeOutcome::Timeout];
    let (stats, end) = run_session(0, &outcomes, Some(2));
    assert_eq!(end, SessionEnd::Cancelled);
    assert_eq!(stats.transmitted(), 2);
    assert_eq!(stats.received(), 1);
    assert_eq!(stats.loss_percent(), 50);
    assert!(session_succeeded(&stats, &end));
}

#[test]
fn cancellation_before_any_probe() {
    let outcomes: Vec<ProbeOutcome> = Vec::new();
    let (stats, end) = run_session(0, &outcomes, Some(0));
    assert_eq!(end, SessionEnd::Cancelled);
    assert_eq!(stats.transmitted(), 0);
    assert_eq!(stats.loss_percent(), 100);
    // Zero probes attempted still counts as a successful session.
    assert!(session_succeeded(&stats, &end));
}

#[test]
fn cancellation_outranks_the_count() {
    // The flag is read before the count at the top of each iteration.
    let outcomes = vec![ProbeOutcome::Timeout; 2];
    let (_, end) = run_session(2, &outcomes, Some(2));
    assert_eq!(end, SessionEnd::Cancelled);
}

#[test]
fn transport_failure_aborts_the_session() {
    let outcomes = vec![
        ProbeOutcome::Success(9_000),
        ProbeOutcome::TransportError,
        ProbeOutcome::Success(9_000),
    ];
    let (stats, end) = run_session(5, &outcomes, None);
    assert_eq!(end, SessionEnd::TransportFailed);
    assert_eq!(stats.transmitted(), 1);
    assert_eq!(stats.received(), 1);
    assert!(!session_succeeded(&stats, &end));
}

#[test]
fn consistency_fault_aborts_the_session() {
    let outcomes = vec![ProbeOutcome::ConsistencyFault];
    let (stats, end) = run_session(1, &outcomes, None);
    assert_eq!(end, SessionEnd::Faulted);
    assert_eq!(stats.transmitted(), 0);
    assert!(!session_succeeded(&stats, &end));
}

#[test]
fn identical_runs_give_identical_statistics() {
    // The fold is deterministic: the same outcomes and bounds, run twice,
    // reproduce every part of the report.
    let outcomes = vec![
        ProbeOutcome::Success(17_000),
        ProbeOutcome::Timeout,
        ProbeOutcome::Success(13_000),
    ];
    let (s1, e1) = run_session(3, &outcomes, None);
    let (s2, e2) = run_session(3, &outcomes, None);
    assert_eq!(e1, e2);
    assert_eq!(s1.transmitted(), s2.transmitted());
    assert_eq!(s1.received(), s2.received());
    assert_eq!(s1.sequence(), s2.sequence());
    assert_eq!(s1.total_rtt_us(), s2.total_rtt_us());
    assert_eq!(s1.min_rtt(), s2.min_rtt());
    assert_eq!(s1.max_rtt(), s2.max_rtt());
    assert_eq!(s1.loss_percent(), s2.loss_percent());
    assert_eq!(s1.avg_rtt_us(), s2.avg_rtt_us());
}

#[test]
fn loss_percentage_truncates() {
    let outcomes = vec![
        ProbeOutcome::Timeout,
        ProbeOutcome::Success(5_000),
        ProbeOutcome::Timeout,
    ];
    let (stats, _) = run_session(3, &outcomes, None);
    // 2 of 3 unanswered: 66.6..% truncated to 66.
    assert_eq!(stats.loss_percent(), 66);
}

#[test]
fn average_truncates_microseconds() {
    let outcomes = vec![
        ProbeOutcome::Success(3),
        ProbeOutcome::Success(3),
        ProbeOutcome::Success(4),
    ];
    let (stats, _) = run_session(3, &outcomes, None);
    // 10 microseconds over 3 sequence numbers: 3.33..microseconds truncated to 3.
    assert_eq!(stats.avg_rtt_us(), 3);
}

#[test]
fn sequence_wraps_at_the_protocol_width() {
    let outcomes = vec![ProbeOutcome::Timeout; 65_537];
    let (stats, end) = run_session(0, &outcomes, Some(65_537));
    assert_eq!(end, SessionEnd::Cancelled);
    assert_eq!(stats.transmitted(), 65_537);
    assert_eq!(stats.sequence(), 1);
}

#[test]
fn recorded_extremes_bound_every_rtt() {
    let rtts = [40_000u64, 10_000, 30_000];
    let mut stats = SessionStats::new();
    for &rtt in rtts.iter() {
        stats.record_success(rtt);
    }
    stats.record_timeout();
    let min = stats.min_rtt().unwrap();
    let max = stats.max_rtt().unwrap();
    assert_eq!(min, 10_000);
    assert_eq!(max, 40_000);
    assert!(rtts.iter().all(|&rtt| min <= rtt && rtt <= max));
    assert_eq!(stats.transmitted(), 4);
    assert_eq!(stats.received(), 3);
    assert_eq!(stats.total_rtt_us(), 80_000);
}

#[test]
fn fresh_statistics_are_empty() {
    let stats = SessionStats::new();
    assert_eq!(stats.transmitted(), 0);
    assert_eq!(stats.received(), 0);
    assert_eq!(stats.sequence(), 0);
    assert_eq!(stats.total_rtt_us(), 0);
    assert_eq!(stats.min_rtt(), None);
    assert_eq!(stats.max_rtt(), None);
    assert_eq!(stats.loss_percent(), 100);
    assert_eq!(stats.avg_rtt_us(), 0);
}

#[test]
fn continuation_test_matches_the_loop_condition() {
    assert!(more_probes_wanted(0, 0));
    assert!(more_probes_wanted(0, 65_535));
    assert!(more_probes_wanted(3, 2));
    assert!(!more_probes_wanted(3, 3));
    assert!(!more_probes_wanted(3, 4));
}

#[test]
fn pacing_waits_only_the_unspent_interval() {
    assert_eq!(pacing_wait_us(1_000_000, 250_000), 750_000);
    assert_eq!(pacing_wait_us(1_000_000, 1_000_000), 0);
    assert_eq!(pacing_wait_us(1_000_000, 2_000_000), 0);
    assert_eq!(pacing_wait_us(0, 0), 0);
}
