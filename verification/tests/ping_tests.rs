use network_tool::icmp::{PingAction, PingSession, ProbeOutcome, PROBE_GAP_MS, PROBE_TIMEOUT_MS};
use network_tool::models::PingStats;

fn run(count: u32, outcomes: &[ProbeOutcome]) -> (Vec<PingAction>, PingStats) {
    let (mut s, mut a) = PingSession::start(count);
    let mut actions = vec![a];
    for o in outcomes {
        a = s.record(*o);
        actions.push(a);
    }
    match a {
        PingAction::Report(stats) => (actions, stats),
        _ => panic!("run did not finish"),
    }
}

#[test]
fn zero_probes_report_at_once() {
    let (actions, stats) = run(0, &[]);
    assert_eq!(actions.len(), 1);
    assert_eq!(
        stats,
        PingStats { transmitted: 0, received: 0, min_latency_ms: None, max_latency_ms: None, total_latency_ms: 0 }
    );
}

#[test]
fn probes_are_numbered_and_spaced() {
    let outcomes = [
        ProbeOutcome::Reply { latency_ms: 12 },
        ProbeOutcome::Lost,
        ProbeOutcome::Reply { latency_ms: 18 },
        ProbeOutcome::Reply { latency_ms: 14 },
    ];
    let (actions, _) = run(4, &outcomes);
    assert_eq!(actions[0], PingAction::Probe { sequence: 0, pause_before_ms: 0, timeout_ms: PROBE_TIMEOUT_MS });
    for k in 1..4u16 {
        assert_eq!(
            actions[k as usize],
            PingAction::Probe { sequence: k, pause_before_ms: PROBE_GAP_MS, timeout_ms: 5000 }
        );
    }
    assert_eq!(PROBE_GAP_MS, 50);
}

#[test]
fn statistics_add_up_the_replies() {
    let outcomes = [
        ProbeOutcome::Reply { latency_ms: 12 },
        ProbeOutcome::Lost,
        ProbeOutcome::Reply { latency_ms: 18 },
        ProbeOutcome::Reply { latency_ms: 14 },
    ];
    let (_, stats) = run(4, &outcomes);
    assert_eq!(stats.transmitted, 4);
    assert_eq!(stats.received, 3);
    assert_eq!(stats.lost(), 1);
    assert_eq!(stats.min_latency_ms, Some(12));
    assert_eq!(stats.max_latency_ms, Some(18));
    assert_eq!(stats.total_latency_ms, 44);
}

#[test]
fn all_probes_lost() {
    let (_, stats) = run(3, &[ProbeOutcome::Lost, ProbeOutcome::Lost, ProbeOutcome::Lost]);
    assert_eq!(stats.received, 0);
    assert_eq!(stats.lost(), 3);
    assert_eq!(stats.min_latency_ms, None);
    assert_eq!(stats.max_latency_ms, None);
    assert_eq!(stats.total_latency_ms, 0);
}

#[test]
fn sequence_numbers_wrap_at_sixteen_bits() {
    let (mut s, _) = PingSession::start(70_000);
    let mut last = None;
    for _ in 0..65_536u32 {
        last = Some(s.record(ProbeOutcome::Lost));
    }
    assert_eq!(last, Some(PingAction::Probe { sequence: 0, pause_before_ms: 50, timeout_ms: 5000 }));
}
