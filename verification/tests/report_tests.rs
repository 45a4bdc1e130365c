use network_tool::models::{DiagnosticResult, DnsResult, HttpResult, PingStats, TcpResult};
use network_tool::report::{
    build_tui_content, console_report, duration_reached, http_tone, is_quit_key, Dashboard, ReportLine,
    Section, Tone, HISTORY_LIMIT,
};

fn round(n: u32) -> DiagnosticResult {
    DiagnosticResult { timestamp: format!("t{}", n), run_number: n, ping: None, dns: None, tcp: None, http: None }
}

#[test]
fn empty_round_layout() {
    let lines = build_tui_content(&round(1));
    assert_eq!(
        lines,
        vec![
            ReportLine::RunHeader { run_number: 1, timestamp: "t1".into() },
            ReportLine::Blank,
            ReportLine::QuitHint,
        ]
    );
}

#[test]
fn full_round_layout() {
    let r = DiagnosticResult {
        timestamp: "2026-05-30 12:00:00".into(),
        run_number: 3,
        ping: Some(PingStats {
            transmitted: 4,
            received: 3,
            min_latency_ms: Some(12),
            max_latency_ms: Some(18),
            total_latency_ms: 44,
        }),
        dns: Some(DnsResult {
            hostname: "example.com".into(),
            resolve_time_ms: 23,
            ips: vec!["1.1.1.1".into(), "2.2.2.2".into()],
        }),
        tcp: Some(TcpResult { port: 443, success: false, duration_ms: 10_000 }),
        http: Some(HttpResult {
            url: "https://example.com".into(),
            status_code: Some(404),
            status_text: "404 Not Found".into(),
            ttfb_ms: 120,
        }),
    };
    let lines = build_tui_content(&r);
    assert_eq!(
        lines,
        vec![
            ReportLine::RunHeader { run_number: 3, timestamp: "2026-05-30 12:00:00".into() },
            ReportLine::Blank,
            ReportLine::SectionTitle(Section::Ping),
            ReportLine::PingPackets { received: 3, transmitted: 4 },
            ReportLine::PingLatency { min_ms: 12, max_ms: 18, total_ms: 44, received: 3 },
            ReportLine::Blank,
            ReportLine::SectionTitle(Section::Dns),
            ReportLine::DnsTime { ms: 23 },
            ReportLine::DnsAddresses { list: "1.1.1.1, 2.2.2.2".into() },
            ReportLine::Blank,
            ReportLine::SectionTitle(Section::Tcp),
            ReportLine::TcpStatus { port: 443, success: false, ms: 10_000 },
            ReportLine::Blank,
            ReportLine::SectionTitle(Section::Http),
            ReportLine::HttpStatus { text: "404 Not Found".into(), ms: 120, tone: Tone::Bad },
            ReportLine::Blank,
            ReportLine::QuitHint,
        ]
    );
}

#[test]
fn console_layout_with_errors_and_failures() {
    let lines = console_report(
        2,
        "12:00:05",
        &Ok(PingStats { transmitted: 4, received: 0, min_latency_ms: None, max_latency_ms: None, total_latency_ms: 0 }),
        &Ok(DnsResult { hostname: "nx.invalid".into(), resolve_time_ms: 40, ips: vec![] }),
        &Err("connection refused".into()),
        &Ok(HttpResult { url: "https://nx.invalid".into(), status_code: None, status_text: "Error: x".into(), ttfb_ms: 9 }),
    );
    assert_eq!(
        lines,
        vec![
            ReportLine::RunHeader { run_number: 2, timestamp: "12:00:05".into() },
            ReportLine::SectionIntro(Section::Ping),
            ReportLine::PingAllLost { transmitted: 4 },
            ReportLine::SectionIntro(Section::Dns),
            ReportLine::DnsFailed { hostname: "nx.invalid".into(), ms: 40 },
            ReportLine::SectionError { section: Section::Tcp, message: "connection refused".into() },
            ReportLine::SectionIntro(Section::Http),
            ReportLine::HttpStatus { text: "Error: x".into(), ms: 9, tone: Tone::Caution },
        ]
    );
}

#[test]
fn http_tones() {
    assert_eq!(http_tone(Some(200)), Tone::Good);
    assert_eq!(http_tone(Some(299)), Tone::Good);
    assert_eq!(http_tone(Some(301)), Tone::Caution);
    assert_eq!(http_tone(Some(400)), Tone::Bad);
    assert_eq!(http_tone(Some(100)), Tone::Caution);
    assert_eq!(http_tone(None), Tone::Caution);
}

#[test]
fn dashboard_keeps_latest_rounds() {
    let mut d = Dashboard::new();
    for _ in 0..25 {
        let n = d.next_run();
        d.record(round(n));
    }
    assert_eq!(d.kept(), HISTORY_LIMIT);
    assert_eq!(HISTORY_LIMIT, 20);
    let n = d.next_run();
    assert_eq!(n, 26);
}

#[test]
fn quit_key_and_duration_limit() {
    assert!(is_quit_key(true, Some('q')));
    assert!(!is_quit_key(false, Some('q')));
    assert!(!is_quit_key(true, Some('Q')));
    assert!(!is_quit_key(true, None));
    assert!(!duration_reached(0, u128::MAX));
    assert!(!duration_reached(10, 9_999_999_999));
    assert!(duration_reached(10, 10_000_000_000));
}
