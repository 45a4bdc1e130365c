use network_tool::models::{DnsResult, HttpResult, PingStats, TcpResult};
use network_tool::web_ui::{
    compute_dns_status, compute_http_status, compute_ping_status, compute_tcp_status, default_ping_count,
    default_target, default_tcp_port, diagnostics_response, CheckStatus, DiagnosticsQuery,
};

fn ping(transmitted: u32, received: u32) -> PingStats {
    PingStats {
        transmitted,
        received,
        min_latency_ms: if received > 0 { Some(10) } else { None },
        max_latency_ms: if received > 0 { Some(20) } else { None },
        total_latency_ms: 15 * received as u128,
    }
}

fn http(code: Option<u16>) -> HttpResult {
    HttpResult { url: "https://x".into(), status_code: code, status_text: "t".into(), ttfb_ms: 1 }
}

#[test]
fn query_defaults() {
    assert_eq!(default_target(), "8.8.8.8");
    assert_eq!(default_ping_count(), 4);
    assert_eq!(default_tcp_port(), 443);
    let q = DiagnosticsQuery::with_defaults();
    assert_eq!(q.target, "8.8.8.8");
    assert_eq!(q.http_target(), "https://8.8.8.8");
    let q = DiagnosticsQuery { target: "http://example.com".into(), ping_count: 10, tcp_port: 80 };
    assert_eq!(q.http_target(), "http://example.com");
}

#[test]
fn ping_status_words() {
    assert_eq!(compute_ping_status(&ping(4, 4)), "healthy");
    assert_eq!(compute_ping_status(&ping(4, 3)), "degraded");
    assert_eq!(compute_ping_status(&ping(4, 0)), "unhealthy");
    assert_eq!(compute_ping_status(&ping(0, 0)), "unhealthy");
}

#[test]
fn dns_and_tcp_status_words() {
    let d = DnsResult { hostname: "h".into(), resolve_time_ms: 1, ips: vec!["1.1.1.1".into()] };
    assert_eq!(compute_dns_status(&d), "healthy");
    let d = DnsResult { hostname: "h".into(), resolve_time_ms: 1, ips: vec![] };
    assert_eq!(compute_dns_status(&d), "unhealthy");
    assert_eq!(compute_tcp_status(&TcpResult { port: 443, success: true, duration_ms: 3 }), "healthy");
    assert_eq!(compute_tcp_status(&TcpResult { port: 443, success: false, duration_ms: 3 }), "unhealthy");
}

#[test]
fn http_status_words() {
    assert_eq!(compute_http_status(&http(Some(200))), "healthy");
    assert_eq!(compute_http_status(&http(Some(399))), "healthy");
    assert_eq!(compute_http_status(&http(Some(199))), "degraded");
    assert_eq!(compute_http_status(&http(Some(400))), "degraded");
    assert_eq!(compute_http_status(&http(Some(503))), "degraded");
    assert_eq!(compute_http_status(&http(None)), "unhealthy");
    assert_eq!(CheckStatus::Error.word(), "error");
}

#[test]
fn response_assembly() {
    let r = diagnostics_response(
        "2026-05-30T12:00:00Z".into(),
        "8.8.8.8".into(),
        Ok(ping(4, 4)),
        Err("resolver unavailable".into()),
        Ok(TcpResult { port: 443, success: true, duration_ms: 45 }),
        Ok(http(Some(200))),
    );
    assert_eq!(r.timestamp, "2026-05-30T12:00:00Z");
    assert_eq!(r.target, "8.8.8.8");
    assert_eq!(r.ping.status, "healthy");
    assert_eq!(r.ping.error, None);
    assert_eq!(r.ping.data, Some(ping(4, 4)));
    assert_eq!(r.dns.status, "error");
    assert_eq!(r.dns.error, Some("resolver unavailable".to_string()));
    assert_eq!(r.dns.data, None);
    assert_eq!(r.tcp.status, "healthy");
    assert_eq!(r.http.status, "healthy");
}
