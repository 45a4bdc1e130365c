use network_tool::dns::dns_result;
use network_tool::http::{http_result, http_status_text, request_url_for, status_line};
use network_tool::tcp::{connect_address, tcp_result, ConnectOutcome, TCP_CONNECT_TIMEOUT_MS};
use network_tool::text::{decimal_string, has_prefix, join};

#[test]
fn decimal_rendering() {
    assert_eq!(decimal_string(0), "0");
    assert_eq!(decimal_string(7), "7");
    assert_eq!(decimal_string(443), "443");
    assert_eq!(decimal_string(u64::MAX), u64::MAX.to_string());
}

#[test]
fn prefix_tests() {
    assert!(has_prefix("https://example.com", "https://"));
    assert!(!has_prefix("http", "https://"));
    assert!(has_prefix("abc", ""));
    assert!(!has_prefix("xhttp://", "http://"));
}

#[test]
fn join_lists() {
    let v: Vec<String> = vec!["1.1.1.1".into(), "8.8.8.8".into(), "::1".into()];
    assert_eq!(join(&v, ", "), "1.1.1.1, 8.8.8.8, ::1");
    assert_eq!(join(&Vec::new(), ", "), "");
    assert_eq!(join(&vec!["a".to_string()], ", "), "a");
}

#[test]
fn request_urls() {
    assert_eq!(request_url_for("example.com"), "https://example.com");
    assert_eq!(request_url_for("http://example.com"), "http://example.com");
    assert_eq!(request_url_for("https://example.com/x"), "https://example.com/x");
    assert_eq!(request_url_for("8.8.8.8"), "https://8.8.8.8");
    let once = request_url_for("ftp.example.com");
    assert_eq!(request_url_for(&once), once);
}

#[test]
fn status_lines() {
    assert_eq!(status_line(404, Some("Not Found")), "404 Not Found");
    assert_eq!(status_line(299, None), "299 Unknown");
    assert_eq!(http_status_text(200), "200 OK");
    assert_eq!(http_status_text(404), "404 Not Found");
    assert_eq!(http_status_text(503), "503 Service Unavailable");
    assert_eq!(http_status_text(299), "299 Unknown");
    assert_eq!(http_status_text(42), "42 Unknown");
}

#[test]
fn http_results() {
    let ok = http_result("https://example.com".to_string(), Ok(301), 87);
    assert_eq!(ok.url, "https://example.com");
    assert_eq!(ok.status_code, Some(301));
    assert_eq!(ok.status_text, "301 Moved Permanently");
    assert_eq!(ok.ttfb_ms, 87);
    let err = http_result("https://nowhere".to_string(), Err("dns error".to_string()), 3);
    assert_eq!(err.status_code, None);
    assert_eq!(err.status_text, "Error: dns error");
    assert_eq!(err.ttfb_ms, 3);
}

#[test]
fn tcp_addresses_and_results() {
    assert_eq!(connect_address("example.com", 443), "example.com:443");
    assert_eq!(connect_address("10.0.0.1", 0), "10.0.0.1:0");
    let r = tcp_result(443, ConnectOutcome::Connected { elapsed_ms: 21 });
    assert!(r.success);
    assert_eq!(r.duration_ms, 21);
    assert_eq!(r.port, 443);
    let r = tcp_result(80, ConnectOutcome::Failed { elapsed_ms: 5 });
    assert!(!r.success);
    assert_eq!(r.duration_ms, 5);
    let r = tcp_result(22, ConnectOutcome::TimedOut);
    assert!(!r.success);
    assert_eq!(r.duration_ms, TCP_CONNECT_TIMEOUT_MS);
    assert_eq!(TCP_CONNECT_TIMEOUT_MS, 10_000);
}

#[test]
fn dns_results() {
    let r = dns_result("example.com", Some(vec!["93.184.216.34".to_string()]), 23);
    assert_eq!(r.hostname, "example.com");
    assert_eq!(r.ips, vec!["93.184.216.34".to_string()]);
    assert_eq!(r.resolve_time_ms, 23);
    let r = dns_result("nx.invalid", None, 40);
    assert!(r.ips.is_empty());
    assert_eq!(r.resolve_time_ms, 40);
}
