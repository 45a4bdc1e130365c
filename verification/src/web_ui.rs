//! The logic of the diagnostics API: the defaults of a query, the health
//! status that each check reports, and the assembly of a response.

use crate::http::{request_url, request_url_for};
use crate::models::{DnsResult, HttpResult, PingStats, TcpResult};
use vstd::prelude::*;

verus! {

/// The parameters of a diagnostics request.
#[derive(Debug, Clone, PartialEq, Eq)]
pub struct DiagnosticsQuery {
    pub target: String,
    pub ping_count: u32,
    pub tcp_port: u16,
}

/// The target probed when a query names none.
pub fn default_target() -> (r: String)
    ensures
        r@ == "8.8.8.8"@,
{
    "8.8.8.8".to_owned()
}

/// The number of echo probes sent when a query names none.
pub fn default_ping_count() -> (r: u32)
    ensures
        r == 4,
{
    4
}

/// The TCP port probed when a query names none.
pub fn default_tcp_port() -> (r: u16)
    ensures
        r == 443,
{
    443
}

impl DiagnosticsQuery {
    /// A query with every parameter at its default.
    pub fn with_defaults() -> (q: Self)
        ensures
            q.target@ == "8.8.8.8"@,
            q.ping_count == 4,
            q.tcp_port == 443,
    {
        DiagnosticsQuery {
            target: default_target(),
            ping_count: default_ping_count(),
            tcp_port: default_tcp_port(),
        }
    }

    /// The URL that the HTTP check of this query requests.
    pub fn http_target(&self) -> (r: String)
        ensures
            r@ == request_url(self.target@),
    {
        request_url_for(self.target.as_str())
    }
}

/// The health that a check reports.
#[derive(Debug, Clone, Copy, PartialEq, Eq, Structural)]
pub enum CheckStatus {
    Healthy,
    Degraded,
    Unhealthy,
    Error,
}

/// The word by which a status is reported.
pub open spec fn status_word(s: CheckStatus) -> Seq<char> {
    match s {
        CheckStatus::Healthy => "healthy"@,
        CheckStatus::Degraded => "degraded"@,
        CheckStatus::Unhealthy => "unhealthy"@,
        CheckStatus::Error => "error"@,
    }
}

impl CheckStatus {
    /// The word by which this status is reported.
    pub fn word(&self) -> (r: String)
        ensures
            r@ == status_word(*self),
    {
        match self {
            CheckStatus::Healthy => "healthy".to_owned(),
            CheckStatus::Degraded => "degraded".to_owned(),
            CheckStatus::Unhealthy => "unhealthy".to_owned(),
            CheckStatus::Error => "error".to_owned(),
        }
    }
}

/// Ping health: every probe answered, some answered, or none.
pub open spec fn ping_status(p: PingStats) -> CheckStatus {
    if p.received > 0 && p.received == p.transmitted {
        CheckStatus::Healthy
    } else if p.received > 0 {
        CheckStatus::Degraded
    } else {
        CheckStatus::Unhealthy
    }
}

/// DNS health: some address was found.
pub open spec fn dns_status(d: DnsResult) -> CheckStatus {
    if d.ips@.len() > 0 {
        CheckStatus::Healthy
    } else {
        CheckStatus::Unhealthy
    }
}

/// TCP health: the connection was established.
pub open spec fn tcp_status(t: TcpResult) -> CheckStatus {
    if t.success {
        CheckStatus::Healthy
    } else {
        CheckStatus::Unhealthy
    }
}

/// HTTP health: a success or redirection status, another status, or no
/// response at all.
pub open spec fn http_status(h: HttpResult) -> CheckStatus {
    match h.status_code {
        Some(code) => if 200 <= code < 400 {
            CheckStatus::Healthy
        } else {
            CheckStatus::Degraded
        },
        None => CheckStatus::Unhealthy,
    }
}

/// How each check's health is classified, over all results:
/// - a ping run is healthy when every probe got a reply, unhealthy exactly
///   when none did, and degraded when some but not all did;
/// - a resolution is healthy exactly when it found an address;
/// - a connection attempt is healthy exactly when it succeeded;
/// - a request is healthy for a status from 200 to 399, degraded for any
///   other status, and unhealthy exactly when no response came;
/// - no check reports the word of another status, and only a check that
///   could not run reports "error".
pub proof fn lemma_status_classes()
    ensures
        forall|p: PingStats| (#[trigger] ping_status(p) == CheckStatus::Unhealthy) == (p.received == 0),
        forall|p: PingStats|
            (#[trigger] ping_status(p) == CheckStatus::Healthy) == (p.received > 0 && p.received
                == p.transmitted),
        forall|p: PingStats|
            0 < p.received < p.transmitted ==> #[trigger] ping_status(p) == CheckStatus::Degraded,
        forall|p: PingStats| #[trigger] ping_status(p) != CheckStatus::Error,
        forall|d: DnsResult|
            (#[trigger] dns_status(d) == CheckStatus::Healthy) == (d.ips@.len() > 0),
        forall|d: DnsResult|
            #[trigger] dns_status(d) == CheckStatus::Healthy || dns_status(d)
                == CheckStatus::Unhealthy,
        forall|t: TcpResult| (#[trigger] tcp_status(t) == CheckStatus::Healthy) == t.success,
        forall|t: TcpResult|
            #[trigger] tcp_status(t) == CheckStatus::Healthy || tcp_status(t)
                == CheckStatus::Unhealthy,
        forall|h: HttpResult|
            (#[trigger] http_status(h) == CheckStatus::Unhealthy) == (h.status_code is None),
        forall|h: HttpResult|
            (#[trigger] http_status(h) == CheckStatus::Healthy) == (h.status_code matches Some(c)
                && 200 <= c && c < 400),
        forall|h: HttpResult| #[trigger] http_status(h) != CheckStatus::Error,
        status_word(CheckStatus::Healthy) == "healthy"@,
        status_word(CheckStatus::Degraded) == "degraded"@,
        status_word(CheckStatus::Unhealthy) == "unhealthy"@,
        status_word(CheckStatus::Error) == "error"@,
{
}

/// The health of a ping run.
pub fn ping_health(p: &PingStats) -> (r: CheckStatus)
    ensures
        r == ping_status(*p),
        (r == CheckStatus::Unhealthy) == (p.received == 0),
        (r == CheckStatus::Healthy) == (p.received > 0 && p.received == p.transmitted),
        0 < p.received < p.transmitted ==> r == CheckStatus::Degraded,
{
    proof {
        lemma_status_classes();
    }
    if p.received > 0 && p.received == p.transmitted {
        CheckStatus::Healthy
    } else if p.received > 0 {
        CheckStatus::Degraded
    } else {
        CheckStatus::Unhealthy
    }
}

/// The health of a resolution.
pub fn dns_health(d: &DnsResult) -> (r: CheckStatus)
    ensures
        r == dns_status(*d),
{
    if d.ips.len() > 0 {
        CheckStatus::Healthy
    } else {
        CheckStatus::Unhealthy
    }
}

/// The health of a connection attempt.
pub fn tcp_health(t: &TcpResult) -> (r: CheckStatus)
    ensures
        r == tcp_status(*t),
{
    if t.success {
        CheckStatus::Healthy
    } else {
        CheckStatus::Unhealthy
    }
}

/// The health of a request.
pub fn http_health(h: &HttpResult) -> (r: CheckStatus)
    ensures
        r == http_status(*h),
        (r == CheckStatus::Unhealthy) == (h.status_code is None),
        (r == CheckStatus::Healthy) == (h.status_code matches Some(c) && 200 <= c && c < 400),
{
    proof {
        lemma_status_classes();
    }
    match h.status_code {
        Some(code) => if code >= 200 && code < 400 {
            CheckStatus::Healthy
        } else {
            CheckStatus::Degraded
        },
        None => CheckStatus::Unhealthy,
    }
}

/// The health word of a ping run.
pub fn compute_ping_status(p: &PingStats) -> (r: String)
    ensures
        r@ == status_word(ping_status(*p)),
{
    ping_health(p).word()
}

/// The health word of a resolution.
pub fn compute_dns_status(d: &DnsResult) -> (r: String)
    ensures
        r@ == status_word(dns_status(*d)),
{
    dns_health(d).word()
}

/// The health word of a connection attempt.
pub fn compute_tcp_status(t: &TcpResult) -> (r: String)
    ensures
        r@ == status_word(tcp_status(*t)),
{
    tcp_health(t).word()
}

/// The health word of a request.
pub fn compute_http_status(h: &HttpResult) -> (r: String)
    ensures
        r@ == status_word(http_status(*h)),
{
    http_health(h).word()
}

/// The report of one check: its health word, the error that stopped it, or
/// the data it gathered.
#[derive(Debug, Clone, PartialEq, Eq)]
pub struct DiagnosticsCheck<T> {
    pub status: String,
    pub error: Option<String>,
    pub data: Option<T>,
}

/// `c` reports `r`: a result with its health as `status` says and its data,
/// or an error with the word "error" and the error's text.
pub open spec fn reports<T>(
    c: DiagnosticsCheck<T>,
    r: Result<T, String>,
    status: spec_fn(T) -> CheckStatus,
) -> bool {
    match r {
        Ok(d) => c.status@ == status_word(status(d)) && c.error is None && c.data == Some(d),
        Err(e) => c.status@ == status_word(CheckStatus::Error) && c.error == Some(e)
            && c.data is None,
    }
}

fn failed_check<T>(e: String) -> (c: DiagnosticsCheck<T>)
    ensures
        c.status@ == status_word(CheckStatus::Error),
        c.error == Some(e),
        c.data is None,
{
    DiagnosticsCheck { status: CheckStatus::Error.word(), error: Some(e), data: None }
}

/// The report of a ping run, or of the error that stopped it.
pub fn ping_check(r: Result<PingStats, String>) -> (c: DiagnosticsCheck<PingStats>)
    ensures
        reports(c, r, |p: PingStats| ping_status(p)),
{
    match r {
        Ok(p) => DiagnosticsCheck { status: compute_ping_status(&p), error: None, data: Some(p) },
        Err(e) => failed_check(e),
    }
}

/// The report of a resolution, or of the error that stopped it.
pub fn dns_check(r: Result<DnsResult, String>) -> (c: DiagnosticsCheck<DnsResult>)
    ensures
        reports(c, r, |d: DnsResult| dns_status(d)),
{
    match r {
        Ok(d) => DiagnosticsCheck { status: compute_dns_status(&d), error: None, data: Some(d) },
        Err(e) => failed_check(e),
    }
}

/// The report of a connection attempt, or of the error that stopped it.
pub fn tcp_check(r: Result<TcpResult, String>) -> (c: DiagnosticsCheck<TcpResult>)
    ensures
        reports(c, r, |t: TcpResult| tcp_status(t)),
{
    match r {
        Ok(t) => DiagnosticsCheck { status: compute_tcp_status(&t), error: None, data: Some(t) },
        Err(e) => failed_check(e),
    }
}

/// The report of a request, or of the error that stopped it.
pub fn http_check(r: Result<HttpResult, String>) -> (c: DiagnosticsCheck<HttpResult>)
    ensures
        reports(c, r, |h: HttpResult| http_status(h)),
{
    match r {
        Ok(h) => DiagnosticsCheck { status: compute_http_status(&h), error: None, data: Some(h) },
        Err(e) => failed_check(e),
    }
}

/// The answer to a diagnostics request.
#[derive(Debug, Clone, PartialEq, Eq)]
pub struct DiagnosticsResponse {
    pub timestamp: String,
    pub target: String,
    pub ping: DiagnosticsCheck<PingStats>,
    pub dns: DiagnosticsCheck<DnsResult>,
    pub tcp: DiagnosticsCheck<TcpResult>,
    pub http: DiagnosticsCheck<HttpResult>,
}

/// The answer to a diagnostics request on `target` made at `timestamp`,
/// from the results of its four checks.
pub fn diagnostics_response(
    timestamp: String,
    target: String,
    ping: Result<PingStats, String>,
    dns: Result<DnsResult, String>,
    tcp: Result<TcpResult, String>,
    http: Result<HttpResult, String>,
) -> (r: DiagnosticsResponse)
    ensures
        r.timestamp == timestamp,
        r.target == target,
        reports(r.ping, ping, |p: PingStats| ping_status(p)),
        reports(r.dns, dns, |d: DnsResult| dns_status(d)),
        reports(r.tcp, tcp, |t: TcpResult| tcp_status(t)),
        reports(r.http, http, |h: HttpResult| http_status(h)),
{
    DiagnosticsResponse {
        timestamp,
        target,
        ping: ping_check(ping),
        dns: dns_check(dns),
        tcp: tcp_check(tcp),
        http: http_check(http),
    }
}

} // verus!
