//! The results of one round of diagnostics.
//!
//! Durations are whole milliseconds. Ping statistics keep the sum of the
//! reply latencies; the mean latency is that sum divided by the number of
//! replies, and the loss is the share of probes that got no reply.

use vstd::prelude::*;

verus! {

/// Statistics of a run of ICMP echo probes.
#[derive(Debug, Clone, Copy, PartialEq, Eq)]
pub struct PingStats {
    pub transmitted: u32,
    pub received: u32,
    pub min_latency_ms: Option<u64>,
    pub max_latency_ms: Option<u64>,
    pub total_latency_ms: u128,
}

/// The outcome of resolving a hostname.
#[derive(Debug, Clone, PartialEq, Eq)]
pub struct DnsResult {
    pub hostname: String,
    pub resolve_time_ms: u64,
    pub ips: Vec<String>,
}

/// The outcome of a TCP connection attempt.
#[derive(Debug, Clone, PartialEq, Eq)]
pub struct TcpResult {
    pub port: u16,
    pub success: bool,
    pub duration_ms: u64,
}

/// The outcome of an HTTP request: the status line, or the error text.
#[derive(Debug, Clone, PartialEq, Eq)]
pub struct HttpResult {
    pub url: String,
    pub status_code: Option<u16>,
    pub status_text: String,
    pub ttfb_ms: u64,
}

/// One round of diagnostics; a check that failed to run is absent.
#[derive(Debug, Clone, PartialEq, Eq)]
pub struct DiagnosticResult {
    pub timestamp: String,
    pub run_number: u32,
    pub ping: Option<PingStats>,
    pub dns: Option<DnsResult>,
    pub tcp: Option<TcpResult>,
    pub http: Option<HttpResult>,
}

/// The largest latency, in milliseconds, that a reply can report.
pub const MAX_LATENCY_MS: u128 = 0xffff_ffff_ffff_ffff;

impl PingStats {
    /// The number of probes that got no reply.
    pub open spec fn spec_lost(&self) -> int {
        self.transmitted - self.received
    }

    /// The statistics hang together: no more replies than probes, extremes
    /// present exactly when some reply arrived, and the total latency lies
    /// between `received` times the fastest and `received` times the slowest
    /// reply, so that the mean lies between the two.
    pub open spec fn consistent(&self) -> bool {
        &&& self.received <= self.transmitted
        &&& (self.received == 0) == (self.min_latency_ms is None)
        &&& (self.received == 0) == (self.max_latency_ms is None)
        &&& self.received == 0 ==> self.total_latency_ms == 0
        &&& self.received > 0 ==> {
            let lo = self.min_latency_ms->0;
            let hi = self.max_latency_ms->0;
            &&& lo <= hi
            &&& self.received * lo <= self.total_latency_ms
            &&& self.total_latency_ms <= self.received * hi
        }
    }

    /// The number of probes that got no reply.
    pub fn lost(&self) -> (n: u32)
        requires
            self.received <= self.transmitted,
        ensures
            n == self.spec_lost(),
    {
        self.transmitted - self.received
    }
}

} // verus!
