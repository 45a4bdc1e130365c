//! Verified core of a network diagnostic tool: DNS caching with TTL and
//! capacity eviction, ping statistics, retry scheduling with exponential
//! backoff, health classification of probe results and report layout.

pub mod models;
pub mod text;
pub mod dns;
pub mod dns_cache;
pub mod http;
pub mod icmp;
pub mod retry;
pub mod tcp;
pub mod web_ui;
pub mod report;
