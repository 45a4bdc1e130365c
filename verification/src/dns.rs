//! What a DNS resolution reports, and how the resolver's cache decides
//! between answering from a stored record and querying.
//!
//! A resolution first asks the cache: a record still live for the hostname
//! answers it. Otherwise the resolver queries, and a successful answer is
//! stored with the time to live that came with it.

use crate::dns_cache::{lookup, store_outcome, DnsCache};
use crate::models::DnsResult;
use vstd::prelude::*;

verus! {

/// How many hostnames the resolver's cache holds.
pub const DNS_CACHE_SIZE: usize = 256;

/// What resolving a hostname does.
#[derive(Debug, Clone, PartialEq, Eq)]
pub enum Resolution {
    /// Answer with these addresses, from a live cached record.
    Cached(Vec<String>),
    /// Query the resolver.
    Lookup,
}

/// `r` is the resolution that a cache holding `m` decides on for `host` at
/// `now`.
pub open spec fn resolution_of(m: Map<Seq<char>, (Seq<String>, u128)>, host: Seq<char>, now: u64, r: Resolution) -> bool {
    match lookup(m, host, now) {
        Some(ips) => r matches Resolution::Cached(v) && v@ == ips,
        None => r is Lookup,
    }
}

/// What resolving `hostname` reports: the addresses found, none when the
/// lookup failed, and the time the lookup took.
pub fn dns_result(hostname: &str, addresses: Option<Vec<String>>, elapsed_ms: u64) -> (r:
    DnsResult)
    ensures
        r.hostname@ == hostname@,
        r.resolve_time_ms == elapsed_ms,
        r.ips@ == match addresses {
            Some(v) => v@,
            None => Seq::<String>::empty(),
        },
{
    let ips = match addresses {
        Some(v) => v,
        None => Vec::new(),
    };
    DnsResult { hostname: hostname.to_owned(), resolve_time_ms: elapsed_ms, ips }
}

/// Decides, at `now`, whether `hostname` is answered from `cache` or queried.
pub fn plan_resolution_at(cache: &DnsCache, hostname: &str, now: u64) -> (r: Resolution)
    requires
        cache.wf(),
    ensures
        resolution_of(cache@, hostname@, now, r),
{
    match cache.get_at(hostname, now) {
        Some(v) => Resolution::Cached(v),
        None => Resolution::Lookup,
    }
}

/// Decides whether `hostname` is answered from `cache` or queried, at the
/// time the cache's clock reads.
pub fn plan_resolution(cache: &DnsCache, hostname: &str) -> (r: Resolution)
    requires
        cache.wf(),
    ensures
        exists|now: u64| now >= cache.clock_floor() && #[trigger] resolution_of(cache@, hostname@, now, r),
{
    let got = cache.get(hostname);
    let ghost now = choose|now: u64|
        now >= cache.clock_floor() && (got is Some <==> lookup(cache@, hostname@, now) is Some) && (
        got matches Some(v) ==> Some(v@) == lookup(cache@, hostname@, now));
    let r = match got {
        Some(v) => Resolution::Cached(v),
        None => Resolution::Lookup,
    };
    assert(resolution_of(cache@, hostname@, now, r));
    r
}

/// Stores the answer of a query for `hostname` made at `now`: the addresses
/// with the time to live, in seconds, that came with them. A failed query
/// (`None`) leaves the cache as it was.
pub fn remember_lookup_at(
    cache: &mut DnsCache,
    hostname: &str,
    answer: Option<(Vec<String>, u32)>,
    now: u64,
)
    requires
        old(cache).wf(),
        old(cache).capacity() > 0,
    ensures
        final(cache).wf(),
        final(cache).capacity() == old(cache).capacity(),
        answer is None ==> final(cache)@ == old(cache)@ && final(cache).clock_floor() == old(
            cache,
        ).clock_floor(),
        answer matches Some((ips, ttl)) ==> store_outcome(
            old(cache)@,
            old(cache).capacity(),
            hostname@,
            ips@,
            ttl as u64,
            now,
            final(cache)@,
        ),
{
    match answer {
        Some((ips, ttl)) => {
            proof {
                cache.lemma_store_defined();
            }
            cache.set_at(hostname.to_owned(), ips, ttl as u64, now);
        },
        None => {},
    }
}

/// Stores the answer of a query for `hostname` at the time the cache's
/// clock reads. A failed query (`None`) leaves the cache as it was.
pub fn remember_lookup(cache: &mut DnsCache, hostname: &str, answer: Option<(Vec<String>, u32)>)
    requires
        old(cache).wf(),
        old(cache).capacity() > 0,
    ensures
        final(cache).wf(),
        final(cache).capacity() == old(cache).capacity(),
        answer is None ==> final(cache)@ == old(cache)@ && final(cache).clock_floor() == old(
            cache,
        ).clock_floor(),
        answer matches Some((ips, ttl)) ==> exists|now: u64|
            now >= old(cache).clock_floor() && #[trigger] store_outcome(
                old(cache)@,
                old(cache).capacity(),
                hostname@,
                ips@,
                ttl as u64,
                now,
                final(cache)@,
            ),
{
    match answer {
        Some((ips, ttl)) => {
            proof {
                cache.lemma_store_defined();
            }
            cache.set(hostname.to_owned(), ips, ttl as u64);
        },
        None => {},
    }
}

} // verus!
