//! A cache of DNS answers with a time to live per entry and a bound on the
//! number of entries.
//!
//! Time is measured in nanoseconds since the cache was created. An entry
//! stored at time `now` with a time to live of `ttl_secs` seconds expires at
//! `now + ttl_secs * 10^9`; it is live at a later time `t` while `t` is
//! strictly before its expiry.

use std::time::Instant;
use vstd::prelude::*;

verus! {

#[verifier::external_type_specification]
#[verifier::external_body]
pub struct ExInstant(Instant);

/// Calls `std::time::Instant::now`. What instant comes back depends on the
/// clock, and nothing is claimed of it.
#[verifier::external_body]
fn clock_origin() -> Instant {
    Instant::now()
}

/// Calls `std::time::Instant::elapsed` on `origin` and returns the elapsed
/// time as a number of nanoseconds. The reading depends on the clock:
/// nothing is claimed of it.
#[verifier::external_body]
fn nanos_since(origin: &Instant) -> u128 {
    origin.elapsed().as_nanos()
}

/// The record that the cache holds for a hostname: its addresses and the
/// time, in nanoseconds since the cache was created, at which it expires.
pub type CacheRecord = (Seq<String>, u128);

/// The number of nanoseconds in a second.
pub const NANOS_PER_SEC: u128 = 1_000_000_000;

/// The largest time to live, in seconds, that a store accepts. The clock
/// cannot add a longer one to any instant; it may refuse shorter ones too,
/// down to this bound less the seconds that the machine's monotonic clock
/// already reads.
pub const MAX_TTL_SECS: u64 = 0x7fff_ffff_ffff_ffff;

struct CacheEntry {
    hostname: String,
    ips: Vec<String>,
    expires_at: u128,
}

/// A DNS answer cache keyed by hostname.
pub struct DnsCache {
    entries: Vec<CacheEntry>,
    max_size: usize,
    origin: Instant,
    last_now: u64,
}

spec fn record_of(e: CacheEntry) -> CacheRecord {
    (e.ips@, e.expires_at)
}

spec fn hosts(s: Seq<CacheEntry>) -> Seq<Seq<char>> {
    s.map_values(|e: CacheEntry| e.hostname@)
}

spec fn index_of(s: Seq<CacheEntry>, k: Seq<char>) -> int {
    choose|i: int| 0 <= i < s.len() && s[i].hostname@ == k
}

spec fn entries_map(s: Seq<CacheEntry>) -> Map<Seq<char>, CacheRecord> {
    Map::new(|k: Seq<char>| hosts(s).contains(k), |k: Seq<char>| record_of(s[index_of(s, k)]))
}

/// The instant, in nanoseconds, at which a record stored at `now` with a
/// time to live of `ttl_secs` seconds expires.
pub open spec fn expiry(now: u64, ttl_secs: u64) -> u128 {
    (now + ttl_secs * NANOS_PER_SEC) as u128
}

/// A record is live at `now` while `now` is strictly before its expiry.
pub open spec fn is_live(r: CacheRecord, now: u64) -> bool {
    r.1 > now
}

/// The records of `m` that are live at `now`.
pub open spec fn live_at(m: Map<Seq<char>, CacheRecord>, now: u64) -> Map<Seq<char>, CacheRecord> {
    Map::new(|k: Seq<char>| m.dom().contains(k) && is_live(m[k], now), |k: Seq<char>| m[k])
}

/// What a lookup of `host` at `now` answers: the addresses of a live record.
pub open spec fn lookup(m: Map<Seq<char>, CacheRecord>, host: Seq<char>, now: u64) -> Option<
    Seq<String>,
> {
    if m.dom().contains(host) && is_live(m[host], now) {
        Some(m[host].0)
    } else {
        None
    }
}

/// `k` names a record of `m` that expires no later than any other record of `m`.
pub open spec fn is_earliest(m: Map<Seq<char>, CacheRecord>, k: Seq<char>) -> bool {
    &&& m.dom().contains(k)
    &&& forall|j: Seq<char>| #[trigger] m.dom().contains(j) ==> m[k].1 <= m[j].1
}

/// A store into a cache of `max` entries holding `m` at `now` is defined
/// unless, once expired records are dropped, more than `max` records remain.
pub open spec fn store_defined(m: Map<Seq<char>, CacheRecord>, max: nat, now: u64) -> bool {
    m.len() < max || live_at(m, now).len() <= max
}

/// The cache that results from storing `ips` for `host` with a time to live
/// of `ttl_secs` seconds at `now` into a cache of `max` entries holding `m`.
///
/// A cache that is not full takes the record as it is. A full one first drops
/// every expired record; if it is still full, it evicts one live record that
/// expires no later than any other. Storing a hostname that is present
/// replaces its record.
pub open spec fn store_outcome(
    m: Map<Seq<char>, CacheRecord>,
    max: nat,
    host: Seq<char>,
    ips: Seq<String>,
    ttl_secs: u64,
    now: u64,
    result: Map<Seq<char>, CacheRecord>,
) -> bool {
    let rec = (ips, expiry(now, ttl_secs));
    if m.len() < max {
        result == m.insert(host, rec)
    } else {
        let live = live_at(m, now);
        if live.len() < max || live.len() == 0 {
            result == live.insert(host, rec)
        } else {
            exists|victim: Seq<char>|
                is_earliest(live, victim) && result == live.remove(victim).insert(host, rec)
        }
    }
}

/// The number of records that a cache of `max` entries may hold.
pub open spec fn bound(max: nat) -> nat {
    if max == 0 {
        1
    } else {
        max
    }
}

proof fn lemma_live_finite(m: Map<Seq<char>, CacheRecord>, now: u64)
    requires
        m.dom().finite(),
    ensures
        live_at(m, now).dom().finite(),
        live_at(m, now).len() <= m.len(),
{
    vstd::set_lib::lemma_len_subset(live_at(m, now).dom(), m.dom());
}

/// A read gives back a write: once `ips` is stored for `host` at `now` with a
/// time to live of `ttl_secs` seconds, a lookup of `host` at any time `t`
/// answers `ips` while `t` is before the expiry and nothing from then on.
pub proof fn lemma_lookup_after_store(
    m: Map<Seq<char>, CacheRecord>,
    max: nat,
    host: Seq<char>,
    ips: Seq<String>,
    ttl_secs: u64,
    now: u64,
    result: Map<Seq<char>, CacheRecord>,
    t: u64,
)
    requires
        store_outcome(m, max, host, ips, ttl_secs, now, result),
    ensures
        result.dom().contains(host),
        result[host] == (ips, expiry(now, ttl_secs)),
        lookup(result, host, t) == (if (t as int) < expiry(now, ttl_secs) {
            Some(ips)
        } else {
            None
        }),
        t >= now && t < now + ttl_secs * 1_000_000_000 ==> lookup(result, host, t) == Some(ips),
        t >= now + ttl_secs * 1_000_000_000 ==> lookup(result, host, t) is None,
{
    if m.len() >= max {
        let live = live_at(m, now);
        if !(live.len() < max || live.len() == 0) {
            let victim = choose|victim: Seq<char>|
                is_earliest(live, victim) && result == live.remove(victim).insert(
                    host,
                    (ips, expiry(now, ttl_secs)),
                );
        }
    }
}

/// A cache never holds more records than its bound: a store into a finite
/// cache within the bound leaves a cache within the bound.
pub proof fn lemma_store_within_bound(
    m: Map<Seq<char>, CacheRecord>,
    max: nat,
    host: Seq<char>,
    ips: Seq<String>,
    ttl_secs: u64,
    now: u64,
    result: Map<Seq<char>, CacheRecord>,
)
    requires
        m.dom().finite(),
        m.len() <= bound(max),
        store_defined(m, max, now),
        store_outcome(m, max, host, ips, ttl_secs, now, result),
    ensures
        result.dom().finite(),
        result.len() <= bound(max),
{
    let rec = (ips, expiry(now, ttl_secs));
    lemma_live_finite(m, now);
    let live = live_at(m, now);
    if m.len() < max {
        assert(m.insert(host, rec).dom() == m.dom().insert(host));
    } else if live.len() < max || live.len() == 0 {
        assert(live.insert(host, rec).dom() == live.dom().insert(host));
    } else {
        let victim = choose|victim: Seq<char>|
            is_earliest(live, victim) && result == live.remove(victim).insert(host, rec);
        assert(live.remove(victim).dom() == live.dom().remove(victim));
        assert(live.remove(victim).insert(host, rec).dom() == live.dom().remove(victim).insert(
            host,
        ));
    }
}

/// A store leaves the records of other hostnames alone unless the cache is
/// full: a store into a cache that is not full changes no other lookup, at
/// any time.
pub proof fn lemma_store_not_full_keeps_others(
    m: Map<Seq<char>, CacheRecord>,
    max: nat,
    host: Seq<char>,
    ips: Seq<String>,
    ttl_secs: u64,
    now: u64,
    result: Map<Seq<char>, CacheRecord>,
    other: Seq<char>,
    t: u64,
)
    requires
        m.len() < max,
        other != host,
        store_outcome(m, max, host, ips, ttl_secs, now, result),
    ensures
        lookup(result, other, t) == lookup(m, other, t),
{
}

/// A store into a cache that is not full evicts nothing: every other
/// record keeps its addresses and expiry, the stored hostname maps to the new
/// record, and the cache grows by one exactly when the hostname was absent.
pub proof fn lemma_store_not_full(
    m: Map<Seq<char>, CacheRecord>,
    max: nat,
    host: Seq<char>,
    ips: Seq<String>,
    ttl_secs: u64,
    now: u64,
    result: Map<Seq<char>, CacheRecord>,
)
    requires
        m.dom().finite(),
        m.len() < max,
        store_outcome(m, max, host, ips, ttl_secs, now, result),
    ensures
        result.dom().contains(host),
        result[host] == (ips, expiry(now, ttl_secs)),
        forall|k: Seq<char>|
            k != host ==> (#[trigger] result.dom().contains(k) == m.dom().contains(k)),
        forall|k: Seq<char>| k != host && #[trigger] m.dom().contains(k) ==> result[k] == m[k],
        result.dom().finite(),
        result.len() == m.len() + (if m.dom().contains(host) {
            0int
        } else {
            1int
        }),
{
    let rec = (ips, expiry(now, ttl_secs));
    assert(m.insert(host, rec).dom() == m.dom().insert(host));
}

/// `result` is `m` with record `victim` evicted and `rec` stored for `host`.
pub open spec fn evicts(
    m: Map<Seq<char>, CacheRecord>,
    result: Map<Seq<char>, CacheRecord>,
    host: Seq<char>,
    rec: CacheRecord,
    victim: Seq<char>,
) -> bool {
    is_earliest(m, victim) && result == m.remove(victim).insert(host, rec)
}

/// A store into a full cache whose records are all live evicts exactly one
/// record that expires no later than any other (any one of them on a tie),
/// keeps every other record, stores the new one, and leaves the cache full
/// unless it refreshed a hostname other than the evicted one.
pub proof fn lemma_store_full_all_live(
    m: Map<Seq<char>, CacheRecord>,
    max: nat,
    host: Seq<char>,
    ips: Seq<String>,
    ttl_secs: u64,
    now: u64,
    result: Map<Seq<char>, CacheRecord>,
)
    requires
        m.dom().finite(),
        m.len() == max,
        max >= 1,
        forall|k: Seq<char>| #[trigger] m.dom().contains(k) ==> is_live(m[k], now),
        store_outcome(m, max, host, ips, ttl_secs, now, result),
    ensures
        exists|victim: Seq<char>|
            #[trigger] evicts(m, result, host, (ips, expiry(now, ttl_secs)), victim) && result.len()
                == max - (if m.dom().contains(host) && victim != host {
                1int
            } else {
                0int
            }) && m.dom().contains(victim) && (forall|k: Seq<char>|
                #[trigger] m.dom().contains(k) ==> m[victim].1 <= m[k].1) && (forall|k: Seq<char>|
                k != host && k != victim ==> (#[trigger] result.dom().contains(k)
                    == m.dom().contains(k))) && (forall|k: Seq<char>|
                k != host && k != victim && #[trigger] m.dom().contains(k) ==> result[k] == m[k])
                && (victim != host ==> !result.dom().contains(victim)),
{
    let rec = (ips, expiry(now, ttl_secs));
    let live = live_at(m, now);
    assert(live =~= m);
    let victim = choose|victim: Seq<char>|
        is_earliest(live, victim) && result == live.remove(victim).insert(host, rec);
    assert(evicts(m, result, host, rec, victim));
    assert(m.remove(victim).dom() == m.dom().remove(victim));
    assert(m.remove(victim).insert(host, rec).dom() == m.dom().remove(victim).insert(host));
}

/// Lookups at `now` in `a` and `b` agree on every hostname but `h1` and `h2`.
pub open spec fn lookups_agree_except(
    a: Map<Seq<char>, CacheRecord>,
    b: Map<Seq<char>, CacheRecord>,
    h1: Seq<char>,
    h2: Seq<char>,
    now: u64,
) -> bool {
    forall|k: Seq<char>| k != h1 && k != h2 ==> #[trigger] lookup(b, k, now) == lookup(a, k, now)
}

/// Expired records go first: a store into a full cache evicts no live record
/// of another hostname when dropping the expired ones makes room, and at
/// most one otherwise, one that expires no later than any other live record.
pub proof fn lemma_store_evicts_earliest_live(
    m: Map<Seq<char>, CacheRecord>,
    max: nat,
    host: Seq<char>,
    ips: Seq<String>,
    ttl_secs: u64,
    now: u64,
    result: Map<Seq<char>, CacheRecord>,
)
    requires
        store_outcome(m, max, host, ips, ttl_secs, now, result),
    ensures
        live_at(m, now).len() < max ==> forall|k: Seq<char>|
            k != host ==> #[trigger] lookup(result, k, now) == lookup(m, k, now),
        exists|victim: Seq<char>| #[trigger] lookups_agree_except(m, result, host, victim, now),
        forall|k: Seq<char>|
            k != host && #[trigger] lookup(m, k, now) is Some && lookup(result, k, now) is None
                ==> is_earliest(live_at(m, now), k),
{
    let rec = (ips, expiry(now, ttl_secs));
    let live = live_at(m, now);
    if m.len() < max || live.len() < max || live.len() == 0 {
        assert(lookups_agree_except(m, result, host, host, now));
    } else {
        let victim = choose|victim: Seq<char>|
            is_earliest(live, victim) && result == live.remove(victim).insert(host, rec);
        assert(lookups_agree_except(m, result, host, victim, now));
    }
}

/// Dropping expired records changes no lookup made at the same time.
pub proof fn lemma_clear_keeps_lookups(m: Map<Seq<char>, CacheRecord>, now: u64, host: Seq<char>)
    ensures
        lookup(live_at(m, now), host, now) == lookup(m, host, now),
{
}

proof fn lemma_hosts_index(s: Seq<CacheEntry>, i: int)
    requires
        0 <= i < s.len(),
    ensures
        hosts(s).len() == s.len(),
        #[trigger] hosts(s)[i] == s[i].hostname@,
{
}

proof fn lemma_map_at(s: Seq<CacheEntry>, i: int)
    requires
        hosts(s).no_duplicates(),
        0 <= i < s.len(),
    ensures
        entries_map(s).dom().contains(s[i].hostname@),
        entries_map(s)[s[i].hostname@] == record_of(s[i]),
{
    let k = s[i].hostname@;
    lemma_hosts_index(s, i);
    assert(hosts(s).contains(k));
    let j = index_of(s, k);
    lemma_hosts_index(s, j);
    assert(hosts(s)[j] == hosts(s)[i]);
}

proof fn lemma_map_dom(s: Seq<CacheEntry>, k: Seq<char>)
    ensures
        entries_map(s).dom().contains(k) <==> exists|i: int|
            0 <= i < s.len() && #[trigger] s[i].hostname@ == k,
{
    if entries_map(s).dom().contains(k) {
        let i = choose|i: int| 0 <= i < hosts(s).len() && hosts(s)[i] == k;
        lemma_hosts_index(s, i);
    }
    if exists|i: int| 0 <= i < s.len() && #[trigger] s[i].hostname@ == k {
        let i = choose|i: int| 0 <= i < s.len() && #[trigger] s[i].hostname@ == k;
        lemma_hosts_index(s, i);
        assert(hosts(s).contains(k));
    }
}

proof fn lemma_map_len(s: Seq<CacheEntry>)
    requires
        hosts(s).no_duplicates(),
    ensures
        entries_map(s).len() == s.len(),
        entries_map(s).dom().finite(),
{
    assert(entries_map(s).dom() =~= hosts(s).to_set());
    hosts(s).unique_seq_to_set();
}

proof fn lemma_empty(s: Seq<CacheEntry>)
    requires
        s.len() == 0,
    ensures
        hosts(s).no_duplicates(),
        entries_map(s) == Map::<Seq<char>, CacheRecord>::empty(),
{
    assert forall|k: Seq<char>| !entries_map(s).dom().contains(k) by {
        lemma_map_dom(s, k);
    }
    assert(entries_map(s) =~= Map::<Seq<char>, CacheRecord>::empty());
}

proof fn lemma_push(s: Seq<CacheEntry>, e: CacheEntry)
    requires
        hosts(s).no_duplicates(),
        !entries_map(s).dom().contains(e.hostname@),
    ensures
        hosts(s.push(e)).no_duplicates(),
        entries_map(s.push(e)) == entries_map(s).insert(e.hostname@, record_of(e)),
{
    let t = s.push(e);
    assert forall|i: int, j: int| 0 <= i < t.len() && 0 <= j < t.len() && i != j implies hosts(
        t,
    )[i] != hosts(t)[j] by {
        lemma_hosts_index(t, i);
        lemma_hosts_index(t, j);
        if i < s.len() && j < s.len() {
            lemma_hosts_index(s, i);
            lemma_hosts_index(s, j);
        } else if i < s.len() {
            lemma_map_dom(s, e.hostname@);
        } else {
            lemma_map_dom(s, e.hostname@);
        }
    }
    let m = entries_map(s).insert(e.hostname@, record_of(e));
    assert forall|k: Seq<char>| #[trigger] entries_map(t).dom().contains(k) == m.dom().contains(k) by {
        lemma_map_dom(s, k);
        lemma_map_dom(t, k);
        if exists|i: int| 0 <= i < s.len() && #[trigger] s[i].hostname@ == k {
            let i = choose|i: int| 0 <= i < s.len() && #[trigger] s[i].hostname@ == k;
            assert(t[i].hostname@ == k);
        }
        if k == e.hostname@ {
            assert(t[s.len() as int].hostname@ == k);
        }
    }
    assert forall|k: Seq<char>| #[trigger] entries_map(t).dom().contains(k) implies entries_map(
        t,
    )[k] == m[k] by {
        lemma_map_dom(t, k);
        let i = choose|i: int| 0 <= i < t.len() && #[trigger] t[i].hostname@ == k;
        lemma_map_at(t, i);
        if i < s.len() {
            lemma_map_at(s, i);
        }
    }
    assert(entries_map(t) =~= m);
}

proof fn lemma_update(s: Seq<CacheEntry>, i: int, e: CacheEntry)
    requires
        hosts(s).no_duplicates(),
        0 <= i < s.len(),
        s[i].hostname@ == e.hostname@,
    ensures
        hosts(s.update(i, e)) == hosts(s),
        entries_map(s.update(i, e)) == entries_map(s).insert(e.hostname@, record_of(e)),
{
    let t = s.update(i, e);
    assert forall|j: int| 0 <= j < t.len() implies hosts(t)[j] == hosts(s)[j] by {
        lemma_hosts_index(t, j);
        lemma_hosts_index(s, j);
    }
    assert(hosts(t) =~= hosts(s));
    let m = entries_map(s).insert(e.hostname@, record_of(e));
    lemma_map_at(s, i);
    assert forall|k: Seq<char>| #[trigger] entries_map(t).dom().contains(k) == m.dom().contains(k) by {
        lemma_map_dom(s, k);
        lemma_map_dom(t, k);
        if exists|j: int| 0 <= j < s.len() && #[trigger] s[j].hostname@ == k {
            let j = choose|j: int| 0 <= j < s.len() && #[trigger] s[j].hostname@ == k;
            assert(t[j].hostname@ == k);
        }
        if exists|j: int| 0 <= j < t.len() && #[trigger] t[j].hostname@ == k {
            let j = choose|j: int| 0 <= j < t.len() && #[trigger] t[j].hostname@ == k;
            assert(s[j].hostname@ == k);
        }
    }
    assert forall|k: Seq<char>| #[trigger] entries_map(t).dom().contains(k) implies entries_map(
        t,
    )[k] == m[k] by {
        lemma_map_dom(t, k);
        let j = choose|j: int| 0 <= j < t.len() && #[trigger] t[j].hostname@ == k;
        lemma_map_at(t, j);
        if j != i {
            lemma_map_at(s, j);
            lemma_hosts_index(s, i);
            lemma_hosts_index(s, j);
        }
    }
    assert(entries_map(t) =~= m);
}

proof fn lemma_remove(s: Seq<CacheEntry>, i: int)
    requires
        hosts(s).no_duplicates(),
        0 <= i < s.len(),
    ensures
        hosts(s.remove(i)).no_duplicates(),
        entries_map(s.remove(i)) == entries_map(s).remove(s[i].hostname@),
{
    let t = s.remove(i);
    let h = s[i].hostname@;
    assert forall|a: int, b: int| 0 <= a < t.len() && 0 <= b < t.len() && a != b implies hosts(
        t,
    )[a] != hosts(t)[b] by {
        lemma_hosts_index(t, a);
        lemma_hosts_index(t, b);
        let a2 = if a < i { a } else { a + 1 };
        let b2 = if b < i { b } else { b + 1 };
        lemma_hosts_index(s, a2);
        lemma_hosts_index(s, b2);
    }
    let m = entries_map(s).remove(h);
    assert forall|k: Seq<char>| #[trigger] entries_map(t).dom().contains(k) == m.dom().contains(k) by {
        lemma_map_dom(s, k);
        lemma_map_dom(t, k);
        if exists|j: int| 0 <= j < s.len() && #[trigger] s[j].hostname@ == k {
            let j = choose|j: int| 0 <= j < s.len() && #[trigger] s[j].hostname@ == k;
            if j != i {
                let j2 = if j < i { j } else { j - 1 };
                assert(t[j2].hostname@ == k);
            }
            if k == h {
                lemma_hosts_index(s, i);
                lemma_hosts_index(s, j);
            }
        }
        if exists|j: int| 0 <= j < t.len() && #[trigger] t[j].hostname@ == k {
            let j = choose|j: int| 0 <= j < t.len() && #[trigger] t[j].hostname@ == k;
            let j2 = if j < i { j } else { j + 1 };
            assert(s[j2].hostname@ == k);
            lemma_hosts_index(s, i);
            lemma_hosts_index(s, j2);
        }
    }
    assert forall|k: Seq<char>| #[trigger] entries_map(t).dom().contains(k) implies entries_map(
        t,
    )[k] == m[k] by {
        lemma_map_dom(t, k);
        let j = choose|j: int| 0 <= j < t.len() && #[trigger] t[j].hostname@ == k;
        lemma_map_at(t, j);
        let j2 = if j < i { j } else { j + 1 };
        lemma_map_at(s, j2);
    }
    assert(entries_map(t) =~= m);
}

proof fn lemma_take(s: Seq<CacheEntry>, i: int)
    requires
        hosts(s).no_duplicates(),
        0 <= i < s.len(),
    ensures
        hosts(s.take(i)).no_duplicates(),
        !entries_map(s.take(i)).dom().contains(s[i].hostname@),
        s.take(i + 1) == s.take(i).push(s[i]),
{
    let t = s.take(i);
    assert forall|a: int, b: int| 0 <= a < t.len() && 0 <= b < t.len() && a != b implies hosts(
        t,
    )[a] != hosts(t)[b] by {
        lemma_hosts_index(t, a);
        lemma_hosts_index(t, b);
        lemma_hosts_index(s, a);
        lemma_hosts_index(s, b);
    }
    lemma_map_dom(t, s[i].hostname@);
    if entries_map(t).dom().contains(s[i].hostname@) {
        let j = choose|j: int| 0 <= j < t.len() && #[trigger] t[j].hostname@ == s[i].hostname@;
        lemma_hosts_index(s, i);
        lemma_hosts_index(s, j);
    }
    assert(s.take(i + 1) =~= s.take(i).push(s[i]));
}

proof fn lemma_live_insert(m: Map<Seq<char>, CacheRecord>, k: Seq<char>, v: CacheRecord, now: u64)
    requires
        !m.dom().contains(k),
    ensures
        live_at(m.insert(k, v), now) == (if is_live(v, now) {
            live_at(m, now).insert(k, v)
        } else {
            live_at(m, now)
        }),
{
    if is_live(v, now) {
        assert(live_at(m.insert(k, v), now) =~= live_at(m, now).insert(k, v));
    } else {
        assert(live_at(m.insert(k, v), now) =~= live_at(m, now));
    }
}

fn copy_entry(e: &CacheEntry) -> (r: CacheEntry)
    ensures
        r.hostname@ == e.hostname@,
        record_of(r) == record_of(*e),
{
    CacheEntry { hostname: e.hostname.clone(), ips: clone_strings(&e.ips), expires_at: e.expires_at }
}

/// The entries of `entries` whose records are live at `now`.
fn live_entries(entries: &Vec<CacheEntry>, now: u64) -> (kept: Vec<CacheEntry>)
    requires
        hosts(entries@).no_duplicates(),
    ensures
        hosts(kept@).no_duplicates(),
        entries_map(kept@) == live_at(entries_map(entries@), now),
        kept.len() <= entries.len(),
{
    let mut kept: Vec<CacheEntry> = Vec::new();
    proof {
        lemma_empty(kept@);
        lemma_empty(entries@.take(0));
        assert(live_at(entries_map(entries@.take(0)), now) =~= Map::<
            Seq<char>,
            CacheRecord,
        >::empty());
    }
    for i in 0..entries.len()
        invariant
            hosts(entries@).no_duplicates(),
            hosts(kept@).no_duplicates(),
            entries_map(kept@) == live_at(entries_map(entries@.take(i as int)), now),
            kept.len() <= i,
    {
        let ghost pre = entries@.take(i as int);
        let ghost e = entries@[i as int];
        proof {
            lemma_take(entries@, i as int);
            lemma_push(pre, e);
            lemma_live_insert(entries_map(pre), e.hostname@, record_of(e), now);
        }
        if entries[i].expires_at > now as u128 {
            let c = copy_entry(&entries[i]);
            proof {
                lemma_push(kept@, c);
            }
            kept.push(c);
        }
    }
    assert(entries@.take(entries.len() as int) =~= entries@);
    kept
}

/// The position of an entry whose record expires no later than any other.
fn earliest_index(entries: &Vec<CacheEntry>) -> (r: usize)
    requires
        hosts(entries@).no_duplicates(),
        entries.len() > 0,
    ensures
        r < entries.len(),
        is_earliest(entries_map(entries@), entries@[r as int].hostname@),
{
    let mut best: usize = 0;
    for i in 1..entries.len()
        invariant
            best < entries.len(),
            forall|t: int| 0 <= t < i ==> entries@[best as int].expires_at <= #[trigger] entries@[t].expires_at,
    {
        if entries[i].expires_at < entries[best].expires_at {
            best = i;
        }
    }
    proof {
        let m = entries_map(entries@);
        lemma_map_at(entries@, best as int);
        assert forall|j: Seq<char>| #[trigger] m.dom().contains(j) implies m[entries@[best as int].hostname@].1 <= m[j].1 by {
            lemma_map_dom(entries@, j);
            let t = choose|t: int| 0 <= t < entries.len() && #[trigger] entries@[t].hostname@ == j;
            lemma_map_at(entries@, t);
        }
    }
    best
}

fn clone_strings(v: &Vec<String>) -> (r: Vec<String>)
    ensures
        r@ == v@,
{
    let mut r: Vec<String> = Vec::new();
    for i in 0..v.len()
        invariant
            r@ == v@.take(i as int),
    {
        r.push(v[i].clone());
        assert(r@ =~= v@.take(i + 1));
    }
    assert(v@.take(v.len() as int) =~= v@);
    r
}

fn find_host(entries: &Vec<CacheEntry>, host: &String) -> (r: Option<usize>)
    ensures
        r matches Some(i) ==> i < entries.len() && entries@[i as int].hostname@ == host@,
        r is None ==> !entries_map(entries@).dom().contains(host@),
{
    for i in 0..entries.len()
        invariant
            forall|j: int| 0 <= j < i ==> #[trigger] entries@[j].hostname@ != host@,
    {
        if entries[i].hostname == *host {
            return Some(i);
        }
    }
    proof {
        lemma_map_dom(entries@, host@);
    }
    None
}

impl View for DnsCache {
    type V = Map<Seq<char>, CacheRecord>;

    closed spec fn view(&self) -> Map<Seq<char>, CacheRecord> {
        entries_map(self.entries@)
    }
}

impl DnsCache {
    /// The cache is well formed: no hostname occurs twice, and it holds no
    /// more records than its bound allows.
    pub closed spec fn wf(&self) -> bool {
        &&& hosts(self.entries@).no_duplicates()
        &&& self.entries.len() <= bound(self.max_size as nat)
    }

    /// The number of entries the cache was made to hold.
    pub closed spec fn capacity(&self) -> nat {
        self.max_size as nat
    }

    /// The latest time at which the cache's own clock was read or at which a
    /// record was stored or dropped; the cache's clock never answers an
    /// earlier time.
    pub closed spec fn clock_floor(&self) -> u64 {
        self.last_now
    }

    proof fn lemma_wf_len(&self)
        requires
            self.wf(),
        ensures
            self@.len() == self.entries.len(),
            self@.dom().finite(),
            self@.len() <= bound(self.capacity()),
    {
        lemma_map_len(self.entries@);
    }

    /// What a well-formed cache holds: finitely many records, no more than
    /// its bound allows.
    pub proof fn lemma_wf(&self)
        requires
            self.wf(),
        ensures
            self@.dom().finite(),
            self@.len() <= bound(self.capacity()),
    {
        self.lemma_wf_len();
    }

    /// A store into a well-formed cache of positive capacity is defined at
    /// any time.
    pub proof fn lemma_store_defined(&self)
        requires
            self.wf(),
            self.capacity() > 0,
        ensures
            forall|now: u64| #[trigger] store_defined(self@, self.capacity(), now),
    {
        self.lemma_wf_len();
        assert forall|now: u64| #[trigger] store_defined(self@, self.capacity(), now) by {
            lemma_live_finite(self@, now);
        }
    }

    /// Reads the cache's clock: the time since the cache was made, in
    /// nanoseconds, never earlier than the clock floor.
    fn read_clock(&self) -> (now: u64)
        ensures
            now >= self.clock_floor(),
    {
        let reading = nanos_since(&self.origin);
        let t: u64 = if reading > 0xffff_ffff_ffff_ffff {
            0xffff_ffff_ffff_ffff
        } else {
            reading as u64
        };
        if t < self.last_now {
            self.last_now
        } else {
            t
        }
    }

    /// Makes an empty cache that holds up to `max_size` entries.
    pub fn new(max_size: usize) -> (c: Self)
        ensures
            c.wf(),
            c@ == Map::<Seq<char>, CacheRecord>::empty(),
            c@.dom().finite(),
            c.capacity() == max_size,
            c.clock_floor() == 0,
    {
        let c = DnsCache { entries: Vec::new(), max_size, origin: clock_origin(), last_now: 0 };
        proof {
            lemma_empty(c.entries@);
        }
        c
    }

    /// The addresses stored for `hostname` if its record is live at `now`.
    pub fn get_at(&self, hostname: &str, now: u64) -> (r: Option<Vec<String>>)
        requires
            self.wf(),
        ensures
            r is Some <==> lookup(self@, hostname@, now) is Some,
            r matches Some(v) ==> Some(v@) == lookup(self@, hostname@, now),
    {
        let key = hostname.to_owned();
        match find_host(&self.entries, &key) {
            Some(i) => {
                proof {
                    lemma_map_at(self.entries@, i as int);
                }
                if self.entries[i].expires_at > now as u128 {
                    Some(clone_strings(&self.entries[i].ips))
                } else {
                    None
                }
            },
            None => None,
        }
    }

    /// The addresses stored for `hostname` if its record has not expired.
    pub fn get(&self, hostname: &str) -> (r: Option<Vec<String>>)
        requires
            self.wf(),
        ensures
            exists|now: u64|
                now >= self.clock_floor() && (r is Some <==> lookup(self@, hostname@, now) is Some)
                    && (r matches Some(v) ==> Some(v@) == lookup(self@, hostname@, now)),
    {
        let now = self.read_clock();
        self.get_at(hostname, now)
    }

    /// Stores `e`, replacing the record of its hostname if there is one.
    fn upsert(&mut self, e: CacheEntry)
        requires
            hosts(old(self).entries@).no_duplicates(),
        ensures
            hosts(final(self).entries@).no_duplicates(),
            final(self)@ == old(self)@.insert(e.hostname@, record_of(e)),
            final(self).max_size == old(self).max_size,
            final(self).last_now == old(self).last_now,
            final(self).entries.len() <= old(self).entries.len() + 1,
    {
        match find_host(&self.entries, &e.hostname) {
            Some(i) => {
                proof {
                    lemma_update(self.entries@, i as int, e);
                }
                self.entries.set(i, e);
            },
            None => {
                proof {
                    lemma_push(self.entries@, e);
                }
                self.entries.push(e);
            },
        }
    }

    /// Stores `ips` for `hostname` at time `now` (nanoseconds since the cache
    /// was made), to expire `ttl_secs` seconds later.
    ///
    /// A full cache first drops its expired records and, if it is still
    /// full, evicts one live record that expires no later than any other.
    pub fn set_at(&mut self, hostname: String, ips: Vec<String>, ttl_secs: u64, now: u64)
        requires
            old(self).wf(),
            ttl_secs <= MAX_TTL_SECS,
            store_defined(old(self)@, old(self).capacity(), now),
        ensures
            final(self).wf(),
            final(self).capacity() == old(self).capacity(),
            store_outcome(
                old(self)@,
                old(self).capacity(),
                hostname@,
                ips@,
                ttl_secs,
                now,
                final(self)@,
            ),
            final(self)@.dom().finite(),
            final(self)@.len() <= bound(final(self).capacity()),
            final(self).clock_floor() == (if now > old(self).clock_floor() {
                now
            } else {
                old(self).clock_floor()
            }),
    {
        let ghost m = self@;
        let ghost max = self.capacity();
        proof {
            self.lemma_wf_len();
        }
        let ghost mut victim: Seq<char> = Seq::empty();
        if self.entries.len() >= self.max_size {
            let kept = live_entries(&self.entries, now);
            self.entries = kept;
            proof {
                lemma_map_len(self.entries@);
            }
            if self.entries.len() >= self.max_size && self.entries.len() > 0 {
                let i = earliest_index(&self.entries);
                proof {
                    victim = self.entries@[i as int].hostname@;
                    lemma_remove(self.entries@, i as int);
                }
                self.entries.remove(i);
            }
        }
        let expires_at: u128 = now as u128 + (ttl_secs as u128) * NANOS_PER_SEC;
        let e = CacheEntry { hostname, ips, expires_at };
        self.upsert(e);
        if now > self.last_now {
            self.last_now = now;
        }
        proof {
            lemma_map_len(self.entries@);
            let rec = (ips@, expiry(now, ttl_secs));
            assert(record_of(e) == rec);
            if m.len() < max {
            } else {
                let live = live_at(m, now);
                if live.len() < max || live.len() == 0 {
                } else {
                    assert(is_earliest(live, victim) && self@ == live.remove(victim).insert(
                        hostname@,
                        rec,
                    ));
                }
            }
        }
    }

    /// Stores `ips` for `hostname`, to expire `ttl_secs` seconds from now.
    pub fn set(&mut self, hostname: String, ips: Vec<String>, ttl_secs: u64)
        requires
            old(self).wf(),
            ttl_secs <= MAX_TTL_SECS,
            forall|now: u64|
                now >= old(self).clock_floor() ==> #[trigger] store_defined(
                    old(self)@,
                    old(self).capacity(),
                    now,
                ),
        ensures
            final(self).wf(),
            final(self).capacity() == old(self).capacity(),
            exists|now: u64|
                now >= old(self).clock_floor() && final(self).clock_floor() == now
                    && store_outcome(
                    old(self)@,
                    old(self).capacity(),
                    hostname@,
                    ips@,
                    ttl_secs,
                    now,
                    final(self)@,
                ),
            final(self)@.dom().finite(),
            final(self)@.len() <= bound(final(self).capacity()),
    {
        let now = self.read_clock();
        assert(store_defined(self@, self.capacity(), now));
        self.set_at(hostname, ips, ttl_secs, now);
    }

    /// Drops every record that is no longer live at `now`.
    pub fn clear_expired_at(&mut self, now: u64)
        requires
            old(self).wf(),
        ensures
            final(self).wf(),
            final(self).capacity() == old(self).capacity(),
            final(self)@ == live_at(old(self)@, now),
            final(self)@.dom().finite(),
            final(self).clock_floor() == (if now > old(self).clock_floor() {
                now
            } else {
                old(self).clock_floor()
            }),
    {
        let kept = live_entries(&self.entries, now);
        self.entries = kept;
        if now > self.last_now {
            self.last_now = now;
        }
        proof {
            self.lemma_wf_len();
        }
    }

    /// Drops every record that has expired.
    pub fn clear_expired(&mut self)
        requires
            old(self).wf(),
        ensures
            final(self).wf(),
            final(self).capacity() == old(self).capacity(),
            exists|now: u64|
                now >= old(self).clock_floor() && final(self).clock_floor() == now && final(self)@
                    == live_at(old(self)@, now),
            final(self)@.dom().finite(),
    {
        let now = self.read_clock();
        self.clear_expired_at(now);
    }

    /// The number of records held, expired ones included.
    pub fn len(&self) -> (n: usize)
        requires
            self.wf(),
        ensures
            n == self@.len(),
    {
        proof {
            self.lemma_wf_len();
        }
        self.entries.len()
    }
}

} // verus!
