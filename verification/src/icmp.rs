//! The decisions of an ICMP echo run: which probe to send next, how long to
//! wait before it and for its reply, and how the replies add up to ping
//! statistics.
//!
//! A run of `count` probes sends probe `k` (for `k` from 0) with sequence
//! number `k` modulo 2^16, waits 50 ms between probes and up to 5 s for each
//! reply, and reports its statistics once every probe has been answered or
//! given up.

use crate::models::{PingStats, MAX_LATENCY_MS};
use vstd::prelude::*;

verus! {

/// How long to wait for the reply to one probe, in milliseconds.
pub const PROBE_TIMEOUT_MS: u64 = 5000;

/// The pause between two probes, in milliseconds.
pub const PROBE_GAP_MS: u64 = 50;

/// What became of one probe.
#[derive(Debug, Clone, Copy, PartialEq, Eq)]
pub enum ProbeOutcome {
    /// A reply arrived after `latency_ms` milliseconds.
    Reply { latency_ms: u64 },
    /// No reply arrived in time, or the probe failed.
    Lost,
}

/// What the run asks for next.
#[derive(Debug, Clone, Copy, PartialEq, Eq)]
pub enum PingAction {
    /// Pause for `pause_before_ms`, then send a probe with sequence number
    /// `sequence` and wait up to `timeout_ms` for its reply.
    Probe { sequence: u16, pause_before_ms: u64, timeout_ms: u64 },
    /// The run is over; these are its statistics.
    Report(PingStats),
}

/// The statistics of a run of `count` probes before any was answered.
pub open spec fn empty_tally(count: u32) -> PingStats {
    PingStats {
        transmitted: count,
        received: 0,
        min_latency_ms: None,
        max_latency_ms: None,
        total_latency_ms: 0,
    }
}

/// The smaller of a running minimum and `x`.
pub open spec fn faster(m: Option<u64>, x: u64) -> Option<u64> {
    match m {
        None => Some(x),
        Some(v) => Some(if x < v { x } else { v }),
    }
}

/// The larger of a running maximum and `x`.
pub open spec fn slower(m: Option<u64>, x: u64) -> Option<u64> {
    match m {
        None => Some(x),
        Some(v) => Some(if x > v { x } else { v }),
    }
}

/// The statistics after one more probe was answered with `o`.
pub open spec fn tally_step(t: PingStats, o: ProbeOutcome) -> PingStats {
    match o {
        ProbeOutcome::Lost => t,
        ProbeOutcome::Reply { latency_ms } => PingStats {
            transmitted: t.transmitted,
            received: (t.received + 1) as u32,
            min_latency_ms: faster(t.min_latency_ms, latency_ms),
            max_latency_ms: slower(t.max_latency_ms, latency_ms),
            total_latency_ms: (t.total_latency_ms + latency_ms) as u128,
        },
    }
}

/// The statistics of a run of `count` probes whose answers so far are `os`.
pub open spec fn tally_of(count: u32, os: Seq<ProbeOutcome>) -> PingStats
    decreases os.len(),
{
    if os.len() == 0 {
        empty_tally(count)
    } else {
        tally_step(tally_of(count, os.drop_last()), os.last())
    }
}

/// The probe that asks for the `k`-th answer (counting from 0).
pub open spec fn probe_for(k: nat) -> PingAction {
    PingAction::Probe {
        sequence: (k % 0x1_0000) as u16,
        pause_before_ms: if k == 0 { 0 } else { PROBE_GAP_MS },
        timeout_ms: PROBE_TIMEOUT_MS,
    }
}

/// The next action of a run of `count` probes with `answered` answers and
/// statistics `t`.
pub open spec fn next_action(count: u32, answered: nat, t: PingStats) -> PingAction {
    if answered < count {
        probe_for(answered)
    } else {
        PingAction::Report(t)
    }
}

/// The number of replies among `os`.
pub open spec fn replies(os: Seq<ProbeOutcome>) -> nat
    decreases os.len(),
{
    if os.len() == 0 {
        0
    } else {
        replies(os.drop_last()) + if os.last() is Reply {
            1nat
        } else {
            0nat
        }
    }
}

/// The sum of the latencies of the replies among `os`.
pub open spec fn latency_sum(os: Seq<ProbeOutcome>) -> nat
    decreases os.len(),
{
    if os.len() == 0 {
        0
    } else {
        latency_sum(os.drop_last()) + match os.last() {
            ProbeOutcome::Reply { latency_ms } => latency_ms as nat,
            ProbeOutcome::Lost => 0nat,
        }
    }
}

/// `os[i]` is a reply that took `ms` milliseconds.
pub open spec fn reply_at(os: Seq<ProbeOutcome>, i: int, ms: u64) -> bool {
    0 <= i < os.len() && os[i] == (ProbeOutcome::Reply { latency_ms: ms })
}

/// `m` is the smallest latency among the replies of `os`, or `None` when
/// there is no reply.
pub open spec fn is_fastest(os: Seq<ProbeOutcome>, m: Option<u64>) -> bool {
    match m {
        None => forall|i: int, ms: u64| !#[trigger] reply_at(os, i, ms),
        Some(v) => (exists|i: int| #[trigger] reply_at(os, i, v)) && forall|i: int, ms: u64|
            #[trigger] reply_at(os, i, ms) ==> v <= ms,
    }
}

/// `m` is the largest latency among the replies of `os`, or `None` when
/// there is no reply.
pub open spec fn is_slowest(os: Seq<ProbeOutcome>, m: Option<u64>) -> bool {
    match m {
        None => forall|i: int, ms: u64| !#[trigger] reply_at(os, i, ms),
        Some(v) => (exists|i: int| #[trigger] reply_at(os, i, v)) && forall|i: int, ms: u64|
            #[trigger] reply_at(os, i, ms) ==> ms <= v,
    }
}

proof fn lemma_step_consistent(t: PingStats, o: ProbeOutcome)
    requires
        t.consistent(),
        t.received < t.transmitted,
        t.total_latency_ms <= t.received * MAX_LATENCY_MS,
    ensures
        tally_step(t, o).consistent(),
        tally_step(t, o).total_latency_ms <= tally_step(t, o).received * MAX_LATENCY_MS,
        tally_step(t, o).transmitted == t.transmitted,
{
    if let ProbeOutcome::Reply { latency_ms } = o {
        let n = tally_step(t, o);
        let r = t.received as int;
        let x = latency_ms as int;
        let total = t.total_latency_ms as int;
        if r > 0 {
            let lo = t.min_latency_ms->0 as int;
            let hi = t.max_latency_ms->0 as int;
            let lo2 = n.min_latency_ms->0 as int;
            let hi2 = n.max_latency_ms->0 as int;
            assert(lo2 <= lo && lo2 <= x);
            assert(hi2 >= hi && hi2 >= x);
            assert(r * lo2 <= r * lo) by (nonlinear_arith)
                requires
                    r > 0,
                    lo2 <= lo,
            ;
            assert(r * hi <= r * hi2) by (nonlinear_arith)
                requires
                    r > 0,
                    hi <= hi2,
            ;
            assert((r + 1) * lo2 == r * lo2 + lo2) by (nonlinear_arith);
            assert((r + 1) * hi2 == r * hi2 + hi2) by (nonlinear_arith);
        }
    }
}

/// The statistics of a run add up its answers: the replies counted, the sum
/// of their latencies, and the fastest and slowest of them. They are
/// consistent, so the mean latency lies between the extremes and no more
/// replies are counted than probes were sent.
pub proof fn lemma_tally_of(count: u32, os: Seq<ProbeOutcome>)
    requires
        os.len() <= count,
    ensures
        tally_of(count, os).transmitted == count,
        tally_of(count, os).received == replies(os),
        tally_of(count, os).total_latency_ms == latency_sum(os),
        is_fastest(os, tally_of(count, os).min_latency_ms),
        is_slowest(os, tally_of(count, os).max_latency_ms),
        tally_of(count, os).consistent(),
        tally_of(count, os).total_latency_ms <= tally_of(count, os).received * MAX_LATENCY_MS,
        replies(os) <= os.len(),
    decreases os.len(),
{
    if os.len() > 0 {
        let pre = os.drop_last();
        lemma_tally_of(count, pre);
        let t = tally_of(count, pre);
        lemma_step_consistent(t, os.last());
        let n = tally_of(count, os);
        assert forall|i: int, ms: u64| #[trigger] reply_at(os, i, ms) implies (i < pre.len()
            && reply_at(pre, i, ms)) || (i == pre.len() && os.last() == (ProbeOutcome::Reply {
            latency_ms: ms,
        })) by {
            if i < pre.len() {
                assert(pre[i] == os[i]);
            }
        }
        assert forall|i: int, ms: u64| #[trigger] reply_at(pre, i, ms) implies reply_at(
            os,
            i,
            ms,
        ) by {
            assert(pre[i] == os[i]);
        }
        match os.last() {
            ProbeOutcome::Lost => {
            },
            ProbeOutcome::Reply { latency_ms } => {
                assert(reply_at(os, pre.len() as int, latency_ms));
                match t.min_latency_ms {
                    None => {},
                    Some(v) => {
                        let i = choose|i: int| #[trigger] reply_at(pre, i, v);
                        assert(reply_at(os, i, v));
                    },
                }
                match t.max_latency_ms {
                    None => {},
                    Some(v) => {
                        let i = choose|i: int| #[trigger] reply_at(pre, i, v);
                        assert(reply_at(os, i, v));
                    },
                }
            },
        }
    }
}

/// Recording one more answer extends the statistics of the answers so far:
/// the statistics that `PingSession::record` keeps after answers `os` are
/// those of `tally_of(count, os)`.
pub proof fn lemma_tally_extends(count: u32, os: Seq<ProbeOutcome>, o: ProbeOutcome)
    ensures
        tally_of(count, os.push(o)) == tally_step(tally_of(count, os), o),
{
    assert(os.push(o).drop_last() =~= os);
}

/// The schedule of a run of `count` probes: the answer number `k` (from 0)
/// is asked for by a probe with sequence number `k` modulo 2^16, sent at
/// once for the first probe and 50 ms after the previous answer otherwise,
/// with 5 s to wait for its reply; once all `count` are answered the run
/// reports its statistics.
pub proof fn lemma_probe_schedule(count: u32, k: nat, t: PingStats)
    ensures
        k < count ==> next_action(count, k, t) == (PingAction::Probe {
            sequence: (k % 65536) as u16,
            pause_before_ms: if k == 0 {
                0
            } else {
                50
            },
            timeout_ms: 5000,
        }),
        k >= count ==> next_action(count, k, t) == PingAction::Report(t),
{
}

/// A run of ICMP echo probes in progress.
pub struct PingSession {
    count: u32,
    answered: u32,
    tally: PingStats,
}

impl PingSession {
    /// The number of probes the run sends.
    pub closed spec fn count(&self) -> u32 {
        self.count
    }

    /// The number of probes answered (by a reply or a loss) so far.
    pub closed spec fn answered(&self) -> nat {
        self.answered as nat
    }

    /// The statistics so far.
    pub closed spec fn tally(&self) -> PingStats {
        self.tally
    }

    /// The run is well formed.
    pub closed spec fn wf(&self) -> bool {
        &&& self.tally.transmitted == self.count
        &&& self.answered <= self.count
        &&& self.tally.consistent()
        &&& self.tally.received <= self.answered
        &&& self.tally.total_latency_ms <= self.tally.received * MAX_LATENCY_MS
    }

    /// Starts a run of `count` probes and says what to do first.
    pub fn start(count: u32) -> (r: (PingSession, PingAction))
        ensures
            r.0.wf(),
            r.0.count() == count,
            r.0.answered() == 0,
            r.0.tally() == empty_tally(count),
            r.1 == next_action(count, 0, empty_tally(count)),
    {
        let tally = PingStats {
            transmitted: count,
            received: 0,
            min_latency_ms: None,
            max_latency_ms: None,
            total_latency_ms: 0,
        };
        let s = PingSession { count, answered: 0, tally };
        let a = s.next();
        (s, a)
    }

    fn next(&self) -> (a: PingAction)
        requires
            self.answered <= self.count,
        ensures
            a == next_action(self.count, self.answered as nat, self.tally),
    {
        if self.answered < self.count {
            let pause: u64 = if self.answered == 0 {
                0
            } else {
                PROBE_GAP_MS
            };
            PingAction::Probe {
                sequence: (self.answered % 0x1_0000) as u16,
                pause_before_ms: pause,
                timeout_ms: PROBE_TIMEOUT_MS,
            }
        } else {
            PingAction::Report(self.tally)
        }
    }

    /// Records the answer to the probe in flight and says what to do next.
    pub fn record(&mut self, outcome: ProbeOutcome) -> (a: PingAction)
        requires
            old(self).wf(),
            old(self).answered() < old(self).count(),
        ensures
            final(self).wf(),
            final(self).count() == old(self).count(),
            final(self).answered() == old(self).answered() + 1,
            final(self).tally() == tally_step(old(self).tally(), outcome),
            a == next_action(final(self).count(), final(self).answered(), final(self).tally()),
    {
        proof {
            lemma_step_consistent(self.tally, outcome);
        }
        match outcome {
            ProbeOutcome::Lost => {},
            ProbeOutcome::Reply { latency_ms } => {
                let min = match self.tally.min_latency_ms {
                    None => latency_ms,
                    Some(v) => if latency_ms < v {
                        latency_ms
                    } else {
                        v
                    },
                };
                let max = match self.tally.max_latency_ms {
                    None => latency_ms,
                    Some(v) => if latency_ms > v {
                        latency_ms
                    } else {
                        v
                    },
                };
                self.tally = PingStats {
                    transmitted: self.tally.transmitted,
                    received: self.tally.received + 1,
                    min_latency_ms: Some(min),
                    max_latency_ms: Some(max),
                    total_latency_ms: self.tally.total_latency_ms + latency_ms as u128,
                };
            },
        }
        self.answered = self.answered + 1;
        self.next()
    }
}

} // verus!
