//! The schedule of retries with exponential backoff.
//!
//! An operation is tried at most `max_retries + 1` times. After the failure
//! of try `k` (counting from 0) with `k < max_retries`, the caller waits
//! `base * 2^k` and tries again; the failure of the last try is final. A
//! success ends the schedule at once. Delays are durations in nanoseconds.

use vstd::arithmetic::power2::{lemma_pow2_unfold, pow2};
use vstd::prelude::*;

verus! {

/// The longest duration, in nanoseconds, that a `Duration` can hold.
pub const DURATION_MAX_NS: u128 = 18_446_744_073_709_551_615_999_999_999;

/// What to do after a try failed.
#[derive(Debug, Clone, Copy, PartialEq, Eq)]
pub enum RetryAction {
    /// Try `failed_attempt` (counting from 1) failed: wait `delay_ns`, then
    /// try again.
    RetryAfter { failed_attempt: u32, delay_ns: u128 },
    /// Every one of `attempts` tries failed: report the last error.
    GiveUp { attempts: u32 },
}

/// The delay after the failure of try `k` (counting from 0).
pub open spec fn backoff_delay(base_ns: nat, k: nat) -> nat {
    base_ns * pow2(k)
}

/// The first delay is the base delay, and each later one is twice the one
/// before: the waits between the tries of an operation that keeps failing
/// are `base`, `2 * base`, `4 * base`, and so on.
pub proof fn lemma_backoff_delay(base_ns: nat, k: nat)
    ensures
        backoff_delay(base_ns, 0) == base_ns,
        backoff_delay(base_ns, k + 1) == 2 * backoff_delay(base_ns, k),
{
    vstd::arithmetic::power2::lemma2_to64();
    lemma_pow2_unfold(k + 1);
    assert(base_ns * pow2(k + 1) == 2 * (base_ns * pow2(k))) by (nonlinear_arith)
        requires
            pow2(k + 1) == 2 * pow2(k),
    ;
}

/// The state of a retry schedule.
pub struct RetrySchedule {
    max_retries: u32,
    base_delay_ns: u128,
    attempt: u32,
    delay_ns: u128,
    finished: bool,
}

impl RetrySchedule {
    /// The number of retries allowed after the first try.
    pub closed spec fn max_retries(&self) -> u32 {
        self.max_retries
    }

    /// The delay after the first failure.
    pub closed spec fn base_delay(&self) -> nat {
        self.base_delay_ns as nat
    }

    /// The try under way (counting from 0).
    pub closed spec fn attempt(&self) -> nat {
        self.attempt as nat
    }

    /// Whether the schedule has given up.
    pub closed spec fn finished(&self) -> bool {
        self.finished
    }

    /// The delay that the next failure will ask for.
    pub closed spec fn current_delay(&self) -> nat {
        self.delay_ns as nat
    }

    /// The schedule is well formed: the try under way is within bounds and
    /// the delay has doubled once per failure.
    pub closed spec fn wf(&self) -> bool {
        &&& self.attempt <= self.max_retries
        &&& self.delay_ns == backoff_delay(self.base_delay_ns as nat, self.attempt as nat)
        &&& self.delay_ns <= DURATION_MAX_NS
    }

    /// What a well-formed schedule holds: the try under way is within the
    /// retries allowed, and the next delay is `base * 2^attempt`, within the
    /// range of a duration.
    pub proof fn lemma_wf(&self)
        requires
            self.wf(),
        ensures
            self.attempt() <= self.max_retries(),
            self.current_delay() == backoff_delay(self.base_delay(), self.attempt()),
            self.current_delay() <= DURATION_MAX_NS,
    {
    }

    /// Starts a schedule with `max_retries` retries and a first delay of
    /// `base_delay_ns`.
    pub fn new(max_retries: u32, base_delay_ns: u128) -> (s: Self)
        requires
            base_delay_ns <= DURATION_MAX_NS,
        ensures
            s.wf(),
            s.max_retries() == max_retries,
            s.base_delay() == base_delay_ns,
            s.attempt() == 0,
            s.current_delay() == base_delay_ns,
            !s.finished(),
    {
        proof {
            vstd::arithmetic::power2::lemma2_to64();
        }
        RetrySchedule {
            max_retries,
            base_delay_ns,
            attempt: 0,
            delay_ns: base_delay_ns,
            finished: false,
        }
    }

    /// The try under way (counting from 0).
    pub fn attempt_index(&self) -> (r: u32)
        ensures
            r == self.attempt(),
    {
        self.attempt
    }

    /// The number of retries allowed after the first try.
    pub fn retries_allowed(&self) -> (r: u32)
        ensures
            r == self.max_retries(),
    {
        self.max_retries
    }

    /// The delay that the next failure will ask for, in nanoseconds.
    pub fn delay_ns(&self) -> (r: u128)
        ensures
            r == self.current_delay(),
    {
        self.delay_ns
    }

    /// Whether doubling the current delay after a failure stays within the
    /// range of a duration; past it, the doubling overflows.
    pub fn backoff_fits(&self) -> (r: bool)
        ensures
            r == (self.attempt() < self.max_retries() ==> 2 * self.current_delay()
                <= DURATION_MAX_NS),
    {
        self.attempt >= self.max_retries || self.delay_ns <= DURATION_MAX_NS / 2
    }

    /// Records the failure of the try under way and says what to do.
    pub fn on_failure(&mut self) -> (a: RetryAction)
        requires
            old(self).wf(),
            !old(self).finished(),
            old(self).attempt() < old(self).max_retries() ==> 2 * old(self).current_delay()
                <= DURATION_MAX_NS,
            old(self).attempt() == old(self).max_retries() ==> old(self).max_retries()
                < u32::MAX,
        ensures
            final(self).wf(),
            final(self).max_retries() == old(self).max_retries(),
            final(self).base_delay() == old(self).base_delay(),
            final(self).attempt() <= final(self).max_retries(),
            final(self).current_delay() == backoff_delay(
                final(self).base_delay(),
                final(self).attempt(),
            ),
            final(self).current_delay() <= DURATION_MAX_NS,
            old(self).attempt() < old(self).max_retries() ==> {
                &&& a == (RetryAction::RetryAfter {
                    failed_attempt: (old(self).attempt() + 1) as u32,
                    delay_ns: old(self).current_delay() as u128,
                })
                &&& old(self).current_delay() == backoff_delay(
                    old(self).base_delay(),
                    old(self).attempt(),
                )
                &&& final(self).attempt() == old(self).attempt() + 1
                &&& final(self).current_delay() == 2 * old(self).current_delay()
                &&& !final(self).finished()
            },
            old(self).attempt() == old(self).max_retries() ==> {
                &&& a == (RetryAction::GiveUp { attempts: (old(self).max_retries() + 1) as u32 })
                &&& final(self).attempt() == old(self).attempt()
                &&& final(self).current_delay() == old(self).current_delay()
                &&& final(self).finished()
            },
    {
        if self.attempt < self.max_retries {
            let a = RetryAction::RetryAfter { failed_attempt: self.attempt + 1, delay_ns: self.delay_ns };
            proof {
                lemma_pow2_unfold((self.attempt + 1) as nat);
                assert(backoff_delay(self.base_delay_ns as nat, (self.attempt + 1) as nat) == 2
                    * backoff_delay(self.base_delay_ns as nat, self.attempt as nat)) by (nonlinear_arith)
                    requires
                        pow2((self.attempt + 1) as nat) == 2 * pow2(self.attempt as nat),
                ;
            }
            self.attempt = self.attempt + 1;
            self.delay_ns = self.delay_ns * 2;
            a
        } else {
            self.finished = true;
            RetryAction::GiveUp { attempts: self.max_retries + 1 }
        }
    }
}

} // verus!
