//! Startup connection policy: retry the relational store with exponential
//! backoff, and give up after a bounded number of failed attempts.
use vstd::prelude::*;

verus! {

pub open spec fn pow2(n: nat) -> nat
    decreases n,
{
    if n == 0 {
        1
    } else {
        2 * pow2((n - 1) as nat)
    }
}

/// The wait after the failed attempt numbered `attempt` (from 1): `2^attempt`
/// seconds, capped at the largest `u64`.
pub open spec fn backoff_spec(attempt: nat) -> nat {
    if pow2(attempt) <= u64::MAX {
        pow2(attempt)
    } else {
        u64::MAX as nat
    }
}

/// What to do after a failed connection attempt.
#[derive(Clone, Copy, Debug, PartialEq, Eq, Structural)]
pub enum RetryDecision {
    /// Sleep this many seconds, then try again.
    WaitSecs(u64),
    /// The attempts are exhausted: startup fails.
    GiveUp,
}

/// Progress of the startup connection loop.
#[derive(Clone, Copy, Debug, PartialEq, Eq, Structural)]
pub struct RetryState {
    pub failures: u32,
    pub max_attempts: u32,
}

proof fn lemma_pow2_monotone(a: nat, b: nat)
    requires
        a <= b,
    ensures
        pow2(a) <= pow2(b),
    decreases b,
{
    if a < b {
        lemma_pow2_monotone(a, (b - 1) as nat);
    }
}

/// Seconds to wait after the failed attempt numbered `attempt`.
pub fn backoff_secs(attempt: u32) -> (r: u64)
    ensures
        r == backoff_spec(attempt as nat),
{
    let mut delay: u64 = 1;
    let mut i: u32 = 0;
    while i < attempt
        invariant
            i <= attempt,
            delay == pow2(i as nat),
        decreases attempt - i,
    {
        if delay > u64::MAX / 2 {
            proof {
                lemma_pow2_monotone((i + 1) as nat, attempt as nat);
            }
            return u64::MAX;
        }
        delay = delay * 2;
        i = i + 1;
    }
    delay
}

impl RetryState {
    pub open spec fn well_formed(self) -> bool {
        self.failures == 0 || self.failures < self.max_attempts
    }

    /// A fresh loop that allows `max_attempts` attempts in all (at least one
    /// attempt is always made).
    pub fn new(max_attempts: u32) -> (r: RetryState)
        ensures
            r.failures == 0,
            r.max_attempts == max_attempts,
            r.well_formed(),
    {
        RetryState { failures: 0, max_attempts }
    }

    /// Records a failed attempt and decides: wait `2^n` seconds after the
    /// n-th failure, or give up once `max_attempts` attempts have failed.
    pub fn on_failure(&mut self) -> (r: RetryDecision)
        requires
            old(self).well_formed(),
        ensures
            final(self).failures == old(self).failures + 1,
            final(self).max_attempts == old(self).max_attempts,
            final(self).failures >= final(self).max_attempts ==> r == RetryDecision::GiveUp,
            final(self).failures < final(self).max_attempts ==> final(self).well_formed() && r
                == RetryDecision::WaitSecs(backoff_spec(final(self).failures as nat) as u64),
    {
        self.failures = self.failures + 1;
        if self.failures >= self.max_attempts {
            RetryDecision::GiveUp
        } else {
            RetryDecision::WaitSecs(backoff_secs(self.failures))
        }
    }
}

} // verus!
