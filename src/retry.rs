use vstd::prelude::*;

verus! {

/// The delay after `failures` failed attempts: the initial delay doubled for
/// each failure after the first, held at `u64::MAX` once it would pass it.
pub open spec fn backoff_delay(initial: int, failures: nat) -> int
    decreases failures,
{
    if failures <= 1 {
        initial
    } else {
        let d = 2 * backoff_delay(initial, (failures - 1) as nat);
        if d <= u64::MAX {
            d
        } else {
            u64::MAX as int
        }
    }
}

/// Bounded exponential backoff: at most `max_attempts` attempts, the first
/// wait `initial_delay_ms` long, each later one twice the one before. There is
/// no jitter; the doubling saturates at `u64::MAX` milliseconds.
#[derive(Clone, Copy, Debug, PartialEq, Eq, Structural)]
pub struct RetryPolicy {
    pub initial_delay_ms: u64,
    pub max_attempts: u32,
}

/// Where a run of attempts stands: how many have failed, and how long to wait
/// after the next failure.
#[derive(Clone, Copy, Debug, PartialEq, Eq, Structural)]
pub struct RetryState {
    pub failures: u32,
    pub next_delay_ms: u64,
}

impl RetryPolicy {
    pub open spec fn wf(self) -> bool {
        self.max_attempts >= 1
    }

    /// 100 ms before the second attempt, five attempts in all.
    pub fn standard() -> (p: RetryPolicy)
        ensures
            p.initial_delay_ms == 100,
            p.max_attempts == 5,
            p.wf(),
    {
        RetryPolicy { initial_delay_ms: 100, max_attempts: 5 }
    }

    /// The state before the first attempt.
    pub fn start(&self) -> (s: RetryState)
        requires
            self.wf(),
        ensures
            s.failures == 0,
            s.next_delay_ms == self.initial_delay_ms,
            s.wf(*self),
    {
        RetryState { failures: 0, next_delay_ms: self.initial_delay_ms }
    }
}

impl RetryState {
    /// Fewer failures than attempts allowed, and the next delay the one that
    /// the failure count calls for.
    pub open spec fn wf(self, policy: RetryPolicy) -> bool {
        &&& self.failures < policy.max_attempts
        &&& self.next_delay_ms == backoff_delay(policy.initial_delay_ms as int, (self.failures + 1) as nat)
    }

    /// Records a failed attempt. Returns the delay to wait before the next
    /// attempt, or `None` when that was the last attempt allowed.
    pub fn on_failure(&mut self, policy: &RetryPolicy) -> (r: Option<u64>)
        requires
            old(self).wf(*policy),
        ensures
            final(self).failures == old(self).failures + 1,
            r is None <==> final(self).failures >= policy.max_attempts,
            r is Some ==> final(self).wf(*policy),
            r matches Some(d) ==> d == old(self).next_delay_ms && d == backoff_delay(
                policy.initial_delay_ms as int,
                final(self).failures as nat,
            ),
    {
        let d = self.next_delay_ms;
        self.failures = self.failures + 1;
        if self.failures >= policy.max_attempts {
            None
        } else {
            self.next_delay_ms = if d <= u64::MAX / 2 {
                d * 2
            } else {
                u64::MAX
            };
            Some(d)
        }
    }
}

} // verus!
