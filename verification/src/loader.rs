use vstd::prelude::*;

verus! {

/// The longest delay the update loop ever backs off to, in
/// milliseconds.
pub const MAX_BACKOFF_MS: u64 = 600000;

/// How many failed iterations in a row the update loop tolerates
/// before it stops instead of retrying silently.
pub const MAX_CONSECUTIVE_FAILURES: u32 = 10;

/// What the update loop does next: wait this long before the next
/// poll, or stop for good.
#[derive(PartialEq, Eq, Structural, Clone, Copy, Debug)]
pub enum LoaderStep {
    Continue { delay_ms: u64 },
    GiveUp,
}

/// The delay after one more failed iteration: doubled, saturating at
/// the cap.
pub open spec fn next_backoff(delay_ms: u64) -> u64 {
    if 2 * delay_ms > MAX_BACKOFF_MS {
        MAX_BACKOFF_MS
    } else {
        (2 * delay_ms) as u64
    }
}

/// The retry policy of the background synchronization loop: it polls
/// at a configured interval, backs off exponentially up to a cap while
/// iterations fail, resets on success, and gives the loop up after too
/// many consecutive failures rather than retrying without end.
pub struct LoaderPolicy {
    pub poll_interval_ms: u64,
    pub current_delay_ms: u64,
    pub consecutive_failures: u32,
}

impl LoaderPolicy {
    /// The delays the policy hands out stay between the configured
    /// interval and the cap.
    pub open spec fn wf(self) -> bool {
        1 <= self.poll_interval_ms <= self.current_delay_ms <= MAX_BACKOFF_MS
    }

    /// A fresh policy, polling at the given interval.
    pub fn new(poll_interval_ms: u64) -> (r: LoaderPolicy)
        requires
            1 <= poll_interval_ms <= MAX_BACKOFF_MS,
        ensures
            r.wf(),
            r.poll_interval_ms == poll_interval_ms,
            r.current_delay_ms == poll_interval_ms,
            r.consecutive_failures == 0,
    {
        LoaderPolicy {
            poll_interval_ms,
            current_delay_ms: poll_interval_ms,
            consecutive_failures: 0,
        }
    }

    /// After a successfully applied batch: the failure run ends and the
    /// loop returns to its configured polling interval.
    pub fn on_success(&mut self) -> (r: LoaderStep)
        requires
            old(self).wf(),
        ensures
            final(self).wf(),
            final(self).poll_interval_ms == old(self).poll_interval_ms,
            final(self).current_delay_ms == old(self).poll_interval_ms,
            final(self).consecutive_failures == 0,
            r == (LoaderStep::Continue { delay_ms: old(self).poll_interval_ms }),
    {
        self.current_delay_ms = self.poll_interval_ms;
        self.consecutive_failures = 0;
        LoaderStep::Continue { delay_ms: self.current_delay_ms }
    }

    /// After a failed iteration: the delay doubles up to the cap, and
    /// once too many iterations have failed in a row the loop is given
    /// up instead of retried.
    pub fn on_failure(&mut self) -> (r: LoaderStep)
        requires
            old(self).wf(),
        ensures
            final(self).wf(),
            final(self).poll_interval_ms == old(self).poll_interval_ms,
            old(self).consecutive_failures + 1 >= MAX_CONSECUTIVE_FAILURES ==> r
                == LoaderStep::GiveUp,
            old(self).consecutive_failures + 1 < MAX_CONSECUTIVE_FAILURES ==> {
                &&& final(self).consecutive_failures == old(self).consecutive_failures + 1
                &&& final(self).current_delay_ms == next_backoff(old(self).current_delay_ms)
                &&& r == (LoaderStep::Continue { delay_ms: next_backoff(old(self).current_delay_ms) })
            },
    {
        if self.consecutive_failures >= MAX_CONSECUTIVE_FAILURES - 1 {
            LoaderStep::GiveUp
        } else {
            self.consecutive_failures = self.consecutive_failures + 1;
            self.current_delay_ms = if self.current_delay_ms > MAX_BACKOFF_MS / 2 {
                MAX_BACKOFF_MS
            } else {
                2 * self.current_delay_ms
            };
            LoaderStep::Continue { delay_ms: self.current_delay_ms }
        }
    }
}

} // verus!
