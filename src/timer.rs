use vstd::prelude::*;

use crate::clock::time_now;

verus! {

/// Seconds elapsed between `last` and `now`; a clock that went backwards counts as no time.
pub open spec fn elapsed(now: u64, last: u64) -> nat {
    if now >= last {
        (now - last) as nat
    } else {
        0
    }
}

/// Per-monitor schedule: a period and the time (in seconds) of the last run.
#[derive(Debug, PartialEq, Eq, Structural)]
pub struct WorkTimer {
    pub period_secs: u32,
    pub last_execution: u64,
}

impl Clone for WorkTimer {
    fn clone(&self) -> (r: Self)
        ensures
            r == *self,
    {
        WorkTimer { period_secs: self.period_secs, last_execution: self.last_execution }
    }
}

impl WorkTimer {
    /// A run is due at `now` when at least one period has passed since the last run.
    pub open spec fn due_at(&self, now: u64) -> bool {
        elapsed(now, self.last_execution) >= self.period_secs as nat
    }

    /// The timer after a run was recorded at `now`; the recorded time never moves backwards.
    pub open spec fn saved_at(&self, now: u64) -> WorkTimer {
        WorkTimer {
            period_secs: self.period_secs,
            last_execution: if now >= self.last_execution {
                now
            } else {
                self.last_execution
            },
        }
    }

    /// A timer whose period starts at `now`.
    pub fn new_at(period_secs: u32, now: u64) -> (r: Self)
        ensures
            r.period_secs == period_secs,
            r.last_execution == now,
    {
        WorkTimer { period_secs, last_execution: now }
    }

    /// A timer whose period starts at the current time.
    pub fn new(period_secs: u32) -> (r: Self)
        ensures
            r.period_secs == period_secs,
    {
        Self::new_at(period_secs, time_now())
    }

    /// Whether a run is due at `now`; the boundary `now - last == period` is due.
    pub fn should_run_at(&self, now: u64) -> (r: bool)
        ensures
            r == self.due_at(now),
    {
        let passed: u64 = if now >= self.last_execution {
            now - self.last_execution
        } else {
            0
        };
        passed >= self.period_secs as u64
    }

    /// Whether a run is due at the current time.
    pub fn should_run(&self) -> (r: bool)
        ensures
            self.period_secs == 0 ==> r,
    {
        self.should_run_at(time_now())
    }

    /// Records a run at `now`.
    pub fn save_execution_at(&mut self, now: u64)
        ensures
            *final(self) == old(self).saved_at(now),
    {
        if now >= self.last_execution {
            self.last_execution = now;
        }
    }

    /// Records a run at the current time.
    pub fn save_execution(&mut self)
        ensures
            final(self).period_secs == old(self).period_secs,
            final(self).last_execution >= old(self).last_execution,
            !final(self).due_at(final(self).last_execution) || final(self).period_secs == 0,
    {
        self.save_execution_at(time_now());
    }
}

/// Right after a run is recorded the timer is not due (for a positive period); from then on it
/// is due exactly when the seconds since that run reach the period, the boundary included.
pub proof fn lemma_due_after_save(t: WorkTimer, now: u64, later: u64)
    requires
        t.period_secs > 0,
        t.last_execution <= now,
        now <= later,
    ensures
        !t.saved_at(now).due_at(now),
        t.saved_at(now).due_at(later) <==> later - now >= t.period_secs,
{
}

/// A recorded run never moves the last execution time backwards.
pub proof fn lemma_save_monotonic(t: WorkTimer, now: u64)
    ensures
        t.saved_at(now).last_execution >= t.last_execution,
        t.saved_at(now).period_secs == t.period_secs,
{
}

} // verus!
