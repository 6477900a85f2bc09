use vstd::prelude::*;

verus! {

/// Usage counters of the currently published backend handle.
#[derive(Clone, Copy, Debug, PartialEq, Eq, Structural)]
pub struct UsageStats {
    /// Successful renders served since the last recycle.
    pub render_count: u64,
    /// Time of the last success or reset, in milliseconds on the caller's clock.
    pub last_activity: u64,
}

/// The count after one more success; it stays put at the largest `u64`.
pub open spec fn bumped(count: u64) -> u64 {
    if count < u64::MAX {
        (count + 1) as u64
    } else {
        count
    }
}

impl UsageStats {
    /// Fresh counters stamped with `now`.
    pub fn new(now: u64) -> (s: UsageStats)
        ensures
            s == (UsageStats { render_count: 0, last_activity: now }),
    {
        UsageStats { render_count: 0, last_activity: now }
    }

    /// Counts one successful render and stamps the activity time.
    pub fn record_success(&mut self, now: u64)
        ensures
            *final(self) == (UsageStats { render_count: bumped(old(self).render_count), last_activity: now }),
    {
        if self.render_count < u64::MAX {
            self.render_count = self.render_count + 1;
        }
        self.last_activity = now;
    }

    /// Zeroes the counter and refreshes the activity time.
    pub fn reset(&mut self, now: u64)
        ensures
            *final(self) == (UsageStats { render_count: 0, last_activity: now }),
    {
        self.render_count = 0;
        self.last_activity = now;
    }

    /// The count and the activity time, read together.
    pub fn snapshot(&self) -> (r: (u64, u64))
        ensures
            r == (self.render_count, self.last_activity),
    {
        (self.render_count, self.last_activity)
    }
}

} // verus!
