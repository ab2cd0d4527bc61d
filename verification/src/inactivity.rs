use vstd::prelude::*;

verus! {

/// How long after the last interaction the state turns inactive, in
/// nanoseconds (ten seconds).
pub const WAIT_DURATION_NS: u64 = 10_000_000_000;

/// A struct that helps to keep track of how long ago the last
/// interaction was.  If it was longer ago than period X, the state
/// switches from active to inactive.  Points in time are nanoseconds
/// since the Unix epoch, read from the clock by the caller.
pub struct InactivityTracker {
    t_last_active: u64,
    wait_duration: u64,
}

impl InactivityTracker {
    /// The time of the last interaction.
    pub closed spec fn last_active(&self) -> u64 {
        self.t_last_active
    }

    /// How long the state stays active after an interaction.
    pub closed spec fn wait(&self) -> u64 {
        self.wait_duration
    }

    /// Whether the state is inactive at time `now`.
    pub open spec fn inactive_at(&self, now: u64) -> bool {
        now - self.last_active() > self.wait()
    }

    /// A tracker that has never seen an interaction: its last activity
    /// lies at the Unix epoch.
    pub fn new() -> (t: InactivityTracker)
        ensures
            t.last_active() == 0,
            t.wait() == WAIT_DURATION_NS,
    {
        InactivityTracker {
            t_last_active: 0,
            wait_duration: WAIT_DURATION_NS,
        }
    }

    /// Register activity at time `now`.  Resets the inactivity timer.
    pub fn register_activity(&mut self, now: u64)
        ensures
            final(self).last_active() == now,
            final(self).wait() == old(self).wait(),
    {
        self.t_last_active = now;
    }

    /// Whether the last activity lies further back than the wait
    /// duration.  Times before the last activity are not accepted.
    pub fn is_inactive(&self, now: u64) -> (r: bool)
        requires
            now >= self.last_active(),
        ensures
            r == self.inactive_at(now),
    {
        now - self.t_last_active > self.wait_duration
    }
}

/// Right after an interaction the state is active, and it turns
/// inactive exactly when the wait duration has passed.
pub proof fn lemma_activity_resets(t: InactivityTracker, now: u64, later: u64)
    requires
        t.last_active() == now,
        t.wait() == WAIT_DURATION_NS,
        later >= now,
    ensures
        !t.inactive_at(now),
        t.inactive_at(later) <==> later > now + WAIT_DURATION_NS,
{
}

} // verus!
