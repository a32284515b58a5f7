//! The periodic refresher: once per refresh interval it walks a fixed
//! roster of studio ids and drives a current-day resolution for each, so
//! that interactive requests usually hit a warm bucket. It has two states,
//! idle and refreshing; the interval is measured from the start of the
//! last cycle, and a cycle always runs the roster to its end, whatever
//! happens to the individual resolutions.

use vstd::prelude::*;

verus! {

/// Seconds between the starts of two refresh cycles: one clock hour, the
/// granularity of the cache buckets.
pub const REFRESH_INTERVAL_SECONDS: u64 = 3600;

/// The refresher's whole state: the immutable roster, whether a cycle is
/// running, how far it has come, and when the last cycle started.
pub struct Refresher {
    /// The fixed set of studio ids to keep warm; never changed after
    /// construction.
    pub roster: Vec<String>,
    /// A cycle is currently running.
    pub refreshing: bool,
    /// The next roster position to hand out while refreshing.
    pub next_index: usize,
    /// When the last cycle started, in seconds of a monotone clock; only
    /// meaningful once `has_run` is set.
    pub last_cycle_start: u64,
    /// At least one cycle has started.
    pub has_run: bool,
}

impl Refresher {
    /// While a cycle runs, the cursor never passes the roster's end.
    pub open spec fn wf(self) -> bool {
        self.refreshing ==> self.next_index <= self.roster@.len()
    }

    /// A new cycle is owed at `now`: none has ever run, or a whole
    /// interval has passed since the last one started.
    pub open spec fn due(self, now: u64) -> bool {
        !self.has_run || now >= self.last_cycle_start + REFRESH_INTERVAL_SECONDS
    }

    /// A fresh, idle refresher over the given roster; its first tick is
    /// immediately due.
    pub fn new(roster: Vec<String>) -> (r: Refresher)
        ensures
            r.wf(),
            !r.refreshing,
            !r.has_run,
            r.roster == roster,
            forall|now: u64| r.due(now),
    {
        Refresher {
            roster,
            refreshing: false,
            next_index: 0,
            last_cycle_start: 0,
            has_run: false,
        }
    }

    /// The idle-to-refreshing transition: starts a cycle exactly when one
    /// is due, stamping the cycle's start time; otherwise nothing changes.
    /// A slow cycle cannot re-trigger itself, because the stamp is taken
    /// from the cycle's start, not from the process start or the tick.
    pub fn tick(&mut self, now: u64) -> (started: bool)
        requires
            old(self).wf(),
            !old(self).refreshing,
        ensures
            final(self).wf(),
            started == old(self).due(now),
            final(self).roster == old(self).roster,
            started ==> final(self).refreshing && final(self).next_index == 0 && final(self).last_cycle_start == now && final(self).has_run,
            !started ==> *final(self) == *old(self),
    {
        let due_now = !self.has_run || (now >= self.last_cycle_start && now
            - self.last_cycle_start >= REFRESH_INTERVAL_SECONDS);
        if due_now {
            self.refreshing = true;
            self.next_index = 0;
            self.last_cycle_start = now;
            self.has_run = true;
            true
        } else {
            false
        }
    }

    /// While refreshing, hands out the roster entries one by one, in
    /// order; after the last one the refresher falls back to idle
    /// unconditionally, so one entry's failed resolution can never keep
    /// the rest of the roster from being handed out.
    pub fn next_studio(&mut self) -> (r: Option<String>)
        requires
            old(self).wf(),
            old(self).refreshing,
        ensures
            final(self).wf(),
            final(self).roster == old(self).roster,
            final(self).last_cycle_start == old(self).last_cycle_start,
            final(self).has_run == old(self).has_run,
            old(self).next_index < old(self).roster@.len() ==> (r matches Some(s) && s == old(self).roster@[old(self).next_index as int] && final(self).refreshing && final(self).next_index == old(self).next_index + 1),
            old(self).next_index >= old(self).roster@.len() ==> r is None && !final(self).refreshing,
    {
        if self.next_index < self.roster.len() {
            let s = self.roster[self.next_index].clone();
            self.next_index = self.next_index + 1;
            Some(s)
        } else {
            self.refreshing = false;
            None
        }
    }
}

} // verus!
