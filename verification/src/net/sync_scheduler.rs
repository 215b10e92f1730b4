//! Scheduling of periodic sync heartbeats.
use vstd::prelude::*;

verus! {

/// `a + b`, saturating at `u64::MAX`.
pub open spec fn sat_add(a: u64, b: u64) -> u64 {
    if a + b > u64::MAX {
        u64::MAX
    } else {
        (a + b) as u64
    }
}

/// Tracks when the next sync heartbeat is due.
pub struct SyncScheduler {
    interval_usec: u64,
    next_send_usec: u64,
}

impl SyncScheduler {
    pub closed spec fn interval_spec(&self) -> u64 {
        self.interval_usec
    }

    /// The time at or after which the next heartbeat is due.
    pub closed spec fn next_send_spec(&self) -> u64 {
        self.next_send_usec
    }

    /// A scheduler sending every `interval_ms` milliseconds, first one
    /// interval after `now_usec`.
    pub fn new(interval_ms: u64, now_usec: u64) -> (r: Self)
        requires
            interval_ms * 1000 <= u64::MAX,
        ensures
            r.interval_spec() == interval_ms * 1000,
            r.next_send_spec() == sat_add(now_usec, (interval_ms * 1000) as u64),
    {
        let interval_usec = interval_ms * 1000;
        Self { interval_usec, next_send_usec: now_usec.saturating_add(interval_usec) }
    }

    /// Returns `true` when a heartbeat is due at `now_usec`, and then
    /// schedules the next one an interval later.
    pub fn should_send(&mut self, now_usec: u64) -> (r: bool)
        ensures
            r == (now_usec >= old(self).next_send_spec()),
            final(self).interval_spec() == old(self).interval_spec(),
            final(self).next_send_spec() == if r {
                sat_add(now_usec, old(self).interval_spec())
            } else {
                old(self).next_send_spec()
            },
    {
        if now_usec >= self.next_send_usec {
            self.next_send_usec = now_usec.saturating_add(self.interval_usec);
            true
        } else {
            false
        }
    }

    /// Schedule the next heartbeat one interval after `now_usec`.
    pub fn reset(&mut self, now_usec: u64)
        ensures
            final(self).interval_spec() == old(self).interval_spec(),
            final(self).next_send_spec() == sat_add(now_usec, old(self).interval_spec()),
    {
        self.next_send_usec = now_usec.saturating_add(self.interval_usec);
    }
}

/// After a heartbeat is sent at time `t`, no other is due before a full
/// interval has passed.
pub proof fn lemma_no_early_heartbeat(s: SyncScheduler, t: u64, later: u64)
    requires
        s.next_send_spec() == sat_add(t, s.interval_spec()),
        t + s.interval_spec() <= u64::MAX,
        t <= later < t + s.interval_spec(),
    ensures
        later < s.next_send_spec(),
{
}

} // verus!
