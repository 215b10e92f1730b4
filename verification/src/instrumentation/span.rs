//! Measurement spans from a local start to a remote finish.
use vstd::prelude::*;
use crate::clocks::peer_clock::PeerClock;
use crate::clocks::peer_clock::round_usec_to_ms;
use crate::clocks::synced_clock::{signed_correction_usec, trunc_div};
use crate::instrumentation::event::EventId;

verus! {

/// A measurement span from a local start event to a (potential) remote finish.
#[derive(Clone, Copy, Debug, PartialEq, Eq)]
pub struct Span {
    event_id: EventId,
    name: &'static str,
    start_local_ms: u64,
    finish_local_ms: Option<i64>,
}

impl Span {
    pub closed spec fn event_id_spec(&self) -> EventId {
        self.event_id
    }

    pub closed spec fn name_spec(&self) -> &'static str {
        self.name
    }

    /// Local start time in milliseconds.
    pub closed spec fn start_spec(&self) -> u64 {
        self.start_local_ms
    }

    /// Local time (milliseconds) of the remote finish, once recorded.
    pub closed spec fn finish_spec(&self) -> Option<i64> {
        self.finish_local_ms
    }

    pub fn new(event_id: EventId, name: &'static str, start_local_ms: u64) -> (r: Self)
        ensures
            r.event_id_spec() == event_id,
            r.name_spec() == name,
            r.start_spec() == start_local_ms,
            r.finish_spec() is None,
    {
        Self { event_id, name, start_local_ms, finish_local_ms: None }
    }

    #[inline]
    pub fn event_id(&self) -> (r: EventId)
        ensures
            r == self.event_id_spec(),
    {
        self.event_id
    }

    #[inline]
    pub fn name(&self) -> (r: &'static str)
        ensures
            r == self.name_spec(),
    {
        self.name
    }

    /// Local-only elapsed time in milliseconds (zero before the start).
    #[inline]
    pub fn elapsed(&self, now_ms: u64) -> (r: u64)
        ensures
            r == if now_ms >= self.start_spec() {
                (now_ms - self.start_spec()) as u64
            } else {
                0
            },
    {
        now_ms.saturating_sub(self.start_local_ms)
    }

    /// Compute cross-host latency given the remote finish time and a synchronised clock.
    ///
    /// The remote finish time should be the remote peer's local wall-clock timestamp
    /// in milliseconds (e.g. when the injection occurred).  The clock correction
    /// translates the local start time into the remote time base so the subtraction
    /// yields end-to-end latency.
    ///
    /// Returns `None` if the clock is not yet synchronised.
    #[inline]
    pub fn remote_latency_ms(&self, remote_finish_ms: u64, clock: &PeerClock) -> (r: Option<i64>)
        requires
            clock.wf(),
            clock.clock_spec().sync_spec().synchronised_spec() ==> i64::MIN <= (remote_finish_ms as i64)
                - trunc_div(signed_correction_usec(clock.clock_spec().sync_spec().remote_delta_spec()), 1000)
                - (self.start_spec() as i64) <= i64::MAX,
        ensures
            r == if clock.clock_spec().sync_spec().synchronised_spec() {
                Some(
                    ((remote_finish_ms as i64) - trunc_div(
                        signed_correction_usec(clock.clock_spec().sync_spec().remote_delta_spec()),
                        1000,
                    ) - (self.start_spec() as i64)) as i64,
                )
            } else {
                None::<i64>
            },
    {
        let correction = match clock.correction_ms() {
            Some(c) => c,
            None => return None,
        };
        let a = remote_finish_ms as i64;
        let b = self.start_local_ms as i64;
        let ac = a as i128 - correction as i128;
        assert(i64::MIN <= ac - b <= i64::MAX);
        Some((ac - b as i128) as i64)
    }

    /// Local time (milliseconds) at which the remote finish happened, once
    /// [`finish_remote`](Span::finish_remote) has recorded it.
    #[inline]
    pub fn finish_local_ms(&self) -> (r: Option<i64>)
        ensures
            r == self.finish_spec(),
    {
        self.finish_local_ms
    }

    /// Record the remote finish of this span and return its latency in
    /// milliseconds.
    ///
    /// `remote_finish_ms` is the peer's elapsed time (milliseconds since the
    /// peer started) at which the event finished; it is translated to local
    /// elapsed time through the start offset and the clock correction.
    ///
    /// Returns `None` (recording nothing) if the clock is not yet
    /// synchronised or the peer's start time is unknown.
    pub fn finish_remote(&mut self, remote_finish_ms: u32, clock: &PeerClock) -> (r: Option<i64>)
        requires
            clock.wf(),
            clock.peer_spec() matches Some(p) ==> {
                &&& clock.clock_spec().start_spec() <= i64::MAX
                &&& p <= i64::MAX
                &&& i64::MIN <= round_usec_to_ms(clock.local_usec_estimate(p, remote_finish_ms as int))
                    - (old(self).start_spec() as i64) <= i64::MAX
            },
        ensures
            final(self).event_id_spec() == old(self).event_id_spec(),
            final(self).name_spec() == old(self).name_spec(),
            final(self).start_spec() == old(self).start_spec(),
            ({
                if clock.clock_spec().sync_spec().synchronised_spec() && clock.peer_spec() is Some {
                    let local = round_usec_to_ms(clock.local_usec_estimate(clock.peer_spec()->0, remote_finish_ms as int));
                    &&& final(self).finish_spec() == Some(local as i64)
                    &&& r == Some((local - (old(self).start_spec() as i64)) as i64)
                } else {
                    &&& final(self).finish_spec() == old(self).finish_spec()
                    &&& r is None
                }
            }),
    {
        if !clock.is_synchronised() {
            return None;
        }
        let local = match clock.remote_elapsed_to_local(remote_finish_ms) {
            Some(l) => l,
            None => return None,
        };
        self.finish_local_ms = Some(local);
        Some(local - self.start_local_ms as i64)
    }
}

} // verus!
