//! Probe and sync packet traits, and the functions that stamp and consume
//! them.
use vstd::prelude::*;
use crate::clocks::synced_clock::SyncedClock;
use crate::timesync::counter::Counter24;
use crate::timesync::synchroniser::datagram_ts24;

verus! {

/// Trait for types representing a time-sync probe packet.
///
/// Probe packets carry a 24-bit remote-send timestamp that the receiver
/// passes to [`SyncedClock::update_with_probe`], and a local timestamp field
/// that the sender fills via [`apply_probe`].
pub trait Probe {
    /// The 24-bit probe timestamp the packet carries.
    spec fn probe_ts(&self) -> nat;

    /// `after` is `self` with its probe timestamp set to `ts` and nothing
    /// else changed.  An implementation states this over its fields; by
    /// default nothing is stated.
    open spec fn probe_stamped(&self, after: &Self, ts: nat) -> bool {
        true
    }

    fn remote_send_ts(&self) -> (r: Counter24)
        ensures
            r@ == self.probe_ts(),
    ;

    fn set_local_ts(&mut self, ts: Counter24)
        ensures
            final(self).probe_ts() == ts@ % 0x100_0000,
            old(self).probe_stamped(final(self), ts@),
    ;
}

/// Trait for types representing a time-synchronisation packet.
///
/// Sync packets carry the sender's current minimum delta, which the
/// receiver passes to [`SyncedClock::update_with_sync`], alongside their
/// probe timestamp.
pub trait PeerSync: Probe {
    /// The 24-bit minimum delta the packet carries.
    spec fn sync_delta(&self) -> nat;

    /// `after` is `self` with its minimum delta set to `delta` and nothing
    /// else changed.  An implementation states this over its fields; by
    /// default nothing beyond the probe timestamp is stated.
    open spec fn sync_stamped(&self, after: &Self, delta: nat) -> bool {
        true
    }

    fn min_delta_ts(&self) -> (r: Counter24)
        ensures
            r@ == self.sync_delta(),
    ;

    fn set_min_delta_ts(&mut self, ts: Counter24)
        ensures
            final(self).sync_delta() == ts@ % 0x100_0000,
            final(self).probe_ts() == old(self).probe_ts(),
            old(self).sync_stamped(final(self), ts@),
    ;
}

/// Stamp `header` with the local probe timestamp derived from `now_usec`.
///
/// Works with any [`Probe`] implementor.
pub fn apply_probe<P: Probe>(clock: &SyncedClock, header: &mut P, now_usec: u64)
    ensures
        final(header).probe_ts() == datagram_ts24(now_usec),
        old(header).probe_stamped(final(header), datagram_ts24(now_usec)),
{
    let ts = clock.get_probe_ts(now_usec);
    header.set_local_ts(ts);
}

/// Consume a remote probe timestamp from `header` and update the clock.
///
/// Returns the estimated one-way delay for this datagram in microseconds,
/// or `0` if the clock is not yet synchronised.
pub fn retrieve_probe<P: Probe>(clock: &mut SyncedClock, header: &P, local_recv_usec: u64) -> (owd: u32)
    requires
        old(clock).wf(),
    ensures
        final(clock).probe_applied(*old(clock), header.probe_ts(), local_recv_usec, owd),
{
    clock.update_with_probe(header.remote_send_ts(), local_recv_usec)
}

/// Stamp `header` with the current sync delta derived from `clock`.
pub fn apply_peer_sync<S: PeerSync>(clock: &SyncedClock, header: &mut S)
    requires
        clock.wf(),
    ensures
        final(header).sync_delta() == clock.sync_spec().window_spec()[0].value@ % 0x100_0000,
        final(header).probe_ts() == old(header).probe_ts(),
        old(header).sync_stamped(final(header), clock.sync_spec().window_spec()[0].value@),
{
    header.set_min_delta_ts(clock.get_sync_delta());
}

/// Consume a peer sync delta from `header` and update the clock.
pub fn retrieve_peer_sync<S: PeerSync>(clock: &mut SyncedClock, header: &S)
    requires
        old(clock).wf(),
    ensures
        final(clock).sync_applied(*old(clock), final(clock).sync_spec().peer_delta_spec()),
        final(clock).sync_spec().peer_delta_spec()@ == header.sync_delta(),
{
    clock.update_with_sync(header.min_delta_ts());
}

} // verus!
