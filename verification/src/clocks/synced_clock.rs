//! A local clock paired with a remote clock through the synchroniser.
use vstd::prelude::*;
use crate::timesync::counter::Counter24;
use crate::timesync::synchroniser::{TimeSynchroniser, datagram_ts24, TIME_23_LOST_BITS};

verus! {

/// Integer division rounding toward zero (as Rust's `/` on signed integers).
pub open spec fn trunc_div(a: int, b: int) -> int {
    if a >= 0 {
        a / b
    } else {
        -((-a) / b)
    }
}

/// The correction in microseconds encoded by an unsigned 26-bit remote
/// delta: its 23-bit tick count read as a signed (two's complement) value,
/// times 8 microseconds.
pub open spec fn signed_correction_usec(remote_delta_usec: u32) -> int {
    let ticks = remote_delta_usec as int / 8;
    let signed = if ticks >= 0x40_0000 {
        ticks - 0x80_0000
    } else {
        ticks
    };
    signed * 8
}

/// A higher-level clock abstraction that tracks local elapsed time
/// and maintains a drift estimate with a paired remote clock.
///
/// Internally uses 24-bit truncated timestamps for network sync;
/// externally exposes millisecond-resolution APIs.
#[derive(Clone, Debug)]
pub struct SyncedClock {
    start_usec: u64,
    sync: TimeSynchroniser,
}

impl SyncedClock {
    pub closed spec fn wf(&self) -> bool {
        self.sync.wf()
    }

    /// The local wall-clock time at which the clock was started.
    pub closed spec fn start_spec(&self) -> u64 {
        self.start_usec
    }

    /// The synchronisation state.
    pub closed spec fn sync_spec(&self) -> TimeSynchroniser {
        self.sync
    }

    /// See [`TimeSynchroniser::probe_applied`]; the start time is unchanged.
    pub open spec fn probe_applied(self, prev: SyncedClock, remote_ts: nat, local_recv_usec: u64, owd: u32) -> bool {
        &&& self.wf()
        &&& self.start_spec() == prev.start_spec()
        &&& self.sync_spec().probe_applied(prev.sync_spec(), remote_ts, local_recv_usec, owd)
    }

    /// See [`TimeSynchroniser::sync_applied`]; the start time is unchanged.
    pub open spec fn sync_applied(self, prev: SyncedClock, peer: Counter24) -> bool {
        &&& self.wf()
        &&& self.start_spec() == prev.start_spec()
        &&& self.sync_spec().sync_applied(prev.sync_spec(), peer)
    }

    pub proof fn lemma_wf(&self)
        requires
            self.wf(),
        ensures
            self.sync_spec().wf(),
    {
    }

    pub fn new() -> (r: Self)
        ensures
            r.wf(),
            r.start_spec() == 0,
            !r.sync_spec().synchronised_spec(),
            !r.sync_spec().got_peer_update_spec(),
            r.sync_spec().window_spec()[0].value@ == 0,
    {
        Self { start_usec: 0, sync: TimeSynchroniser::new() }
    }

    /// Record the local wall-clock time at which the clock starts; any
    /// synchronisation state is discarded.
    pub fn start(&mut self, now_usec: u64)
        ensures
            final(self).wf(),
            final(self).start_spec() == now_usec,
            !final(self).sync_spec().synchronised_spec(),
            !final(self).sync_spec().got_peer_update_spec(),
            final(self).sync_spec().window_spec()[0].value@ == 0,
    {
        self.start_usec = now_usec;
        self.sync = TimeSynchroniser::new();
    }

    /// Return the wall-clock time at which the clock was started.
    #[inline]
    pub fn started_at(&self) -> (r: u64)
        ensures
            r == self.start_spec(),
    {
        self.start_usec
    }

    /// Update the clock with probe data received on a data datagram.
    ///
    /// `remote_send_ts24` is the 24-bit timestamp from the peer's
    /// [`get_probe_ts`](SyncedClock::get_probe_ts) call.
    /// `local_recv_usec` is the local wall-clock time when the datagram arrived.
    ///
    /// Returns the estimated one-way delay for this datagram in microseconds,
    /// or `0` if the clock is not yet synchronised.
    pub fn update_with_probe(&mut self, remote_send_ts24: Counter24, local_recv_usec: u64) -> (owd: u32)
        requires
            old(self).wf(),
        ensures
            final(self).probe_applied(*old(self), remote_send_ts24@, local_recv_usec, owd),
    {
        self.sync.on_authenticated_datagram_timestamp(remote_send_ts24, local_recv_usec)
    }

    /// Update the clock with sync data received on a sync datagram.
    ///
    /// `peer_min_delta_ts24` is the peer's current minimum delta as returned
    /// by [`get_sync_delta`](SyncedClock::get_sync_delta).
    pub fn update_with_sync(&mut self, peer_min_delta_ts24: Counter24)
        requires
            old(self).wf(),
        ensures
            final(self).sync_applied(*old(self), peer_min_delta_ts24),
    {
        self.sync.on_peer_min_delta_ts24(peer_min_delta_ts24);
    }

    /// Generate the 24-bit timestamp to attach to outgoing data datagrams.
    pub fn get_probe_ts(&self, now_usec: u64) -> (r: Counter24)
        ensures
            r@ == datagram_ts24(now_usec),
            r.wf(),
    {
        Counter24::new(TimeSynchroniser::local_time_to_datagram_ts24(now_usec))
    }

    /// Return the number of whole milliseconds since the clock was started
    /// (zero for times before the start).
    pub fn local_ms(&self, now_usec: u64) -> (r: u64)
        ensures
            r == if now_usec >= self.start_spec() {
                (now_usec - self.start_spec()) / 1000
            } else {
                0
            },
    {
        now_usec.saturating_sub(self.start_usec) / 1000
    }

    /// Return the estimated correction in milliseconds to apply to local time
    /// to align with the paired remote clock (rounded toward zero).
    ///
    /// Returns `None` if the clock is not yet synchronised.
    pub fn correction_ms(&self) -> (r: Option<i64>)
        requires
            self.wf(),
        ensures
            r == if self.sync_spec().synchronised_spec() {
                Some(trunc_div(signed_correction_usec(self.sync_spec().remote_delta_spec()), 1000) as i64)
            } else {
                None::<i64>
            },
    {
        match self.correction_usec() {
            Some(v) => {
                if v >= 0 {
                    Some(((v as u64) / 1000) as i64)
                } else {
                    let neg = (0 - v) as u64;
                    Some(0 - ((neg / 1000) as i64))
                }
            },
            None => None,
        }
    }

    /// Return the estimated correction in microseconds to apply to local time
    /// to align with the paired remote clock.
    ///
    /// Returns `None` if the clock is not yet synchronised.
    pub fn correction_usec(&self) -> (r: Option<i64>)
        requires
            self.wf(),
        ensures
            r == if self.sync_spec().synchronised_spec() {
                Some(signed_correction_usec(self.sync_spec().remote_delta_spec()) as i64)
            } else {
                None::<i64>
            },
            r matches Some(v) ==> -0x200_0000 <= v < 0x200_0000,
    {
        if !self.sync.is_synchronised() {
            return None;
        }
        let delta = self.sync.remote_time_delta_usec();
        let shifted = delta >> TIME_23_LOST_BITS;
        assert(shifted == delta / 8) by (bit_vector)
            requires
                shifted == delta >> 3u32,
        ;
        let ticks = shifted as i32;
        assert(1i32 << 22u32 == 0x40_0000) by (bit_vector);
        assert(1i32 << 23u32 == 0x80_0000) by (bit_vector);
        let signed_ticks = if ticks >= (1i32 << 22u32) {
            ticks - (1i32 << 23u32)
        } else {
            ticks
        };
        Some((signed_ticks as i64) * 8)
    }

    /// Returns the current minimum delta (24-bit) for sending to the peer
    /// on sync datagrams.
    #[inline]
    pub fn get_sync_delta(&self) -> (r: Counter24)
        requires
            self.wf(),
        ensures
            r == self.sync_spec().window_spec()[0].value,
    {
        self.sync.min_delta_ts24()
    }

    /// Returns the minimum one-way delay seen so far (microseconds).
    #[inline]
    pub fn minimum_one_way_delay_usec(&self) -> (r: u32)
        requires
            self.wf(),
        ensures
            r == self.sync_spec().min_owd_spec(),
            r < crate::timesync::synchroniser::SIGN_ROLLOVER_THRESHOLD,
    {
        self.sync.minimum_one_way_delay_usec()
    }

    /// Returns `true` if the clock has received enough data to be
    /// synchronised with its peer.
    #[inline]
    pub fn is_synchronized(&self) -> (r: bool)
        ensures
            r == self.sync_spec().synchronised_spec(),
    {
        self.sync.is_synchronised()
    }

    /// Same as [`is_synchronized`](SyncedClock::is_synchronized).
    #[inline]
    pub fn is_synchronised(&self) -> (r: bool)
        ensures
            r == self.sync_spec().synchronised_spec(),
    {
        self.sync.is_synchronised()
    }
}

impl Default for SyncedClock {
    fn default() -> (r: Self)
        ensures
            r.wf(),
            r.start_spec() == 0,
            !r.sync_spec().synchronised_spec(),
            !r.sync_spec().got_peer_update_spec(),
            r.sync_spec().window_spec()[0].value@ == 0,
    {
        Self::new()
    }
}

} // verus!
