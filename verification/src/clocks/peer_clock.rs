//! A peer-aware clock: a synchronised clock plus the peer's start time.
use vstd::prelude::*;
use crate::clocks::synced_clock::{SyncedClock, signed_correction_usec, trunc_div};
use crate::net::traits::{apply_peer_sync, apply_probe, retrieve_peer_sync, retrieve_probe, PeerSync, Probe};
use crate::timesync::counter::Counter24;
use crate::timesync::counter::wrap;
use crate::timesync::synchroniser::{datagram_ts24, lemma_estimates_from_symmetric_deltas, m24};

verus! {

/// A microsecond value rounded to the nearest millisecond, halves away from
/// zero.
pub open spec fn round_usec_to_ms(usec: int) -> int {
    trunc_div(usec + if usec >= 0 { 500int } else { -500int }, 1000)
}

/// Rounding to milliseconds is to the nearest millisecond: the result,
/// in microseconds, lies within half a millisecond of the value, and
/// negating the value negates the result.
pub proof fn lemma_round_to_nearest_ms(usec: int)
    ensures
        -500 <= 1000 * round_usec_to_ms(usec) - usec <= 500,
        round_usec_to_ms(-usec) == -round_usec_to_ms(usec),
{
    let v = if usec >= 0 { usec } else { -usec };
    let q = (v + 500) / 1000;
    vstd::arithmetic::div_mod::lemma_fundamental_div_mod(v + 500, 1000);
    assert(0 <= (v + 500) % 1000 < 1000);
    assert(1000 * q <= v + 500 < 1000 * q + 1000);
    if usec > 0 {
        assert(round_usec_to_ms(usec) == q);
        assert(round_usec_to_ms(-usec) == -q);
    } else if usec < 0 {
        assert(round_usec_to_ms(usec) == -q);
        assert(round_usec_to_ms(-usec) == q);
    } else {
        assert(round_usec_to_ms(usec) == 0);
    }
}

/// Round a microsecond value to the nearest millisecond (halves away from zero).
fn round_to_ms(usec: i128) -> (r: i128)
    requires
        -0x1_0000_0000_0000_0000_0000 <= usec <= 0x1_0000_0000_0000_0000_0000,
    ensures
        r == round_usec_to_ms(usec as int),
{
    if usec >= 0 {
        ((usec + 500) as u128 / 1000) as i128
    } else {
        let neg = (0 - (usec - 500)) as u128;
        0 - ((neg / 1000) as i128)
    }
}

/// A peer-aware clock abstraction that wraps [`SyncedClock`] and adds
/// remote-start tracking, generic probe/sync packet handling, and
/// remote-time estimation maths.
///
/// Given packets that implement [`Probe`] and [`PeerSync`], a `PeerClock`
/// handles stamping outgoing packets, updating state from incoming packets,
/// and computing remote-side timestamps.
#[derive(Clone, Debug)]
pub struct PeerClock {
    clock: SyncedClock,
    peer_started_at: Option<u64>,
}

impl PeerClock {
    pub closed spec fn wf(&self) -> bool {
        self.clock.wf()
    }

    /// The underlying synchronised clock.
    pub closed spec fn clock_spec(&self) -> SyncedClock {
        self.clock
    }

    /// The peer's start time, once known.
    pub closed spec fn peer_spec(&self) -> Option<u64> {
        self.peer_started_at
    }

    pub proof fn lemma_wf(&self)
        requires
            self.wf(),
        ensures
            self.clock_spec().wf(),
    {
    }

    /// The correction in microseconds, zero while unsynchronised.
    pub open spec fn correction_or_zero(&self) -> int {
        if self.clock_spec().sync_spec().synchronised_spec() {
            signed_correction_usec(self.clock_spec().sync_spec().remote_delta_spec())
        } else {
            0
        }
    }

    /// Local start time minus peer start time, in microseconds.
    pub open spec fn start_delta_usec(&self, peer: u64) -> int {
        self.clock_spec().start_spec() as int - peer as int
    }

    /// Estimated remote time in microseconds for local elapsed milliseconds
    /// `local_ms`: shifted by the start offset and the correction, and by the
    /// minimum one-way delay in the direction `owd_sign`.
    pub open spec fn remote_usec_estimate(&self, peer: u64, local_ms: int, owd_sign: int) -> int {
        local_ms * 1000 + self.start_delta_usec(peer) + self.correction_or_zero()
            + owd_sign * self.clock_spec().sync_spec().min_owd_spec()
    }

    /// Local elapsed microseconds corresponding to remote elapsed
    /// milliseconds `remote_ms`.
    pub open spec fn local_usec_estimate(&self, peer: u64, remote_ms: int) -> int {
        remote_ms * 1000 - self.start_delta_usec(peer) - self.correction_or_zero()
    }

    /// Create a new, unstarted peer clock.
    pub fn new() -> (r: Self)
        ensures
            r.wf(),
            r.clock_spec().start_spec() == 0,
            !r.clock_spec().sync_spec().synchronised_spec(),
            r.peer_spec() is None,
    {
        Self { clock: SyncedClock::new(), peer_started_at: None }
    }

    /// Start (or restart) the local clock at `now_usec`; the peer's start
    /// time and all synchronisation state are forgotten.
    pub fn start(&mut self, now_usec: u64)
        ensures
            final(self).wf(),
            final(self).clock_spec().start_spec() == now_usec,
            !final(self).clock_spec().sync_spec().synchronised_spec(),
            !final(self).clock_spec().sync_spec().got_peer_update_spec(),
            final(self).clock_spec().sync_spec().window_spec()[0].value@ == 0,
            final(self).peer_spec() is None,
    {
        self.clock.start(now_usec);
        self.peer_started_at = None;
    }

    /// Record the peer's start time.
    pub fn set_peer_started_at(&mut self, ts: u64)
        ensures
            final(self).wf() == old(self).wf(),
            final(self).clock_spec() == old(self).clock_spec(),
            final(self).peer_spec() == Some(ts),
    {
        self.peer_started_at = Some(ts);
    }

    /// Return the peer's start time, if known.
    pub fn peer_started_at(&self) -> (r: Option<u64>)
        ensures
            r == self.peer_spec(),
    {
        self.peer_started_at
    }

    /// Return the local wall-clock time at which the clock was started.
    pub fn started_at(&self) -> (r: u64)
        ensures
            r == self.clock_spec().start_spec(),
    {
        self.clock.started_at()
    }

    /// Stamp an outgoing probe packet with the local probe timestamp.
    pub fn stamp_probe<P: Probe>(&self, packet: &mut P, now_usec: u64)
        ensures
            final(packet).probe_ts() == datagram_ts24(now_usec),
            old(packet).probe_stamped(final(packet), datagram_ts24(now_usec)),
    {
        apply_probe(&self.clock, packet, now_usec);
    }

    /// Update the clock from an incoming probe packet.
    ///
    /// Returns the estimated one-way delay for this datagram in
    /// microseconds, or `0` if not yet synchronised.
    pub fn on_probe<P: Probe>(&mut self, packet: &P, now_usec: u64) -> (owd: u32)
        requires
            old(self).wf(),
        ensures
            final(self).wf(),
            final(self).clock_spec().probe_applied(old(self).clock_spec(), packet.probe_ts(), now_usec, owd),
            final(self).peer_spec() == old(self).peer_spec(),
    {
        retrieve_probe(&mut self.clock, packet, now_usec)
    }

    /// Update the clock from an incoming sync packet.
    pub fn on_sync<S: PeerSync>(&mut self, packet: &S)
        requires
            old(self).wf(),
        ensures
            final(self).wf(),
            final(self).clock_spec().sync_applied(
                old(self).clock_spec(),
                final(self).clock_spec().sync_spec().peer_delta_spec(),
            ),
            final(self).clock_spec().sync_spec().peer_delta_spec()@ == packet.sync_delta(),
            final(self).peer_spec() == old(self).peer_spec(),
    {
        retrieve_peer_sync(&mut self.clock, packet);
    }

    /// Stamp an outgoing sync packet with both probe and sync-delta fields.
    pub fn stamp_sync<S: Probe + PeerSync>(&self, packet: &mut S, now_usec: u64)
        requires
            self.wf(),
        ensures
            final(packet).probe_ts() == datagram_ts24(now_usec),
            final(packet).sync_delta() == self.clock_spec().sync_spec().window_spec()[0].value@ % 0x100_0000,
            exists|stamped: S|
                old(packet).probe_stamped(&stamped, datagram_ts24(now_usec)) && #[trigger] stamped.sync_stamped(
                    final(packet),
                    self.clock_spec().sync_spec().window_spec()[0].value@,
                ),
    {
        apply_probe(&self.clock, packet, now_usec);
        apply_peer_sync(&self.clock, packet);
    }

    /// Local milliseconds elapsed since the clock was started.
    pub fn local_ms(&self, now_usec: u64) -> (r: u64)
        ensures
            r == if now_usec >= self.clock_spec().start_spec() {
                (now_usec - self.clock_spec().start_spec()) / 1000
            } else {
                0
            },
    {
        self.clock.local_ms(now_usec)
    }

    /// Estimated correction to local time in milliseconds.
    pub fn correction_ms(&self) -> (r: Option<i64>)
        requires
            self.wf(),
        ensures
            r == if self.clock_spec().sync_spec().synchronised_spec() {
                Some(trunc_div(signed_correction_usec(self.clock_spec().sync_spec().remote_delta_spec()), 1000) as i64)
            } else {
                None::<i64>
            },
    {
        self.clock.correction_ms()
    }

    /// Estimated correction to local time in microseconds.
    pub fn correction_usec(&self) -> (r: Option<i64>)
        requires
            self.wf(),
        ensures
            r == if self.clock_spec().sync_spec().synchronised_spec() {
                Some(signed_correction_usec(self.clock_spec().sync_spec().remote_delta_spec()) as i64)
            } else {
                None::<i64>
            },
    {
        self.clock.correction_usec()
    }

    /// Current minimum delta for sending to the peer on sync packets.
    pub fn min_delta(&self) -> (r: Counter24)
        requires
            self.wf(),
        ensures
            r == self.clock_spec().sync_spec().window_spec()[0].value,
    {
        self.clock.get_sync_delta()
    }

    /// `true` if the clock is synchronised with its peer.
    pub fn is_synchronised(&self) -> (r: bool)
        ensures
            r == self.clock_spec().sync_spec().synchronised_spec(),
    {
        self.clock.is_synchronised()
    }

    /// Same as [`is_synchronised`](PeerClock::is_synchronised).
    pub fn is_synchronized(&self) -> (r: bool)
        ensures
            r == self.clock_spec().sync_spec().synchronised_spec(),
    {
        self.clock.is_synchronised()
    }

    /// Minimum one-way delay seen so far (microseconds).
    pub fn minimum_one_way_delay_usec(&self) -> (r: u32)
        requires
            self.wf(),
        ensures
            r == self.clock_spec().sync_spec().min_owd_spec(),
    {
        self.clock.minimum_one_way_delay_usec()
    }

    /// Difference between local and peer start times in milliseconds
    /// (rounded toward zero), once the peer's start time is known.
    pub fn start_delta_ms(&self) -> (r: Option<i64>)
        requires
            self.peer_spec() matches Some(p) ==> i64::MIN <= (self.clock_spec().start_spec() as i64) - (p as i64)
                <= i64::MAX,
        ensures
            r == match self.peer_spec() {
                Some(p) => Some(trunc_div((self.clock_spec().start_spec() as i64) - (p as i64), 1000) as i64),
                None => None::<i64>,
            },
    {
        match self.peer_started_at {
            None => None,
            Some(peer) => {
                let d = self.clock.started_at() as i64 - peer as i64;
                if d >= 0 {
                    Some(((d as u64) / 1000) as i64)
                } else {
                    let neg = (0 - (d as i128)) as u64;
                    Some(0 - ((neg / 1000) as i64))
                }
            },
        }
    }

    /// Remote time in milliseconds for local elapsed milliseconds `local_ms`.
    fn remote_to_local_inner(&self, local_ms: u64, owd_sign: i64) -> (r: Option<i64>)
        requires
            self.wf(),
            -1 <= owd_sign <= 1,
            self.peer_spec() matches Some(p) ==> {
                &&& self.clock_spec().start_spec() <= i64::MAX
                &&& p <= i64::MAX
                &&& i64::MIN <= round_usec_to_ms(self.remote_usec_estimate(p, local_ms as int, owd_sign as int)) <= i64::MAX
            },
        ensures
            r == match self.peer_spec() {
                Some(p) => Some(round_usec_to_ms(self.remote_usec_estimate(p, local_ms as int, owd_sign as int)) as i64),
                None => None::<i64>,
            },
    {
        let peer_started_at = match self.peer_started_at {
            Some(p) => p,
            None => return None,
        };
        let correction_usec: i64 = match self.clock.correction_usec() {
            Some(c) => c,
            None => 0,
        };
        let min_owd_usec = self.clock.minimum_one_way_delay_usec();
        let start_delta_usec: i64 = self.clock.started_at() as i64 - peer_started_at as i64;
        let remote_usec: i128 = local_ms as i128 * 1000 + start_delta_usec as i128 + correction_usec as i128
            + owd_sign as i128 * min_owd_usec as i128;
        Some(round_to_ms(remote_usec) as i64)
    }

    /// Local elapsed milliseconds for remote elapsed milliseconds `remote_time_ms`.
    fn remote_elapsed_to_local_inner(&self, remote_time_ms: u32) -> (r: Option<i64>)
        requires
            self.wf(),
            self.peer_spec() matches Some(p) ==> {
                &&& self.clock_spec().start_spec() <= i64::MAX
                &&& p <= i64::MAX
            },
        ensures
            r == match self.peer_spec() {
                Some(p) => Some(round_usec_to_ms(self.local_usec_estimate(p, remote_time_ms as int)) as i64),
                None => None::<i64>,
            },
    {
        let peer_started_at = match self.peer_started_at {
            Some(p) => p,
            None => return None,
        };
        let correction_usec: i64 = match self.clock.correction_usec() {
            Some(c) => c,
            None => 0,
        };
        let start_delta_usec: i64 = self.clock.started_at() as i64 - peer_started_at as i64;
        let remote_usec: i128 = remote_time_ms as i128 * 1000 - start_delta_usec as i128 - correction_usec as i128;
        let r = round_to_ms(remote_usec);
        assert(i64::MIN <= r <= i64::MAX);
        Some(r as i64)
    }

    /// Convert a remote elapsed time (milliseconds since peer started) to the
    /// equivalent local elapsed time.
    ///
    /// This is used for latency measurement of past events: given a remote
    /// timestamp recorded at the peer, compute the equivalent local elapsed
    /// time when that event occurred. This only accounts for the start time
    /// offset between peers and does not apply one-way delay adjustment.
    pub fn remote_elapsed_to_local(&self, remote_time_ms: u32) -> (r: Option<i64>)
        requires
            self.wf(),
            self.peer_spec() matches Some(p) ==> {
                &&& self.clock_spec().start_spec() <= i64::MAX
                &&& p <= i64::MAX
            },
        ensures
            r == match self.peer_spec() {
                Some(p) => Some(round_usec_to_ms(self.local_usec_estimate(p, remote_time_ms as int)) as i64),
                None => None::<i64>,
            },
    {
        self.remote_elapsed_to_local_inner(remote_time_ms)
    }

    /// Estimate the remote peer's current time in milliseconds, at local
    /// wall-clock time `now_usec`.
    ///
    /// `initiator` controls how the minimum one-way delay is applied:
    /// * `true` for the initiating side (client), which subtracts it
    /// * `false` for the responding side (server), which adds it
    pub fn remote_ms(&self, now_usec: u64, initiator: bool) -> (r: Option<i64>)
        requires
            self.wf(),
            self.peer_spec() matches Some(p) ==> {
                &&& self.clock_spec().start_spec() <= i64::MAX
                &&& p <= i64::MAX
                &&& i64::MIN <= round_usec_to_ms(
                    self.remote_usec_estimate(
                        p,
                        if now_usec >= self.clock_spec().start_spec() {
                            (now_usec - self.clock_spec().start_spec()) / 1000
                        } else {
                            0
                        },
                        if initiator { -1 } else { 1 },
                    ),
                ) <= i64::MAX
            },
        ensures
            r == match self.peer_spec() {
                Some(p) => Some(
                    round_usec_to_ms(
                        self.remote_usec_estimate(
                            p,
                            if now_usec >= self.clock_spec().start_spec() {
                                (now_usec - self.clock_spec().start_spec()) / 1000
                            } else {
                                0
                            },
                            if initiator { -1 } else { 1 },
                        ),
                    ) as i64,
                ),
                None => None::<i64>,
            },
    {
        let local_ms = self.clock.local_ms(now_usec);
        let owd_sign: i64 = if initiator { -1 } else { 1 };
        self.remote_to_local_inner(local_ms, owd_sign)
    }
}

impl Default for PeerClock {
    fn default() -> (r: Self)
        ensures
            r.wf(),
            r.clock_spec().start_spec() == 0,
            !r.clock_spec().sync_spec().synchronised_spec(),
            r.peer_spec() is None,
    {
        Self::new()
    }
}

/// Under symmetric delays the clock converts between the two time bases
/// exactly.  When the peer's reported minimum delta is `d + c` ticks and the
/// local one is `d - c` (one-way delays of `d` ticks each way, the peer's
/// wall clock `8c` microseconds ahead), the correction is exactly `8c`; a
/// remote elapsed time of `r` milliseconds that the peer read at the instant
/// of local elapsed time `t` microseconds converts back to exactly `t`; and
/// the remote-time estimate for local elapsed milliseconds `l` is the peer's
/// elapsed time at that instant, shifted by the one-way delay in the
/// direction `sign`.
pub proof fn lemma_symmetric_delays_exact_conversion(clock: PeerClock, peer: u64, d: int, c: int, t: int, r: int)
    requires
        clock.wf(),
        clock.peer_spec() == Some(peer),
        clock.clock_spec().sync_spec().got_peer_update_spec(),
        0 <= d < 0x40_0000,
        -0x40_0000 <= c < 0x40_0000,
        clock.clock_spec().sync_spec().peer_delta_spec()@ == wrap(d + c, m24()),
        clock.clock_spec().sync_spec().window_spec()[0].value@ == wrap(d - c, m24()),
        clock.clock_spec().sync_spec().window_spec()[0].value@ != 0,
        r * 1000 == clock.clock_spec().start_spec() + t + 8 * c - peer,
    ensures
        clock.correction_or_zero() == 8 * c,
        clock.local_usec_estimate(peer, r) == t,
        forall|l: int, sign: int|
            #[trigger] clock.remote_usec_estimate(peer, l, sign) == l * 1000 + clock.clock_spec().start_spec() + 8 * c
                - peer + sign * (8 * d),
{
    clock.lemma_wf();
    clock.clock_spec().lemma_wf();
    let sync = clock.clock_spec().sync_spec();
    lemma_estimates_from_symmetric_deltas(sync, d, c);
    let w = wrap(c, 0x80_0000) as int;
    if c >= 0 {
        vstd::arithmetic::div_mod::lemma_small_mod(c as nat, 0x80_0000);
    } else {
        vstd::arithmetic::div_mod::lemma_mod_multiples_vanish(1, c, 0x80_0000);
        vstd::arithmetic::div_mod::lemma_small_mod((c + 0x80_0000) as nat, 0x80_0000);
    }
    assert((w * 8) / 8 == w) by (nonlinear_arith);
    assert(signed_correction_usec(sync.remote_delta_spec()) == 8 * c);
}

} // verus!
