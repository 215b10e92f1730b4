//! The clock synchronisation algorithm: a windowed-minimum one-way-delay
//! estimator over 24-bit truncated timestamps.
use vstd::prelude::*;
use crate::timesync::counter::{
    Counter16, Counter23, Counter24, Counter64, CounterTrait, circ_less, expanded_value, expanded_value_bits, wrap,
};
use crate::timesync::windowed_min::{Sample, WindowedMinTS24, updated_samples};

verus! {

/// Default One Way Delay (OWD) to return before time sync completes.
pub const DEFAULT_OWD_USEC: u32 = 200_000;

pub const TIME_23_LOST_BITS: u32 = 3;

/// Largest 23-bit counter difference value considered positive.
pub const TIME_23_BIAS: u32 = 0x200_000;

/// Error bound for 23-bit timestamps: `<= 8*2-1 = 15` microseconds.
pub const TIME_23_ERROR_BOUND: u32 = 15;

pub const TIME_16_LOST_BITS: u32 = 9;

/// Largest 16-bit counter difference value considered positive.
pub const TIME_16_BIAS: u32 = 0x4000;

/// Error bound for 16-bit timestamps: `<= 512*2-1 = 1.023` milliseconds.
pub const TIME_16_ERROR_BOUND: u32 = 1023;

/// Window size for the windowed-minimum deltas.
/// Since clocks drift over time, old measurements must be ignored.
/// Assumes that clocks drift ~1 millisecond every 10 seconds.
pub const DRIFT_WINDOW_USEC: u64 = 10_000_000;

/// Minimum one-way delays at or above this value (2^22 ticks of 8
/// microseconds) come from a negative sum and are reported as zero.
pub const SIGN_ROLLOVER_THRESHOLD: u32 = 0x200_0000;

/// Size of the 24-bit counter space.
pub open spec fn m24() -> nat {
    0x100_0000
}

/// Minimum one-way delay in microseconds estimated from the peer's minimum
/// send delta and the local minimum receive delta: half their sum, in
/// 8-microsecond ticks, or zero where the sum rolled over.
pub open spec fn owd_estimate(min_send: Counter24, min_recv: Counter24) -> u32 {
    let usec = wrap(min_send@ as int + min_recv@ as int, m24()) / 2 * 8;
    if usec >= SIGN_ROLLOVER_THRESHOLD {
        0
    } else {
        usec as u32
    }
}

/// Offset from local to remote time in microseconds (as an unsigned 26-bit
/// value): half the difference of the minimum deltas, in 8-microsecond ticks.
pub open spec fn clock_delta_estimate(min_send: Counter24, min_recv: Counter24) -> u32 {
    (wrap(min_send@ as int - min_recv@ as int, m24()) / 2 * 8) as u32
}

/// The 24-bit datagram timestamp of a local time: the time in 8-microsecond
/// ticks, truncated to 24 bits.
pub open spec fn datagram_ts24(local_usec: u64) -> nat {
    ((local_usec / 8) as nat) % m24()
}

/// The receive delta of a datagram stamped `remote_ts` arriving at local
/// time `local_recv_usec`: local minus remote time in 24-bit ticks.
pub open spec fn datagram_delta(local_recv_usec: u64, remote_ts: nat) -> Counter24 {
    Counter24 { value: wrap(datagram_ts24(local_recv_usec) as int - remote_ts as int, m24()) as u32 }
}

/// Network time synchroniser.
///
/// Both peers keep an instance.  Outgoing packets carry a 24-bit truncated
/// local timestamp.  On receipt the delta `(local_recv - remote_send)` is fed
/// into a windowed-minimum tracker.  Peers periodically exchange their current
/// minimum delta, which allows each side to solve for clock skew and minimum
/// one-way delay.
#[derive(Clone, Debug)]
pub struct TimeSynchroniser {
    synchronised: bool,
    remote_time_delta_usec: u32,
    minimum_one_way_delay_usec: u32,
    windowed_min_ts24_deltas: WindowedMinTS24,
    last_fc_min_delta_ts24: Counter24,
    got_peer_update: bool,
}

impl TimeSynchroniser {
    /// The estimates stay within their bit widths (the one-way delay below
    /// the sign-rollover threshold, the remote delta within 26 bits), and
    /// hold their defaults until synchronisation.
    closed spec fn bounded(&self) -> bool {
        &&& self.minimum_one_way_delay_usec < SIGN_ROLLOVER_THRESHOLD
        &&& self.remote_time_delta_usec < 0x400_0000
        &&& self.windowed_min_ts24_deltas@.len() == 3
        &&& !self.synchronised ==> self.remote_time_delta_usec == 0
            && self.minimum_one_way_delay_usec == DEFAULT_OWD_USEC
        &&& !self.got_peer_update ==> !self.synchronised
    }

    /// Bounded estimates that, once the window holds a measurement and the
    /// peer has reported, are the ones derived from the two minimum deltas.
    pub closed spec fn wf(&self) -> bool {
        &&& self.bounded()
        &&& (self.windowed_min_ts24_deltas@[0].value@ != 0 && self.got_peer_update) ==> {
            &&& self.synchronised
            &&& self.remote_time_delta_usec == clock_delta_estimate(
                self.last_fc_min_delta_ts24,
                self.windowed_min_ts24_deltas@[0].value,
            )
            &&& self.minimum_one_way_delay_usec == owd_estimate(
                self.last_fc_min_delta_ts24,
                self.windowed_min_ts24_deltas@[0].value,
            )
        }
    }

    /// Whether enough data has been seen to estimate peer time.
    pub closed spec fn synchronised_spec(&self) -> bool {
        self.synchronised
    }

    pub closed spec fn remote_delta_spec(&self) -> u32 {
        self.remote_time_delta_usec
    }

    pub closed spec fn min_owd_spec(&self) -> u32 {
        self.minimum_one_way_delay_usec
    }

    /// The windowed-minimum samples of the receive deltas.
    pub closed spec fn window_spec(&self) -> Seq<Sample> {
        self.windowed_min_ts24_deltas@
    }

    /// The last minimum delta reported by the peer.
    pub closed spec fn peer_delta_spec(&self) -> Counter24 {
        self.last_fc_min_delta_ts24
    }

    pub closed spec fn got_peer_update_spec(&self) -> bool {
        self.got_peer_update
    }

    /// The estimates after recomputation: when the window holds a value and
    /// the peer has reported, they are derived from the two minimum deltas
    /// and the synchroniser is synchronised; otherwise they are unchanged.
    pub open spec fn recalculated_from(&self, prev_sync: bool, prev_delta: u32, prev_owd: u32) -> bool {
        if self.window_spec()[0].value@ != 0 && self.got_peer_update_spec() {
            &&& self.synchronised_spec()
            &&& self.remote_delta_spec() == clock_delta_estimate(self.peer_delta_spec(), self.window_spec()[0].value)
            &&& self.min_owd_spec() == owd_estimate(self.peer_delta_spec(), self.window_spec()[0].value)
        } else {
            &&& self.synchronised_spec() == prev_sync
            &&& self.remote_delta_spec() == prev_delta
            &&& self.min_owd_spec() == prev_owd
        }
    }

    /// The state after a datagram stamped `remote_ts` (24 bits) arrived at
    /// local time `local_recv_usec`, starting from `prev`, with `owd` the
    /// one-way delay reported for it: the receive delta entered the window,
    /// the estimates were recomputed, and the delay is the minimum one-way
    /// delay plus how far this delta lies above the windowed minimum (zero
    /// while unsynchronised).
    pub open spec fn probe_applied(self, prev: TimeSynchroniser, remote_ts: nat, local_recv_usec: u64, owd: u32) -> bool {
        let delta = datagram_delta(local_recv_usec, remote_ts);
        &&& self.wf()
        &&& self.window_spec() == updated_samples(
            prev.window_spec(),
            Sample { value: delta, timestamp: local_recv_usec },
            DRIFT_WINDOW_USEC,
        )
        &&& self.peer_delta_spec() == prev.peer_delta_spec()
        &&& self.got_peer_update_spec() == prev.got_peer_update_spec()
        &&& self.recalculated_from(prev.synchronised_spec(), prev.remote_delta_spec(), prev.min_owd_spec())
        &&& owd == if self.synchronised_spec() {
            self.min_owd_spec() + if circ_less(self.window_spec()[0].value@ as int, delta@ as int, m24()) {
                wrap(delta@ as int - self.window_spec()[0].value@ as int, m24()) * 8
            } else {
                0
            }
        } else {
            0
        }
    }

    /// The state after the peer reported its minimum delta `peer`, starting
    /// from `prev`: the report is recorded and the estimates recomputed.
    pub open spec fn sync_applied(self, prev: TimeSynchroniser, peer: Counter24) -> bool {
        &&& self.wf()
        &&& self.peer_delta_spec() == peer
        &&& self.got_peer_update_spec()
        &&& self.window_spec() == prev.window_spec()
        &&& self.recalculated_from(prev.synchronised_spec(), prev.remote_delta_spec(), prev.min_owd_spec())
    }

    pub proof fn lemma_wf(&self)
        requires
            self.wf(),
        ensures
            self.window_spec().len() == 3,
            self.min_owd_spec() < SIGN_ROLLOVER_THRESHOLD,
            self.remote_delta_spec() < 0x400_0000,
            !self.synchronised_spec() ==> self.remote_delta_spec() == 0 && self.min_owd_spec() == DEFAULT_OWD_USEC,
            !self.got_peer_update_spec() ==> !self.synchronised_spec(),
            self.window_spec()[0].value@ != 0 && self.got_peer_update_spec() ==> {
                &&& self.synchronised_spec()
                &&& self.remote_delta_spec() == clock_delta_estimate(self.peer_delta_spec(), self.window_spec()[0].value)
                &&& self.min_owd_spec() == owd_estimate(self.peer_delta_spec(), self.window_spec()[0].value)
            },
    {
    }

    /// Create a new, unsynchronised `TimeSynchroniser`.
    pub fn new() -> (r: Self)
        ensures
            r.wf(),
            !r.synchronised_spec(),
            r.remote_delta_spec() == 0,
            r.min_owd_spec() == DEFAULT_OWD_USEC,
            r.window_spec()[0].value@ == 0,
            r.window_spec().len() == 3,
            r.peer_delta_spec()@ == 0,
            !r.got_peer_update_spec(),
    {
        let w = WindowedMinTS24::new();
        proof {
            w.lemma_len();
        }
        Self {
            synchronised: false,
            remote_time_delta_usec: 0,
            minimum_one_way_delay_usec: DEFAULT_OWD_USEC,
            windowed_min_ts24_deltas: w,
            last_fc_min_delta_ts24: Counter24::new(0),
            got_peer_update: false,
        }
    }

    /// Call this when the peer provides its latest 24-bit `MinDeltaTS24` value.
    ///
    /// The peer should do this periodically (e.g. every 2 seconds, or more
    /// frequently during the first minute).
    pub fn on_peer_min_delta_ts24(&mut self, min_delta_ts24: Counter24)
        requires
            old(self).wf(),
        ensures
            final(self).sync_applied(*old(self), min_delta_ts24),
    {
        self.last_fc_min_delta_ts24 = min_delta_ts24;
        self.got_peer_update = true;
        self.recalculate();
    }

    /// Convert a local microsecond timestamp into the 24-bit truncated value
    /// that should be attached to every outgoing datagram.
    #[inline]
    pub fn local_time_to_datagram_ts24(local_usec: u64) -> (r: u32)
        ensures
            r == datagram_ts24(local_usec),
    {
        let shifted = local_usec >> TIME_23_LOST_BITS;
        let r = shifted & 0x00ff_ffff;
        assert(shifted == local_usec / 8) by (bit_vector)
            requires
                shifted == local_usec >> 3u32,
        ;
        assert(r == shifted % 0x100_0000) by (bit_vector)
            requires
                r == shifted & 0x00ff_ffffu64,
        ;
        r as u32
    }

    /// Call this for every incoming datagram that carries a 24-bit timestamp.
    ///
    /// Returns an estimated one-way delay (OWD) for this datagram in
    /// microseconds, or `0` if the synchroniser is not yet synchronised.
    pub fn on_authenticated_datagram_timestamp(
        &mut self,
        remote_send_ts24: Counter24,
        local_recv_usec: u64,
    ) -> (owd: u32)
        requires
            old(self).wf(),
        ensures
            final(self).probe_applied(*old(self), remote_send_ts24@, local_recv_usec, owd),
    {
        let shifted = local_recv_usec >> TIME_23_LOST_BITS;
        assert(shifted == local_recv_usec / 8) by (bit_vector)
            requires
                shifted == local_recv_usec >> 3u32,
        ;
        let local_ts24 = Counter24::new(shifted as u32);
        assert((shifted as u32) % 0x100_0000 == shifted % 0x100_0000) by (bit_vector);

        // OWD_i + ClockDelta(L-R)_i = Local Receive Time - Remote Send Time
        let delta_ts24 = local_ts24.wrapping_sub(remote_send_ts24);

        self.windowed_min_ts24_deltas.update(delta_ts24, local_recv_usec, DRIFT_WINDOW_USEC);

        self.recalculate();

        let mut network_trip_usec = 0u32;

        if self.synchronised {
            network_trip_usec = self.minimum_one_way_delay_usec;

            let min_delta_ts24 = self.windowed_min_ts24_deltas.best();
            if delta_ts24.circ_gt(min_delta_ts24) {
                let relative_ts24 = delta_ts24.wrapping_sub(min_delta_ts24);
                let rel = relative_ts24.to_unsigned();
                assert(rel << 3u32 == rel * 8) by (bit_vector)
                    requires
                        rel < 0x100_0000u32,
                ;
                network_trip_usec += rel << TIME_23_LOST_BITS;
            }
        }

        network_trip_usec
    }

    /// Return the current minimum delta (best sample from the windowed tracker).
    #[inline]
    pub fn min_delta_ts24(&self) -> (r: Counter24)
        requires
            self.wf(),
        ensures
            r == self.window_spec()[0].value,
    {
        self.windowed_min_ts24_deltas.best()
    }

    /// Return `true` if the synchroniser has enough data to estimate peer time.
    #[inline]
    pub fn is_synchronised(&self) -> (r: bool)
        ensures
            r == self.synchronised_spec(),
    {
        self.synchronised
    }

    /// Same as [`is_synchronised`](TimeSynchroniser::is_synchronised).
    #[inline]
    pub fn is_synchronized(&self) -> (r: bool)
        ensures
            r == self.synchronised_spec(),
    {
        self.synchronised
    }

    /// Get the minimum one-way delay seen so far (microseconds).
    ///
    /// This is equivalent to the shortest RTT/2 observed by any pair of
    /// packets, i.e. the average of upstream and downstream OWD; before
    /// synchronisation it is [`DEFAULT_OWD_USEC`].
    #[inline]
    pub fn minimum_one_way_delay_usec(&self) -> (r: u32)
        requires
            self.wf(),
        ensures
            r == self.min_owd_spec(),
            r < SIGN_ROLLOVER_THRESHOLD,
            !self.synchronised_spec() ==> r == DEFAULT_OWD_USEC,
    {
        self.minimum_one_way_delay_usec
    }

    /// Get the current estimated remote time delta (microseconds).
    ///
    /// This is the estimated offset from local time to remote time:
    /// `remote_time = local_time + remote_time_delta_usec`.
    /// Returns `0` if not yet synchronised.
    #[inline]
    pub fn remote_time_delta_usec(&self) -> (r: u32)
        requires
            self.wf(),
        ensures
            r == self.remote_delta_spec(),
            r < 0x400_0000,
            !self.synchronised_spec() ==> r == 0,
    {
        self.remote_time_delta_usec
    }

    /// Compress a local timestamp into a 16-bit remote-time field.
    ///
    /// Returns `None` if not yet synchronised.
    #[inline]
    pub fn to_remote_time_16(&self, local_usec: u64) -> (r: Option<u16>)
        requires
            self.wf(),
        ensures
            r == if self.synchronised_spec() {
                Some(wrap(local_usec as int / 512 + self.remote_delta_spec() as int / 512, 0x1_0000) as u16)
            } else {
                None::<u16>
            },
    {
        if !self.synchronised {
            return None;
        }
        let local_ts16 = (local_usec >> TIME_16_LOST_BITS) as u16;
        let delta_ts16 = (self.remote_time_delta_usec >> TIME_16_LOST_BITS) as u16;
        let ghost l = local_usec >> 9u32;
        let rd = self.remote_time_delta_usec;
        let ghost d = rd >> 9u32;
        assert(local_usec >> 9u32 == local_usec / 512) by (bit_vector);
        assert(rd >> 9u32 == rd / 512) by (bit_vector);
        let r = local_ts16.wrapping_add(delta_ts16);
        let ghost d64 = d as u64;
        assert(r as u64 == (l + d64) % 0x10000) by (bit_vector)
            requires
                local_ts16 == l as u16,
                delta_ts16 == d64 as u16,
                r == (if local_ts16 + delta_ts16 > 0xffff { (local_ts16 + delta_ts16 - 0x10000) as u16 } else { (local_ts16 + delta_ts16) as u16 }),
        ;
        Some(r)
    }

    /// Expand a received 16-bit remote timestamp back into a local microsecond value.
    ///
    /// `local_usec` is the local wall-clock time at which the 16-bit field was received.
    #[inline]
    pub fn from_local_time_16(local_usec: u64, timestamp16: Counter16) -> (r: u64)
        ensures
            r == (expanded_value((local_usec / 512) as nat, timestamp16@, 0x1_0000, 0x1_0000_0000_0000_0000, TIME_16_BIAS as int) as u64) << 9u64,
    {
        let shifted = local_usec >> TIME_16_LOST_BITS;
        assert(shifted == local_usec / 512) by (bit_vector)
            requires
                shifted == local_usec >> 9u32,
        ;
        let e = Counter64::expand_from_truncated_with_bias(
            Counter64::new(shifted),
            timestamp16,
            TIME_16_BIAS as i64,
        );
        e.to_unsigned() << TIME_16_LOST_BITS
    }

    /// Compress a local timestamp into a 23-bit remote-time field.
    ///
    /// Returns `None` if not yet synchronised.
    #[inline]
    pub fn to_remote_time_23(&self, local_usec: u64) -> (r: Option<u32>)
        requires
            self.wf(),
        ensures
            r == if self.synchronised_spec() {
                Some(wrap(local_usec as int / 8 + self.remote_delta_spec() as int / 8, 0x80_0000) as u32)
            } else {
                None::<u32>
            },
    {
        if !self.synchronised {
            return None;
        }
        let shifted = local_usec >> TIME_23_LOST_BITS;
        assert(shifted == local_usec / 8) by (bit_vector)
            requires
                shifted == local_usec >> 3u32,
        ;
        let rd = self.remote_time_delta_usec;
        let dshift = rd >> TIME_23_LOST_BITS;
        assert(dshift == rd / 8) by (bit_vector)
            requires
                dshift == rd >> 3u32,
        ;
        let local_ts23 = Counter23::new(shifted as u32);
        assert((shifted as u32) % 0x80_0000 == shifted % 0x80_0000) by (bit_vector);
        let delta_ts23 = Counter23::new(dshift);
        let sum = local_ts23.wrapping_add(delta_ts23);
        proof {
            vstd::arithmetic::div_mod::lemma_add_mod_noop(shifted as int, dshift as int, 0x80_0000);
        }
        Some(sum.to_unsigned())
    }

    /// Expand a received 23-bit remote timestamp back into a local microsecond value.
    ///
    /// `local_usec` is the local wall-clock time at which the 23-bit field was received.
    /// A `timestamp23` within 23 bits is expanded to the nearest matching
    /// time; any other stored value is or-ed in as it stands.
    #[inline]
    pub fn from_local_time_23(local_usec: u64, timestamp23: Counter23) -> (r: u64)
        ensures
            r == (expanded_value_bits(
                (local_usec / 8) as nat,
                timestamp23@,
                0x80_0000,
                0x1_0000_0000_0000_0000,
                TIME_23_BIAS as int,
            ) as u64) << 3u64,
            timestamp23.wf() ==> r == (expanded_value(
                (local_usec / 8) as nat,
                timestamp23@,
                0x80_0000,
                0x1_0000_0000_0000_0000,
                TIME_23_BIAS as int,
            ) as u64) << 3u64,
    {
        let shifted = local_usec >> TIME_23_LOST_BITS;
        assert(shifted == local_usec / 8) by (bit_vector)
            requires
                shifted == local_usec >> 3u32,
        ;
        let e = Counter64::expand_from_truncated_with_bias(
            Counter64::new(shifted),
            timestamp23,
            TIME_23_BIAS as i64,
        );
        e.to_unsigned() << TIME_23_LOST_BITS
    }

    fn recalculate(&mut self)
        requires
            old(self).bounded(),
        ensures
            final(self).wf(),
            final(self).window_spec() == old(self).window_spec(),
            final(self).peer_delta_spec() == old(self).peer_delta_spec(),
            final(self).got_peer_update_spec() == old(self).got_peer_update_spec(),
            final(self).recalculated_from(
                old(self).synchronised_spec(),
                old(self).remote_delta_spec(),
                old(self).min_owd_spec(),
            ),
    {
        if !self.windowed_min_ts24_deltas.is_valid() || !self.got_peer_update {
            return;
        }

        let min_recv_delta_ts24 = self.windowed_min_ts24_deltas.best();
        let min_send_delta_ts24 = self.last_fc_min_delta_ts24;

        // minOWD ~= (minSend + minRecv) / 2
        let sum = min_send_delta_ts24.wrapping_add(min_recv_delta_ts24).to_unsigned();
        let half_sum = sum >> 1u32;
        assert(half_sum == sum / 2) by (bit_vector)
            requires
                half_sum == sum >> 1u32,
        ;
        let min_owd_ts23 = Counter23::new(half_sum);

        // ClockDelta ~= (minSend - minRecv) / 2
        let diff = min_send_delta_ts24.wrapping_sub(min_recv_delta_ts24).to_unsigned();
        let half_diff = diff >> 1u32;
        assert(half_diff == diff / 2) by (bit_vector)
            requires
                half_diff == diff >> 1u32,
        ;
        let clock_delta_ts23 = Counter23::new(half_diff);

        let cd = clock_delta_ts23.to_unsigned();
        assert(cd << 3u32 == cd * 8) by (bit_vector)
            requires
                cd < 0x80_0000u32,
        ;
        self.remote_time_delta_usec = cd << TIME_23_LOST_BITS;

        let mo = min_owd_ts23.to_unsigned();
        assert(mo << 3u32 == mo * 8) by (bit_vector)
            requires
                mo < 0x80_0000u32,
        ;
        let mut min_owd_usec = mo << TIME_23_LOST_BITS;
        if min_owd_usec >= SIGN_ROLLOVER_THRESHOLD {
            min_owd_usec = 0;
        }
        self.minimum_one_way_delay_usec = min_owd_usec;

        self.synchronised = true;
    }
}

impl Default for TimeSynchroniser {
    fn default() -> (r: Self)
        ensures
            r.wf(),
            !r.synchronised_spec(),
            r.remote_delta_spec() == 0,
            r.min_owd_spec() == DEFAULT_OWD_USEC,
            r.window_spec()[0].value@ == 0,
            r.window_spec().len() == 3,
            r.peer_delta_spec()@ == 0,
            !r.got_peer_update_spec(),
    {
        Self::new()
    }
}


// ---------------------------------------------------------------------------
// Laws
// ---------------------------------------------------------------------------

/// Once synchronised, a synchroniser stays synchronised across every update.
pub proof fn lemma_synchronised_is_stable(s: TimeSynchroniser, prev_sync: bool, prev_delta: u32, prev_owd: u32)
    requires
        s.recalculated_from(prev_sync, prev_delta, prev_owd),
    ensures
        prev_sync ==> s.synchronised_spec(),
{
}

/// With equal one-way delays `d` in both directions and a clock offset `c`
/// (remote minus local, both in 8-microsecond ticks), the minimum send delta
/// is `d + c` and the minimum receive delta is `d - c`; the synchroniser then
/// recovers the delay exactly and the offset modulo 2^23 ticks.
pub proof fn lemma_symmetric_delays_estimate(d: int, c: int, min_send: Counter24, min_recv: Counter24)
    requires
        0 <= d < 0x40_0000,
        min_send@ == wrap(d + c, m24()),
        min_recv@ == wrap(d - c, m24()),
    ensures
        owd_estimate(min_send, min_recv) == d * 8,
        clock_delta_estimate(min_send, min_recv) == wrap(c, 0x80_0000) * 8,
{
    let m = 0x100_0000int;
    let h = 0x80_0000int;
    // the sum of the deltas is 2d (mod 2^24)
    vstd::arithmetic::div_mod::lemma_add_mod_noop(d + c, d - c, m);
    vstd::arithmetic::div_mod::lemma_small_mod((2 * d) as nat, m as nat);
    assert(wrap(min_send@ as int + min_recv@ as int, m24()) == 2 * d);
    // the difference is 2c (mod 2^24), which is twice c (mod 2^23)
    vstd::arithmetic::div_mod::lemma_sub_mod_noop(d + c, d - c, m);
    assert((d + c) - (d - c) == 2 * c);
    vstd::arithmetic::div_mod::lemma_fundamental_div_mod(c, h);
    let q = c / h;
    let r = c % h;
    vstd::arithmetic::div_mod::lemma_mod_bound(c, h);
    assert(2 * c == m * q + 2 * r);
    vstd::arithmetic::div_mod::lemma_mod_multiples_vanish(q, 2 * r, m);
    vstd::arithmetic::div_mod::lemma_small_mod((2 * r) as nat, m as nat);
    assert(wrap(min_send@ as int - min_recv@ as int, m24()) == 2 * r);
}

/// The drift window is ten seconds of local receive time, in microseconds:
/// once the newest sample held was received more than `DRIFT_WINDOW_USEC`
/// microseconds before a datagram arrives, that datagram's receive delta
/// becomes the minimum delta, stamped with its receive time.
pub proof fn lemma_stale_window_restarts(
    prev: TimeSynchroniser,
    next: TimeSynchroniser,
    remote_ts: nat,
    local_recv_usec: u64,
    owd: u32,
)
    requires
        prev.wf(),
        next.probe_applied(prev, remote_ts, local_recv_usec, owd),
        prev.window_spec()[2].timestamp + 10_000_000 < local_recv_usec,
    ensures
        next.window_spec()[0].value@ == wrap(datagram_ts24(local_recv_usec) as int - remote_ts as int, m24()),
        next.window_spec()[0].timestamp == local_recv_usec,
        next.window_spec()[1] == next.window_spec()[0],
        next.window_spec()[2] == next.window_spec()[0],
{
    prev.lemma_wf();
    let t = prev.window_spec()[2].timestamp;
    vstd::arithmetic::div_mod::lemma_small_mod(
        (local_recv_usec - t) as nat,
        0x1_0000_0000_0000_0000,
    );
}

/// Datagrams alone never synchronise: until the peer has reported its
/// minimum delta, a received datagram leaves the synchroniser
/// unsynchronised and is given a one-way delay of zero.
pub proof fn lemma_datagrams_alone_never_synchronise(
    prev: TimeSynchroniser,
    next: TimeSynchroniser,
    remote_ts: nat,
    local_recv_usec: u64,
    owd: u32,
)
    requires
        prev.wf(),
        !prev.got_peer_update_spec(),
        next.probe_applied(prev, remote_ts, local_recv_usec, owd),
    ensures
        !next.got_peer_update_spec(),
        !next.synchronised_spec(),
        owd == 0,
{
    next.lemma_wf();
}

/// Whenever the peer's reported minimum delta is `d + c` ticks and the
/// local one is `d - c` (one-way delays of `d` ticks each way, the remote
/// clock `c` ticks ahead), the synchroniser is synchronised and its estimates
/// are exactly the delay (`8d` microseconds) and the offset (`8c`
/// microseconds, as a 26-bit unsigned value).  A local minimum delta of zero
/// reads as an empty window and is left out.
pub proof fn lemma_estimates_from_symmetric_deltas(s: TimeSynchroniser, d: int, c: int)
    requires
        s.wf(),
        s.got_peer_update_spec(),
        0 <= d < 0x40_0000,
        s.peer_delta_spec()@ == wrap(d + c, m24()),
        s.window_spec()[0].value@ == wrap(d - c, m24()),
        s.window_spec()[0].value@ != 0,
    ensures
        s.synchronised_spec(),
        s.min_owd_spec() == d * 8,
        s.remote_delta_spec() == wrap(c, 0x80_0000) * 8,
{
    s.lemma_wf();
    lemma_symmetric_delays_estimate(d, c, s.peer_delta_spec(), s.window_spec()[0].value);
}

/// A 23-bit remote timestamp expands back to the full 8-microsecond-tick time
/// `x / 8` whenever that time lies within `[-0x60_0000, 0x20_0000)` ticks of
/// the receiver's local time.
pub proof fn lemma_time23_roundtrip(local_usec: u64, x: u64)
    requires
        -0x60_0000 <= ((x / 8) as int - (local_usec / 8) as int) < 0x20_0000,
    ensures
        expanded_value((local_usec / 8) as nat, ((x / 8) as nat) % 0x80_0000, 0x80_0000, 0x1_0000_0000_0000_0000, TIME_23_BIAS as int)
            == (x / 8) as nat,
{
    let r = (local_usec / 8) as nat;
    let t = (x / 8) as int - (local_usec / 8) as int;
    crate::timesync::counter::lemma_expand_roundtrip(r, t, 0x80_0000, 0x1_0000_0000_0000_0000, TIME_23_BIAS as int);
    vstd::arithmetic::div_mod::lemma_small_mod((x / 8) as nat, 0x1_0000_0000_0000_0000);
}

/// A 16-bit remote timestamp expands back to the full 512-microsecond-tick
/// time `x / 512` whenever that time lies within `[-0xC000, 0x4000)` ticks of
/// the receiver's local time.
pub proof fn lemma_time16_roundtrip(local_usec: u64, x: u64)
    requires
        -0xC000 <= ((x / 512) as int - (local_usec / 512) as int) < 0x4000,
    ensures
        expanded_value((local_usec / 512) as nat, ((x / 512) as nat) % 0x1_0000, 0x1_0000, 0x1_0000_0000_0000_0000, TIME_16_BIAS as int)
            == (x / 512) as nat,
{
    let r = (local_usec / 512) as nat;
    let t = (x / 512) as int - (local_usec / 512) as int;
    crate::timesync::counter::lemma_expand_roundtrip(r, t, 0x1_0000, 0x1_0000_0000_0000_0000, TIME_16_BIAS as int);
    vstd::arithmetic::div_mod::lemma_small_mod((x / 512) as nat, 0x1_0000_0000_0000_0000);
}

} // verus!
