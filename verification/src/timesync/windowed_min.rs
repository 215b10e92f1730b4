//! Sliding-window minimum over 24-bit timestamp deltas.
use vstd::prelude::*;
use crate::timesync::counter::{Counter24, circ_less, wrap};
use vstd::arithmetic::div_mod::{lemma_fundamental_div_mod, lemma_fundamental_div_mod_converse};

verus! {

/// Size of the 24-bit counter space.
pub open spec fn ts24_modulus() -> nat {
    0x100_0000
}

/// `now - timestamp`, taken with 64-bit wrap-around.
pub open spec fn elapsed_since(now: u64, timestamp: u64) -> nat {
    wrap(now as int - timestamp as int, 0x1_0000_0000_0000_0000)
}

/// The zero sample an empty window holds.
pub open spec fn empty_sample() -> Sample {
    Sample { value: Counter24 { value: 0 }, timestamp: 0 }
}

/// A windowed-minimum sample: a 24-bit value and the wall-clock time at
/// which it was observed.
#[derive(Clone, Copy, Debug, Default)]
pub struct Sample {
    pub value: Counter24,
    pub timestamp: u64,
}

impl Sample {
    /// The sample is older than `timeout` at time `now`.
    pub open spec fn expired(self, now: u64, timeout: u64) -> bool {
        elapsed_since(now, self.timestamp) > timeout
    }

    #[inline]
    pub fn new(value: Counter24, timestamp: u64) -> (r: Self)
        ensures
            r.value == value,
            r.timestamp == timestamp,
    {
        Self { value, timestamp }
    }

    #[inline]
    pub fn timeout_expired(self, now: u64, timeout: u64) -> (r: bool)
        ensures
            r == self.expired(now, timeout),
    {
        now.wrapping_sub(self.timestamp) > timeout
    }
}

/// `a` is no later than `b` in circular 24-bit order.
pub open spec fn ts24_le(a: Counter24, b: Counter24) -> bool {
    !circ_less(b@ as int, a@ as int, ts24_modulus())
}

/// The three samples after the new sample `n` has been offered.
///
/// A better (circularly smaller or equal) value, an empty window, or an
/// expired third sample resets the window. Otherwise the sample replaces
/// the second and third (or only the third) slots when it beats them, the
/// slots move up when the best sample has aged out of the window, and the
/// second (third) best is promoted after a quarter (half) window without a
/// better value.
pub open spec fn updated_samples(s: Seq<Sample>, n: Sample, window: u64) -> Seq<Sample> {
    let now = n.timestamp;
    if s[0].value@ == 0 || ts24_le(n.value, s[0].value) || s[2].expired(now, window) {
        seq![n, n, n]
    } else {
        let t = if ts24_le(n.value, s[1].value) {
            seq![s[0], n, n]
        } else if ts24_le(n.value, s[2].value) {
            seq![s[0], s[1], n]
        } else {
            s
        };
        if t[0].expired(now, window) {
            if t[1].expired(now, window) {
                seq![t[2], n, n]
            } else {
                seq![t[1], t[2], n]
            }
        } else if t[1].value@ == t[0].value@ && t[1].expired(now, window / 4) {
            seq![t[0], n, n]
        } else if t[2].value@ == t[1].value@ && t[2].expired(now, window / 2) {
            seq![t[0], t[1], n]
        } else {
            t
        }
    }
}

/// Sliding-window minimum over 24-bit timestamp deltas.
///
/// Keeps three sorted samples. The best (smallest circular) value is at
/// index 0. Samples are expired based on an external wall-clock timeout.
#[derive(Clone, Debug)]
pub struct WindowedMinTS24 {
    samples: [Sample; 3],
}

impl WindowedMinTS24 {
    pub const SAMPLE_COUNT: usize = 3;

    /// The three samples, best first.
    pub closed spec fn view(&self) -> Seq<Sample> {
        self.samples@
    }

    pub proof fn lemma_len(&self)
        ensures
            self@.len() == 3,
    {
    }

    pub fn new() -> (r: Self)
        ensures
            r@ == seq![empty_sample(), empty_sample(), empty_sample()],
    {
        let zero = Counter24::new(0);
        let s = Sample::new(zero, 0);
        let r = Self { samples: [s, s, s] };
        assert(r@ =~= seq![s, s, s]);
        r
    }

    /// The window holds a measurement (its best value is nonzero).
    #[inline]
    pub fn is_valid(&self) -> (r: bool)
        ensures
            r == (self@[0].value@ != 0),
    {
        self.samples[0].value.to_unsigned() != 0
    }

    /// The best (smallest circular) value.
    #[inline]
    pub fn best(&self) -> (r: Counter24)
        ensures
            r == self@[0].value,
    {
        self.samples[0].value
    }

    /// Replace all three samples by `sample`.
    #[inline]
    pub fn reset(&mut self, sample: Sample)
        ensures
            final(self)@ == seq![sample, sample, sample],
    {
        self.samples[0] = sample;
        self.samples[1] = sample;
        self.samples[2] = sample;
        assert(self@ =~= seq![sample, sample, sample]);
    }

    /// Offer a new value observed at `timestamp`.
    pub fn update(&mut self, value: Counter24, timestamp: u64, window_length_time: u64)
        ensures
            final(self)@ == updated_samples(old(self)@, Sample { value, timestamp }, window_length_time),
    {
        let sample = Sample::new(value, timestamp);
        let ghost s = self@;

        if !self.is_valid() || value.circ_le(self.samples[0].value)
            || self.samples[2].timeout_expired(sample.timestamp, window_length_time)
        {
            self.reset(sample);
            return;
        }

        if value.circ_le(self.samples[1].value) {
            self.samples[2] = sample;
            self.samples[1] = sample;
        } else if value.circ_le(self.samples[2].value) {
            self.samples[2] = sample;
        }
        let ghost t = self@;
        assert(t =~= (if ts24_le(value, s[1].value) {
            seq![s[0], sample, sample]
        } else if ts24_le(value, s[2].value) {
            seq![s[0], s[1], sample]
        } else {
            s
        }));

        if self.samples[0].timeout_expired(sample.timestamp, window_length_time) {
            if self.samples[1].timeout_expired(sample.timestamp, window_length_time) {
                self.samples[0] = self.samples[2];
                self.samples[1] = sample;
            } else {
                self.samples[0] = self.samples[1];
                self.samples[1] = self.samples[2];
            }
            self.samples[2] = sample;
            assert(self@ =~= updated_samples(s, sample, window_length_time));
            return;
        }
        // Quarter of window has gone by without a better value - use second-best
        if self.samples[1].value.to_unsigned() == self.samples[0].value.to_unsigned()
            && self.samples[1].timeout_expired(sample.timestamp, window_length_time / 4)
        {
            self.samples[2] = sample;
            self.samples[1] = sample;
            assert(self@ =~= updated_samples(s, sample, window_length_time));
            return;
        }
        // Half the window has gone by without a better value - use third-best
        if self.samples[2].value.to_unsigned() == self.samples[1].value.to_unsigned()
            && self.samples[2].timeout_expired(sample.timestamp, window_length_time / 2)
        {
            self.samples[2] = sample;
        }
        assert(self@ =~= updated_samples(s, sample, window_length_time));
    }
}

impl Default for WindowedMinTS24 {
    fn default() -> (r: Self)
        ensures
            r@ == seq![empty_sample(), empty_sample(), empty_sample()],
    {
        Self::new()
    }
}

/// The best value after an update is always either the offered value or
/// one of the samples held before: the window never invents a value.
pub proof fn lemma_update_keeps_known_values(s: Seq<Sample>, n: Sample, window: u64)
    requires
        s.len() == 3,
    ensures
        updated_samples(s, n, window).len() == 3,
        ({
            let b = updated_samples(s, n, window)[0];
            b == n || b == s[0] || b == s[1] || b == s[2]
        }),
{
}

/// A value no later than the current best (or any value offered to an empty
/// window) becomes the best.
pub proof fn lemma_update_better_value_is_best(s: Seq<Sample>, n: Sample, window: u64)
    requires
        s.len() == 3,
        s[0].value@ == 0 || ts24_le(n.value, s[0].value),
    ensures
        updated_samples(s, n, window) == seq![n, n, n],
{
}

/// Stale measurements never survive an update in the best or the last
/// slot: after any update both lie within the window at the update's time.
pub proof fn lemma_update_keeps_best_fresh(s: Seq<Sample>, n: Sample, window: u64)
    requires
        s.len() == 3,
    ensures
        !updated_samples(s, n, window)[0].expired(n.timestamp, window),
        !updated_samples(s, n, window)[2].expired(n.timestamp, window),
{
}

/// The three samples are in circular order, best first.
pub open spec fn samples_ordered(s: Seq<Sample>) -> bool {
    &&& s.len() == 3
    &&& ts24_le(s[0].value, s[1].value)
    &&& ts24_le(s[1].value, s[2].value)
}

/// `a` and `b` lie exactly half the 24-bit space apart, where circular
/// order puts each before the other.
pub open spec fn half_apart(a: Counter24, b: Counter24) -> bool {
    wrap(a@ as int - b@ as int, ts24_modulus()) == ts24_modulus() / 2
}

/// Circular "less than" is asymmetric except between values exactly half
/// the space apart.
proof fn lemma_circ_less_asymmetric(a: int, b: int)
    requires
        circ_less(a, b, ts24_modulus()),
        wrap(a - b, ts24_modulus()) != ts24_modulus() / 2,
    ensures
        !circ_less(b, a, ts24_modulus()),
{
    let m: int = 0x100_0000;
    let x = a - b;
    lemma_fundamental_div_mod(x, m);
    let q = x / m;
    let w = x % m;
    assert(w > m / 2);
    assert(b - a == m * (-q - 1) + (m - w)) by (nonlinear_arith)
        requires
            x == m * q + w,
            x == a - b,
    ;
    lemma_fundamental_div_mod_converse(b - a, m, -q - 1, m - w);
}

/// The window keeps its three samples in circular order, best first: an
/// update of an ordered window leaves it ordered, unless the offered value
/// lies exactly half the space away from a held one (where circular order
/// is undefined).
pub proof fn lemma_update_keeps_order(s: Seq<Sample>, n: Sample, window: u64)
    requires
        samples_ordered(s),
        forall|i: int| 0 <= i < 3 ==> !half_apart(#[trigger] s[i].value, n.value),
    ensures
        samples_ordered(updated_samples(s, n, window)),
{
    let m = ts24_modulus();
    assert(!half_apart(s[0].value, n.value));
    assert(!half_apart(s[1].value, n.value));
    assert(!half_apart(s[2].value, n.value));
    if circ_less(s[0].value@ as int, n.value@ as int, m) {
        lemma_circ_less_asymmetric(s[0].value@ as int, n.value@ as int);
    }
    if circ_less(s[1].value@ as int, n.value@ as int, m) {
        lemma_circ_less_asymmetric(s[1].value@ as int, n.value@ as int);
    }
    if circ_less(s[2].value@ as int, n.value@ as int, m) {
        lemma_circ_less_asymmetric(s[2].value@ as int, n.value@ as int);
    }
}

/// `x` lies within a quarter of the 24-bit space of `b`, either way.
pub open spec fn near(b: Counter24, x: Counter24) -> bool {
    wrap(x@ as int - b@ as int, ts24_modulus()) < ts24_modulus() / 4
        || wrap(x@ as int - b@ as int, ts24_modulus()) > 3 * ts24_modulus() / 4
}

/// The signed offset of `x` from `b`, for `x` near `b`.
spec fn offset(b: Counter24, x: Counter24) -> int {
    let d = wrap(x@ as int - b@ as int, ts24_modulus());
    if d < ts24_modulus() / 4 {
        d as int
    } else {
        d - ts24_modulus()
    }
}

/// Between values near a common base, circular order is the order of
/// their offsets from that base.
proof fn lemma_near_order(b: Counter24, x: Counter24, y: Counter24)
    requires
        near(b, x),
        near(b, y),
    ensures
        ts24_le(x, y) <==> offset(b, x) <= offset(b, y),
{
    let m: int = 0x100_0000;
    let bi = b@ as int;
    let xi = x@ as int;
    let yi = y@ as int;
    let ox = offset(b, x);
    let oy = offset(b, y);
    vstd::arithmetic::div_mod::lemma_fundamental_div_mod(xi - bi, m);
    vstd::arithmetic::div_mod::lemma_fundamental_div_mod(yi - bi, m);
    let qx = (xi - bi) / m;
    let qy = (yi - bi) / m;
    let kx: int = if wrap(xi - bi, ts24_modulus()) < m / 4 { qx } else { qx + 1 };
    let ky: int = if wrap(yi - bi, ts24_modulus()) < m / 4 { qy } else { qy + 1 };
    assert(xi - bi == m * kx + ox) by (nonlinear_arith)
        requires
            xi - bi == m * qx + (xi - bi) % m,
            ox == (if (xi - bi) % m < m / 4 { (xi - bi) % m } else { (xi - bi) % m - m }),
            kx == (if (xi - bi) % m < m / 4 { qx } else { qx + 1 }),
    ;
    assert(yi - bi == m * ky + oy) by (nonlinear_arith)
        requires
            yi - bi == m * qy + (yi - bi) % m,
            oy == (if (yi - bi) % m < m / 4 { (yi - bi) % m } else { (yi - bi) % m - m }),
            ky == (if (yi - bi) % m < m / 4 { qy } else { qy + 1 }),
    ;
    assert(yi - xi == m * (ky - kx) + (oy - ox)) by (nonlinear_arith)
        requires
            xi - bi == m * kx + ox,
            yi - bi == m * ky + oy,
    ;
    assert(-m / 2 < oy - ox < m / 2);
    if oy >= ox {
        vstd::arithmetic::div_mod::lemma_fundamental_div_mod_converse(yi - xi, m, ky - kx, oy - ox);
    } else {
        assert(yi - xi == m * (ky - kx - 1) + (oy - ox + m)) by (nonlinear_arith)
            requires
                yi - xi == m * (ky - kx) + (oy - ox),
        ;
        vstd::arithmetic::div_mod::lemma_fundamental_div_mod_converse(yi - xi, m, ky - kx - 1, oy - ox + m);
    }
}

/// The best value is the minimum of what is still inside the window.
/// For an ordered, non-empty window whose samples arrived in time order,
/// with values close together (within a quarter of the 24-bit space), an
/// update at a later time leaves a best value no later than any held
/// sample that is still inside the window at that time.
#[verifier::rlimit(30)]
pub proof fn lemma_best_is_minimum_within_window(s: Seq<Sample>, n: Sample, window: u64)
    requires
        samples_ordered(s),
        s[0].value@ != 0,
        s[0].timestamp <= s[1].timestamp <= s[2].timestamp <= n.timestamp,
        near(s[0].value, s[1].value),
        near(s[0].value, s[2].value),
        near(s[0].value, n.value),
    ensures
        forall|i: int|
            0 <= i < 3 && !(#[trigger] s[i]).expired(n.timestamp, window) ==> ts24_le(
                updated_samples(s, n, window)[0].value,
                s[i].value,
            ),
{
    let b = s[0].value;
    let m = ts24_modulus();
    assert(wrap(b@ as int - b@ as int, m) == 0);
    assert(near(b, b));
    let vs = seq![s[0].value, s[1].value, s[2].value, n.value];
    assert forall|i: int, j: int| 0 <= i < 4 && 0 <= j < 4 implies (ts24_le(vs[i], vs[j]) <==> offset(b, vs[i])
        <= offset(b, vs[j])) by {
        lemma_near_order(b, vs[i], vs[j]);
    }
    assert(ts24_le(vs[0], vs[1]) <==> offset(b, vs[0]) <= offset(b, vs[1]));
    assert(ts24_le(vs[1], vs[2]) <==> offset(b, vs[1]) <= offset(b, vs[2]));
    assert(ts24_le(vs[0], vs[2]) <==> offset(b, vs[0]) <= offset(b, vs[2]));
    assert(ts24_le(vs[3], vs[0]) <==> offset(b, vs[3]) <= offset(b, vs[0]));
    assert(ts24_le(vs[3], vs[1]) <==> offset(b, vs[3]) <= offset(b, vs[1]));
    assert(ts24_le(vs[3], vs[2]) <==> offset(b, vs[3]) <= offset(b, vs[2]));
    assert(ts24_le(vs[1], vs[3]) <==> offset(b, vs[1]) <= offset(b, vs[3]));
    assert(ts24_le(vs[2], vs[3]) <==> offset(b, vs[2]) <= offset(b, vs[3]));
    assert(ts24_le(vs[0], vs[3]) <==> offset(b, vs[0]) <= offset(b, vs[3]));
    assert(ts24_le(vs[0], vs[0]) && ts24_le(vs[1], vs[1]) && ts24_le(vs[2], vs[2]) && ts24_le(vs[3], vs[3]));
    assert(ts24_le(vs[1], vs[0]) <==> offset(b, vs[1]) <= offset(b, vs[0]));
    assert(ts24_le(vs[2], vs[0]) <==> offset(b, vs[2]) <= offset(b, vs[0]));
    assert(ts24_le(vs[2], vs[1]) <==> offset(b, vs[2]) <= offset(b, vs[1]));
    // elapsed times are plain differences, and older samples have waited longer
    let now = n.timestamp;
    vstd::arithmetic::div_mod::lemma_small_mod((now - s[0].timestamp) as nat, 0x1_0000_0000_0000_0000);
    vstd::arithmetic::div_mod::lemma_small_mod((now - s[1].timestamp) as nat, 0x1_0000_0000_0000_0000);
    vstd::arithmetic::div_mod::lemma_small_mod((now - s[2].timestamp) as nat, 0x1_0000_0000_0000_0000);
    assert(elapsed_since(now, s[0].timestamp) >= elapsed_since(now, s[1].timestamp) >= elapsed_since(now, s[2].timestamp));
    assert(elapsed_since(now, n.timestamp) == 0) by {
        assert(now as int - now as int == 0);
    }
}

} // verus!
