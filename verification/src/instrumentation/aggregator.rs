//! A bounded window of latency samples kept in sorted order.
use vstd::prelude::*;
use std::collections::VecDeque;
use vstd::std_specs::iter::IteratorSpec;

verus! {

broadcast use vstd::seq_lib::group_to_multiset_ensures;

/// `s` is in non-decreasing order.
pub open spec fn is_sorted(s: Seq<u64>) -> bool {
    forall|i: int, j: int| 0 <= i <= j < s.len() ==> s[i] <= s[j]
}

/// The samples kept after inserting `x` into the window `w` of capacity
/// `capacity`: when the window is full the oldest sample is evicted first.
/// A capacity of zero keeps every sample.
pub open spec fn window_after_insert(w: Seq<u64>, capacity: usize, x: u64) -> Seq<u64> {
    if w.len() == capacity && w.len() > 0 {
        w.drop_first().push(x)
    } else {
        w.push(x)
    }
}

/// The `pct`-th percentile (`pct <= 100`) of the sorted samples `s`,
/// linearly interpolated between the two nearest ranks and rounded to the
/// nearest integer (halves up).
pub open spec fn percentile_of(s: Seq<u64>, pct: nat) -> Option<u64> {
    if s.len() == 0 {
        None
    } else {
        let num = pct * (s.len() - 1) as nat;
        let lo = num / 100;
        let rem = num % 100;
        let hi = if rem == 0 { lo } else { lo + 1 };
        Some((s[lo as int] + (rem * (s[hi as int] - s[lo as int]) + 50) / 100) as u64)
    }
}

/// Index of the first element of the sorted `v` that is not less than `x`.
fn lower_bound(v: &Vec<u64>, x: u64) -> (r: usize)
    requires
        is_sorted(v@),
    ensures
        r <= v.len(),
        forall|i: int| 0 <= i < r ==> v@[i] < x,
        forall|i: int| r <= i < v.len() ==> v@[i] >= x,
{
    let mut lo: usize = 0;
    let mut hi: usize = v.len();
    while lo < hi
        invariant
            lo <= hi <= v.len(),
            is_sorted(v@),
            forall|i: int| 0 <= i < lo ==> v@[i] < x,
            forall|i: int| hi <= i < v.len() ==> v@[i] >= x,
        decreases hi - lo,
    {
        let mid = lo + (hi - lo) / 2;
        if v[mid] < x {
            lo = mid + 1;
        } else {
            hi = mid;
        }
    }
    lo
}

/// Fixed-capacity circular buffer that maintains latency samples in
/// sorted order so percentile queries are cheap.
///
/// When the capacity is exceeded, the oldest sample is evicted and the
/// new sample is inserted in sorted position.
#[derive(Clone, Debug)]
pub struct LatencyAggregator {
    capacity: usize,
    sorted: Vec<u64>,
    ring: VecDeque<u64>,
}

impl LatencyAggregator {
    /// The samples currently held, oldest first.
    pub closed spec fn view(&self) -> Seq<u64> {
        self.ring@
    }

    pub closed spec fn capacity_spec(&self) -> usize {
        self.capacity
    }

    /// The samples currently held, in non-decreasing order.
    pub closed spec fn sorted_samples(&self) -> Seq<u64> {
        self.sorted@
    }

    /// The sorted samples are exactly the held samples, in order; a nonzero
    /// capacity bounds their number.
    pub closed spec fn wf(&self) -> bool {
        &&& is_sorted(self.sorted@)
        &&& self.sorted@.to_multiset() == self.ring@.to_multiset()
        &&& self.capacity > 0 ==> self.ring@.len() <= self.capacity
    }

    pub proof fn lemma_wf(&self)
        requires
            self.wf(),
        ensures
            is_sorted(self.sorted_samples()),
            self.sorted_samples().to_multiset() == self@.to_multiset(),
            self.sorted_samples().len() == self@.len(),
            self.capacity_spec() > 0 ==> self@.len() <= self.capacity_spec(),
    {
        assert(self.sorted@.to_multiset().len() == self.ring@.to_multiset().len());
    }

    /// The sorted samples are the one sorted arrangement of the held
    /// samples.
    pub proof fn lemma_sorted_samples_unique(&self, s: Seq<u64>)
        requires
            self.wf(),
            is_sorted(s),
            s.to_multiset() == self@.to_multiset(),
        ensures
            s == self.sorted_samples(),
    {
        let leq = |a: u64, b: u64| a <= b;
        assert(vstd::relations::sorted_by(s, leq));
        assert(vstd::relations::sorted_by(self.sorted@, leq));
        assert(vstd::relations::total_ordering(leq));
        vstd::seq_lib::lemma_sorted_unique(s, self.sorted@, leq);
    }

    /// Create a new aggregator with the given sample capacity.
    pub fn new(capacity: usize) -> (r: Self)
        ensures
            r.wf(),
            r@ == Seq::<u64>::empty(),
            r.capacity_spec() == capacity,
    {
        let r = Self { capacity, sorted: Vec::with_capacity(capacity), ring: VecDeque::with_capacity(capacity) };
        assert(r.sorted@.to_multiset() =~= r.ring@.to_multiset());
        r
    }

    /// Insert a new latency sample in milliseconds.
    ///
    /// Amortised O(N) because inserting into a sorted vector requires shifting
    /// elements to make room.
    pub fn insert(&mut self, latency_ms: u64)
        requires
            old(self).wf(),
        ensures
            final(self).wf(),
            final(self)@ == window_after_insert(old(self)@, old(self).capacity_spec(), latency_ms),
            final(self).capacity_spec() == old(self).capacity_spec(),
    {
        let ghost w = self.ring@;
        if self.ring.len() == self.capacity {
            if let Some(oldest) = self.ring.pop_front() {
                assert(self.ring@ =~= w.drop_first());
                assert(w =~= seq![oldest] + w.drop_first());
                assert(w.to_multiset().count(oldest) > 0) by {
                    assert(w.contains(oldest));
                }
                let idx = lower_bound(&self.sorted, oldest);
                proof {
                    let j = choose|j: int| 0 <= j < self.sorted@.len() && self.sorted@[j] == oldest;
                    assert(self.sorted@.contains(oldest));
                    assert(idx <= j);
                }
                if idx < self.sorted.len() && self.sorted[idx] == oldest {
                    let ghost before = self.sorted@;
                    self.sorted.remove(idx);
                    assert(self.sorted@.to_multiset() == before.to_multiset().remove(oldest));
                    assert(w.drop_first().to_multiset() == w.to_multiset().remove(oldest)) by {
                        assert(w.remove(0) =~= w.drop_first());
                    }
                }
            }
        }
        let ghost mid = self.ring@;
        let pos = lower_bound(&self.sorted, latency_ms);
        self.sorted.insert(pos, latency_ms);
        self.ring.push_back(latency_ms);
        assert(self.sorted@.to_multiset() == self.ring@.to_multiset()) by {
            assert(self.ring@ =~= mid.push(latency_ms));
        }
        assert(self.ring@ =~= window_after_insert(w, self.capacity, latency_ms));
    }

    /// Number of samples currently stored.
    #[inline]
    pub fn count(&self) -> (r: usize)
        requires
            self.wf(),
        ensures
            r == self@.len(),
    {
        proof {
            self.lemma_wf();
        }
        self.sorted.len()
    }

    /// Returns `true` if no samples have been recorded.
    #[inline]
    pub fn is_empty(&self) -> (r: bool)
        requires
            self.wf(),
        ensures
            r == (self@.len() == 0),
    {
        proof {
            self.lemma_wf();
        }
        self.sorted.len() == 0
    }

    /// Minimum observed latency in milliseconds.
    #[inline]
    pub fn min(&self) -> (r: Option<u64>)
        requires
            self.wf(),
        ensures
            r == if self@.len() == 0 {
                None::<u64>
            } else {
                Some(self.sorted_samples()[0])
            },
    {
        proof {
            self.lemma_wf();
        }
        if self.sorted.len() == 0 {
            None
        } else {
            Some(self.sorted[0])
        }
    }

    /// Maximum observed latency in milliseconds.
    #[inline]
    pub fn max(&self) -> (r: Option<u64>)
        requires
            self.wf(),
        ensures
            r == if self@.len() == 0 {
                None::<u64>
            } else {
                Some(self.sorted_samples()[self@.len() - 1])
            },
    {
        proof {
            self.lemma_wf();
        }
        let n = self.sorted.len();
        if n == 0 {
            None
        } else {
            Some(self.sorted[n - 1])
        }
    }

    /// The `pct`-th percentile in milliseconds, for `pct <= 100`.
    fn percentile_pct(&self, pct: u64) -> (r: Option<u64>)
        requires
            self.wf(),
            pct <= 100,
        ensures
            r == percentile_of(self.sorted_samples(), pct as nat),
    {
        proof {
            self.lemma_wf();
        }
        let n = self.sorted.len();
        if n == 0 {
            return None;
        }
        assert((pct as int) * ((n - 1) as int) <= 100 * 0xffff_ffff_ffff_ffff) by (nonlinear_arith)
            requires
                0 <= pct <= 100,
                1 <= n <= 0xffff_ffff_ffff_ffff,
        ;
        let num: u128 = pct as u128 * (n - 1) as u128;
        let lo: u128 = num / 100;
        let rem: u128 = num % 100;
        let hi: u128 = if rem == 0 { lo } else { lo + 1 };
        assert(lo < n) by (nonlinear_arith)
            requires
                num == pct * (n - 1),
                lo == num / 100,
                pct <= 100,
                n >= 1,
        ;
        assert(hi < n) by (nonlinear_arith)
            requires
                num == pct * (n - 1),
                lo == num / 100,
                rem == num % 100,
                rem == 0 ==> hi == lo,
                rem != 0 ==> hi == lo + 1,
                pct <= 100,
                n >= 1,
        ;
        let lower_val = self.sorted[lo as usize];
        let upper_val = self.sorted[hi as usize];
        assert(lower_val <= upper_val);
        assert((rem as int) * ((upper_val - lower_val) as int) <= 100 * 0xffff_ffff_ffff_ffff) by (nonlinear_arith)
            requires
                0 <= rem < 100,
                0 <= upper_val - lower_val <= 0xffff_ffff_ffff_ffff,
        ;
        let step: u128 = (rem * (upper_val - lower_val) as u128 + 50) / 100;
        assert(step <= upper_val - lower_val) by (nonlinear_arith)
            requires
                step == (rem * (upper_val - lower_val) + 50) / 100,
                rem < 100,
                upper_val >= lower_val,
        ;
        Some((lower_val as u128 + step) as u64)
    }

    /// The `pct`-th percentile in milliseconds, linearly interpolated
    /// between the two nearest ranks and rounded to the nearest integer:
    /// `0` gives the minimum and `100` (or more) the maximum.  `None` when
    /// there are no samples.
    pub fn percentile(&self, pct: u64) -> (r: Option<u64>)
        requires
            self.wf(),
        ensures
            r == percentile_of(self.sorted_samples(), if pct > 100 { 100 } else { pct as nat }),
            self@.len() > 0 && pct == 0 ==> r == Some(self.sorted_samples()[0]),
            self@.len() > 0 && pct >= 100 ==> r == Some(self.sorted_samples()[self@.len() - 1]),
    {
        proof {
            self.lemma_wf();
        }
        let p = if pct > 100 { 100 } else { pct };
        proof {
            let k = (self@.len() - 1) as nat;
            assert(0 * k == 0);
            assert((100 * k) / 100 == k && (100 * k) % 100 == 0) by (nonlinear_arith);
        }
        self.percentile_pct(p)
    }

    /// Median (p50) in milliseconds.
    #[inline]
    pub fn p50(&self) -> (r: Option<u64>)
        requires
            self.wf(),
        ensures
            r == percentile_of(self.sorted_samples(), 50),
    {
        self.percentile_pct(50)
    }

    /// 95th percentile in milliseconds.
    #[inline]
    pub fn p95(&self) -> (r: Option<u64>)
        requires
            self.wf(),
        ensures
            r == percentile_of(self.sorted_samples(), 95),
    {
        self.percentile_pct(95)
    }

    /// 99th percentile in milliseconds.
    #[inline]
    pub fn p99(&self) -> (r: Option<u64>)
        requires
            self.wf(),
        ensures
            r == percentile_of(self.sorted_samples(), 99),
    {
        self.percentile_pct(99)
    }

    /// Reset all samples.
    pub fn clear(&mut self)
        ensures
            final(self).wf(),
            final(self)@ == Seq::<u64>::empty(),
            final(self).capacity_spec() == old(self).capacity_spec(),
    {
        self.sorted.clear();
        self.ring.clear();
        assert(self.sorted@.to_multiset() =~= self.ring@.to_multiset());
    }

    /// Iterate over samples in insertion order (oldest first).
    #[inline]
    pub fn iter(&self) -> (r: std::collections::vec_deque::Iter<'_, u64>)
        ensures
            r.remaining() == self@.map_values(|x: u64| &x),
    {
        self.ring.iter()
    }
}

impl Default for LatencyAggregator {
    fn default() -> (r: Self)
        ensures
            r.wf(),
            r@ == Seq::<u64>::empty(),
            r.capacity_spec() == 10_000,
    {
        Self::new(10_000)
    }
}

/// The window grows by one sample per insertion until a nonzero capacity
/// is reached, and then stays at that capacity.
pub proof fn lemma_window_len(w: Seq<u64>, capacity: usize, x: u64)
    requires
        capacity > 0 ==> w.len() <= capacity,
    ensures
        window_after_insert(w, capacity, x).len() == if capacity > 0 && w.len() == capacity {
            capacity as nat
        } else {
            w.len() + 1
        },
        capacity > 0 ==> window_after_insert(w, capacity, x).len() <= capacity,
        window_after_insert(w, capacity, x).last() == x,
{
}

/// The smallest and largest held samples are held samples, and every held
/// sample lies between them.
pub proof fn lemma_min_max_bound_samples(agg: &LatencyAggregator)
    requires
        agg.wf(),
        agg@.len() > 0,
    ensures
        agg@.contains(agg.sorted_samples()[0]),
        agg@.contains(agg.sorted_samples()[agg@.len() - 1]),
        forall|i: int|
            0 <= i < agg@.len() ==> agg.sorted_samples()[0] <= #[trigger] agg@[i] <= agg.sorted_samples()[agg@.len() - 1],
{
    agg.lemma_wf();
    let s = agg.sorted_samples();
    let w = agg@;
    let n = w.len();
    assert(s.to_multiset().count(s[0]) > 0) by {
        assert(s.contains(s[0]));
    }
    assert(s.to_multiset().count(s[n - 1]) > 0) by {
        assert(s.contains(s[n - 1]));
    }
    assert(w.to_multiset().count(s[0]) > 0);
    assert(w.to_multiset().count(s[n - 1]) > 0);
    assert forall|i: int| 0 <= i < n implies s[0] <= #[trigger] w[i] <= s[n - 1] by {
        assert(w.contains(w[i]));
        assert(w.to_multiset().count(w[i]) > 0);
        assert(s.to_multiset().count(w[i]) > 0);
        assert(s.contains(w[i]));
        let j = choose|j: int| 0 <= j < s.len() && s[j] == w[i];
    }
}

/// A percentile of sorted samples lies between the smallest and the largest
/// sample.
pub proof fn lemma_percentile_within_range(s: Seq<u64>, pct: nat)
    requires
        is_sorted(s),
        s.len() > 0,
        0 < pct < 100,
    ensures
        percentile_of(s, pct) matches Some(v) && s[0] <= v <= s[s.len() - 1],
{
    let n = s.len();
    let num = pct * (n - 1) as nat;
    let lo = num / 100;
    let rem = num % 100;
    let hi = if rem == 0 { lo } else { lo + 1 };
    assert(lo < n) by (nonlinear_arith)
        requires
            num == pct * (n - 1),
            lo == num / 100,
            pct < 100,
            n >= 1,
    ;
    assert(hi < n) by (nonlinear_arith)
        requires
            num == pct * (n - 1),
            lo == num / 100,
            rem == num % 100,
            rem == 0 ==> hi == lo,
            rem != 0 ==> hi == lo + 1,
            pct < 100,
            n >= 1,
    ;
    let d = s[hi as int] - s[lo as int];
    assert(s[lo as int] <= s[hi as int]);
    assert((rem * d + 50) / 100 <= d) by (nonlinear_arith)
        requires
            rem < 100,
            d >= 0,
    ;
    assert(s[0] <= s[lo as int]);
    assert(s[hi as int] <= s[n - 1]);
}

/// The interpolated percentile, scaled by 100: the sample at the lower rank
/// plus the fraction of the step to the next one.
spec fn scaled_percentile(s: Seq<u64>, pct: nat) -> int {
    let num = pct * (s.len() - 1) as nat;
    let lo = num / 100;
    let rem = num % 100;
    let hi = if rem == 0 { lo } else { lo + 1 };
    100 * s[lo as int] + rem * (s[hi as int] - s[lo as int])
}

/// The percentile is the scaled interpolation rounded to the nearest
/// integer, and the scaled interpolation lies between 100 times the sample
/// at the lower rank and 100 times the next one.
proof fn lemma_percentile_scaled(s: Seq<u64>, pct: nat)
    requires
        is_sorted(s),
        s.len() > 0,
        0 < pct < 100,
    ensures
        percentile_of(s, pct) matches Some(v) && v == (scaled_percentile(s, pct) + 50) / 100,
        ({
            let lo = (pct * (s.len() - 1) as nat) / 100;
            &&& lo < s.len()
            &&& ((pct * (s.len() - 1) as nat) % 100 != 0 ==> lo + 1 < s.len())
            &&& 100 * s[lo as int] <= scaled_percentile(s, pct)
            &&& (lo + 1 < s.len() ==> scaled_percentile(s, pct) <= 100 * s[lo + 1int])
            &&& ((pct * (s.len() - 1) as nat) % 100 == 0 ==> scaled_percentile(s, pct) == 100 * s[lo as int])
        }),
{
    lemma_percentile_within_range(s, pct);
    let n = s.len();
    let num = pct * (n - 1) as nat;
    let lo = num / 100;
    let rem = num % 100;
    let hi = if rem == 0 { lo } else { lo + 1 };
    assert(lo < n) by (nonlinear_arith)
        requires
            num == pct * (n - 1),
            lo == num / 100,
            pct < 100,
            n >= 1,
    ;
    assert(hi < n) by (nonlinear_arith)
        requires
            num == pct * (n - 1),
            lo == num / 100,
            rem == num % 100,
            rem == 0 ==> hi == lo,
            rem != 0 ==> hi == lo + 1,
            pct < 100,
            n >= 1,
    ;
    let a = s[lo as int] as int;
    let d = s[hi as int] - s[lo as int];
    assert(s[lo as int] <= s[hi as int]);
    assert((100 * a + rem * d + 50) / 100 == a + (rem * d + 50) / 100) by (nonlinear_arith)
        requires
            rem * d + 50 >= 0,
    ;
    assert(0 <= rem * d <= 100 * d) by (nonlinear_arith)
        requires
            0 <= rem < 100,
            d >= 0,
    ;
}

/// Percentiles rise with the percentage: on the same sorted samples, a
/// higher percentage never gives a lower value.
pub proof fn lemma_percentile_monotone(s: Seq<u64>, p: nat, q: nat)
    requires
        is_sorted(s),
        s.len() > 0,
        0 < p <= q < 100,
    ensures
        percentile_of(s, p) matches Some(vp) && percentile_of(s, q) matches Some(vq) && vp <= vq,
{
    lemma_percentile_scaled(s, p);
    lemma_percentile_scaled(s, q);
    let n = s.len();
    let np = p * (n - 1) as nat;
    let nq = q * (n - 1) as nat;
    assert(np <= nq) by (nonlinear_arith)
        requires
            np == p * (n - 1),
            nq == q * (n - 1),
            p <= q,
            n >= 1,
    ;
    let lp = np / 100;
    let lq = nq / 100;
    vstd::arithmetic::div_mod::lemma_div_is_ordered(np as int, nq as int, 100);
    let sp = scaled_percentile(s, p);
    let sq = scaled_percentile(s, q);
    if lp == lq {
        let rp = np % 100;
        let rq = nq % 100;
        assert(rp <= rq) by (nonlinear_arith)
            requires
                np <= nq,
                np / 100 == nq / 100,
                rp == np % 100,
                rq == nq % 100,
        ;
        if rp != 0 {
            let d = s[lp + 1int] - s[lp as int];
            assert(s[lp as int] <= s[lp + 1int]);
            assert(rp * d <= rq * d) by (nonlinear_arith)
                requires
                    rp <= rq,
                    d >= 0,
            ;
        }
    } else {
        assert(lp + 1 <= lq);
        if np % 100 != 0 {
            assert(lp + 1 < n);
            assert(s[lp + 1int] <= s[lq as int]);
        } else {
            assert(s[lp as int] <= s[lq as int]);
        }
    }
    assert(sp <= sq);
    vstd::arithmetic::div_mod::lemma_div_is_ordered(sp + 50, sq + 50, 100);
}

/// The samples kept after inserting each of `xs` in turn, oldest first,
/// into the window `w` of capacity `capacity`.
pub open spec fn window_after_inserts(w: Seq<u64>, capacity: usize, xs: Seq<u64>) -> Seq<u64>
    decreases xs.len(),
{
    if xs.len() == 0 {
        w
    } else {
        window_after_insert(window_after_inserts(w, capacity, xs.drop_last()), capacity, xs.last())
    }
}

/// The window keeps the last `capacity` samples: after any run of
/// insertions, it holds the most recent `capacity` of the samples it held
/// and those inserted, oldest first (all of them while fewer were seen).
pub proof fn lemma_window_keeps_last(w: Seq<u64>, capacity: usize, xs: Seq<u64>)
    requires
        capacity > 0,
        w.len() <= capacity,
    ensures
        ({
            let all = w + xs;
            let start = if all.len() > capacity { all.len() - capacity } else { 0 };
            window_after_inserts(w, capacity, xs) == all.subrange(start, all.len() as int)
        }),
    decreases xs.len(),
{
    let all = w + xs;
    if xs.len() == 0 {
        assert(all =~= w);
        assert(all.subrange(0, all.len() as int) =~= w);
    } else {
        let xs1 = xs.drop_last();
        let x = xs.last();
        lemma_window_keeps_last(w, capacity, xs1);
        let all1 = w + xs1;
        let start1 = if all1.len() > capacity { all1.len() - capacity } else { 0 };
        let prev = window_after_inserts(w, capacity, xs1);
        assert(prev == all1.subrange(start1, all1.len() as int));
        assert(all =~= all1.push(x));
        if prev.len() == capacity {
            assert(window_after_inserts(w, capacity, xs) == prev.drop_first().push(x));
            assert(prev.drop_first().push(x) =~= all.subrange(start1 + 1, all.len() as int));
        } else {
            assert(start1 == 0);
            assert(window_after_inserts(w, capacity, xs) == prev.push(x));
            assert(prev.push(x) =~= all.subrange(0, all.len() as int));
        }
    }
}

} // verus!
