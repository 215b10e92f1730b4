//! Fixed-bit-width counters with rollover-safe arithmetic and comparison.
use vstd::prelude::*;
use vstd::arithmetic::div_mod::{
    lemma_fundamental_div_mod, lemma_mod_bound, lemma_mod_mod, lemma_small_mod,
    lemma_mod_multiples_vanish, lemma_fundamental_div_mod_converse,
};
use vstd::arithmetic::power2::{pow2, lemma_pow2_unfold, lemma_pow2_adds, lemma_pow2_pos, lemma_pow2_strictly_increases, lemma2_to64};
use vstd::arithmetic::mul::lemma_mul_strictly_positive;

verus! {

// ---------------------------------------------------------------------------
// Modular helpers used throughout the specifications
// ---------------------------------------------------------------------------

/// `x` reduced into `[0, m)` (Euclidean remainder).
pub open spec fn wrap(x: int, m: nat) -> nat {
    (x % (m as int)) as nat
}

/// Circular "less than" on a counter space of size `m`: `a` is behind `b`
/// when the forward distance from `b` to `a` is at least half the space.
pub open spec fn circ_less(a: int, b: int, m: nat) -> bool {
    wrap(a - b, m) >= m / 2
}

/// Adjustment (a multiple of the smaller counter space, `2 * msb`) that the
/// expansion applies when the truncated value lies on the other side of a
/// rollover from the reference value.
pub open spec fn expand_adjustment(recent_low: int, small: int, msb: int, bias: int) -> int {
    if recent_low < small {
        if small - recent_low >= msb - bias {
            -2 * msb
        } else {
            0
        }
    } else {
        if recent_low - small > msb + bias {
            2 * msb
        } else {
            0
        }
    }
}

/// Value produced by expanding the truncated counter `small` (space `small_m`)
/// into a counter of space `m`, using `recent` as the reference value.
pub open spec fn expanded_value(recent: nat, small: nat, small_m: nat, m: nat, bias: int) -> nat {
    let recent_low = recent % small_m;
    wrap(recent - recent_low + small + expand_adjustment(recent_low as int, small as int, (small_m / 2) as int, bias), m)
}

/// The expansion as computed on the stored bits, for any stored value of
/// the smaller counter: the high bits of `recent` or-ed with `small`, then
/// moved by one smaller counter space when `small` (read as a signed 64-bit
/// value) lies on the other side of a rollover from the low bits of
/// `recent`.  For a value within the smaller counter space this is
/// [`expanded_value`].
pub open spec fn expanded_value_bits(recent: nat, small: nat, small_m: nat, m: nat, bias: int) -> nat {
    let combined = ((recent as u64) & !((small_m - 1) as u64)) | (small as u64);
    let low = recent % small_m;
    wrap(
        combined as int + expand_adjustment(low as int, ((small as u64) as i64) as int, (small_m / 2) as int, bias),
        m,
    )
}

// ---------------------------------------------------------------------------
// Storage types
// ---------------------------------------------------------------------------

/// Primitive unsigned type that can back a [`Counter`].
pub trait CounterStorage: Copy + core::fmt::Debug + Default + PartialEq + Eq + PartialOrd + Ord + core::hash::Hash {
    /// Size of the value space of the storage type (`2^width`).
    spec fn storage_modulus() -> nat;

    /// The stored value as a natural number.
    spec fn as_nat(self) -> nat;

    /// The storage value holding `n` (for `n` in range).
    spec fn from_nat(n: nat) -> Self;

    proof fn lemma_storage(self)
        ensures
            self.as_nat() < Self::storage_modulus(),
            Self::from_nat(self.as_nat()) == self,
            2 <= Self::storage_modulus() <= 0x1_0000_0000_0000_0000,
    ;

    proof fn lemma_from_nat(n: nat)
        requires
            n < Self::storage_modulus(),
        ensures
            Self::from_nat(n).as_nat() == n,
    ;

    /// Or-ing two values of the storage width stays within it.
    proof fn lemma_or_bound(x: u64, y: u64)
        requires
            x < Self::storage_modulus(),
            y < Self::storage_modulus(),
        ensures
            (x | y) < Self::storage_modulus(),
    ;

    fn to_u64(self) -> (r: u64)
        ensures
            r == self.as_nat(),
    ;

    fn from_u64(v: u64) -> (r: Self)
        requires
            v < Self::storage_modulus(),
        ensures
            r.as_nat() == v,
    ;

    fn wrapping_add(self, other: Self) -> (r: Self)
        ensures
            r.as_nat() == wrap(self.as_nat() as int + other.as_nat() as int, Self::storage_modulus()),
    ;

    fn wrapping_sub(self, other: Self) -> (r: Self)
        ensures
            r.as_nat() == wrap(self.as_nat() as int - other.as_nat() as int, Self::storage_modulus()),
    ;
}

impl CounterStorage for u8 {
    open spec fn storage_modulus() -> nat {
        0x100
    }

    open spec fn as_nat(self) -> nat {
        self as nat
    }

    open spec fn from_nat(n: nat) -> u8 {
        n as u8
    }

    proof fn lemma_storage(self) {
    }

    proof fn lemma_from_nat(n: nat) {
    }

    proof fn lemma_or_bound(x: u64, y: u64) {
        assert((x | y) < 0x100u64) by (bit_vector)
            requires
                x < 0x100u64,
                y < 0x100u64,
        ;
    }

    fn to_u64(self) -> (r: u64) {
        self as u64
    }

    fn from_u64(v: u64) -> (r: u8) {
        v as u8
    }

    fn wrapping_add(self, other: u8) -> (r: u8) {
        u8::wrapping_add(self, other)
    }

    fn wrapping_sub(self, other: u8) -> (r: u8) {
        u8::wrapping_sub(self, other)
    }
}

impl CounterStorage for u16 {
    open spec fn storage_modulus() -> nat {
        0x1_0000
    }

    open spec fn as_nat(self) -> nat {
        self as nat
    }

    open spec fn from_nat(n: nat) -> u16 {
        n as u16
    }

    proof fn lemma_storage(self) {
    }

    proof fn lemma_from_nat(n: nat) {
    }

    proof fn lemma_or_bound(x: u64, y: u64) {
        assert((x | y) < 0x1_0000u64) by (bit_vector)
            requires
                x < 0x1_0000u64,
                y < 0x1_0000u64,
        ;
    }

    fn to_u64(self) -> (r: u64) {
        self as u64
    }

    fn from_u64(v: u64) -> (r: u16) {
        v as u16
    }

    fn wrapping_add(self, other: u16) -> (r: u16) {
        u16::wrapping_add(self, other)
    }

    fn wrapping_sub(self, other: u16) -> (r: u16) {
        u16::wrapping_sub(self, other)
    }
}

impl CounterStorage for u32 {
    open spec fn storage_modulus() -> nat {
        0x1_0000_0000
    }

    open spec fn as_nat(self) -> nat {
        self as nat
    }

    open spec fn from_nat(n: nat) -> u32 {
        n as u32
    }

    proof fn lemma_storage(self) {
    }

    proof fn lemma_from_nat(n: nat) {
    }

    proof fn lemma_or_bound(x: u64, y: u64) {
        assert((x | y) < 0x1_0000_0000u64) by (bit_vector)
            requires
                x < 0x1_0000_0000u64,
                y < 0x1_0000_0000u64,
        ;
    }

    fn to_u64(self) -> (r: u64) {
        self as u64
    }

    fn from_u64(v: u64) -> (r: u32) {
        v as u32
    }

    fn wrapping_add(self, other: u32) -> (r: u32) {
        u32::wrapping_add(self, other)
    }

    fn wrapping_sub(self, other: u32) -> (r: u32) {
        u32::wrapping_sub(self, other)
    }
}

impl CounterStorage for u64 {
    open spec fn storage_modulus() -> nat {
        0x1_0000_0000_0000_0000
    }

    open spec fn as_nat(self) -> nat {
        self as nat
    }

    open spec fn from_nat(n: nat) -> u64 {
        n as u64
    }

    proof fn lemma_storage(self) {
    }

    proof fn lemma_from_nat(n: nat) {
    }

    proof fn lemma_or_bound(x: u64, y: u64) {
    }

    fn to_u64(self) -> (r: u64) {
        self
    }

    fn from_u64(v: u64) -> (r: u64) {
        v
    }

    fn wrapping_add(self, other: u64) -> (r: u64) {
        u64::wrapping_add(self, other)
    }

    fn wrapping_sub(self, other: u64) -> (r: u64) {
        u64::wrapping_sub(self, other)
    }
}

// ---------------------------------------------------------------------------
// Bit-width parameters
// ---------------------------------------------------------------------------

/// Bit width and storage of a [`Counter`].
pub trait CounterParams: Copy + core::fmt::Debug + Default {
    type Storage: CounterStorage;

    spec fn spec_bits() -> nat;

    /// Size of the counter space, `2^bits`.
    spec fn modulus() -> nat;

    proof fn lemma_params()
        ensures
            1 <= Self::spec_bits() <= 64,
            Self::modulus() == pow2(Self::spec_bits()),
            2 <= Self::modulus() <= Self::Storage::storage_modulus(),
            Self::Storage::storage_modulus() % Self::modulus() == 0,
            Self::modulus() % 2 == 0,
    ;

    /// Masking with the low-bits mask is reduction modulo the counter space,
    /// and clearing those bits then or-ing in a small value is addition.
    proof fn lemma_mask(x: u64, s: u64)
        requires
            s < Self::modulus(),
        ensures
            (x & ((Self::modulus() - 1) as u64)) as int == (x as int) % (Self::modulus() as int),
            ((x & !((Self::modulus() - 1) as u64)) | s) as int == x as int - (x as int) % (Self::modulus() as int) + s as int,
    ;

    fn bits() -> (b: u32)
        ensures
            b == Self::spec_bits(),
    ;

    fn mask() -> (m: Self::Storage)
        ensures
            m.as_nat() == Self::modulus() - 1,
    ;

    fn msb() -> (m: Self::Storage)
        ensures
            m.as_nat() == Self::modulus() / 2,
    ;
}

/// Parameters of an 8-bit counter.
#[derive(Clone, Copy, Debug, Default, PartialEq, Eq, PartialOrd, Ord, Hash)]
pub struct P8;

/// Parameters of a 16-bit counter.
#[derive(Clone, Copy, Debug, Default, PartialEq, Eq, PartialOrd, Ord, Hash)]
pub struct P16;

/// Parameters of a 23-bit counter.
#[derive(Clone, Copy, Debug, Default, PartialEq, Eq, PartialOrd, Ord, Hash)]
pub struct P23;

/// Parameters of a 24-bit counter.
#[derive(Clone, Copy, Debug, Default, PartialEq, Eq, PartialOrd, Ord, Hash)]
pub struct P24;

/// Parameters of a 64-bit counter.
#[derive(Clone, Copy, Debug, Default, PartialEq, Eq, PartialOrd, Ord, Hash)]
pub struct P64;

impl CounterParams for P8 {
    type Storage = u8;

    open spec fn spec_bits() -> nat {
        8
    }

    open spec fn modulus() -> nat {
        0x100
    }

    proof fn lemma_params() {
        lemma2_to64();
    }

    proof fn lemma_mask(x: u64, s: u64) {
        assert(x & 0xffu64 == x % 0x100) by (bit_vector);
        assert(s < 0x100 ==> (x & !0xffu64) | s == x - x % 0x100 + s) by (bit_vector);
    }

    fn bits() -> (b: u32) {
        8
    }

    fn mask() -> (m: u8) {
        0xff
    }

    fn msb() -> (m: u8) {
        0x80
    }
}

impl CounterParams for P16 {
    type Storage = u16;

    open spec fn spec_bits() -> nat {
        16
    }

    open spec fn modulus() -> nat {
        0x1_0000
    }

    proof fn lemma_params() {
        lemma2_to64();
    }

    proof fn lemma_mask(x: u64, s: u64) {
        assert(x & 0xffffu64 == x % 0x10000) by (bit_vector);
        assert(s < 0x10000 ==> (x & !0xffffu64) | s == x - x % 0x10000 + s) by (bit_vector);
    }

    fn bits() -> (b: u32) {
        16
    }

    fn mask() -> (m: u16) {
        0xffff
    }

    fn msb() -> (m: u16) {
        0x8000
    }
}

impl CounterParams for P23 {
    type Storage = u32;

    open spec fn spec_bits() -> nat {
        23
    }

    open spec fn modulus() -> nat {
        0x80_0000
    }

    proof fn lemma_params() {
        lemma2_to64();
    }

    proof fn lemma_mask(x: u64, s: u64) {
        assert(x & 0x7f_ffffu64 == x % 0x80_0000) by (bit_vector);
        assert(s < 0x80_0000 ==> (x & !0x7f_ffffu64) | s == x - x % 0x80_0000 + s) by (bit_vector);
    }

    fn bits() -> (b: u32) {
        23
    }

    fn mask() -> (m: u32) {
        0x7f_ffff
    }

    fn msb() -> (m: u32) {
        0x40_0000
    }
}

impl CounterParams for P24 {
    type Storage = u32;

    open spec fn spec_bits() -> nat {
        24
    }

    open spec fn modulus() -> nat {
        0x100_0000
    }

    proof fn lemma_params() {
        lemma2_to64();
        assert(<u32 as CounterStorage>::storage_modulus() == 0x1_0000_0000);
        assert(Self::Storage::storage_modulus() == 0x1_0000_0000);
    }

    proof fn lemma_mask(x: u64, s: u64) {
        assert(x & 0xff_ffffu64 == x % 0x100_0000) by (bit_vector);
        assert(s < 0x100_0000 ==> (x & !0xff_ffffu64) | s == x - x % 0x100_0000 + s) by (bit_vector);
    }

    fn bits() -> (b: u32) {
        24
    }

    fn mask() -> (m: u32) {
        0xff_ffff
    }

    fn msb() -> (m: u32) {
        0x80_0000
    }
}

impl CounterParams for P64 {
    type Storage = u64;

    open spec fn spec_bits() -> nat {
        64
    }

    open spec fn modulus() -> nat {
        0x1_0000_0000_0000_0000
    }

    proof fn lemma_params() {
        lemma2_to64();
    }

    proof fn lemma_mask(x: u64, s: u64) {
        assert(x & 0xffff_ffff_ffff_ffffu64 == x) by (bit_vector);
        assert((x & !0xffff_ffff_ffff_ffffu64) | s == s) by (bit_vector);
        lemma_small_mod(x as nat, 0x1_0000_0000_0000_0000);
    }

    fn bits() -> (b: u32) {
        64
    }

    fn mask() -> (m: u64) {
        0xffff_ffff_ffff_ffff
    }

    fn msb() -> (m: u64) {
        0x8000_0000_0000_0000
    }
}

// ---------------------------------------------------------------------------
// The counter
// ---------------------------------------------------------------------------

/// Fixed-bit-width counter with rollover-safe arithmetic and comparison.
#[derive(Clone, Copy, Debug, Default, PartialEq, Eq, PartialOrd, Ord, Hash)]
pub struct Counter<P: CounterParams> {
    pub value: P::Storage,
}

/// 8-bit counter.
pub type Counter8 = Counter<P8>;

/// 16-bit counter.
pub type Counter16 = Counter<P16>;

/// 23-bit counter.
pub type Counter23 = Counter<P23>;

/// 24-bit counter.
pub type Counter24 = Counter<P24>;

/// 64-bit counter.
pub type Counter64 = Counter<P64>;

impl Counter<P8> {
    pub const BITS: u32 = 8;
    pub const MASK: u8 = 0xff;
    pub const MSB: u8 = 0x80;
}

impl Counter<P16> {
    pub const BITS: u32 = 16;
    pub const MASK: u16 = 0xffff;
    pub const MSB: u16 = 0x8000;
}

impl Counter<P23> {
    pub const BITS: u32 = 23;
    pub const MASK: u32 = 0x7f_ffff;
    pub const MSB: u32 = 0x40_0000;
}

impl Counter<P24> {
    pub const BITS: u32 = 24;
    pub const MASK: u32 = 0xff_ffff;
    pub const MSB: u32 = 0x80_0000;
}

impl Counter<P64> {
    pub const BITS: u32 = 64;
    pub const MASK: u64 = 0xffff_ffff_ffff_ffff;
    pub const MSB: u64 = 0x8000_0000_0000_0000;
}

proof fn lemma_wrap_storage<P: CounterParams>(x: int)
    ensures
        wrap(wrap(x, P::Storage::storage_modulus()) as int, P::modulus()) == wrap(x, P::modulus()),
{
    P::lemma_params();
    let m = P::modulus() as int;
    let w = P::Storage::storage_modulus() as int;
    let k = w / m;
    lemma_fundamental_div_mod(w, m);
    assert(w == m * k);
    assert(k > 0) by (nonlinear_arith)
        requires
            w == m * k,
            w > 0,
            m > 0,
    ;
    lemma_mod_mod(x, m, k);
}

impl<P: CounterParams> Counter<P> {
    /// The counter value as a natural number.
    pub open spec fn view(self) -> nat {
        self.value.as_nat()
    }

    /// The value lies within the counter's bit width.
    pub open spec fn wf(self) -> bool {
        self@ < P::modulus()
    }

    /// Builds a counter, keeping the low `bits` of `value`.
    #[inline]
    pub fn new(value: P::Storage) -> (r: Self)
        ensures
            r@ == value.as_nat() % P::modulus(),
            r.wf(),
    {
        proof {
            P::lemma_params();
            value.lemma_storage();
        }
        let v = value.to_u64();
        let m = P::mask().to_u64();
        let masked = v & m;
        proof {
            P::lemma_mask(v, 0);
            lemma_mod_bound(v as int, P::modulus() as int);
        }
        Counter { value: P::Storage::from_u64(masked) }
    }

    /// The stored unsigned value.
    #[inline]
    pub fn to_unsigned(self) -> (r: P::Storage)
        ensures
            r == self.value,
    {
        self.value
    }

    /// Addition modulo `2^bits`.
    #[inline]
    pub fn wrapping_add(self, other: Self) -> (r: Self)
        ensures
            r@ == wrap(self@ as int + other@ as int, P::modulus()),
            r.wf(),
    {
        let sum = self.value.wrapping_add(other.value);
        proof {
            lemma_wrap_storage::<P>(self@ as int + other@ as int);
        }
        Self::new(sum)
    }

    /// Subtraction modulo `2^bits`.
    #[inline]
    pub fn wrapping_sub(self, other: Self) -> (r: Self)
        ensures
            r@ == wrap(self@ as int - other@ as int, P::modulus()),
            r.wf(),
    {
        let diff = self.value.wrapping_sub(other.value);
        proof {
            lemma_wrap_storage::<P>(self@ as int - other@ as int);
        }
        Self::new(diff)
    }

    /// Circular less-than: `self` is considered smaller than `other` if
    /// the forward distance from `self` to `other` is more than half the
    /// counter space.
    #[inline]
    pub fn circ_lt(self, other: Self) -> (r: bool)
        ensures
            r == circ_less(self@ as int, other@ as int, P::modulus()),
    {
        let d = self.wrapping_sub(other).value;
        d.to_u64() >= P::msb().to_u64()
    }

    #[inline]
    pub fn circ_gt(self, other: Self) -> (r: bool)
        ensures
            r == circ_less(other@ as int, self@ as int, P::modulus()),
    {
        other.circ_lt(self)
    }

    #[inline]
    pub fn circ_le(self, other: Self) -> (r: bool)
        ensures
            r == !circ_less(other@ as int, self@ as int, P::modulus()),
    {
        !self.circ_gt(other)
    }

    #[inline]
    pub fn circ_ge(self, other: Self) -> (r: bool)
        ensures
            r == !circ_less(self@ as int, other@ as int, P::modulus()),
    {
        !self.circ_lt(other)
    }
}


impl<P: CounterParams> core::ops::Add for Counter<P> {
    type Output = Self;

    #[inline]
    fn add(self, rhs: Self) -> (r: Self) {
        let r = self.wrapping_add(rhs);
        proof {
            r.value.lemma_storage();
        }
        r
    }
}

impl<P: CounterParams> vstd::std_specs::ops::AddSpecImpl for Counter<P> {
    open spec fn obeys_add_spec() -> bool {
        true
    }

    open spec fn add_req(self, rhs: Self) -> bool {
        true
    }

    open spec fn add_spec(self, rhs: Self) -> Self {
        Counter { value: P::Storage::from_nat(wrap(self@ as int + rhs@ as int, P::modulus())) }
    }
}

impl<P: CounterParams> core::ops::Sub for Counter<P> {
    type Output = Self;

    #[inline]
    fn sub(self, rhs: Self) -> (r: Self) {
        let r = self.wrapping_sub(rhs);
        proof {
            r.value.lemma_storage();
        }
        r
    }
}

impl<P: CounterParams> vstd::std_specs::ops::SubSpecImpl for Counter<P> {
    open spec fn obeys_sub_spec() -> bool {
        true
    }

    open spec fn sub_req(self, rhs: Self) -> bool {
        true
    }

    open spec fn sub_spec(self, rhs: Self) -> Self {
        Counter { value: P::Storage::from_nat(wrap(self@ as int - rhs@ as int, P::modulus())) }
    }
}

/// Counter metadata shared by differently-sized counter types, so generic
/// code can work across them without naming their storage types.
pub trait CounterTrait: Copy {
    spec fn counter_bits() -> nat;

    /// Size of the counter space, `2^bits`.
    spec fn counter_modulus() -> nat;

    spec fn counter_value(self) -> nat;

    proof fn lemma_counter()
        ensures
            1 <= Self::counter_bits() <= 64,
            Self::counter_modulus() == pow2(Self::counter_bits()),
            Self::counter_modulus() % 2 == 0,
    ;

    proof fn lemma_counter_mask(x: u64, s: u64)
        requires
            s < Self::counter_modulus(),
        ensures
            (x & ((Self::counter_modulus() - 1) as u64)) as int == (x as int) % (Self::counter_modulus() as int),
            ((x & !((Self::counter_modulus() - 1) as u64)) | s) as int == x as int - (x as int) % (Self::counter_modulus() as int) + s as int,
    ;

    fn bits() -> (b: u32)
        ensures
            b == Self::counter_bits(),
    ;

    fn mask_u64() -> (m: u64)
        ensures
            m == Self::counter_modulus() - 1,
    ;

    fn msb_u64() -> (m: u64)
        ensures
            m == Self::counter_modulus() / 2,
    ;

    fn to_u64(self) -> (r: u64)
        ensures
            r == self.counter_value(),
    ;
}

impl<P: CounterParams> CounterTrait for Counter<P> {
    open spec fn counter_bits() -> nat {
        P::spec_bits()
    }

    open spec fn counter_modulus() -> nat {
        P::modulus()
    }

    open spec fn counter_value(self) -> nat {
        self@
    }

    proof fn lemma_counter() {
        P::lemma_params();
    }

    proof fn lemma_counter_mask(x: u64, s: u64) {
        P::lemma_mask(x, s);
    }

    #[inline]
    fn bits() -> (b: u32) {
        P::bits()
    }

    #[inline]
    fn mask_u64() -> (m: u64) {
        P::mask().to_u64()
    }

    #[inline]
    fn msb_u64() -> (m: u64) {
        P::msb().to_u64()
    }

    #[inline]
    fn to_u64(self) -> (r: u64) {
        self.value.to_u64()
    }
}

/// A smaller counter space divides a larger one and fits at least twice.
proof fn lemma_smaller_space(small_bits: nat, small_m: nat, bits: nat, m: nat)
    requires
        1 <= small_bits < bits <= 64,
        small_m == pow2(small_bits),
        m == pow2(bits),
    ensures
        m % small_m == 0,
        small_m * 2 <= m,
        small_m <= 0x8000_0000_0000_0000,
{
    let d = (bits - small_bits) as nat;
    lemma_pow2_adds(small_bits, d);
    lemma_pow2_pos(d);
    lemma_pow2_pos(small_bits);
    lemma_pow2_strictly_increases(0, d);
    lemma2_to64();
    lemma_pow2_unfold(64);
    assert(m == small_m * pow2(d));
    lemma_fundamental_div_mod_converse(m as int, small_m as int, pow2(d) as int, 0);
    assert(small_m * 2 <= small_m * pow2(d)) by (nonlinear_arith)
        requires
            pow2(d) >= 2,
            small_m > 0,
    ;
    if small_bits < 63 {
        lemma_pow2_strictly_increases(small_bits, 63);
    }
}

impl<P: CounterParams> Counter<P> {
    /// Expand a smaller counter into this larger counter type using a
    /// recent reference value and an optional bias.
    ///
    /// For a smaller counter within its bit width, the result carries it in
    /// its low bits and lies within `[-(msb + bias), msb - bias)` of
    /// `recent`, where `msb` is half the smaller counter space.  Any other
    /// stored value is or-ed in as it stands.
    pub fn expand_from_truncated_with_bias<Smaller: CounterTrait>(
        recent: Self,
        smaller: Smaller,
        bias: i64,
    ) -> (r: Self)
        requires
            Smaller::counter_bits() < P::spec_bits(),
            smaller.counter_value() < P::Storage::storage_modulus(),
            i64::MIN <= Smaller::counter_modulus() / 2 - bias <= i64::MAX,
            i64::MIN <= Smaller::counter_modulus() / 2 + bias <= i64::MAX,
            (recent@ % Smaller::counter_modulus()) as int - ((smaller.counter_value() as u64) as i64) as int
                <= i64::MAX,
        ensures
            r@ == expanded_value_bits(
                recent@,
                smaller.counter_value(),
                Smaller::counter_modulus(),
                P::modulus(),
                bias as int,
            ),
            smaller.counter_value() < Smaller::counter_modulus() ==> r@ == expanded_value(
                recent@,
                smaller.counter_value(),
                Smaller::counter_modulus(),
                P::modulus(),
                bias as int,
            ),
            r.wf(),
    {
        proof {
            Smaller::lemma_counter();
            P::lemma_params();
            lemma_smaller_space(Smaller::counter_bits(), Smaller::counter_modulus(), P::spec_bits(), P::modulus());
            recent.value.lemma_storage();
        }
        let ghost small_m = Smaller::counter_modulus() as int;
        let ghost m = P::modulus() as int;
        let ghost rv = recent@ as int;

        let smaller_mask: u64 = Smaller::mask_u64();
        let smaller_msb: u64 = Smaller::msb_u64();
        let smaller_unsigned: u64 = smaller.to_u64();
        let recent_u64: u64 = recent.value.to_u64();

        let high: u64 = recent_u64 & !smaller_mask;
        let combined: u64 = high | smaller_unsigned;
        proof {
            assert(high <= recent_u64) by (bit_vector)
                requires
                    high == recent_u64 & !smaller_mask,
            ;
            P::Storage::lemma_or_bound(high, smaller_unsigned);
        }
        let mut result = Self::new(P::Storage::from_u64(combined));

        let recent_low_u64: u64 = recent_u64 & smaller_mask;
        proof {
            Smaller::lemma_counter_mask(recent_u64, 0);
            lemma_mod_bound(rv, small_m);
        }
        let recent_low = recent_low_u64 as i64;
        let smaller_val = smaller_unsigned as i64;

        let ghost base = combined as int;
        assert(result@ == wrap(base, P::modulus()));

        if recent_low < smaller_val {
            let abs_diff = smaller_val - recent_low;
            let threshold = (smaller_msb as i64) - bias;
            if abs_diff >= threshold {
                assert(smaller_msb << 1u32 == smaller_msb * 2) by (bit_vector)
                    requires
                        smaller_msb <= 0x4000_0000_0000_0000,
                ;
                let smaller_msb_x2 = P::Storage::from_u64(smaller_msb << 1u32);
                let prev = result;
                result = Self::new(result.value.wrapping_sub(smaller_msb_x2));
                proof {
                    lemma_wrap_storage::<P>(prev@ as int - small_m);
                    lemma_wrap_sub_wrap(base, small_m, P::modulus());
                }
            }
        } else {
            let abs_diff = recent_low - smaller_val;
            let threshold = (smaller_msb as i64) + bias;
            if abs_diff > threshold {
                assert(smaller_msb << 1u32 == smaller_msb * 2) by (bit_vector)
                    requires
                        smaller_msb <= 0x4000_0000_0000_0000,
                ;
                let smaller_msb_x2 = P::Storage::from_u64(smaller_msb << 1u32);
                let prev = result;
                result = Self::new(result.value.wrapping_add(smaller_msb_x2));
                proof {
                    lemma_wrap_storage::<P>(prev@ as int + small_m);
                    lemma_wrap_sub_wrap(base, -small_m, P::modulus());
                }
            }
        }
        proof {
            if smaller_unsigned < small_m {
                Smaller::lemma_counter_mask(recent_u64, smaller_unsigned);
                assert(base == rv - rv % small_m + smaller_unsigned as int);
            }
        }
        result
    }

    /// Expand a smaller counter into this larger counter type using a
    /// recent reference value (no bias).
    #[inline]
    pub fn expand_from_truncated<Smaller: CounterTrait>(recent: Self, smaller: Smaller) -> (r: Self)
        requires
            Smaller::counter_bits() < P::spec_bits(),
            smaller.counter_value() < P::Storage::storage_modulus(),
            (recent@ % Smaller::counter_modulus()) as int - ((smaller.counter_value() as u64) as i64) as int
                <= i64::MAX,
        ensures
            r@ == expanded_value_bits(recent@, smaller.counter_value(), Smaller::counter_modulus(), P::modulus(), 0),
            smaller.counter_value() < Smaller::counter_modulus() ==> r@ == expanded_value(
                recent@,
                smaller.counter_value(),
                Smaller::counter_modulus(),
                P::modulus(),
                0,
            ),
            r.wf(),
    {
        proof {
            Smaller::lemma_counter();
            P::lemma_params();
            lemma_smaller_space(Smaller::counter_bits(), Smaller::counter_modulus(), P::spec_bits(), P::modulus());
        }
        Self::expand_from_truncated_with_bias(recent, smaller, 0)
    }
}

/// Wrapping `x` and then subtracting `d` wraps the same as subtracting first.
proof fn lemma_wrap_sub_wrap(x: int, d: int, m: nat)
    requires
        m > 0,
    ensures
        wrap(wrap(x, m) as int - d, m) == wrap(x - d, m),
{
    let mi = m as int;
    lemma_fundamental_div_mod(x, mi);
    let q = x / mi;
    assert(x - d == mi * q + (x % mi - d));
    lemma_mod_multiples_vanish(q, x % mi - d, mi);
}


// ---------------------------------------------------------------------------
// Laws
// ---------------------------------------------------------------------------

/// Subtracting what was added gives back the counter added to:
/// `(a + b) - b == a`.
pub proof fn lemma_add_then_sub<P: CounterParams>(a: Counter<P>, b: Counter<P>)
    requires
        a.wf(),
    ensures
        wrap(wrap(a@ as int + b@ as int, P::modulus()) as int - b@ as int, P::modulus()) == a@,
{
    P::lemma_params();
    lemma_wrap_sub_wrap(a@ as int + b@ as int, b@ as int, P::modulus());
    lemma_small_mod(a@, P::modulus());
}

/// No counter is circularly less than itself.
pub proof fn lemma_circ_lt_irreflexive<P: CounterParams>(a: Counter<P>)
    ensures
        !circ_less(a@ as int, a@ as int, P::modulus()),
{
    P::lemma_params();
}

/// Circular order is total: two different counters are ordered one way or
/// the other, and both ways only when they are exactly half the space apart.
pub proof fn lemma_circ_lt_total<P: CounterParams>(a: Counter<P>, b: Counter<P>)
    requires
        a.wf(),
        b.wf(),
    ensures
        a@ != b@ ==> circ_less(a@ as int, b@ as int, P::modulus()) || circ_less(b@ as int, a@ as int, P::modulus()),
        circ_less(a@ as int, b@ as int, P::modulus()) && circ_less(b@ as int, a@ as int, P::modulus())
            ==> wrap(a@ as int - b@ as int, P::modulus()) == P::modulus() / 2,
{
    P::lemma_params();
    let m = P::modulus() as int;
    let x = a@ as int;
    let y = b@ as int;
    if x >= y {
        lemma_small_mod((x - y) as nat, m as nat);
        if x > y {
            lemma_mod_multiples_vanish(1, y - x, m);
            lemma_small_mod((m + y - x) as nat, m as nat);
        }
    } else {
        lemma_small_mod((y - x) as nat, m as nat);
        lemma_mod_multiples_vanish(1, x - y, m);
        lemma_small_mod((m + x - y) as nat, m as nat);
    }
}

/// Expansion keeps the truncated value in the low bits: the expanded counter
/// is congruent to `small` modulo the smaller counter space.
pub proof fn lemma_expand_low_bits(recent: nat, small: nat, small_m: nat, m: nat, bias: int)
    requires
        small < small_m,
        2 <= small_m <= m,
        small_m % 2 == 0,
        m % small_m == 0,
    ensures
        expanded_value(recent, small, small_m, m, bias) % small_m == small,
{
    let sm = small_m as int;
    let mi = m as int;
    let r = recent as int;
    let rl = r % sm;
    let adj = expand_adjustment(rl, small as int, sm / 2, bias);
    let v = r - rl + small + adj;
    lemma_fundamental_div_mod(r, sm);
    let k: int = if adj == 0 { 0 } else if adj < 0 { -1 } else { 1 };
    lemma_fundamental_div_mod(sm, 2);
    assert(adj == sm * k) by {
        if adj < 0 {
            assert(sm * k == -sm) by (nonlinear_arith)
                requires
                    k == -1,
            ;
        } else if adj > 0 {
            assert(sm * k == sm) by (nonlinear_arith)
                requires
                    k == 1,
            ;
        } else {
            assert(sm * k == 0) by (nonlinear_arith)
                requires
                    k == 0,
            ;
        }
    }
    assert(v == sm * (r / sm + k) + small) by (nonlinear_arith)
        requires
            v == r - rl + small + adj,
            r == sm * (r / sm) + rl,
            adj == sm * k,
    ;
    lemma_mod_multiples_vanish(r / sm + k, small as int, sm);
    lemma_small_mod(small, small_m);
    lemma_fundamental_div_mod(mi, sm);
    lemma_mod_mod(v, sm, mi / sm);
    assert(sm * (mi / sm) == mi);
}

/// Expansion lands in the window around the reference value: the result
/// is `recent + t` for an offset `t` in `[-(msb + bias), msb - bias)` that
/// leaves `small` in the low bits, where `msb` is half the smaller counter
/// space.  The window holds exactly one such offset.
pub proof fn lemma_expand_window(recent: nat, small: nat, small_m: nat, m: nat, bias: int)
    requires
        small < small_m,
        2 <= small_m <= m,
        small_m % 2 == 0,
        m % small_m == 0,
        -((small_m / 2) as int) <= bias < (small_m / 2) as int,
    ensures
        exists|t: int|
            -((small_m / 2) as int + bias) <= t < (small_m / 2) as int - bias && #[trigger] wrap(recent + t, m)
                == expanded_value(recent, small, small_m, m, bias) && wrap(recent + t, small_m) == small,
        forall|t: int|
            -((small_m / 2) as int + bias) <= t < (small_m / 2) as int - bias && #[trigger] wrap(recent + t, small_m)
                == small ==> wrap(recent + t, m) == expanded_value(recent, small, small_m, m, bias),
{
    let sm = small_m as int;
    let msb = sm / 2;
    let r = recent as int;
    let rl = r % sm;
    lemma_mod_bound(r, sm);
    lemma_fundamental_div_mod(r, sm);
    lemma_fundamental_div_mod(sm, 2);
    let adj = expand_adjustment(rl, small as int, msb, bias);
    let t = small as int - rl + adj;
    assert(-(msb + bias) <= t < msb - bias);
    assert(r + t == r - rl + small + adj);
    let k: int = if adj == 0 { 0 } else if adj < 0 { -1 } else { 1 };
    assert(adj == sm * k) by (nonlinear_arith)
        requires
            adj == 0 || adj == -sm || adj == sm,
            k == (if adj == 0 { 0int } else if adj < 0 { -1int } else { 1int }),
            sm > 0,
    ;
    assert(r + t == sm * (r / sm + k) + small) by (nonlinear_arith)
        requires
            r + t == r - rl + small + adj,
            r == sm * (r / sm) + rl,
            adj == sm * k,
    ;
    lemma_mod_multiples_vanish(r / sm + k, small as int, sm);
    lemma_small_mod(small, small_m);
    assert(wrap(r + t, m) == expanded_value(recent, small, small_m, m, bias));
    assert(wrap(r + t, small_m) == small);
    assert forall|t2: int|
        -(msb + bias) <= t2 < msb - bias && #[trigger] wrap(r + t2, small_m) == small implies wrap(r + t2, m)
            == expanded_value(recent, small, small_m, m, bias) by {
        lemma_fundamental_div_mod(r + t2, sm);
        lemma_fundamental_div_mod(r + t, sm);
        let q1 = (r + t) / sm;
        let q2 = (r + t2) / sm;
        assert(t2 - t == sm * (q2 - q1)) by (nonlinear_arith)
            requires
                r + t2 == sm * q2 + small,
                r + t == sm * q1 + small,
        ;
        assert(t2 == t) by (nonlinear_arith)
            requires
                t2 - t == sm * (q2 - q1),
                -sm < t2 - t < sm,
                sm > 0,
        ;
    }
}

/// Expansion inverts truncation near the reference value: a value whose
/// offset `t` from `recent` lies in `[-(msb + bias), msb - bias)` is
/// recovered exactly from its truncation to the smaller counter space.
pub proof fn lemma_expand_roundtrip(recent: nat, t: int, small_m: nat, m: nat, bias: int)
    requires
        recent < m,
        2 <= small_m <= m,
        small_m % 2 == 0,
        m % small_m == 0,
        -((small_m / 2) as int) <= bias < (small_m / 2) as int,
        -((small_m / 2) as int + bias) <= t < (small_m / 2) as int - bias,
    ensures
        expanded_value(recent, wrap(recent + t, small_m), small_m, m, bias) == wrap(recent + t, m),
{
    let sm = small_m as int;
    let msb = sm / 2;
    let r = recent as int;
    let rl = r % sm;
    let s = (r + t) % sm;
    lemma_mod_bound(r, sm);
    lemma_mod_bound(r + t, sm);
    lemma_fundamental_div_mod(r, sm);
    lemma_fundamental_div_mod(r + t, sm);
    let adj = expand_adjustment(rl, s, msb, bias);
    let o = s - rl + adj;
    // the offset chosen by the expansion lies in the same window as t
    assert(-(msb + bias) <= o < msb - bias);
    let k: int = if adj == 0 { 0 } else if adj < 0 { -1 } else { 1 };
    lemma_fundamental_div_mod(sm, 2);
    assert(adj == sm * k) by {
        if adj < 0 {
            assert(sm * k == -sm) by (nonlinear_arith)
                requires
                    k == -1,
            ;
        } else if adj > 0 {
            assert(sm * k == sm) by (nonlinear_arith)
                requires
                    k == 1,
            ;
        } else {
            assert(sm * k == 0) by (nonlinear_arith)
                requires
                    k == 0,
            ;
        }
    }
    let q1 = r / sm;
    let q2 = (r + t) / sm;
    assert(o - t == sm * (k - (q2 - q1))) by (nonlinear_arith)
        requires
            r == sm * q1 + rl,
            r + t == sm * q2 + s,
            o == s - rl + adj,
            adj == sm * k,
    ;
    assert(o == t) by (nonlinear_arith)
        requires
            o - t == sm * (k - (q2 - q1)),
            -sm < o - t < sm,
            sm > 0,
    ;
    assert(r - rl + s + adj == r + t);
}

} // verus!
