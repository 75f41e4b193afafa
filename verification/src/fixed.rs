//! Fixed-point numbers with sixteen fractional bits.
//!
//! A [`Fixed`] stores the number `raw / 65536` in an `i64`.  All contracts
//! speak of the raw value as a mathematical integer; the view of a `Fixed`
//! is that integer.  Sums, differences and products saturate at the ends of
//! the `i64` range, and products round towards negative infinity.

use vstd::prelude::*;

verus! {

/// Number of fractional bits of a [`Fixed`].
pub const FRAC_BITS: u32 = 16;

/// The raw value of the number one.
pub const ONE: i64 = 65536;

/// The value nearest to `v` that an `i64` can hold.
pub open spec fn saturate(v: int) -> int {
    if v < i64::MIN {
        i64::MIN as int
    } else if v > i64::MAX {
        i64::MAX as int
    } else {
        v
    }
}

/// The raw value of the product of two raw values, before saturation: the
/// exact product of the two numbers, rounded down to a multiple of `1 / 65536`.
pub open spec fn mul_floor(a: int, b: int) -> int {
    (a * b) / (ONE as int)
}

/// The absolute value of an integer.
pub open spec fn abs(v: int) -> int {
    if v < 0 {
        -v
    } else {
        v
    }
}

/// A signed fixed-point number: the value is `raw / 65536`.
#[derive(Clone, Copy, Debug, PartialEq, Eq, Structural)]
pub struct Fixed {
    pub raw: i64,
}

impl View for Fixed {
    type V = int;

    open spec fn view(&self) -> int {
        self.raw as int
    }
}

/// Brings a wide intermediate result back into the `i64` range.
pub fn saturate_i128(v: i128) -> (r: i64)
    ensures
        r == saturate(v as int),
{
    if v > i64::MAX as i128 {
        i64::MAX
    } else if v < i64::MIN as i128 {
        i64::MIN
    } else {
        v as i64
    }
}

/// The absolute value of an `i64`, which always fits in an `i128`.
pub fn abs_i128(v: i64) -> (r: i128)
    ensures
        r == abs(v as int),
        0 <= r <= 0x8000_0000_0000_0000,
{
    if v < 0 {
        -(v as i128)
    } else {
        v as i128
    }
}

/// The product of two `i64` values is small enough for an `i128`.
pub proof fn lemma_product_bound(a: int, b: int)
    requires
        i64::MIN <= a <= i64::MAX,
        i64::MIN <= b <= i64::MAX,
    ensures
        -0x4000_0000_0000_0000_0000_0000_0000_0000 <= a * b
            <= 0x4000_0000_0000_0000_0000_0000_0000_0000,
{
    assert(-0x4000_0000_0000_0000_0000_0000_0000_0000 <= a * b
        <= 0x4000_0000_0000_0000_0000_0000_0000_0000) by (nonlinear_arith)
        requires
            -0x8000_0000_0000_0000 <= a <= 0x8000_0000_0000_0000,
            -0x8000_0000_0000_0000 <= b <= 0x8000_0000_0000_0000,
    ;
}

/// `s` is the square root of `n`, rounded down.
pub open spec fn is_sqrt_floor(n: int, s: int) -> bool {
    0 <= s && s * s <= n < (s + 1) * (s + 1)
}

/// The square root of `n`, rounded down.
pub fn sqrt_floor(n: u128) -> (s: u64)
    ensures
        is_sqrt_floor(n as int, s as int),
{
    let mut lo: u128 = 0;
    let mut hi: u128 = 0x1_0000_0000_0000_0000;
    while hi - lo > 1
        invariant
            lo < hi <= 0x1_0000_0000_0000_0000,
            lo * lo <= n < hi * hi,
        decreases hi - lo,
    {
        let mid = lo + (hi - lo) / 2;
        assert(mid * mid <= 0xffff_ffff_ffff_ffff * 0xffff_ffff_ffff_ffff) by (nonlinear_arith)
            requires
                0 <= mid <= 0xffff_ffff_ffff_ffff,
        ;
        if mid * mid <= n {
            lo = mid;
        } else {
            hi = mid;
        }
    }
    lo as u64
}

impl Fixed {
    /// The number whose raw value is `raw`.
    pub fn from_raw(raw: i64) -> (r: Fixed)
        ensures
            r@ == raw,
    {
        Fixed { raw }
    }

    /// The whole number `n`.
    pub fn from_int(n: i32) -> (r: Fixed)
        ensures
            r@ == n * ONE,
    {
        Fixed { raw: (n as i64) * ONE }
    }

    /// The whole part of `self` as a mathematical integer: the largest
    /// integer that is not above the number.
    pub open spec fn spec_floor(self) -> int {
        self@ / (ONE as int)
    }

    /// The raw value of the fractional part of `self`.
    pub open spec fn spec_fract(self) -> int {
        self@ % (ONE as int)
    }

    /// The largest integer that is not above `self`.
    pub fn floor(self) -> (r: i64)
        ensures
            r == self.spec_floor(),
            -0x8000_0000_0000 <= r < 0x8000_0000_0000,
    {
        let raw = self.raw;
        assert(raw >> 16 == raw / 65536) by (bit_vector);
        raw >> 16
    }

    /// The saturating sum of `self` and `rhs`.
    pub open spec fn plus(self, rhs: Fixed) -> Fixed {
        Fixed { raw: saturate(self@ + rhs@) as i64 }
    }

    /// The saturating difference of `self` and `rhs`.
    pub open spec fn minus(self, rhs: Fixed) -> Fixed {
        Fixed { raw: saturate(self@ - rhs@) as i64 }
    }

    /// The saturating product of `self` and `rhs`, rounded down.
    pub open spec fn times(self, rhs: Fixed) -> Fixed {
        Fixed { raw: saturate(mul_floor(self@, rhs@)) as i64 }
    }

    /// The saturating negation of `self`.
    pub open spec fn negated(self) -> Fixed {
        Fixed { raw: saturate(-self@) as i64 }
    }

    /// The saturating negation of `self`.
    pub fn negate(self) -> (r: Fixed)
        ensures
            r == self.negated(),
    {
        Fixed { raw: saturate_i128(-(self.raw as i128)) }
    }

    /// The part of `self` above its floor: a number in `[0, 1)`.
    pub fn fract(self) -> (r: Fixed)
        ensures
            r@ == self.spec_fract(),
            0 <= r@ < ONE,
    {
        let raw = self.raw;
        assert(raw & 0xffff == raw % 65536) by (bit_vector);
        Fixed { raw: raw & 0xffff }
    }
}

impl core::ops::Add for Fixed {
    type Output = Fixed;

    /// The saturating sum.
    fn add(self, rhs: Fixed) -> (r: Fixed) {
        Fixed { raw: saturate_i128(self.raw as i128 + rhs.raw as i128) }
    }
}

impl vstd::std_specs::ops::AddSpecImpl for Fixed {
    open spec fn obeys_add_spec() -> bool {
        true
    }

    open spec fn add_req(self, rhs: Fixed) -> bool {
        true
    }

    open spec fn add_spec(self, rhs: Fixed) -> Fixed {
        self.plus(rhs)
    }
}

impl core::ops::Sub for Fixed {
    type Output = Fixed;

    /// The saturating difference.
    fn sub(self, rhs: Fixed) -> (r: Fixed) {
        Fixed { raw: saturate_i128(self.raw as i128 - rhs.raw as i128) }
    }
}

impl vstd::std_specs::ops::SubSpecImpl for Fixed {
    open spec fn obeys_sub_spec() -> bool {
        true
    }

    open spec fn sub_req(self, rhs: Fixed) -> bool {
        true
    }

    open spec fn sub_spec(self, rhs: Fixed) -> Fixed {
        self.minus(rhs)
    }
}

impl core::ops::Mul for Fixed {
    type Output = Fixed;

    /// The saturating product, rounded down.
    fn mul(self, rhs: Fixed) -> (r: Fixed) {
        proof {
            lemma_product_bound(self@, rhs@);
        }
        let wide: i128 = (self.raw as i128) * (rhs.raw as i128);
        assert(wide >> 16 == wide / 65536) by (bit_vector);
        Fixed { raw: saturate_i128(wide >> 16) }
    }
}

impl vstd::std_specs::ops::MulSpecImpl for Fixed {
    open spec fn obeys_mul_spec() -> bool {
        true
    }

    open spec fn mul_req(self, rhs: Fixed) -> bool {
        true
    }

    open spec fn mul_spec(self, rhs: Fixed) -> Fixed {
        self.times(rhs)
    }
}

} // verus!
