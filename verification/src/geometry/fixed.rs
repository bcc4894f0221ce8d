//! Fixed-point scalars with six decimal fraction digits.
//!
//! A [`Fixed`] holds a signed 64-bit count of millionths. Sums, products and
//! quotients are computed exactly in a wider type, rounded down to the next
//! millionth and then saturated to the 64-bit range, so no operation can fail.
use vstd::prelude::*;

verus! {

/// Number of raw units that make up the value one.
pub const SCALE: i64 = 1_000_000;

/// Saturation of an exact result to the representable raw range.
pub open spec fn clamp(x: int) -> int {
    if x < i64::MIN {
        i64::MIN as int
    } else if x > i64::MAX {
        i64::MAX as int
    } else {
        x
    }
}

/// Whether an exact result is representable without saturation.
pub open spec fn fits(x: int) -> bool {
    i64::MIN <= x <= i64::MAX
}

/// Quotient rounded towards negative infinity, for any non-zero divisor.
/// Division by zero yields the saturated value with the sign of `n`.
pub open spec fn floor_div(n: int, d: int) -> int {
    if d > 0 {
        n / d
    } else if d < 0 {
        (-n) / (-d)
    } else if n > 0 {
        i64::MAX as int
    } else if n < 0 {
        i64::MIN as int
    } else {
        0
    }
}

/// Exact product of two raw values, rounded down to a raw value.
pub open spec fn mul_raw(a: int, b: int) -> int {
    (a * b) / (SCALE as int)
}

/// Exact quotient of two raw values, rounded down to a raw value.
pub open spec fn div_raw(a: int, b: int) -> int {
    floor_div(a * SCALE, b)
}

/// Largest natural number whose square does not exceed `n`.
pub open spec fn isqrt(n: nat) -> nat
    decreases n,
{
    if n == 0 {
        0
    } else {
        let r = isqrt((n - 1) as nat);
        if (r + 1) * (r + 1) <= n {
            r + 1
        } else {
            r
        }
    }
}

/// `isqrt(n)` is the integer square root: its square is at most `n`, and the
/// square of its successor exceeds `n`.
pub proof fn lemma_isqrt_bounds(n: nat)
    ensures
        isqrt(n) * isqrt(n) <= n < (isqrt(n) + 1) * (isqrt(n) + 1),
    decreases n,
{
    if n > 0 {
        lemma_isqrt_bounds((n - 1) as nat);
        let r = isqrt((n - 1) as nat);
        let s = r + 1;
        let t = isqrt(n);
        assert(s * s == (r + 1) * (r + 1));
        if s * s <= n {
            assert(t == s);
            assert(s * s < (s + 1) * (s + 1)) by (nonlinear_arith)
                requires
                    s >= 0,
            ;
            assert(t * t <= n < (t + 1) * (t + 1));
        } else {
            assert(t == r);
            assert(t * t <= n < (t + 1) * (t + 1));
        }
    } else {
        let t = isqrt(n);
        assert(t == 0);
        assert(t * t == 0 && (t + 1) * (t + 1) == 1) by (nonlinear_arith)
            requires
                t == 0,
        ;
    }
}

/// Any `r` that brackets `n` between its square and its successor's square
/// is the integer square root of `n`.
pub proof fn lemma_isqrt_unique(n: nat, r: nat)
    requires
        r * r <= n < (r + 1) * (r + 1),
    ensures
        r == isqrt(n),
{
    lemma_isqrt_bounds(n);
    let s = isqrt(n);
    if r < s {
        assert((r + 1) * (r + 1) <= s * s) by (nonlinear_arith)
            requires
                r + 1 <= s,
        ;
    } else if s < r {
        assert((s + 1) * (s + 1) <= r * r) by (nonlinear_arith)
            requires
                s + 1 <= r,
        ;
    }
}

proof fn lemma_floor_of_negative(m: int, d: int)
    by (nonlinear_arith)
    requires
        m >= 0,
        d > 0,
    ensures
        (-(m + 1)) / d == -(m / d) - 1,
{
}

proof fn lemma_quotient_range(m: int, d: int)
    by (nonlinear_arith)
    requires
        m >= 0,
        d > 0,
    ensures
        0 <= m / d <= m,
{
}

proof fn lemma_product_range(a: int, b: int, bound: int)
    by (nonlinear_arith)
    requires
        -bound <= a <= bound,
        -bound <= b <= bound,
    ensures
        -(bound * bound) <= a * b <= bound * bound,
{
}

/// Saturating conversion from the wide working type.
pub fn narrow(x: i128) -> (r: i64)
    ensures
        r == clamp(x as int),
{
    if x < i64::MIN as i128 {
        i64::MIN
    } else if x > i64::MAX as i128 {
        i64::MAX
    } else {
        x as i64
    }
}

/// Floor division in the wide working type, total over all divisors.
pub fn wide_floor_div(n: i128, d: i128) -> (q: i128)
    requires
        n > i128::MIN,
        d > i128::MIN,
    ensures
        q == floor_div(n as int, d as int),
{
    if d == 0 {
        if n > 0 {
            i64::MAX as i128
        } else if n < 0 {
            i64::MIN as i128
        } else {
            0
        }
    } else {
        let (num, den): (i128, i128) = if d > 0 {
            (n, d)
        } else {
            (-n, -d)
        };
        if num >= 0 {
            num / den
        } else {
            let m: i128 = -(num + 1);
            proof {
                lemma_floor_of_negative(m as int, den as int);
                lemma_quotient_range(m as int, den as int);
            }
            let k: i128 = m / den;
            -k - 1
        }
    }
}

/// Exact product of two 64-bit values in the wide working type.
pub fn wide_mul(a: i64, b: i64) -> (p: i128)
    ensures
        p == a as int * b as int,
        -0x4000_0000_0000_0000_0000_0000_0000_0000 <= p <= 0x4000_0000_0000_0000_0000_0000_0000_0000,
{
    proof {
        lemma_product_range(a as int, b as int, 0x8000_0000_0000_0000);
    }
    (a as i128) * (b as i128)
}

/// Product of two raw values rounded down to a raw value, before saturation.
pub fn wide_mul_raw(a: i64, b: i64) -> (p: i128)
    ensures
        p == mul_raw(a as int, b as int),
        -0x1000_0000_0000_0000_0000_0000_0000 <= p <= 0x1000_0000_0000_0000_0000_0000_0000,
{
    let p: i128 = wide_mul(a, b);
    let q: i128 = wide_floor_div(p, SCALE as i128);
    q
}

/// Integer square root by bisection.
pub fn wide_isqrt(n: u128) -> (r: u64)
    ensures
        r == isqrt(n as nat),
{
    let mut lo: u128 = 0;
    let mut hi: u128 = 0x1_0000_0000_0000_0000;
    assert(lo * lo <= n) by (nonlinear_arith)
        requires
            lo == 0,
    ;
    assert(n < hi * hi) by (nonlinear_arith)
        requires
            hi == 0x1_0000_0000_0000_0000,
            n < 0x1_0000_0000_0000_0000_0000_0000_0000_0000,
    ;
    while hi - lo > 1
        invariant
            lo < hi <= 0x1_0000_0000_0000_0000,
            lo * lo <= n < hi * hi,
        decreases hi - lo,
    {
        let mid: u128 = lo + (hi - lo) / 2;
        assert(mid * mid < 0x1_0000_0000_0000_0000_0000_0000_0000_0000) by (nonlinear_arith)
            requires
                mid < 0x1_0000_0000_0000_0000,
        ;
        if mid * mid <= n {
            lo = mid;
        } else {
            hi = mid;
        }
    }
    proof {
        assert(hi == lo + 1);
        lemma_isqrt_unique(n as nat, lo as nat);
    }
    lo as u64
}

/// A fixed-point number: `raw` millionths.
#[derive(Clone, Copy, Debug, PartialEq, Eq, Structural)]
pub struct Fixed {
    pub raw: i64,
}

impl View for Fixed {
    type V = int;

    /// The raw count of millionths as a mathematical integer.
    open spec fn view(&self) -> int {
        self.raw as int
    }
}

impl Fixed {
    /// The fixed-point number with the given raw count, saturated to range.
    pub open spec fn of(raw: int) -> Fixed {
        Fixed { raw: clamp(raw) as i64 }
    }

    pub open spec fn spec_plus(self, rhs: Fixed) -> Fixed {
        Fixed::of(self@ + rhs@)
    }

    pub open spec fn spec_minus(self, rhs: Fixed) -> Fixed {
        Fixed::of(self@ - rhs@)
    }

    pub open spec fn spec_neg(self) -> Fixed {
        Fixed::of(-self@)
    }

    pub open spec fn spec_times(self, rhs: Fixed) -> Fixed {
        Fixed::of(mul_raw(self@, rhs@))
    }

    pub open spec fn spec_div(self, rhs: Fixed) -> Fixed {
        Fixed::of(div_raw(self@, rhs@))
    }

    pub open spec fn spec_recip(self) -> Fixed {
        Fixed::of(div_raw(SCALE as int, self@))
    }

    pub open spec fn spec_from_int(n: i64) -> Fixed {
        Fixed::of(n * SCALE)
    }

    pub open spec fn spec_sqrt(self) -> Fixed {
        if self@ <= 0 {
            Fixed { raw: 0 }
        } else {
            Fixed::of(isqrt((self@ * SCALE) as nat) as int)
        }
    }

    pub open spec fn spec_min(self, rhs: Fixed) -> Fixed {
        if self@ <= rhs@ {
            self
        } else {
            rhs
        }
    }

    pub open spec fn spec_max(self, rhs: Fixed) -> Fixed {
        if self@ >= rhs@ {
            self
        } else {
            rhs
        }
    }

    /// Whole part, rounded towards negative infinity.
    pub open spec fn spec_floor(self) -> int {
        self@ / (SCALE as int)
    }

    /// Whether the value is a whole number.
    pub open spec fn is_whole(self) -> bool {
        self@ % (SCALE as int) == 0
    }

    /// The number with the given raw count of millionths.
    pub fn from_raw(raw: i64) -> (r: Fixed)
        ensures
            r == (Fixed { raw }),
    {
        Fixed { raw }
    }

    /// The whole number `n`, saturated to the representable range.
    #[verifier::when_used_as_spec(spec_from_int)]
    pub fn from_int(n: i64) -> (r: Fixed)
        ensures
            r == Fixed::spec_from_int(n),
    {
        Fixed { raw: narrow(wide_mul(n, SCALE)) }
    }

    /// The value zero.
    pub fn zero() -> (r: Fixed)
        ensures
            r@ == 0,
    {
        Fixed { raw: 0 }
    }

    /// The value one.
    pub fn one() -> (r: Fixed)
        ensures
            r@ == SCALE,
    {
        Fixed { raw: SCALE }
    }

    /// Saturating sum.
    #[verifier::when_used_as_spec(spec_plus)]
    pub fn plus(self, rhs: Fixed) -> (r: Fixed)
        ensures
            r == self.spec_plus(rhs),
    {
        Fixed { raw: narrow(self.raw as i128 + rhs.raw as i128) }
    }

    /// Saturating difference.
    #[verifier::when_used_as_spec(spec_minus)]
    pub fn minus(self, rhs: Fixed) -> (r: Fixed)
        ensures
            r == self.spec_minus(rhs),
    {
        Fixed { raw: narrow(self.raw as i128 - rhs.raw as i128) }
    }

    /// Saturating negation.
    #[verifier::when_used_as_spec(spec_neg)]
    pub fn neg(self) -> (r: Fixed)
        ensures
            r == self.spec_neg(),
    {
        Fixed { raw: narrow(-(self.raw as i128)) }
    }

    /// Product, rounded down to the next millionth and saturated.
    #[verifier::when_used_as_spec(spec_times)]
    pub fn times(self, rhs: Fixed) -> (r: Fixed)
        ensures
            r == self.spec_times(rhs),
    {
        Fixed { raw: narrow(wide_mul_raw(self.raw, rhs.raw)) }
    }

    /// Quotient, rounded down to the next millionth and saturated. Dividing
    /// by zero yields the largest value with the sign of the dividend.
    #[verifier::when_used_as_spec(spec_div)]
    pub fn div(self, rhs: Fixed) -> (r: Fixed)
        ensures
            r == self.spec_div(rhs),
    {
        let n: i128 = wide_mul(self.raw, SCALE);
        Fixed { raw: narrow(wide_floor_div(n, rhs.raw as i128)) }
    }

    /// Reciprocal; the reciprocal of zero is the largest value.
    #[verifier::when_used_as_spec(spec_recip)]
    pub fn recip(self) -> (r: Fixed)
        ensures
            r == self.spec_recip(),
    {
        Fixed::one().div(self)
    }

    /// Square root, rounded down to the next millionth. The root of a
    /// negative number is zero.
    #[verifier::when_used_as_spec(spec_sqrt)]
    pub fn sqrt(self) -> (r: Fixed)
        ensures
            r == self.spec_sqrt(),
    {
        if self.raw <= 0 {
            Fixed { raw: 0 }
        } else {
            let n: i128 = wide_mul(self.raw, SCALE);
            let root: u64 = wide_isqrt(n as u128);
            Fixed { raw: narrow(root as i128) }
        }
    }

    /// Whole part, rounded towards negative infinity.
    pub fn floor(self) -> (r: i64)
        ensures
            r == self.spec_floor(),
    {
        let q: i128 = wide_floor_div(self.raw as i128, SCALE as i128);
        q as i64
    }

    /// The smaller of two values.
    #[verifier::when_used_as_spec(spec_min)]
    pub fn min(self, rhs: Fixed) -> (r: Fixed)
        ensures
            r == self.spec_min(rhs),
    {
        if self.raw <= rhs.raw {
            self
        } else {
            rhs
        }
    }

    /// The larger of two values.
    #[verifier::when_used_as_spec(spec_max)]
    pub fn max(self, rhs: Fixed) -> (r: Fixed)
        ensures
            r == self.spec_max(rhs),
    {
        if self.raw >= rhs.raw {
            self
        } else {
            rhs
        }
    }
}

} // verus!
