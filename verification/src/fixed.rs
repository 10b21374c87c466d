//! Fixed-point scalars.
//!
//! Every quantity of the simulation (lengths, speeds, seconds, multipliers) is a
//! [`Fixed`]: a signed count of thousandths. Sums and products are exact
//! integer arithmetic, so a run with the same inputs gives the same trajectory
//! bit for bit on every machine. Results that leave the 64-bit range stop at
//! its ends instead of wrapping.
use vstd::prelude::*;

verus! {

/// Raw steps per unit: `1.0` is stored as `1000`.
pub const SCALE: i64 = 1000;

/// `x` brought into the range of a 64-bit signed integer.
pub open spec fn saturate(x: int) -> int {
    if x < i64::MIN as int {
        i64::MIN as int
    } else if x > i64::MAX as int {
        i64::MAX as int
    } else {
        x
    }
}

/// Quotient of `n` by `d`, rounded toward zero.
pub open spec fn trunc_div(n: int, d: int) -> int
    recommends
        d != 0,
{
    if d > 0 {
        if n >= 0 {
            n / d
        } else {
            -((-n) / d)
        }
    } else {
        if n >= 0 {
            -(n / (-d))
        } else {
            (-n) / (-d)
        }
    }
}

/// Magnitude of an integer.
pub open spec fn abs_int(a: int) -> int {
    if a < 0 {
        -a
    } else {
        a
    }
}

/// The product of two 64-bit values fits 128 bits with room to spare.
pub proof fn lemma_product_fits(a: int, b: int)
    requires
        i64::MIN <= a <= i64::MAX,
        i64::MIN <= b <= i64::MAX,
    ensures
        -0x4000_0000_0000_0000_0000_0000_0000_0000 <= a * b
            <= 0x4000_0000_0000_0000_0000_0000_0000_0000,
{
    assert(-0x4000_0000_0000_0000_0000_0000_0000_0000 <= a * b
        <= 0x4000_0000_0000_0000_0000_0000_0000_0000) by (nonlinear_arith)
        requires
            -0x8000_0000_0000_0000 <= a <= 0x7fff_ffff_ffff_ffff,
            -0x8000_0000_0000_0000 <= b <= 0x7fff_ffff_ffff_ffff,
    ;
}

/// Rounding toward zero never grows a magnitude, and keeps the sign.
pub proof fn lemma_trunc_div_bounds(n: int, d: int)
    requires
        d > 0,
    ensures
        n >= 0 ==> 0 <= trunc_div(n, d) <= n,
        n <= 0 ==> n <= trunc_div(n, d) <= 0,
        trunc_div(-n, d) == -trunc_div(n, d),
{
    if n >= 0 {
        assert(0 <= n / d <= n) by (nonlinear_arith)
            requires
                n >= 0,
                d > 0,
        ;
    } else {
        assert(0 <= (-n) / d <= -n) by (nonlinear_arith)
            requires
                -n >= 0,
                d > 0,
        ;
    }
}

/// Rounding toward zero loses less than one divisor.
pub proof fn lemma_trunc_div_error(n: int, d: int)
    requires
        d > 0,
    ensures
        -d < trunc_div(n, d) * d - n < d,
        n >= 0 ==> trunc_div(n, d) * d <= n,
        n <= 0 ==> trunc_div(n, d) * d >= n,
{
    if n >= 0 {
        assert(n - d < (n / d) * d <= n) by (nonlinear_arith)
            requires
                n >= 0,
                d > 0,
        ;
    } else {
        let m = -n;
        assert(m - d < (m / d) * d <= m) by (nonlinear_arith)
            requires
                m >= 0,
                d > 0,
        ;
        assert((-(m / d)) * d == -((m / d) * d)) by (nonlinear_arith);
    }
}

/// A signed fixed-point number with three decimal places.
#[derive(Clone, Copy, Debug, PartialEq, Eq, Structural)]
pub struct Fixed {
    /// The value in thousandths.
    pub raw: i64,
}

impl View for Fixed {
    type V = int;

    /// The value in thousandths, as a mathematical integer.
    open spec fn view(&self) -> int {
        self.raw as int
    }
}

/// Quotient of two wide integers, rounded toward zero.
pub(crate) fn wide_trunc_div(n: i128, d: i128) -> (q: i128)
    requires
        d != 0,
        n > i128::MIN,
        d > i128::MIN,
    ensures
        q == trunc_div(n as int, d as int),
{
    if d > 0 {
        if n >= 0 {
            n / d
        } else {
            -((-n) / d)
        }
    } else {
        if n >= 0 {
            -(n / (-d))
        } else {
            (-n) / (-d)
        }
    }
}

impl Fixed {
    /// The representable number nearest to `raw` thousandths.
    pub open spec fn of(raw: int) -> Fixed {
        Fixed { raw: saturate(raw) as i64 }
    }

    /// The number with the given count of thousandths.
    pub fn from_raw(raw: i64) -> (r: Fixed)
        ensures
            r@ == raw,
            r == Fixed::of(raw as int),
    {
        Fixed { raw }
    }

    /// The whole number `units`.
    pub fn from_int(units: i64) -> (r: Fixed)
        ensures
            r == Fixed::of(units * SCALE),
    {
        proof {
            lemma_product_fits(units as int, SCALE as int);
        }
        Fixed::from_wide((units as i128) * (SCALE as i128))
    }

    /// Zero.
    pub fn zero() -> (r: Fixed)
        ensures
            r@ == 0,
    {
        Fixed { raw: 0 }
    }

    /// The representable number nearest to the wide raw value `x`.
    pub fn from_wide(x: i128) -> (r: Fixed)
        ensures
            r == Fixed::of(x as int),
    {
        if x < i64::MIN as i128 {
            Fixed { raw: i64::MIN }
        } else if x > i64::MAX as i128 {
            Fixed { raw: i64::MAX }
        } else {
            Fixed { raw: x as i64 }
        }
    }

    /// The value in thousandths, widened for exact arithmetic.
    pub fn wide(self) -> (w: i128)
        ensures
            w == self@,
    {
        self.raw as i128
    }

    /// `self + other`, as a value.
    pub open spec fn spec_plus(self, other: Fixed) -> Fixed {
        Fixed::of(self@ + other@)
    }

    /// `self + other`.
    #[verifier::when_used_as_spec(spec_plus)]
    pub fn plus(self, other: Fixed) -> (r: Fixed)
        ensures
            r == self.spec_plus(other),
    {
        Fixed::from_wide(self.raw as i128 + other.raw as i128)
    }

    /// `self - other`, as a value.
    pub open spec fn spec_minus(self, other: Fixed) -> Fixed {
        Fixed::of(self@ - other@)
    }

    /// `self - other`.
    #[verifier::when_used_as_spec(spec_minus)]
    pub fn minus(self, other: Fixed) -> (r: Fixed)
        ensures
            r == self.spec_minus(other),
    {
        Fixed::from_wide(self.raw as i128 - other.raw as i128)
    }

    /// `self * other`, as a value.
    pub open spec fn spec_times(self, other: Fixed) -> Fixed {
        Fixed::of(trunc_div(self@ * other@, SCALE as int))
    }

    /// `self * other`, rounded toward zero to the nearest thousandth.
    #[verifier::when_used_as_spec(spec_times)]
    pub fn times(self, other: Fixed) -> (r: Fixed)
        ensures
            r == self.spec_times(other),
    {
        proof {
            lemma_product_fits(self@, other@);
        }
        let product: i128 = (self.raw as i128) * (other.raw as i128);
        Fixed::from_wide(wide_trunc_div(product, SCALE as i128))
    }

    /// `self / other`, as a value; meaningful where `other` is not zero.
    pub open spec fn spec_over(self, other: Fixed) -> Fixed
        recommends
            other@ != 0,
    {
        Fixed::of(trunc_div(self@ * (SCALE as int), other@))
    }

    /// `self / other`, rounded toward zero to the nearest thousandth; `None`
    /// exactly when `other` is zero.
    pub fn over(self, other: Fixed) -> (r: Option<Fixed>)
        ensures
            other@ == 0 <==> r is None,
            r matches Some(q) ==> q == self.spec_over(other),
    {
        if other.raw == 0 {
            None
        } else {
            proof {
                lemma_product_fits(self@, SCALE as int);
            }
            let scaled: i128 = (self.raw as i128) * (SCALE as i128);
            Some(Fixed::from_wide(wide_trunc_div(scaled, other.raw as i128)))
        }
    }

    /// `-self`, as a value.
    pub open spec fn spec_neg(self) -> Fixed {
        Fixed::of(-self@)
    }

    /// `-self`.
    #[verifier::when_used_as_spec(spec_neg)]
    pub fn neg(self) -> (r: Fixed)
        ensures
            r == self.spec_neg(),
    {
        Fixed::from_wide(-(self.raw as i128))
    }

    /// `|self|`, as a value.
    pub open spec fn spec_abs(self) -> Fixed {
        Fixed::of(abs_int(self@))
    }

    /// `|self|`.
    #[verifier::when_used_as_spec(spec_abs)]
    pub fn abs(self) -> (r: Fixed)
        ensures
            r == self.spec_abs(),
    {
        if self.raw < 0 {
            self.neg()
        } else {
            self
        }
    }

    /// Half of `self`, as a value.
    pub open spec fn spec_half(self) -> Fixed {
        Fixed::of(trunc_div(self@, 2))
    }

    /// Half of `self`, rounded toward zero.
    #[verifier::when_used_as_spec(spec_half)]
    pub fn half(self) -> (r: Fixed)
        ensures
            r == self.spec_half(),
            r@ == trunc_div(self@, 2),
    {
        proof {
            lemma_trunc_div_bounds(self@, 2);
        }
        Fixed::from_wide(wide_trunc_div(self.raw as i128, 2))
    }

    /// `self` held between `lo` and `hi`, as a value; `lo` wins where the
    /// bounds cross.
    pub open spec fn spec_clamp(self, lo: Fixed, hi: Fixed) -> Fixed {
        if self@ < lo@ {
            lo
        } else if self@ > hi@ {
            hi
        } else {
            self
        }
    }

    /// `self` held between `lo` and `hi`.
    #[verifier::when_used_as_spec(spec_clamp)]
    pub fn clamp(self, lo: Fixed, hi: Fixed) -> (r: Fixed)
        ensures
            r == self.spec_clamp(lo, hi),
    {
        if self.raw < lo.raw {
            lo
        } else if self.raw > hi.raw {
            hi
        } else {
            self
        }
    }

    /// The sign of `self` as `-1`, `0` or `1`, as a value.
    pub open spec fn spec_signum(self) -> i8 {
        if self@ > 0 {
            1i8
        } else if self@ < 0 {
            -1i8
        } else {
            0i8
        }
    }

    /// The sign of `self`: `-1`, `0` or `1`.
    #[verifier::when_used_as_spec(spec_signum)]
    pub fn signum(self) -> (s: i8)
        ensures
            s == self.spec_signum(),
    {
        if self.raw > 0 {
            1
        } else if self.raw < 0 {
            -1
        } else {
            0
        }
    }
}

} // verus!
