//! Two-dimensional vectors over [`Fixed`].
use vstd::prelude::*;
use crate::fixed::Fixed;
use crate::fixed::trunc_div;
use crate::fixed::lemma_product_fits;
use crate::fixed::wide_trunc_div;
use crate::fixed::SCALE;

verus! {

/// The largest `r` with `r * r <= n`; `0` for a negative `n`.
pub open spec fn int_sqrt(n: int) -> int {
    if n <= 0 {
        0
    } else {
        choose|r: int| is_int_sqrt(n, r)
    }
}

/// `r` is the integer square root of `n`.
pub open spec fn is_int_sqrt(n: int, r: int) -> bool {
    0 <= r && r * r <= n && n < (r + 1) * (r + 1)
}

/// Squaring is monotone on the naturals.
pub proof fn lemma_square_monotone(a: int, b: int)
    requires
        0 <= a <= b,
    ensures
        a * a <= b * b,
{
    assert(a * a <= b * b) by (nonlinear_arith)
        requires
            0 <= a <= b,
    ;
}

/// A number has one integer square root only.
pub proof fn lemma_int_sqrt_unique(n: int, r: int)
    requires
        is_int_sqrt(n, r),
    ensures
        int_sqrt(n) == r,
{
    if n <= 0 {
        if r > 0 {
            lemma_square_monotone(1, r);
        }
    } else {
        let s: int = choose|s: int| is_int_sqrt(n, s);
        assert(is_int_sqrt(n, s));
        if s < r {
            lemma_square_monotone(s + 1, r);
        } else if r < s {
            lemma_square_monotone(r + 1, s);
        }
    }
}

/// The integer square root of `n`.
pub fn isqrt(n: u128) -> (r: u64)
    ensures
        r == int_sqrt(n as int),
        is_int_sqrt(n as int, r as int),
{
    let mut lo: u128 = 0;
    let mut hi: u128 = 0x1_0000_0000_0000_0000;
    proof {
        assert(n < 0x1_0000_0000_0000_0000u128 * 0x1_0000_0000_0000_0000u128) by (nonlinear_arith)
            requires
                n <= 0xffff_ffff_ffff_ffff_ffff_ffff_ffff_ffffu128,
        ;
    }
    while hi - lo > 1
        invariant
            lo < hi <= 0x1_0000_0000_0000_0000,
            lo * lo <= n,
            n < hi * hi,
        decreases hi - lo,
    {
        let mid: u128 = lo + (hi - lo) / 2;
        proof {
            lemma_square_monotone(mid as int, 0xffff_ffff_ffff_ffff);
        }
        if mid * mid <= n {
            lo = mid;
        } else {
            hi = mid;
        }
    }
    proof {
        lemma_int_sqrt_unique(n as int, lo as int);
    }
    lo as u64
}

/// The raw value reached from `a` toward `b` after the fraction `t` of the
/// way: `a + (b - a) * t`, the product rounded toward zero.
pub open spec fn lerp_raw(a: int, b: int, t: int) -> int {
    a + trunc_div((b - a) * t, SCALE as int)
}

/// Interpolates one component.
fn lerp_component(a: Fixed, b: Fixed, t: Fixed) -> (r: Fixed)
    ensures
        r == Fixed::of(lerp_raw(a@, b@, t@)),
{
    let diff: i128 = b.wide() - a.wide();
    proof {
        assert(-0x7fff_ffff_ffff_ffff_8000_0000_0000_0000 <= (diff as int) * t@
            <= 0x7fff_ffff_ffff_ffff_8000_0000_0000_0000) by (nonlinear_arith)
            requires
                -0xffff_ffff_ffff_ffff <= (diff as int) <= 0xffff_ffff_ffff_ffff,
                -0x8000_0000_0000_0000 <= t@ <= 0x8000_0000_0000_0000,
        ;
        crate::fixed::lemma_trunc_div_bounds((diff as int) * t@, SCALE as int);
    }
    let product: i128 = diff * t.wide();
    let step: i128 = wide_trunc_div(product, SCALE as i128);
    Fixed::from_wide(a.wide() + step)
}

/// A point or a displacement in the plane.
#[derive(Clone, Copy, Debug, PartialEq, Eq, Structural)]
pub struct Vec2 {
    /// Horizontal component, growing to the right.
    pub x: Fixed,
    /// Vertical component, growing upward.
    pub y: Fixed,
}

impl View for Vec2 {
    type V = (int, int);

    /// The two components in thousandths.
    open spec fn view(&self) -> (int, int) {
        (self.x@, self.y@)
    }
}

impl Vec2 {
    /// The vector `(x, y)`.
    pub fn new(x: Fixed, y: Fixed) -> (v: Vec2)
        ensures
            v.x == x,
            v.y == y,
    {
        Vec2 { x, y }
    }

    /// The vector of whole numbers `(x, y)`.
    pub fn from_ints(x: i64, y: i64) -> (v: Vec2)
        ensures
            v.x == Fixed::of(x * SCALE),
            v.y == Fixed::of(y * SCALE),
    {
        Vec2 { x: Fixed::from_int(x), y: Fixed::from_int(y) }
    }

    /// The null vector.
    pub fn zero() -> (v: Vec2)
        ensures
            v@ == (0int, 0int),
    {
        Vec2 { x: Fixed::zero(), y: Fixed::zero() }
    }

    /// Component-wise sum, as a value.
    pub open spec fn spec_plus(self, other: Vec2) -> Vec2 {
        Vec2 { x: self.x.plus(other.x), y: self.y.plus(other.y) }
    }

    /// Component-wise sum.
    #[verifier::when_used_as_spec(spec_plus)]
    pub fn plus(self, other: Vec2) -> (v: Vec2)
        ensures
            v == self.spec_plus(other),
    {
        Vec2 { x: self.x.plus(other.x), y: self.y.plus(other.y) }
    }

    /// Component-wise difference, as a value.
    pub open spec fn spec_minus(self, other: Vec2) -> Vec2 {
        Vec2 { x: self.x.minus(other.x), y: self.y.minus(other.y) }
    }

    /// Component-wise difference.
    #[verifier::when_used_as_spec(spec_minus)]
    pub fn minus(self, other: Vec2) -> (v: Vec2)
        ensures
            v == self.spec_minus(other),
    {
        Vec2 { x: self.x.minus(other.x), y: self.y.minus(other.y) }
    }

    /// Both components multiplied by `k`, as a value.
    pub open spec fn spec_scaled(self, k: Fixed) -> Vec2 {
        Vec2 { x: self.x.times(k), y: self.y.times(k) }
    }

    /// Both components multiplied by `k`.
    #[verifier::when_used_as_spec(spec_scaled)]
    pub fn scaled(self, k: Fixed) -> (v: Vec2)
        ensures
            v == self.spec_scaled(k),
    {
        Vec2 { x: self.x.times(k), y: self.y.times(k) }
    }

    /// The point reached from `self` toward `target` after the fraction `t`
    /// of the way, as a value. `t` is used as given: `0` stays, `1` arrives.
    /// Each component is formed exactly and brought into range once at the
    /// end, so a full step arrives at the target from anywhere.
    pub open spec fn spec_lerp(self, target: Vec2, t: Fixed) -> Vec2 {
        Vec2 {
            x: Fixed::of(lerp_raw(self.x@, target.x@, t@)),
            y: Fixed::of(lerp_raw(self.y@, target.y@, t@)),
        }
    }

    /// Linear interpolation from `self` toward `target`.
    #[verifier::when_used_as_spec(spec_lerp)]
    pub fn lerp(self, target: Vec2, t: Fixed) -> (v: Vec2)
        ensures
            v == self.spec_lerp(target, t),
    {
        Vec2 {
            x: lerp_component(self.x, target.x, t),
            y: lerp_component(self.y, target.y, t),
        }
    }

    /// Sum of the squares of the raw components.
    pub open spec fn norm_squared(self) -> int {
        self.x@ * self.x@ + self.y@ * self.y@
    }

    /// Euclidean length, as a value: the integer square root of the sum of
    /// squares.
    pub open spec fn spec_length(self) -> Fixed {
        Fixed::of(int_sqrt(self.norm_squared()))
    }

    /// Euclidean length, rounded down to the nearest thousandth.
    #[verifier::when_used_as_spec(spec_length)]
    pub fn length(self) -> (len: Fixed)
        ensures
            len == self.spec_length(),
    {
        proof {
            lemma_square_nonneg_fits(self.x@);
            lemma_square_nonneg_fits(self.y@);
        }
        let xx: i128 = (self.x.raw as i128) * (self.x.raw as i128);
        let yy: i128 = (self.y.raw as i128) * (self.y.raw as i128);
        let root: u64 = isqrt((xx as u128) + (yy as u128));
        Fixed::from_wide(root as i128)
    }

    /// The vector of length one that points as `self` does, as a value; the
    /// null vector for a vector whose length rounds to zero.
    pub open spec fn spec_normalize(self) -> Vec2 {
        let len = int_sqrt(self.norm_squared());
        if len == 0 {
            Vec2 { x: Fixed::of(0), y: Fixed::of(0) }
        } else {
            Vec2 {
                x: Fixed::of(trunc_div(self.x@ * (SCALE as int), len)),
                y: Fixed::of(trunc_div(self.y@ * (SCALE as int), len)),
            }
        }
    }

    /// The direction of `self` as a vector of length one.
    #[verifier::when_used_as_spec(spec_normalize)]
    pub fn normalize(self) -> (v: Vec2)
        ensures
            v == self.spec_normalize(),
    {
        proof {
            lemma_square_nonneg_fits(self.x@);
            lemma_square_nonneg_fits(self.y@);
            lemma_product_fits(self.x@, SCALE as int);
            lemma_product_fits(self.y@, SCALE as int);
        }
        let xx: i128 = (self.x.raw as i128) * (self.x.raw as i128);
        let yy: i128 = (self.y.raw as i128) * (self.y.raw as i128);
        let root: u64 = isqrt((xx as u128) + (yy as u128));
        if root == 0 {
            Vec2 { x: Fixed::zero(), y: Fixed::zero() }
        } else {
            let len: i128 = root as i128;
            let sx: i128 = (self.x.raw as i128) * (SCALE as i128);
            let sy: i128 = (self.y.raw as i128) * (SCALE as i128);
            Vec2 {
                x: Fixed::from_wide(wide_trunc_div(sx, len)),
                y: Fixed::from_wide(wide_trunc_div(sy, len)),
            }
        }
    }
}

/// The square of a 64-bit value is a natural number below `2^126 + 1`.
pub proof fn lemma_square_nonneg_fits(a: int)
    requires
        i64::MIN <= a <= i64::MAX,
    ensures
        0 <= a * a <= 0x4000_0000_0000_0000_0000_0000_0000_0000,
{
    lemma_product_fits(a, a);
    assert(0 <= a * a) by (nonlinear_arith);
}

} // verus!
