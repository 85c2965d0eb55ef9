//! Fixed-point scalar arithmetic.
//!
//! Every scalar quantity in this crate (coordinates, colors, ray parameters)
//! is a `Fx`: a signed two's-complement mantissa interpreted with a fixed
//! binary scale of `SCALE` (so the represented value is `raw / SCALE`).
//! All operations are total: results saturate at `MAX_RAW` / `MIN_RAW`,
//! which play the role of positive and negative infinity, and every
//! operation's result is pinned exactly by a spec-level function, so the
//! renderer built on top is deterministic and its arithmetic is reproducible
//! bit for bit.

use vstd::prelude::*;

verus! {

/// Number of raw units per unit value (a binary scale of 2^16).
pub const SCALE: i64 = 65536;

/// Largest representable mantissa; stands in for positive infinity.
pub const MAX_RAW: i64 = 9223372036854775807;

/// Smallest representable mantissa; stands in for negative infinity.
/// Symmetric with `MAX_RAW`, so negation never overflows.
pub const MIN_RAW: i64 = -9223372036854775807;

/// A fixed-point scalar with value `raw / SCALE`.
#[derive(Clone, Copy, Debug, PartialEq, Eq, Structural)]
pub struct Fx {
    pub raw: i64,
}

/// Absolute value over the mathematical integers.
pub open spec fn abs1(a: int) -> int {
    if a >= 0 {
        a
    } else {
        -a
    }
}

/// Saturation to the representable mantissa range.
pub open spec fn clip(x: int) -> int {
    if x > MAX_RAW as int {
        MAX_RAW as int
    } else if x < MIN_RAW as int {
        MIN_RAW as int
    } else {
        x
    }
}

/// Truncating (round-toward-zero) integer division, as the hardware divides.
pub open spec fn tdiv(n: int, d: int) -> int {
    if (n < 0) != (d < 0) {
        -(abs1(n) / abs1(d))
    } else {
        abs1(n) / abs1(d)
    }
}

/// Mantissa of a fixed-point sum.
pub open spec fn fx_add(a: int, b: int) -> int {
    clip(a + b)
}

/// Mantissa of a fixed-point difference.
pub open spec fn fx_sub(a: int, b: int) -> int {
    clip(a - b)
}

/// Mantissa of a fixed-point negation.
pub open spec fn fx_neg(a: int) -> int {
    clip(-a)
}

/// Mantissa of a fixed-point product: the double-width product rescaled.
pub open spec fn fx_mul(a: int, b: int) -> int {
    clip(tdiv(a * b, SCALE as int))
}

/// Mantissa of a fixed-point quotient. Division by zero saturates by the
/// sign of the dividend (zero divided by zero is zero), mirroring how the
/// saturation bounds stand in for infinities.
pub open spec fn fx_div(a: int, b: int) -> int {
    if b == 0 {
        if a > 0 {
            MAX_RAW as int
        } else if a < 0 {
            MIN_RAW as int
        } else {
            0
        }
    } else {
        clip(tdiv(a * SCALE as int, b))
    }
}

/// A nonnegative mantissa rounded down to a whole number of units,
/// saturating at `u32::MAX`; negative mantissas give zero.
pub open spec fn fx_to_u32_floor(a: int) -> int {
    if a < 0 {
        0
    } else if a / SCALE as int > u32::MAX as int {
        u32::MAX as int
    } else {
        a / SCALE as int
    }
}

/// `r` is the integer square root (rounded down) of `x`.
pub open spec fn is_sqrt_floor(x: int, r: int) -> bool {
    &&& 0 <= r
    &&& r * r <= x
    &&& x < (r + 1) * (r + 1)
}

/// The integer square root, rounded down (for nonnegative `x`).
pub open spec fn sqrt_floor(x: int) -> int {
    choose|r: int| is_sqrt_floor(x, r)
}

/// Mantissa of a fixed-point square root; nonpositive inputs give zero.
pub open spec fn fx_sqrt(a: int) -> int {
    if a <= 0 {
        0
    } else {
        sqrt_floor(a * SCALE as int)
    }
}

/// The integer square root is unique, so `sqrt_floor` equals any witness.
pub proof fn lemma_sqrt_floor_of(x: int, r: int)
    requires
        is_sqrt_floor(x, r),
    ensures
        sqrt_floor(x) == r,
{
    assert(is_sqrt_floor(x, sqrt_floor(x)));
    let s = sqrt_floor(x);
    assert(s == r) by (nonlinear_arith)
        requires
            is_sqrt_floor(x, r),
            is_sqrt_floor(x, s),
    ;
}

/// A mantissa within the saturation range (every operation's result is).
pub open spec fn wf_raw(a: int) -> bool {
    -(MAX_RAW as int) <= a <= MAX_RAW as int
}

/// Truncating division negates with its numerator (positive divisor).
pub proof fn lemma_tdiv_neg(n: int, d: int)
    requires
        d > 0,
    ensures
        tdiv(-n, d) == -tdiv(n, d),
{
}

/// Saturation is symmetric: clipping a negation negates the clip.
pub proof fn lemma_clip_neg(x: int)
    ensures
        clip(-x) == -clip(x),
        clip(-clip(x)) == -clip(x),
{
}

/// Negating a factor negates a fixed-point product.
pub proof fn lemma_fx_mul_neg_left(a: int, b: int)
    requires
        wf_raw(a),
    ensures
        fx_mul(fx_neg(a), b) == fx_neg(fx_mul(a, b)),
{
    vstd::arithmetic::mul::lemma_mul_unary_negation(a, b);
    lemma_tdiv_neg(a * b, SCALE as int);
    lemma_clip_neg(tdiv(a * b, SCALE as int));
}

/// Summing two negations negates the sum, for in-range addends.
pub proof fn lemma_fx_add_neg(x: int, y: int)
    requires
        wf_raw(x),
        wf_raw(y),
    ensures
        fx_add(fx_neg(x), fx_neg(y)) == fx_neg(fx_add(x, y)),
{
    lemma_clip_neg(x + y);
}

/// A fixed-point product commutes.
pub proof fn lemma_fx_mul_commutes(a: int, b: int)
    ensures
        fx_mul(a, b) == fx_mul(b, a),
{
    vstd::arithmetic::mul::lemma_mul_is_commutative(a, b);
}

/// One is the multiplicative unit, for in-range mantissas.
pub proof fn lemma_fx_mul_one(a: int)
    requires
        wf_raw(a),
    ensures
        fx_mul(a, SCALE as int) == a,
{
    vstd::arithmetic::div_mod::lemma_div_multiples_vanish(a, SCALE as int);
    assert(SCALE as int * a == a * SCALE as int);
    if a < 0 {
        vstd::arithmetic::mul::lemma_mul_unary_negation(a, SCALE as int);
        vstd::arithmetic::div_mod::lemma_div_multiples_vanish(-a, SCALE as int);
        assert(SCALE as int * (-a) == (-a) * SCALE as int);
    }
}

/// The integer square root exists for every nonnegative argument, so
/// `sqrt_floor` satisfies its defining bounds there.
pub proof fn lemma_sqrt_floor_exists(x: int)
    requires
        x >= 0,
    ensures
        is_sqrt_floor(x, sqrt_floor(x)),
    decreases x,
{
    if x == 0 {
        assert(is_sqrt_floor(0, 0));
    } else {
        lemma_sqrt_floor_exists(x - 1);
        let r = sqrt_floor(x - 1);
        if (r + 1) * (r + 1) <= x {
            assert(is_sqrt_floor(x, r + 1)) by (nonlinear_arith)
                requires
                    is_sqrt_floor(x - 1, r),
                    (r + 1) * (r + 1) <= x,
            ;
        } else {
            assert(is_sqrt_floor(x, r));
        }
    }
}

/// Truncating division by a positive divisor is monotone in the numerator.
pub proof fn lemma_tdiv_monotone(n1: int, n2: int, d: int)
    requires
        n1 <= n2,
        d > 0,
    ensures
        tdiv(n1, d) <= tdiv(n2, d),
{
    if n1 >= 0 {
        vstd::arithmetic::div_mod::lemma_div_is_ordered(n1, n2, d);
    } else if n2 >= 0 {
        vstd::arithmetic::div_mod::lemma_div_pos_is_pos(-n1, d);
        vstd::arithmetic::div_mod::lemma_div_pos_is_pos(n2, d);
    } else {
        vstd::arithmetic::div_mod::lemma_div_is_ordered(-n2, -n1, d);
    }
}

/// A fixed-point quotient by a nonnegative divisor is monotone in the
/// dividend.
pub proof fn lemma_fx_div_monotone(n1: int, n2: int, b: int)
    requires
        n1 <= n2,
        b >= 0,
    ensures
        fx_div(n1, b) <= fx_div(n2, b),
{
    if b > 0 {
        lemma_tdiv_monotone(n1 * SCALE as int, n2 * SCALE as int, b);
    }
}

/// A quotient of a bounded dividend by a divisor of at least a quarter unit
/// is itself bounded by two hundred fifty-six units, and it keeps a
/// dividend of at least a quarter unit away from zero.
pub proof fn lemma_fx_div_comp_bound(vi: int, l: int)
    requires
        -65535 <= vi <= 65535,
        256 <= l <= 65535,
    ensures
        -16777216 <= fx_div(vi, l) <= 16777216,
        abs1(vi) >= 256 ==> fx_div(vi, l) != 0,
{
    let x = abs1(vi) * SCALE as int;
    let n = vi * SCALE as int;
    assert(abs1(n) == x);
    let neg_agrees: bool = (n < 0) == (vi < 0);
    assert(neg_agrees);
    let q = x / l;
    vstd::arithmetic::div_mod::lemma_div_is_ordered_by_denominator(x, 256, l);
    vstd::arithmetic::div_mod::lemma_div_is_ordered(x, 65535int * 65536int, 256);
    vstd::arithmetic::div_mod::lemma_div_multiples_vanish(16776960, 256);
    assert(256int * 16776960int == 65535int * 65536int) by (nonlinear_arith);
    vstd::arithmetic::div_mod::lemma_div_pos_is_pos(x, l);
    assert(0 <= q <= 16776960);
    if abs1(vi) >= 256 {
        assert(x >= 256 * SCALE as int);
        vstd::arithmetic::div_mod::lemma_div_is_ordered(l, x, l);
        vstd::arithmetic::div_mod::lemma_div_by_self(l);
        assert(q >= 1);
    }
}

/// A fixed-point square is nonnegative.
pub proof fn lemma_fx_square_nonneg(a: int)
    ensures
        fx_mul(a, a) >= 0,
{
    assert(a * a >= 0) by (nonlinear_arith);
    vstd::arithmetic::div_mod::lemma_div_pos_is_pos(a * a, SCALE as int);
}

/// Signs and magnitudes factor through multiplication.
proof fn lemma_mul_sign_abs(a: int, b: int)
    ensures
        abs1(a * b) == abs1(a) * abs1(b),
        a * b == 0 <==> (a == 0 || b == 0),
        a * b < 0 ==> ((a < 0) != (b < 0)),
        a * b > 0 ==> ((a < 0) == (b < 0)),
{
    assert(abs1(a * b) == abs1(a) * abs1(b) && (a * b == 0 <==> (a == 0 || b == 0)) && (a * b < 0
        ==> ((a < 0) != (b < 0))) && (a * b > 0 ==> ((a < 0) == (b < 0)))) by (nonlinear_arith);
}

/// Magnitude of a signed mantissa, total even at `i64::MIN`.
fn abs_mag(a: i64) -> (m: u64)
    ensures
        m as int == abs1(a as int),
{
    if a >= 0 {
        a as u64
    } else if a == i64::MIN {
        9223372036854775808u64
    } else {
        (-a) as u64
    }
}

/// Rebuilds a saturated signed mantissa from a sign and a magnitude.
fn clip_signed(neg: bool, mag: u128) -> (r: i64)
    ensures
        r as int == clip(if neg { -(mag as int) } else { mag as int }),
{
    if neg {
        if mag > MAX_RAW as u128 {
            MIN_RAW
        } else {
            -(mag as i64)
        }
    } else {
        if mag > MAX_RAW as u128 {
            MAX_RAW
        } else {
            mag as i64
        }
    }
}

impl Fx {
    /// The zero scalar.
    pub fn zero() -> (r: Fx)
        ensures
            r.raw == 0,
    {
        Fx { raw: 0 }
    }

    /// The unit scalar.
    pub fn one() -> (r: Fx)
        ensures
            r.raw == SCALE,
    {
        Fx { raw: SCALE }
    }

    /// A scalar straight from its mantissa.
    pub fn from_raw(raw: i64) -> (r: Fx)
        ensures
            r.raw == raw,
    {
        Fx { raw }
    }

    /// The scalar for a small signed integer (exact).
    pub fn from_i32(v: i32) -> (r: Fx)
        ensures
            r.raw == v as int * SCALE,
    {
        Fx { raw: (v as i64) * SCALE }
    }

    /// The scalar for an unsigned integer (exact).
    pub fn from_u32(v: u32) -> (r: Fx)
        ensures
            r.raw == v as int * SCALE,
    {
        Fx { raw: (v as i64) * SCALE }
    }

    /// Saturating sum.
    pub fn add(self, rhs: Fx) -> (r: Fx)
        ensures
            r.raw == fx_add(self.raw as int, rhs.raw as int),
    {
        let a = self.raw as i128;
        let b = rhs.raw as i128;
        let s = a + b;
        if s > MAX_RAW as i128 {
            Fx { raw: MAX_RAW }
        } else if s < MIN_RAW as i128 {
            Fx { raw: MIN_RAW }
        } else {
            Fx { raw: s as i64 }
        }
    }

    /// Saturating difference.
    pub fn sub(self, rhs: Fx) -> (r: Fx)
        ensures
            r.raw == fx_sub(self.raw as int, rhs.raw as int),
    {
        let a = self.raw as i128;
        let b = rhs.raw as i128;
        let s = a - b;
        if s > MAX_RAW as i128 {
            Fx { raw: MAX_RAW }
        } else if s < MIN_RAW as i128 {
            Fx { raw: MIN_RAW }
        } else {
            Fx { raw: s as i64 }
        }
    }

    /// Saturating negation.
    pub fn neg(self) -> (r: Fx)
        ensures
            r.raw == fx_neg(self.raw as int),
    {
        if self.raw == i64::MIN {
            Fx { raw: MAX_RAW }
        } else {
            Fx { raw: -self.raw }
        }
    }

    /// Saturating rescaled product.
    pub fn mul(self, rhs: Fx) -> (r: Fx)
        ensures
            r.raw == fx_mul(self.raw as int, rhs.raw as int),
    {
        let neg = (self.raw < 0) != (rhs.raw < 0);
        let ua = abs_mag(self.raw);
        let ub = abs_mag(rhs.raw);
        proof {
            lemma_mul_sign_abs(self.raw as int, rhs.raw as int);
            vstd::arithmetic::mul::lemma_mul_upper_bound(
                ua as int,
                u64::MAX as int,
                ub as int,
                u64::MAX as int,
            );
        }
        let p: u128 = (ua as u128) * (ub as u128);
        let q: u128 = p / (SCALE as u128);
        let raw = clip_signed(neg, q);
        proof {
            let n = self.raw as int * rhs.raw as int;
            assert(q as int == abs1(n) / (SCALE as int));
            if n == 0 {
                assert(q == 0);
            }
        }
        Fx { raw }
    }

    /// Saturating quotient (division by zero saturates by the dividend's sign).
    pub fn div(self, rhs: Fx) -> (r: Fx)
        ensures
            r.raw == fx_div(self.raw as int, rhs.raw as int),
    {
        if rhs.raw == 0 {
            if self.raw > 0 {
                Fx { raw: MAX_RAW }
            } else if self.raw < 0 {
                Fx { raw: MIN_RAW }
            } else {
                Fx { raw: 0 }
            }
        } else {
            let neg = (self.raw < 0) != (rhs.raw < 0);
            let ua = abs_mag(self.raw);
            let ub = abs_mag(rhs.raw);
            proof {
                vstd::arithmetic::mul::lemma_mul_upper_bound(
                    ua as int,
                    u64::MAX as int,
                    SCALE as int,
                    SCALE as int,
                );
            }
            let p: u128 = (ua as u128) * (SCALE as u128);
            let q: u128 = p / (ub as u128);
            let raw = clip_signed(neg, q);
            proof {
                let n = self.raw as int * SCALE as int;
                lemma_mul_sign_abs(self.raw as int, SCALE as int);
                assert(n < 0 <==> self.raw < 0);
                assert(q as int == abs1(n) / abs1(rhs.raw as int));
            }
            Fx { raw }
        }
    }

    /// Fixed-point square root (nonpositive inputs give zero).
    pub fn sqrt(self) -> (r: Fx)
        ensures
            r.raw == fx_sqrt(self.raw as int),
    {
        if self.raw <= 0 {
            Fx { raw: 0 }
        } else {
            let x: u128 = (self.raw as u128) * (SCALE as u128);
            let r = isqrt(x);
            proof {
                lemma_sqrt_floor_of(x as int, r as int);
                assert(r < 0x10000000000u64) by (nonlinear_arith)
                    requires
                        (r as int) * (r as int) <= x as int,
                        x < 0x100000000000000000000u128,
                ;
            }
            Fx { raw: r as i64 }
        }
    }

    /// Saturating absolute value.
    pub fn abs(self) -> (r: Fx)
        ensures
            r.raw == clip(abs1(self.raw as int)),
    {
        if self.raw >= 0 {
            self
        } else {
            self.neg()
        }
    }

    /// The smaller of two scalars.
    pub fn min(self, rhs: Fx) -> (r: Fx)
        ensures
            r.raw == if self.raw <= rhs.raw {
                self.raw
            } else {
                rhs.raw
            },
    {
        if self.raw <= rhs.raw {
            self
        } else {
            rhs
        }
    }

    /// The larger of two scalars.
    pub fn max(self, rhs: Fx) -> (r: Fx)
        ensures
            r.raw == if self.raw >= rhs.raw {
                self.raw
            } else {
                rhs.raw
            },
    {
        if self.raw >= rhs.raw {
            self
        } else {
            rhs
        }
    }

    /// Strict order on scalars (the mantissa order is the value order).
    pub fn lt(self, rhs: Fx) -> (r: bool)
        ensures
            r == (self.raw < rhs.raw),
    {
        self.raw < rhs.raw
    }

    /// Nonstrict order on scalars.
    pub fn le(self, rhs: Fx) -> (r: bool)
        ensures
            r == (self.raw <= rhs.raw),
    {
        self.raw <= rhs.raw
    }

    /// Rounds a nonnegative scalar down to an unsigned integer, saturating
    /// at `u32::MAX`; negative scalars give zero.
    pub fn to_u32_floor(self) -> (r: u32)
        ensures
            r as int == fx_to_u32_floor(self.raw as int),
    {
        if self.raw < 0 {
            0u32
        } else {
            let q = self.raw / SCALE;
            if q > u32::MAX as i64 {
                u32::MAX
            } else {
                q as u32
            }
        }
    }
}

/// Integer square root (rounded down) by bisection.
fn isqrt(x: u128) -> (r: u64)
    requires
        x < 0x100000000000000000000u128,  // 2^80
    ensures
        is_sqrt_floor(x as int, r as int),
{
    let mut lo: u64 = 0;
    let mut hi: u64 = 0x10000000000u64;  // 2^40
    proof {
        assert((hi as int) * (hi as int) > x as int) by (nonlinear_arith)
            requires
                hi == 0x10000000000u64,
                x < 0x100000000000000000000u128,
        ;
    }
    while lo + 1 < hi
        invariant
            lo < hi <= 0x10000000000u64,
            (lo as int) * (lo as int) <= x as int,
            (hi as int) * (hi as int) > x as int,
        decreases hi - lo,
    {
        let mid = lo + (hi - lo) / 2;
        proof {
            vstd::arithmetic::mul::lemma_mul_upper_bound(
                mid as int,
                0x10000000000,
                mid as int,
                0x10000000000,
            );
        }
        let m2: u128 = (mid as u128) * (mid as u128);
        if m2 <= x {
            lo = mid;
        } else {
            hi = mid;
        }
    }
    proof {
        assert((lo as int + 1) * (lo as int + 1) > x as int);
    }
    lo
}

} // verus!
