//! Three-component fixed-point vectors, used both as points and as colors.

use vstd::prelude::*;

use crate::fixed::{
    abs1, fx_add, fx_div, fx_mul, fx_neg, fx_sqrt, fx_sub, lemma_fx_add_neg,
    lemma_fx_mul_commutes, lemma_fx_mul_neg_left, lemma_fx_square_nonneg, wf_raw, Fx,
};

verus! {

/// An ordered triple of fixed-point scalars: a position, a direction or a
/// color, depending on use. A pure value type, freely copied.
#[derive(Clone, Copy, Debug, PartialEq, Eq, Structural)]
pub struct Vec3 {
    pub x: Fx,
    pub y: Fx,
    pub z: Fx,
}

impl Vec3 {
    /// The zero vector.
    pub open spec fn spec_zero() -> Vec3 {
        Vec3 { x: Fx { raw: 0 }, y: Fx { raw: 0 }, z: Fx { raw: 0 } }
    }

    /// Component-wise sum.
    pub open spec fn spec_add(self, rhs: Vec3) -> Vec3 {
        Vec3 {
            x: Fx { raw: fx_add(self.x.raw as int, rhs.x.raw as int) as i64 },
            y: Fx { raw: fx_add(self.y.raw as int, rhs.y.raw as int) as i64 },
            z: Fx { raw: fx_add(self.z.raw as int, rhs.z.raw as int) as i64 },
        }
    }

    /// Component-wise difference.
    pub open spec fn spec_sub(self, rhs: Vec3) -> Vec3 {
        Vec3 {
            x: Fx { raw: fx_sub(self.x.raw as int, rhs.x.raw as int) as i64 },
            y: Fx { raw: fx_sub(self.y.raw as int, rhs.y.raw as int) as i64 },
            z: Fx { raw: fx_sub(self.z.raw as int, rhs.z.raw as int) as i64 },
        }
    }

    /// Component-wise negation.
    pub open spec fn spec_neg(self) -> Vec3 {
        Vec3 {
            x: Fx { raw: fx_neg(self.x.raw as int) as i64 },
            y: Fx { raw: fx_neg(self.y.raw as int) as i64 },
            z: Fx { raw: fx_neg(self.z.raw as int) as i64 },
        }
    }

    /// Every component scaled by `s`.
    pub open spec fn spec_scale(self, s: Fx) -> Vec3 {
        Vec3 {
            x: Fx { raw: fx_mul(self.x.raw as int, s.raw as int) as i64 },
            y: Fx { raw: fx_mul(self.y.raw as int, s.raw as int) as i64 },
            z: Fx { raw: fx_mul(self.z.raw as int, s.raw as int) as i64 },
        }
    }

    /// Every component divided by `s`.
    pub open spec fn spec_div_scalar(self, s: Fx) -> Vec3 {
        Vec3 {
            x: Fx { raw: fx_div(self.x.raw as int, s.raw as int) as i64 },
            y: Fx { raw: fx_div(self.y.raw as int, s.raw as int) as i64 },
            z: Fx { raw: fx_div(self.z.raw as int, s.raw as int) as i64 },
        }
    }

    /// Component-wise (Hadamard) product, as colors filter colors.
    pub open spec fn spec_component_mul(self, rhs: Vec3) -> Vec3 {
        Vec3 {
            x: Fx { raw: fx_mul(self.x.raw as int, rhs.x.raw as int) as i64 },
            y: Fx { raw: fx_mul(self.y.raw as int, rhs.y.raw as int) as i64 },
            z: Fx { raw: fx_mul(self.z.raw as int, rhs.z.raw as int) as i64 },
        }
    }

    /// Inner product.
    pub open spec fn spec_dot(self, rhs: Vec3) -> Fx {
        Fx {
            raw: fx_add(
                fx_add(
                    fx_mul(self.x.raw as int, rhs.x.raw as int),
                    fx_mul(self.y.raw as int, rhs.y.raw as int),
                ),
                fx_mul(self.z.raw as int, rhs.z.raw as int),
            ) as i64,
        }
    }

    /// Cross product.
    pub open spec fn spec_cross(self, rhs: Vec3) -> Vec3 {
        Vec3 {
            x: Fx {
                raw: fx_sub(
                    fx_mul(self.y.raw as int, rhs.z.raw as int),
                    fx_mul(self.z.raw as int, rhs.y.raw as int),
                ) as i64,
            },
            y: Fx {
                raw: fx_sub(
                    fx_mul(self.z.raw as int, rhs.x.raw as int),
                    fx_mul(self.x.raw as int, rhs.z.raw as int),
                ) as i64,
            },
            z: Fx {
                raw: fx_sub(
                    fx_mul(self.x.raw as int, rhs.y.raw as int),
                    fx_mul(self.y.raw as int, rhs.x.raw as int),
                ) as i64,
            },
        }
    }

    /// Squared Euclidean length.
    pub open spec fn spec_length2(self) -> Fx {
        self.spec_dot(self)
    }

    /// Euclidean length.
    pub open spec fn spec_length(self) -> Fx {
        Fx { raw: fx_sqrt(self.spec_length2().raw as int) as i64 }
    }

    /// The vector rescaled to unit length (the zero vector stays zero,
    /// since division by a zero length gives zero components).
    pub open spec fn spec_normalize(self) -> Vec3 {
        self.spec_div_scalar(self.spec_length())
    }

    /// `self` mirrored about the plane with normal `n`.
    pub open spec fn spec_reflect(self, n: Vec3) -> Vec3 {
        self.spec_sub(n.spec_scale(Fx { raw: fx_mul(131072int, self.spec_dot(n).raw as int) as i64 }))
    }

    /// A vector from its components.
    pub fn new(x: Fx, y: Fx, z: Fx) -> (r: Vec3)
        ensures
            r == (Vec3 { x, y, z }),
    {
        Vec3 { x, y, z }
    }

    /// The zero vector.
    pub fn zero() -> (r: Vec3)
        ensures
            r == Vec3::spec_zero(),
    {
        Vec3 { x: Fx { raw: 0 }, y: Fx { raw: 0 }, z: Fx { raw: 0 } }
    }

    /// Component-wise sum.
    pub fn add(self, rhs: Vec3) -> (r: Vec3)
        ensures
            r == self.spec_add(rhs),
    {
        Vec3 { x: self.x.add(rhs.x), y: self.y.add(rhs.y), z: self.z.add(rhs.z) }
    }

    /// Component-wise difference.
    pub fn sub(self, rhs: Vec3) -> (r: Vec3)
        ensures
            r == self.spec_sub(rhs),
    {
        Vec3 { x: self.x.sub(rhs.x), y: self.y.sub(rhs.y), z: self.z.sub(rhs.z) }
    }

    /// Component-wise negation.
    pub fn neg(self) -> (r: Vec3)
        ensures
            r == self.spec_neg(),
    {
        Vec3 { x: self.x.neg(), y: self.y.neg(), z: self.z.neg() }
    }

    /// Every component scaled by `s`.
    pub fn scale(self, s: Fx) -> (r: Vec3)
        ensures
            r == self.spec_scale(s),
    {
        Vec3 { x: self.x.mul(s), y: self.y.mul(s), z: self.z.mul(s) }
    }

    /// Every component divided by `s`.
    pub fn div_scalar(self, s: Fx) -> (r: Vec3)
        ensures
            r == self.spec_div_scalar(s),
    {
        Vec3 { x: self.x.div(s), y: self.y.div(s), z: self.z.div(s) }
    }

    /// Component-wise (Hadamard) product.
    pub fn component_mul(self, rhs: Vec3) -> (r: Vec3)
        ensures
            r == self.spec_component_mul(rhs),
    {
        Vec3 { x: self.x.mul(rhs.x), y: self.y.mul(rhs.y), z: self.z.mul(rhs.z) }
    }

    /// Inner product.
    pub fn dot(self, rhs: Vec3) -> (r: Fx)
        ensures
            r == self.spec_dot(rhs),
    {
        self.x.mul(rhs.x).add(self.y.mul(rhs.y)).add(self.z.mul(rhs.z))
    }

    /// Cross product.
    pub fn cross(self, rhs: Vec3) -> (r: Vec3)
        ensures
            r == self.spec_cross(rhs),
    {
        Vec3 {
            x: self.y.mul(rhs.z).sub(self.z.mul(rhs.y)),
            y: self.z.mul(rhs.x).sub(self.x.mul(rhs.z)),
            z: self.x.mul(rhs.y).sub(self.y.mul(rhs.x)),
        }
    }

    /// Squared Euclidean length.
    pub fn length2(self) -> (r: Fx)
        ensures
            r == self.spec_length2(),
    {
        self.dot(self)
    }

    /// Euclidean length.
    pub fn length(self) -> (r: Fx)
        ensures
            r == self.spec_length(),
    {
        self.length2().sqrt()
    }

    /// The vector rescaled to unit length.
    pub fn normalize(self) -> (r: Vec3)
        ensures
            r == self.spec_normalize(),
    {
        self.div_scalar(self.length())
    }

    /// `self` mirrored about the plane with normal `n`:
    /// `self - 2 * dot(self, n) * n`.
    pub fn reflect(self, n: Vec3) -> (r: Vec3)
        ensures
            r == self.spec_reflect(n),
    {
        let two = Fx { raw: 2 * 65536 };
        self.sub(n.scale(two.mul(self.dot(n))))
    }

    /// Components within the saturation range (negation stays exact).
    pub open spec fn spec_wf(self) -> bool {
        wf_raw(self.x.raw as int) && wf_raw(self.y.raw as int) && wf_raw(self.z.raw as int)
    }

    /// Every component's mantissa lies within `b` of zero.
    pub open spec fn spec_bounded_by(self, b: int) -> bool {
        &&& -b <= self.x.raw <= b
        &&& -b <= self.y.raw <= b
        &&& -b <= self.z.raw <= b
    }
}

/// Negating a mantissa twice gives it back, within the saturation range.
proof fn lemma_fx_neg_neg(a: int)
    requires
        wf_raw(a),
    ensures
        fx_neg(fx_neg(a)) == a,
{
}

/// A product with the zero mantissa is zero.
proof fn lemma_fx_mul_zero(a: int)
    ensures
        fx_mul(0, a) == 0,
        fx_mul(a, 0) == 0,
{
    vstd::arithmetic::div_mod::lemma_div_of0(65536);
    assert(0 * a == 0 && a * 0 == 0) by (nonlinear_arith);
}

/// Negating a vector twice gives it back.
pub proof fn lemma_neg_neg(v: Vec3)
    requires
        v.spec_wf(),
    ensures
        v.spec_neg().spec_neg() == v,
{
    lemma_fx_neg_neg(v.x.raw as int);
    lemma_fx_neg_neg(v.y.raw as int);
    lemma_fx_neg_neg(v.z.raw as int);
}

/// Scaling by one changes nothing.
pub proof fn lemma_scale_one(v: Vec3)
    requires
        v.spec_wf(),
    ensures
        v.spec_scale(Fx { raw: 65536i64 }) == v,
{
    crate::fixed::lemma_fx_mul_one(v.x.raw as int);
    crate::fixed::lemma_fx_mul_one(v.y.raw as int);
    crate::fixed::lemma_fx_mul_one(v.z.raw as int);
}

/// Scaling by minus one negates.
pub proof fn lemma_scale_neg_one(v: Vec3)
    requires
        v.spec_wf(),
    ensures
        v.spec_scale(Fx { raw: -65536i64 }) == v.spec_neg(),
{
    lemma_fx_mul_commutes(v.x.raw as int, -65536);
    lemma_fx_mul_commutes(v.y.raw as int, -65536);
    lemma_fx_mul_commutes(v.z.raw as int, -65536);
    lemma_fx_mul_neg_left(65536, v.x.raw as int);
    lemma_fx_mul_neg_left(65536, v.y.raw as int);
    lemma_fx_mul_neg_left(65536, v.z.raw as int);
    lemma_fx_mul_commutes(65536, v.x.raw as int);
    lemma_fx_mul_commutes(65536, v.y.raw as int);
    lemma_fx_mul_commutes(65536, v.z.raw as int);
    crate::fixed::lemma_fx_mul_one(v.x.raw as int);
    crate::fixed::lemma_fx_mul_one(v.y.raw as int);
    crate::fixed::lemma_fx_mul_one(v.z.raw as int);
}

/// A vector and its negation sum to zero.
pub proof fn lemma_add_opposite(v: Vec3)
    requires
        v.spec_wf(),
    ensures
        v.spec_neg().spec_add(v) == Vec3::spec_zero(),
{
}

/// Adding the zero vector changes nothing.
pub proof fn lemma_add_zero(v: Vec3)
    requires
        v.spec_wf(),
    ensures
        Vec3::spec_zero().spec_add(v) == v,
        v.spec_add(Vec3::spec_zero()) == v,
{
}

/// The zero vector scales to itself and has zero squared length.
pub proof fn lemma_zero_vector(s: Fx)
    ensures
        Vec3::spec_zero().spec_scale(s) == Vec3::spec_zero(),
        Vec3::spec_zero().spec_length2().raw == 0,
{
    lemma_fx_mul_zero(s.raw as int);
    lemma_fx_mul_zero(0);
}

/// A square below one unit has a mantissa below a quarter unit, and a
/// square of at least one mantissa unit has one of at least a quarter unit.
proof fn lemma_square_mantissa(a: int)
    ensures
        fx_mul(a, a) <= 65535 ==> -65535 <= a <= 65535,
        fx_mul(a, a) >= 1 ==> abs1(a) >= 256,
{
    crate::fixed::lemma_fx_square_nonneg(a);
    vstd::arithmetic::div_mod::lemma_fundamental_div_mod(a * a, 65536);
    assert(a * a >= 0) by (nonlinear_arith);
    if fx_mul(a, a) <= 65535 {
        assert(-65535 <= a <= 65535) by (nonlinear_arith)
            requires
                a * a < 65536 * (65535 + 1),
        ;
    }
    if a * a < 65536 {
        vstd::arithmetic::div_mod::lemma_basic_div(a * a, 65536);
    }
    if fx_mul(a, a) >= 1 {
        assert(abs1(a) >= 256) by (nonlinear_arith)
            requires
                a * a >= 65536,
        ;
    }
}

/// Normalizing a sample of the open unit ball with positive squared length
/// divides by a length of at least a quarter unit: the result is never the
/// zero vector and every component stays within two hundred fifty-six units.
pub proof fn lemma_normalize_in_ball(v: Vec3)
    requires
        0 < v.spec_length2().raw < 65536,
    ensures
        v.spec_normalize() != Vec3::spec_zero(),
        v.spec_normalize().spec_bounded_by(16777216),
{
    let mx = fx_mul(v.x.raw as int, v.x.raw as int);
    let my = fx_mul(v.y.raw as int, v.y.raw as int);
    let mz = fx_mul(v.z.raw as int, v.z.raw as int);
    crate::fixed::lemma_fx_square_nonneg(v.x.raw as int);
    crate::fixed::lemma_fx_square_nonneg(v.y.raw as int);
    crate::fixed::lemma_fx_square_nonneg(v.z.raw as int);
    let len2 = v.spec_length2().raw as int;
    // the sum never saturates below one unit, so it is the plain sum
    assert(len2 == mx + my + mz);
    lemma_square_mantissa(v.x.raw as int);
    lemma_square_mantissa(v.y.raw as int);
    lemma_square_mantissa(v.z.raw as int);
    // the length is a quarter to one unit
    crate::fixed::lemma_sqrt_floor_exists(len2 * 65536);
    let l = crate::fixed::fx_sqrt(len2);
    assert(256 <= l <= 65535) by (nonlinear_arith)
        requires
            crate::fixed::is_sqrt_floor(len2 * 65536, l),
            1 <= len2 <= 65535,
    ;
    crate::fixed::lemma_fx_div_comp_bound(v.x.raw as int, l);
    crate::fixed::lemma_fx_div_comp_bound(v.y.raw as int, l);
    crate::fixed::lemma_fx_div_comp_bound(v.z.raw as int, l);
    // some component's square carries at least one mantissa unit
    if mx >= 1 {
        assert(v.spec_normalize().x.raw != 0);
    } else if my >= 1 {
        assert(v.spec_normalize().y.raw != 0);
    } else {
        assert(mz >= 1);
        assert(v.spec_normalize().z.raw != 0);
    }
}

/// A squared length is never negative.
pub proof fn lemma_length2_nonneg(v: Vec3)
    ensures
        v.spec_length2().raw >= 0,
{
    lemma_fx_square_nonneg(v.x.raw as int);
    lemma_fx_square_nonneg(v.y.raw as int);
    lemma_fx_square_nonneg(v.z.raw as int);
}

/// The inner product is symmetric.
pub proof fn lemma_dot_commutes(a: Vec3, b: Vec3)
    ensures
        a.spec_dot(b) == b.spec_dot(a),
{
    lemma_fx_mul_commutes(a.x.raw as int, b.x.raw as int);
    lemma_fx_mul_commutes(a.y.raw as int, b.y.raw as int);
    lemma_fx_mul_commutes(a.z.raw as int, b.z.raw as int);
}

/// Negating one side negates the inner product, for an in-range vector.
pub proof fn lemma_dot_neg(a: Vec3, b: Vec3)
    requires
        a.spec_wf(),
    ensures
        a.spec_neg().spec_dot(b).raw == fx_neg(a.spec_dot(b).raw as int),
{
    let mx = fx_mul(a.x.raw as int, b.x.raw as int);
    let my = fx_mul(a.y.raw as int, b.y.raw as int);
    let mz = fx_mul(a.z.raw as int, b.z.raw as int);
    lemma_fx_mul_neg_left(a.x.raw as int, b.x.raw as int);
    lemma_fx_mul_neg_left(a.y.raw as int, b.y.raw as int);
    lemma_fx_mul_neg_left(a.z.raw as int, b.z.raw as int);
    lemma_fx_add_neg(mx, my);
    lemma_fx_add_neg(fx_add(mx, my), mz);
}

} // verus!
