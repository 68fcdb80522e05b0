//! Planar and spatial fixed-point vectors.
//!
//! Positions and influences are `Vec3` (the z axis is reserved for render
//! layering and carried along unchanged); velocities handed to the physics
//! layer are `Vec2`. Every normalization follows the "normalize-or-zero"
//! contract: a zero vector stays zero, nothing else ever divides by zero.

use vstd::prelude::*;

use crate::fixed::{
    abs_i, isqrt, isqrt_ceil, lemma_mul_div_bound, lemma_rescale_norm_bound, lemma_sqrt_ceil_bounds,
    lemma_sqrt_floor_bounds, lemma_square_le, lemma_square_le_converse, mul_div, mul_div_i64,
    sqrt_ceil, sqrt_floor, COORD_MAX, SCALE,
};

verus! {

/// Absolute component bound under which the vector routines stay exact.
pub const VLIM: i64 = 100_000_000_000_000_000;

#[derive(Clone, Copy, Debug, PartialEq, Eq, Structural)]
pub struct Vec3 {
    pub x: i64,
    pub y: i64,
    pub z: i64,
}

#[derive(Clone, Copy, Debug, PartialEq, Eq, Structural)]
pub struct Vec2 {
    pub x: i64,
    pub y: i64,
}

impl Vec3 {
    /// Squared Euclidean norm.
    pub open spec fn norm_sq(self) -> int {
        self.x * self.x + self.y * self.y + self.z * self.z
    }

    /// Every component has magnitude at most `m`.
    pub open spec fn in_range(self, m: int) -> bool {
        abs_i(self.x as int) <= m && abs_i(self.y as int) <= m && abs_i(self.z as int) <= m
    }

    /// Fixed-point length (floor of the Euclidean norm).
    pub open spec fn len_spec(self) -> int {
        sqrt_floor(self.norm_sq())
    }

    pub open spec fn zero_spec() -> Vec3 {
        Vec3 { x: 0i64, y: 0i64, z: 0i64 }
    }

    pub fn zero() -> (r: Vec3)
        ensures
            r == Self::zero_spec(),
    {
        Vec3 { x: 0, y: 0, z: 0 }
    }

    pub fn new(x: i64, y: i64, z: i64) -> (r: Vec3)
        ensures
            r == (Vec3 { x, y, z }),
    {
        Vec3 { x, y, z }
    }

    pub fn add(self, other: Vec3) -> (r: Vec3)
        requires
            i64::MIN <= self.x + other.x <= i64::MAX,
            i64::MIN <= self.y + other.y <= i64::MAX,
            i64::MIN <= self.z + other.z <= i64::MAX,
        ensures
            r.x == self.x + other.x,
            r.y == self.y + other.y,
            r.z == self.z + other.z,
    {
        Vec3 { x: self.x + other.x, y: self.y + other.y, z: self.z + other.z }
    }

    pub fn sub(self, other: Vec3) -> (r: Vec3)
        requires
            i64::MIN <= self.x - other.x <= i64::MAX,
            i64::MIN <= self.y - other.y <= i64::MAX,
            i64::MIN <= self.z - other.z <= i64::MAX,
        ensures
            r.x == self.x - other.x,
            r.y == self.y - other.y,
            r.z == self.z - other.z,
    {
        Vec3 { x: self.x - other.x, y: self.y - other.y, z: self.z - other.z }
    }

    pub fn neg(self) -> (r: Vec3)
        requires
            self.x > i64::MIN,
            self.y > i64::MIN,
            self.z > i64::MIN,
        ensures
            r.x == -self.x,
            r.y == -self.y,
            r.z == -self.z,
    {
        Vec3 { x: -self.x, y: -self.y, z: -self.z }
    }

    /// Componentwise `c * num / den`, rounded toward zero.
    pub fn scale_frac(self, num: i64, den: i64) -> (r: Vec3)
        requires
            den >= 1,
            abs_i(mul_div(self.x as int, num as int, den as int)) <= i64::MAX,
            abs_i(mul_div(self.y as int, num as int, den as int)) <= i64::MAX,
            abs_i(mul_div(self.z as int, num as int, den as int)) <= i64::MAX,
        ensures
            r.x == mul_div(self.x as int, num as int, den as int),
            r.y == mul_div(self.y as int, num as int, den as int),
            r.z == mul_div(self.z as int, num as int, den as int),
    {
        Vec3 {
            x: mul_div_i64(self.x, num, den),
            y: mul_div_i64(self.y, num, den),
            z: mul_div_i64(self.z, num, den),
        }
    }

    /// The planar part, as handed to the physics layer.
    pub fn xy(self) -> (r: Vec2)
        ensures
            r.x == self.x,
            r.y == self.y,
    {
        Vec2 { x: self.x, y: self.y }
    }

    /// Exact squared norm, in arithmetic wide enough never to overflow.
    pub fn norm_sq_wide(&self) -> (r: u128)
        ensures
            r == self.norm_sq(),
    {
        proof {
            lemma_component_square(self.x as int);
            lemma_component_square(self.y as int);
            lemma_component_square(self.z as int);
        }
        let xx: u128 = ((self.x as i128) * (self.x as i128)) as u128;
        let yy: u128 = ((self.y as i128) * (self.y as i128)) as u128;
        let zz: u128 = ((self.z as i128) * (self.z as i128)) as u128;
        xx + yy + zz
    }

    /// Fixed-point length: floor of the Euclidean norm.
    pub fn length(&self) -> (r: i64)
        requires
            self.in_range(VLIM as int),
        ensures
            r == self.len_spec(),
            0 <= r <= 2 * VLIM,
    {
        let nsq = self.norm_sq_wide();
        proof {
            lemma_norm_sq_range(*self, VLIM as int);
            lemma_sqrt_floor_bounds(nsq as int);
            lemma_square_le(2 * VLIM as int, 2 * VLIM as int);
            lemma_square_le_converse(sqrt_floor(nsq as int), 2 * VLIM as int);
        }
        isqrt(nsq) as i64
    }

    /// Rescale to (at most) the given length; the zero vector stays zero.
    ///
    /// For a nonzero vector the result is `self * target / ceil(|self|)`
    /// componentwise, whose norm is proved never to exceed `target`.
    pub fn rescale_or_zero(self, target: i64) -> (r: Vec3)
        requires
            0 <= target,
            self.in_range(VLIM as int),
        ensures
            self.norm_sq() == 0 ==> r == Self::zero_spec(),
            self.norm_sq() > 0 ==> {
                let rc = sqrt_ceil(self.norm_sq());
                r.x == mul_div(self.x as int, target as int, rc) && r.y == mul_div(
                    self.y as int,
                    target as int,
                    rc,
                ) && r.z == mul_div(self.z as int, target as int, rc)
            },
            r.norm_sq() <= target * target,
            r.in_range(target as int),
    {
        let nsq = self.norm_sq_wide();
        proof {
            lemma_norm_sq_range(self, VLIM as int);
        }
        if nsq == 0 {
            proof {
                lemma_zero_norm(self);
                assert(Self::zero_spec().norm_sq() == 0);
            }
            Vec3::zero()
        } else {
            proof {
                lemma_sqrt_ceil_bounds(nsq as int);
                lemma_sqrt_floor_bounds(nsq as int);
                lemma_square_le(2 * VLIM as int, 2 * VLIM as int);
                lemma_square_le_converse(sqrt_floor(nsq as int), 2 * VLIM as int);
            }
            let rc: i64 = isqrt_ceil(nsq) as i64;
            proof {
                let rci = rc as int;
                assert(self.x * self.x >= 0 && self.y * self.y >= 0 && self.z * self.z >= 0)
                    by (nonlinear_arith);
                assert(nsq as int <= rci * rci);
                lemma_square_le_converse(self.x as int, rci);
                lemma_square_le_converse(self.y as int, rci);
                lemma_square_le_converse(self.z as int, rci);
                lemma_rescale_bounds(self.x as int, target as int, rci);
                lemma_rescale_bounds(self.y as int, target as int, rci);
                lemma_rescale_bounds(self.z as int, target as int, rci);
                lemma_rescale_norm_bound(
                    self.x as int,
                    self.y as int,
                    self.z as int,
                    target as int,
                    rci,
                );
            }
            self.scale_frac(target, rc)
        }
    }

    /// Normalize to (at most) unit length; the zero vector stays zero.
    pub fn normalize_or_zero(self) -> (r: Vec3)
        requires
            self.in_range(VLIM as int),
        ensures
            self.norm_sq() == 0 ==> r == Self::zero_spec(),
            self.norm_sq() > 0 ==> {
                let rc = sqrt_ceil(self.norm_sq());
                r.x == mul_div(self.x as int, SCALE as int, rc) && r.y == mul_div(
                    self.y as int,
                    SCALE as int,
                    rc,
                ) && r.z == mul_div(self.z as int, SCALE as int, rc)
            },
            r.norm_sq() <= SCALE * SCALE,
            r.in_range(SCALE as int),
    {
        self.rescale_or_zero(SCALE)
    }
}

impl Vec2 {
    /// Squared Euclidean norm.
    pub open spec fn norm_sq(self) -> int {
        self.x * self.x + self.y * self.y
    }

    /// Every component has magnitude at most `m`.
    pub open spec fn in_range(self, m: int) -> bool {
        abs_i(self.x as int) <= m && abs_i(self.y as int) <= m
    }

    pub open spec fn zero_spec() -> Vec2 {
        Vec2 { x: 0i64, y: 0i64 }
    }

    pub fn zero() -> (r: Vec2)
        ensures
            r == Self::zero_spec(),
    {
        Vec2 { x: 0, y: 0 }
    }

    pub fn new(x: i64, y: i64) -> (r: Vec2)
        ensures
            r == (Vec2 { x, y }),
    {
        Vec2 { x, y }
    }

    /// Lift into space with a zero z component.
    pub fn extend_zero(self) -> (r: Vec3)
        ensures
            r.x == self.x,
            r.y == self.y,
            r.z == 0,
    {
        Vec3 { x: self.x, y: self.y, z: 0 }
    }

    /// Exact squared norm, in arithmetic wide enough never to overflow.
    pub fn norm_sq_wide(&self) -> (r: u128)
        ensures
            r == self.norm_sq(),
    {
        proof {
            lemma_component_square(self.x as int);
            lemma_component_square(self.y as int);
        }
        let xx: u128 = ((self.x as i128) * (self.x as i128)) as u128;
        let yy: u128 = ((self.y as i128) * (self.y as i128)) as u128;
        xx + yy
    }

    /// Fixed-point length: floor of the Euclidean norm.
    pub fn length(&self) -> (r: i64)
        requires
            self.in_range(VLIM as int),
        ensures
            r == sqrt_floor(self.norm_sq()),
            0 <= r <= 2 * VLIM,
    {
        let nsq = self.norm_sq_wide();
        proof {
            let lifted = (Vec3 { x: self.x, y: self.y, z: 0i64 });
            lemma_norm_sq_range(lifted, VLIM as int);
            assert(lifted.norm_sq() == self.norm_sq());
            lemma_sqrt_floor_bounds(nsq as int);
            lemma_square_le(2 * VLIM as int, 2 * VLIM as int);
            lemma_square_le_converse(sqrt_floor(nsq as int), 2 * VLIM as int);
        }
        isqrt(nsq) as i64
    }
}

/// Squared distance between two points.
pub open spec fn dist_sq(a: Vec3, b: Vec3) -> int {
    (a.x - b.x) * (a.x - b.x) + (a.y - b.y) * (a.y - b.y) + (a.z - b.z) * (a.z - b.z)
}

/// Fixed-point distance between two points (floor of the Euclidean one).
pub open spec fn dist(a: Vec3, b: Vec3) -> int {
    sqrt_floor(dist_sq(a, b))
}

/// Distance, for points inside the world coordinate bound.
pub fn distance(a: Vec3, b: Vec3) -> (r: i64)
    requires
        a.in_range(COORD_MAX as int),
        b.in_range(COORD_MAX as int),
    ensures
        r == dist(a, b),
        r >= 0,
{
    let d = a.sub(b);
    proof {
        assert(d.norm_sq() == dist_sq(a, b));
    }
    d.length()
}

proof fn lemma_component_square(a: int)
    requires
        -0x8000_0000_0000_0000 <= a < 0x8000_0000_0000_0000,
    ensures
        0 <= a * a <= 0x4000_0000_0000_0000_0000_0000_0000_0000,
{
    assert(0 <= a * a <= 0x4000_0000_0000_0000_0000_0000_0000_0000) by (nonlinear_arith)
        requires
            -0x8000_0000_0000_0000 <= a <= 0x8000_0000_0000_0000,
    ;
}

/// A componentwise bound gives a norm bound.
pub proof fn lemma_norm_sq_range(v: Vec3, m: int)
    requires
        v.in_range(m),
        m >= 0,
    ensures
        0 <= v.norm_sq() <= 3 * (m * m),
{
    lemma_abs_square(v.x as int, m);
    lemma_abs_square(v.y as int, m);
    lemma_abs_square(v.z as int, m);
}

proof fn lemma_abs_square(a: int, m: int)
    requires
        abs_i(a) <= m,
        m >= 0,
    ensures
        0 <= a * a <= m * m,
{
    lemma_square_le(abs_i(a), m);
    assert(abs_i(a) * abs_i(a) == a * a) by (nonlinear_arith);
}

/// A vector with zero norm is the zero vector.
pub proof fn lemma_zero_norm(v: Vec3)
    requires
        v.norm_sq() == 0,
    ensures
        v.x == 0 && v.y == 0 && v.z == 0,
{
    lemma_abs_square(v.x as int, abs_i(v.x as int));
    lemma_abs_square(v.y as int, abs_i(v.y as int));
    lemma_abs_square(v.z as int, abs_i(v.z as int));
    assert(v.x * v.x >= 0 && v.y * v.y >= 0 && v.z * v.z >= 0);
    if v.x != 0 {
        assert(v.x * v.x > 0) by (nonlinear_arith)
            requires
                v.x != 0,
        ;
    }
    if v.y != 0 {
        assert(v.y * v.y > 0) by (nonlinear_arith)
            requires
                v.y != 0,
        ;
    }
    if v.z != 0 {
        assert(v.z * v.z > 0) by (nonlinear_arith)
            requires
                v.z != 0,
        ;
    }
}

proof fn lemma_rescale_bounds(c: int, t: int, rc: int)
    requires
        rc >= 1,
        t >= 0,
        abs_i(c) <= rc,
    ensures
        abs_i(mul_div(c, t, rc)) <= t,
{
    assert(abs_i(c) * abs_i(t) <= t * rc) by (nonlinear_arith)
        requires
            abs_i(c) <= rc,
            t >= 0,
            abs_i(t) == t,
    ;
    lemma_mul_div_bound(c, t, rc, t);
}

} // verus!
