//! Fixed-point scalar arithmetic: truncating multiply-divide and integer
//! square roots, with the lemmas the vector layer builds on.

use vstd::prelude::*;

verus! {

/// Fixed-point steps per world unit: a scalar `s: i64` stands for `s / SCALE`.
pub const SCALE: i64 = 1_000_000;

/// Largest magnitude a world coordinate or velocity component may take.
pub const COORD_MAX: i64 = 1_000_000_000_000;

/// Largest magnitude a single influence component may take.
pub const INFLUENCE_MAX: i64 = 10_000_000_000_000_000;

pub open spec fn abs_i(a: int) -> int {
    if a >= 0 {
        a
    } else {
        -a
    }
}

/// Division rounding toward zero, the behaviour of `/` on machine integers.
pub open spec fn div_trunc(a: int, d: int) -> int {
    if a >= 0 {
        a / d
    } else {
        -((-a) / d)
    }
}

/// `a * b / d`, rounded toward zero.
pub open spec fn mul_div(a: int, b: int, d: int) -> int {
    div_trunc(a * b, d)
}

/// Floor of the square root of `n` (0 for negative `n`).
pub open spec fn sqrt_floor(n: int) -> int
    decreases n,
{
    if n <= 0 {
        0
    } else {
        let r = sqrt_floor(n - 1);
        if (r + 1) * (r + 1) <= n {
            r + 1
        } else {
            r
        }
    }
}

/// Ceiling of the square root of `n`.
pub open spec fn sqrt_ceil(n: int) -> int {
    let r = sqrt_floor(n);
    if r * r == n {
        r
    } else {
        r + 1
    }
}

pub proof fn lemma_sqrt_floor_bounds(n: int)
    requires
        n >= 0,
    ensures
        0 <= sqrt_floor(n),
        sqrt_floor(n) * sqrt_floor(n) <= n,
        n < (sqrt_floor(n) + 1) * (sqrt_floor(n) + 1),
    decreases n,
{
    if n > 0 {
        lemma_sqrt_floor_bounds(n - 1);
        let r = sqrt_floor(n - 1);
        if (r + 1) * (r + 1) <= n {
            assert(n <= (r + 1) * (r + 1));
            assert((r + 1) * (r + 1) < (r + 2) * (r + 2)) by (nonlinear_arith)
                requires
                    r >= 0,
            ;
        }
    }
}

pub proof fn lemma_sqrt_floor_unique(n: int, r: int)
    requires
        n >= 0,
        r >= 0,
        r * r <= n,
        n < (r + 1) * (r + 1),
    ensures
        r == sqrt_floor(n),
{
    lemma_sqrt_floor_bounds(n);
    let s = sqrt_floor(n);
    if r < s {
        assert((r + 1) * (r + 1) <= s * s) by (nonlinear_arith)
            requires
                0 <= r + 1 <= s,
        ;
    }
    if s < r {
        assert((s + 1) * (s + 1) <= r * r) by (nonlinear_arith)
            requires
                0 <= s + 1 <= r,
        ;
    }
}

pub proof fn lemma_sqrt_ceil_bounds(n: int)
    requires
        n >= 0,
    ensures
        0 <= sqrt_ceil(n),
        n <= sqrt_ceil(n) * sqrt_ceil(n),
        n > 0 ==> sqrt_ceil(n) >= 1,
        sqrt_ceil(n) <= sqrt_floor(n) + 1,
{
    lemma_sqrt_floor_bounds(n);
    if n > 0 && sqrt_floor(n) == 0 {
        assert(sqrt_floor(n) * sqrt_floor(n) == 0);
    }
}

/// Squaring preserves order on nonnegative values.
pub proof fn lemma_square_le(a: int, b: int)
    by (nonlinear_arith)
    requires
        0 <= a <= b,
    ensures
        a * a <= b * b,
{
}

/// A value whose square is bounded is itself bounded.
pub proof fn lemma_square_le_converse(a: int, b: int)
    requires
        b >= 0,
        a * a <= b * b,
    ensures
        abs_i(a) <= b,
{
    if abs_i(a) > b {
        assert((b + 1) * (b + 1) <= abs_i(a) * abs_i(a)) by (nonlinear_arith)
            requires
                0 <= b + 1 <= abs_i(a),
        ;
        assert(abs_i(a) * abs_i(a) == a * a) by (nonlinear_arith);
        assert(b * b < (b + 1) * (b + 1)) by (nonlinear_arith)
            requires
                b >= 0,
        ;
    }
}

pub proof fn lemma_abs_mul(a: int, b: int)
    by (nonlinear_arith)
    ensures
        abs_i(a * b) == abs_i(a) * abs_i(b),
{
}

/// Truncating division shrinks magnitudes: `|a / d| * d <= |a|`.
pub proof fn lemma_div_trunc_abs(a: int, d: int)
    requires
        d >= 1,
    ensures
        0 <= abs_i(div_trunc(a, d)),
        abs_i(div_trunc(a, d)) * d <= abs_i(a),
        abs_i(div_trunc(a, d)) <= abs_i(a),
{
    let m = abs_i(a);
    vstd::arithmetic::div_mod::lemma_fundamental_div_mod(m, d);
    vstd::arithmetic::div_mod::lemma_mod_division_less_than_divisor(m, d);
    vstd::arithmetic::div_mod::lemma_div_pos_is_pos(m, d);
    assert(abs_i(div_trunc(a, d)) == m / d);
    assert((m / d) * d <= m);
    assert((m / d) * 1 <= (m / d) * d) by (nonlinear_arith)
        requires
            d >= 1,
            m / d >= 0,
    ;
}

/// The magnitude of `a * b / d` is at most `|a| * |b| / d` scaled back up.
pub proof fn lemma_mul_div_abs(a: int, b: int, d: int)
    requires
        d >= 1,
    ensures
        0 <= abs_i(mul_div(a, b, d)),
        abs_i(mul_div(a, b, d)) * d <= abs_i(a) * abs_i(b),
{
    lemma_div_trunc_abs(a * b, d);
    lemma_abs_mul(a, b);
}

/// Bound the magnitude of `a * b / d` by `m` whenever `|a| * |b| <= m * d`.
pub proof fn lemma_mul_div_bound(a: int, b: int, d: int, m: int)
    requires
        d >= 1,
        abs_i(a) * abs_i(b) <= m * d,
    ensures
        abs_i(mul_div(a, b, d)) <= m,
    {
    lemma_mul_div_abs(a, b, d);
    let q = abs_i(mul_div(a, b, d));
    if q > m {
        assert((m + 1) * d <= q * d) by (nonlinear_arith)
            requires
                d >= 1,
                m + 1 <= q,
        ;
        assert(m * d < (m + 1) * d) by (nonlinear_arith)
            requires
                d >= 1,
        ;
    }
}

/// Bound the magnitude of `a / d` by `m` whenever `|a| <= m * d`.
pub proof fn lemma_div_trunc_bound(a: int, d: int, m: int)
    requires
        d >= 1,
        abs_i(a) <= m * d,
    ensures
        abs_i(div_trunc(a, d)) <= m,
{
    lemma_div_trunc_abs(a, d);
    let q = abs_i(div_trunc(a, d));
    if q > m {
        assert((m + 1) * d <= q * d) by (nonlinear_arith)
            requires
                d >= 1,
                m + 1 <= q,
        ;
        assert(m * d < (m + 1) * d) by (nonlinear_arith)
            requires
                d >= 1,
        ;
    }
}

/// `a * b / d` keeps the sign of `a * b`.
pub proof fn lemma_mul_div_sign(a: int, b: int, d: int)
    requires
        d >= 1,
    ensures
        a >= 0 && b >= 0 ==> mul_div(a, b, d) >= 0,
        a <= 0 && b >= 0 ==> mul_div(a, b, d) <= 0,
{
    if a >= 0 && b >= 0 {
        assert(a * b >= 0) by (nonlinear_arith)
            requires
                a >= 0,
                b >= 0,
        ;
        vstd::arithmetic::div_mod::lemma_div_pos_is_pos(a * b, d);
    }
    if a <= 0 && b >= 0 {
        assert(a * b <= 0) by (nonlinear_arith)
            requires
                a <= 0,
                b >= 0,
        ;
        if a * b < 0 {
            vstd::arithmetic::div_mod::lemma_div_pos_is_pos(-(a * b), d);
        } else {
            vstd::arithmetic::div_mod::lemma_div_of0(d);
        }
    }
}

/// Rescaling a vector by `t / r` cannot push its norm above `t` when its
/// norm was at most `r`: the heart of every clamp in the composer.
pub proof fn lemma_rescale_norm_bound(x: int, y: int, z: int, t: int, r: int)
    requires
        r >= 1,
        t >= 0,
        x * x + y * y + z * z <= r * r,
    ensures
        mul_div(x, t, r) * mul_div(x, t, r) + mul_div(y, t, r) * mul_div(y, t, r) + mul_div(
            z,
            t,
            r,
        ) * mul_div(z, t, r) <= t * t,
{
    let qx = mul_div(x, t, r);
    let qy = mul_div(y, t, r);
    let qz = mul_div(z, t, r);
    lemma_mul_div_abs(x, t, r);
    lemma_mul_div_abs(y, t, r);
    lemma_mul_div_abs(z, t, r);
    assert(abs_i(t) == t);
    lemma_rescale_component(x, t, r, qx);
    lemma_rescale_component(y, t, r, qy);
    lemma_rescale_component(z, t, r, qz);
    assert((qx * qx + qy * qy + qz * qz) * (r * r) <= (x * x + y * y + z * z) * (t * t))
        by (nonlinear_arith)
        requires
            qx * qx * (r * r) <= x * x * (t * t),
            qy * qy * (r * r) <= y * y * (t * t),
            qz * qz * (r * r) <= z * z * (t * t),
    ;
    assert((x * x + y * y + z * z) * (t * t) <= (r * r) * (t * t)) by (nonlinear_arith)
        requires
            x * x + y * y + z * z <= r * r,
            t * t >= 0,
    ;
    assert(r * r >= 1) by (nonlinear_arith)
        requires
            r >= 1,
    ;
    assert(qx * qx + qy * qy + qz * qz <= t * t) by (nonlinear_arith)
        requires
            r * r >= 1,
            (qx * qx + qy * qy + qz * qz) * (r * r) <= (r * r) * (t * t),
    ;
}

/// Scaling all components by `num / den` scales a squared-norm bound by
/// `num^2 / den^2`, stated without division.
pub proof fn lemma_scaled_norm_sq(x: int, y: int, z: int, num: int, den: int, b: int)
    requires
        den >= 1,
        num >= 0,
        x * x + y * y + z * z <= b,
    ensures
        (mul_div(x, num, den) * mul_div(x, num, den) + mul_div(y, num, den) * mul_div(y, num, den)
            + mul_div(z, num, den) * mul_div(z, num, den)) * (den * den) <= b * (num * num),
{
    let qx = mul_div(x, num, den);
    let qy = mul_div(y, num, den);
    let qz = mul_div(z, num, den);
    lemma_mul_div_abs(x, num, den);
    lemma_mul_div_abs(y, num, den);
    lemma_mul_div_abs(z, num, den);
    assert(abs_i(num) == num);
    lemma_rescale_component(x, num, den, qx);
    lemma_rescale_component(y, num, den, qy);
    lemma_rescale_component(z, num, den, qz);
    assert((qx * qx + qy * qy + qz * qz) * (den * den) <= (x * x + y * y + z * z) * (num * num))
        by (nonlinear_arith)
        requires
            qx * qx * (den * den) <= x * x * (num * num),
            qy * qy * (den * den) <= y * y * (num * num),
            qz * qz * (den * den) <= z * z * (num * num),
    ;
    assert((x * x + y * y + z * z) * (num * num) <= b * (num * num)) by (nonlinear_arith)
        requires
            x * x + y * y + z * z <= b,
            num * num >= 0,
    ;
}

proof fn lemma_rescale_component(x: int, t: int, r: int, q: int)
    requires
        r >= 1,
        t >= 0,
        q == mul_div(x, t, r),
        abs_i(q) * r <= abs_i(x) * t,
    ensures
        q * q * (r * r) <= x * x * (t * t),
{
    assert((abs_i(q) * r) * (abs_i(q) * r) <= (abs_i(x) * t) * (abs_i(x) * t)) by {
        lemma_square_le(abs_i(q) * r, abs_i(x) * t);
        assert(abs_i(q) * r >= 0) by (nonlinear_arith)
            requires
                r >= 1,
                abs_i(q) >= 0,
        ;
    }
    assert((abs_i(q) * r) * (abs_i(q) * r) == q * q * (r * r)) by (nonlinear_arith);
    assert((abs_i(x) * t) * (abs_i(x) * t) == x * x * (t * t)) by (nonlinear_arith);
}

/// Division rounding toward zero.
pub fn div_trunc_i64(a: i64, d: i64) -> (r: i64)
    requires
        d >= 1,
        a > i64::MIN,
    ensures
        r == div_trunc(a as int, d as int),
        abs_i(r as int) <= abs_i(a as int),
{
    proof {
        lemma_div_trunc_abs(a as int, d as int);
    }
    if a >= 0 {
        a / d
    } else {
        -((-a) / d)
    }
}

/// `a * b / d`, rounded toward zero, computed without intermediate overflow.
pub fn mul_div_i64(a: i64, b: i64, d: i64) -> (r: i64)
    requires
        d >= 1,
        abs_i(mul_div(a as int, b as int, d as int)) <= i64::MAX,
    ensures
        r == mul_div(a as int, b as int, d as int),
{
    mul_div_wide(a, b, d as u128)
}

/// `a * b / d` for a divisor that may exceed `i64`, rounded toward zero.
pub fn mul_div_wide(a: i64, b: i64, d: u128) -> (r: i64)
    requires
        d >= 1,
        abs_i(mul_div(a as int, b as int, d as int)) <= i64::MAX,
    ensures
        r == mul_div(a as int, b as int, d as int),
{
    let am: u128 = if a >= 0 {
        a as u128
    } else {
        (-(a as i128)) as u128
    };
    let bm: u128 = if b >= 0 {
        b as u128
    } else {
        (-(b as i128)) as u128
    };
    proof {
        assert(am == abs_i(a as int));
        assert(bm == abs_i(b as int));
        assert(am * bm <= u128::MAX) by (nonlinear_arith)
            requires
                am <= 0x8000_0000_0000_0000u128,
                bm <= 0x8000_0000_0000_0000u128,
        ;
        lemma_abs_mul(a as int, b as int);
    }
    let p: u128 = am * bm;
    let q: u128 = p / d;
    proof {
        assert(q == abs_i((a as int) * (b as int)) / (d as int));
        lemma_div_trunc_abs((a as int) * (b as int), d as int);
        assert(abs_i(div_trunc((a as int) * (b as int), d as int)) == q);
    }
    let negative: bool = (a < 0) != (b < 0);
    if negative {
        proof {
            if (a as int) * (b as int) >= 0 {
                assert((a as int) * (b as int) <= 0) by (nonlinear_arith)
                    requires
                        (a < 0 && b >= 0) || (a >= 0 && b < 0),
                ;
            } else {
                assert(div_trunc((a as int) * (b as int), d as int) <= 0) by {
                    vstd::arithmetic::div_mod::lemma_div_pos_is_pos(
                        -((a as int) * (b as int)),
                        d as int,
                    );
                }
            }
        }
        -(q as i64)
    } else {
        proof {
            assert((a as int) * (b as int) >= 0) by (nonlinear_arith)
                requires
                    (a >= 0 && b >= 0) || (a < 0 && b < 0),
            ;
            vstd::arithmetic::div_mod::lemma_div_pos_is_pos((a as int) * (b as int), d as int);
        }
        q as i64
    }
}

/// Floor of the square root, by binary search over the candidate root.
pub fn isqrt(n: u128) -> (r: u64)
    ensures
        r == sqrt_floor(n as int),
{
    let mut lo: u128 = 0;
    let mut hi: u128 = if n < 0xFFFF_FFFF_FFFF_FFFFu128 {
        proof {
            assert((n + 1) * (n + 1) > n) by (nonlinear_arith)
                requires
                    n >= 0,
            ;
        }
        n + 1
    } else {
        proof {
            assert(0x1_0000_0000_0000_0000u128 * 0x1_0000_0000_0000_0000u128 > u128::MAX)
                by (nonlinear_arith);
        }
        0x1_0000_0000_0000_0000u128
    };
    while hi - lo > 1
        invariant
            0 <= lo < hi <= 0x1_0000_0000_0000_0000u128,
            lo * lo <= n,
            n < hi * hi,
        decreases hi - lo,
    {
        let mid: u128 = lo + (hi - lo) / 2;
        proof {
            assert(mid * mid <= u128::MAX) by (nonlinear_arith)
                requires
                    mid < 0x1_0000_0000_0000_0000u128,
            ;
        }
        if mid * mid <= n {
            lo = mid;
        } else {
            hi = mid;
        }
    }
    proof {
        lemma_sqrt_floor_unique(n as int, lo as int);
    }
    lo as u64
}

/// Ceiling of the square root.
pub fn isqrt_ceil(n: u128) -> (r: u64)
    requires
        n < 0x4000_0000_0000_0000_0000_0000_0000_0000u128,
    ensures
        r == sqrt_ceil(n as int),
{
    let f = isqrt(n);
    proof {
        lemma_sqrt_floor_bounds(n as int);
        assert(f < 0x8000_0000_0000_0000u64) by (nonlinear_arith)
            requires
                (f as int) * (f as int) <= n as int,
                (n as int) < 0x4000_0000_0000_0000_0000_0000_0000_0000,
                f >= 0,
        ;
    }
    let fsq: u128 = (f as u128) * (f as u128);
    if fsq == n {
        f
    } else {
        f + 1
    }
}

/// The larger of two scalars.
pub fn max_i64(a: i64, b: i64) -> (r: i64)
    ensures
        r == if a >= b {
            a as int
        } else {
            b as int
        },
{
    if a >= b {
        a
    } else {
        b
    }
}

/// The smaller of two scalars.
pub fn min_i64(a: i64, b: i64) -> (r: i64)
    ensures
        r == if a <= b {
            a as int
        } else {
            b as int
        },
{
    if a <= b {
        a
    } else {
        b
    }
}

} // verus!
