//! Fixed-point arithmetic for the simulation.
//!
//! Quantities are stored as `i64` values holding the physical quantity
//! times [`SCALE`]. Rescaling after a product divides by the appropriate
//! power of [`SCALE`], truncating toward zero exactly as Rust's integer
//! division does; [`tdiv`] is the specification of that rounding.

use vstd::prelude::*;
use vstd::arithmetic::div_mod::{
    lemma_div_nonincreasing, lemma_div_pos_is_pos, lemma_fundamental_div_mod,
    lemma_multiply_divide_lt,
};
use vstd::arithmetic::mul::{
    lemma_mul_inequality, lemma_mul_is_commutative, lemma_mul_nonnegative,
    lemma_mul_unary_negation, lemma_mul_upper_bound,
};

verus! {

/// Number of fixed-point steps per base unit: values are in thousandths.
pub const SCALE: i64 = 1000;

/// Magnitude of a mathematical integer.
pub open spec fn abs_val(a: int) -> int {
    if a >= 0 {
        a
    } else {
        -a
    }
}

/// Division truncating toward zero — the rounding of Rust's `/` operator.
/// (Spec-mode `/` is Euclidean division, which differs on negative
/// dividends, so the executable rounding is spelled out here.)
pub open spec fn tdiv(a: int, b: int) -> int
    recommends
        b > 0,
{
    if a >= 0 {
        a / b
    } else {
        -((-a) / b)
    }
}

/// Truncating division never increases a magnitude: `|a / b| * b <= |a|`.
pub proof fn lemma_tdiv_mag(a: int, b: int)
    requires
        b > 0,
    ensures
        abs_val(tdiv(a, b)) >= 0,
        abs_val(tdiv(a, b)) * b <= abs_val(a),
        abs_val(tdiv(a, b)) == abs_val(a) / b,
{
    let n = abs_val(a);
    lemma_div_pos_is_pos(n, b);
    lemma_fundamental_div_mod(n, b);
    lemma_mul_is_commutative(b, n / b);
    if a >= 0 {
        assert(abs_val(tdiv(a, b)) == n / b);
    } else {
        assert(tdiv(a, b) == -(n / b));
        assert(abs_val(tdiv(a, b)) == n / b);
    }
}

/// A positive value strictly shrinks under a proper fraction:
/// `0 < a && c < b ==> a * c / b < a`.
pub proof fn lemma_tdiv_strict_decay(a: int, c: int, b: int)
    requires
        0 < a,
        0 <= c < b,
    ensures
        0 <= tdiv(a * c, b) < a,
{
    lemma_mul_nonnegative(a, c);
    lemma_div_pos_is_pos(a * c, b);
    lemma_mul_inequality(c, b - 1, a);
    lemma_mul_is_commutative(c, a);
    lemma_mul_is_commutative(b - 1, a);
    assert(a * c <= a * (b - 1));
    assert(a * (b - 1) < b * a) by (nonlinear_arith)
        requires
            a > 0,
            b > 0,
    ;
    lemma_multiply_divide_lt(a * c, b, a);
}

/// Floor of the square root, defined by counting up.
pub open spec fn sqrt_floor(n: int) -> int
    recommends
        n >= 0,
    decreases n,
{
    if n <= 0 {
        0
    } else {
        let s = sqrt_floor(n - 1);
        if (s + 1) * (s + 1) <= n {
            s + 1
        } else {
            s
        }
    }
}

/// `sqrt_floor(n)` is the unique integer whose square brackets `n`.
pub proof fn lemma_sqrt_floor_bounds(n: int)
    requires
        n >= 0,
    ensures
        sqrt_floor(n) >= 0,
        sqrt_floor(n) * sqrt_floor(n) <= n,
        n < (sqrt_floor(n) + 1) * (sqrt_floor(n) + 1),
    decreases n,
{
    if n == 0 {
    } else {
        lemma_sqrt_floor_bounds(n - 1);
        let s = sqrt_floor(n - 1);
        if (s + 1) * (s + 1) <= n {
            assert((s + 2) * (s + 2) > n) by (nonlinear_arith)
                requires
                    s >= 0,
                    n - 1 < (s + 1) * (s + 1),
            ;
        }
    }
}

/// Any integer whose square brackets `n` is `sqrt_floor(n)`.
pub proof fn lemma_sqrt_floor_unique(n: int, r: int)
    requires
        n >= 0,
        r >= 0,
        r * r <= n,
        n < (r + 1) * (r + 1),
    ensures
        r == sqrt_floor(n),
{
    lemma_sqrt_floor_bounds(n);
    let s = sqrt_floor(n);
    if r < s {
        assert(false) by (nonlinear_arith)
            requires
                0 <= r < s,
                s * s <= n,
                n < (r + 1) * (r + 1),
        ;
    }
    if s < r {
        assert(false) by (nonlinear_arith)
            requires
                0 <= s < r,
                r * r <= n,
                n < (s + 1) * (s + 1),
        ;
    }
}

/// Magnitude of an `i64`, widened to `u64` so that `i64::MIN` needs no care
/// from callers beyond the stated bound.
pub fn abs_i64(v: i64) -> (r: u64)
    requires
        v > i64::MIN,
    ensures
        r as int == abs_val(v as int),
{
    if v >= 0 {
        v as u64
    } else {
        (-v) as u64
    }
}

/// Computes `v * num / den` with truncation toward zero, as the continuous
/// model scaled by `num / den` and rounded toward zero.
pub fn mul_div(v: i64, num: u64, den: u64) -> (r: i64)
    requires
        den > 0,
        v > i64::MIN,
        abs_val(v as int) * (num as int) <= i64::MAX as int,
    ensures
        r as int == tdiv(v as int * num as int, den as int),
        abs_val(r as int) * (den as int) <= abs_val(v as int) * (num as int),
        v >= 0 ==> r >= 0,
        v <= 0 ==> r <= 0,
{
    proof {
        lemma_mul_nonnegative(abs_val(v as int), num as int);
        lemma_tdiv_mag(v as int * num as int, den as int);
        if v >= 0 {
            assert(v as int * num as int == abs_val(v as int) * (num as int));
        } else {
            lemma_mul_unary_negation(v as int, num as int);
            assert((-(v as int)) * (num as int) == -(v as int * num as int));
            assert(abs_val(v as int * num as int) == abs_val(v as int) * (num as int));
        }
        lemma_div_nonincreasing(abs_val(v as int) * (num as int), den as int);
        if v == 0 {
            assert(v as int * num as int == 0) by (nonlinear_arith)
                requires
                    v as int == 0,
            ;
        }
    }
    if v >= 0 {
        let p: u64 = (v as u64) * num;
        let m: u64 = p / den;
        m as i64
    } else {
        let p: u64 = ((-v) as u64) * num;
        let m: u64 = p / den;
        -(m as i64)
    }
}

/// Floor square root by binary search over the 32-bit result range.
pub fn isqrt(n: u64) -> (r: u64)
    ensures
        r as int == sqrt_floor(n as int),
        r as int * (r as int) <= n as int,
        (n as int) < (r as int + 1) * (r as int + 1),
{
    let mut lo: u64 = 0;
    let mut hi: u64 = 0x1_0000_0000;
    proof {
        assert((0x1_0000_0000int) * 0x1_0000_0000int > n as int) by (nonlinear_arith);
    }
    while lo + 1 < hi
        invariant
            lo < hi <= 0x1_0000_0000,
            lo as int * (lo as int) <= n as int,
            (n as int) < hi as int * (hi as int),
        decreases hi - lo,
    {
        let mid: u64 = lo + (hi - lo) / 2;
        proof {
            assert(lo < mid < hi);
            assert(mid as int * (mid as int) <= 0xFFFF_FFFFint * 0xFFFF_FFFFint) by (nonlinear_arith)
                requires
                    0 <= mid as int <= 0xFFFF_FFFFint,
            ;
            assert(0xFFFF_FFFFint * 0xFFFF_FFFFint < 0x1_0000_0000_0000_0000int)
                by (nonlinear_arith);
        }
        if mid * mid <= n {
            lo = mid;
        } else {
            hi = mid;
        }
    }
    proof {
        lemma_sqrt_floor_unique(n as int, lo as int);
    }
    lo
}

/// A 2-component fixed-point vector (pointer deltas, smoothed velocities).
#[derive(Clone, Copy, PartialEq, Eq, Structural, Debug)]
pub struct MilliVec2 {
    pub x: i64,
    pub y: i64,
}

/// A 3-component fixed-point vector (world-space velocities, translations).
#[derive(Clone, Copy, PartialEq, Eq, Structural, Debug)]
pub struct MilliVec3 {
    pub x: i64,
    pub y: i64,
    pub z: i64,
}

/// Largest component magnitude the squared-length routines accept.
pub const COORD_MAX: i64 = 2_200_000_000;

impl MilliVec2 {
    /// Squared length, as a mathematical integer.
    pub open spec fn mag2(self) -> int {
        self.x * self.x + self.y * self.y
    }

    /// The zero vector.
    pub fn zero() -> (r: MilliVec2)
        ensures
            r == (MilliVec2 { x: 0, y: 0 }),
    {
        MilliVec2 { x: 0, y: 0 }
    }

    /// Squared length of the vector.
    pub fn length_squared(&self) -> (r: u64)
        requires
            abs_val(self.x as int) <= COORD_MAX as int,
            abs_val(self.y as int) <= COORD_MAX as int,
        ensures
            r as int == self.mag2(),
    {
        let ax = abs_i64(self.x);
        let ay = abs_i64(self.y);
        proof {
            lemma_abs_square(self.x as int);
            lemma_abs_square(self.y as int);
            lemma_mul_upper_bound(ax as int, COORD_MAX as int, ax as int, COORD_MAX as int);
            lemma_mul_upper_bound(ay as int, COORD_MAX as int, ay as int, COORD_MAX as int);
            assert(2_200_000_000int * 2_200_000_000int == 4_840_000_000_000_000_000int)
                by (nonlinear_arith);
        }
        ax * ax + ay * ay
    }
}

impl MilliVec3 {
    /// Squared length, as a mathematical integer.
    pub open spec fn mag2(self) -> int {
        self.x * self.x + self.y * self.y + self.z * self.z
    }

    /// All three component magnitudes are below the given bound.
    pub open spec fn in_bounds(self, limit: int) -> bool {
        abs_val(self.x as int) <= limit && abs_val(self.y as int) <= limit && abs_val(
            self.z as int,
        ) <= limit
    }

    /// The zero vector.
    pub fn zero() -> (r: MilliVec3)
        ensures
            r == (MilliVec3 { x: 0, y: 0, z: 0 }),
    {
        MilliVec3 { x: 0, y: 0, z: 0 }
    }

    /// Squared length of the vector.
    pub fn length_squared(&self) -> (r: u64)
        requires
            self.in_bounds(COORD_MAX as int),
        ensures
            r as int == self.mag2(),
    {
        let ax = abs_i64(self.x);
        let ay = abs_i64(self.y);
        let az = abs_i64(self.z);
        proof {
            lemma_abs_square(self.x as int);
            lemma_abs_square(self.y as int);
            lemma_abs_square(self.z as int);
            lemma_mul_upper_bound(ax as int, COORD_MAX as int, ax as int, COORD_MAX as int);
            lemma_mul_upper_bound(ay as int, COORD_MAX as int, ay as int, COORD_MAX as int);
            lemma_mul_upper_bound(az as int, COORD_MAX as int, az as int, COORD_MAX as int);
            assert(2_200_000_000int * 2_200_000_000int == 4_840_000_000_000_000_000int)
                by (nonlinear_arith);
        }
        ax * ax + ay * ay + az * az
    }
}

/// Ceiling of the square root of a non-negative integer.
pub open spec fn sqrt_ceil(n: int) -> int
    recommends
        n >= 0,
{
    let s = sqrt_floor(n);
    if s * s == n {
        s
    } else {
        s + 1
    }
}

/// A vector clamped to a maximum length: unchanged while its squared length
/// is within `limit * limit`, otherwise every component is scaled by
/// `limit / sqrt_ceil(mag2)`, rounding toward zero.
pub open spec fn clamp_len_spec(v: MilliVec3, limit: int) -> MilliVec3
    recommends
        limit >= 0,
{
    if v.mag2() <= limit * limit {
        v
    } else {
        let s = sqrt_ceil(v.mag2());
        MilliVec3 {
            x: tdiv(v.x * limit, s) as i64,
            y: tdiv(v.y * limit, s) as i64,
            z: tdiv(v.z * limit, s) as i64,
        }
    }
}

/// Scaling a component by `limit / s` keeps its square under
/// `component^2 * limit^2 / s^2`.
proof fn lemma_scaled_component_sq(v: int, limit: int, s: int)
    requires
        s > 0,
        limit >= 0,
    ensures
        tdiv(v * limit, s) * tdiv(v * limit, s) * (s * s) <= (v * v) * (limit * limit),
{
    let q = tdiv(v * limit, s);
    lemma_tdiv_mag(v * limit, s);
    lemma_abs_square(q);
    lemma_abs_square(v * limit);
    assert(q * q * (s * s) <= (v * limit) * (v * limit)) by (nonlinear_arith)
        requires
            s > 0,
            abs_val(q) * s <= abs_val(v * limit),
            abs_val(q) >= 0,
            abs_val(q) * abs_val(q) == q * q,
            abs_val(v * limit) * abs_val(v * limit) == (v * limit) * (v * limit),
    ;
    assert((v * limit) * (v * limit) == (v * v) * (limit * limit)) by (nonlinear_arith);
}

/// Scaling all three components of a vector whose squared length is at most
/// `s * s` by `limit / s` brings the squared length under `limit * limit`.
proof fn lemma_clamp_mag(v: MilliVec3, limit: int, s: int)
    requires
        s > 0,
        limit >= 0,
        v.mag2() <= s * s,
    ensures
        ({
            let qx = tdiv(v.x * limit, s);
            let qy = tdiv(v.y * limit, s);
            let qz = tdiv(v.z * limit, s);
            qx * qx + qy * qy + qz * qz <= limit * limit
        }),
{
    let qx = tdiv(v.x * limit, s);
    let qy = tdiv(v.y * limit, s);
    let qz = tdiv(v.z * limit, s);
    lemma_scaled_component_sq(v.x as int, limit, s);
    lemma_scaled_component_sq(v.y as int, limit, s);
    lemma_scaled_component_sq(v.z as int, limit, s);
    assert(qx * qx + qy * qy + qz * qz <= limit * limit) by (nonlinear_arith)
        requires
            s > 0,
            limit >= 0,
            qx * qx * (s * s) <= (v.x * v.x) * (limit * limit),
            qy * qy * (s * s) <= (v.y * v.y) * (limit * limit),
            qz * qz * (s * s) <= (v.z * v.z) * (limit * limit),
            v.x * v.x + v.y * v.y + v.z * v.z <= s * s,
    ;
}

/// A square below `b * b` with `b >= 0` bounds the magnitude by `b`.
pub proof fn lemma_sq_le(a: int, b: int)
    requires
        b >= 0,
        a * a <= b * b,
    ensures
        abs_val(a) <= b,
{
    if abs_val(a) > b {
        lemma_abs_square(a);
        assert(false) by (nonlinear_arith)
            requires
                abs_val(a) > b >= 0,
                abs_val(a) * abs_val(a) <= b * b,
        ;
    }
}

impl MilliVec3 {
    /// Shortens the vector to at most `limit` without turning it, as the
    /// locomotion controller's speed cap asks; a vector already within the
    /// limit comes back unchanged.
    pub fn clamp_length_max(&self, limit: i64) -> (r: MilliVec3)
        requires
            0 <= limit <= 1_600_000_000,
            self.in_bounds(COORD_MAX as int),
        ensures
            r == clamp_len_spec(*self, limit as int),
            r.mag2() <= limit as int * (limit as int),
            r.in_bounds(limit as int),
            self.mag2() <= limit as int * (limit as int) ==> r == *self,
    {
        let m2: u64 = self.length_squared();
        proof {
            assert(1_600_000_000int * 1_600_000_000int < 0x7FFF_FFFF_FFFF_FFFFint)
                by (nonlinear_arith);
            lemma_mul_upper_bound(
                limit as int,
                1_600_000_000int,
                limit as int,
                1_600_000_000int,
            );
        }
        let b2: u64 = (limit as u64) * (limit as u64);
        if m2 <= b2 {
            proof {
                lemma_sq_in_bounds(*self, limit as int);
            }
            *self
        } else {
            let sf: u64 = isqrt(m2);
            proof {
                assert(sf as int <= 0xFFFF_FFFFint) by (nonlinear_arith)
                    requires
                        sf as int >= 0,
                        sf as int * (sf as int) <= 0xFFFF_FFFF_FFFF_FFFFint,
                ;
            }
            let s: u64 = if sf * sf < m2 {
                sf + 1
            } else {
                sf
            };
            proof {
                assert(s as int == sqrt_ceil(m2 as int));
                assert(m2 as int <= s as int * (s as int));
                assert(s as int >= 1) by (nonlinear_arith)
                    requires
                        s as int >= 0,
                        m2 as int <= s as int * (s as int),
                        m2 as int >= 1,
                ;
                lemma_mul_upper_bound(
                    abs_val(self.x as int),
                    COORD_MAX as int,
                    limit as int,
                    1_600_000_000int,
                );
                lemma_mul_upper_bound(
                    abs_val(self.y as int),
                    COORD_MAX as int,
                    limit as int,
                    1_600_000_000int,
                );
                lemma_mul_upper_bound(
                    abs_val(self.z as int),
                    COORD_MAX as int,
                    limit as int,
                    1_600_000_000int,
                );
                assert(COORD_MAX as int * 1_600_000_000int < 0x7FFF_FFFF_FFFF_FFFFint)
                    by (nonlinear_arith);
            }
            let r = MilliVec3 {
                x: mul_div(self.x, limit as u64, s),
                y: mul_div(self.y, limit as u64, s),
                z: mul_div(self.z, limit as u64, s),
            };
            proof {
                lemma_clamp_mag(*self, limit as int, s as int);
                lemma_square_nonneg(r.x as int);
                lemma_square_nonneg(r.y as int);
                lemma_square_nonneg(r.z as int);
                lemma_sq_le(r.x as int, limit as int);
                lemma_sq_le(r.y as int, limit as int);
                lemma_sq_le(r.z as int, limit as int);
            }
            r
        }
    }
}

/// Components of a vector whose squared length is within `b * b` are
/// themselves within `b` in magnitude.
pub proof fn lemma_sq_in_bounds(v: MilliVec3, b: int)
    requires
        b >= 0,
        v.mag2() <= b * b,
    ensures
        v.in_bounds(b),
{
    lemma_abs_square(v.x as int);
    lemma_abs_square(v.y as int);
    lemma_abs_square(v.z as int);
    lemma_mul_nonnegative(abs_val(v.x as int), abs_val(v.x as int));
    lemma_mul_nonnegative(abs_val(v.y as int), abs_val(v.y as int));
    lemma_mul_nonnegative(abs_val(v.z as int), abs_val(v.z as int));
    lemma_sq_le(v.x as int, b);
    lemma_sq_le(v.y as int, b);
    lemma_sq_le(v.z as int, b);
}

/// Clamping to a closed interval.
pub open spec fn clamp_spec(v: int, lo: int, hi: int) -> int
    recommends
        lo <= hi,
{
    if v < lo {
        lo
    } else if v > hi {
        hi
    } else {
        v
    }
}

/// Squaring forgets the sign: `|a| * |a| == a * a`.
pub proof fn lemma_abs_square(a: int)
    ensures
        abs_val(a) * abs_val(a) == a * a,
{
    if a < 0 {
        lemma_mul_unary_negation(a, a);
        lemma_mul_unary_negation(-a, a);
    }
}

/// A square is never negative.
pub proof fn lemma_square_nonneg(a: int)
    ensures
        a * a >= 0,
{
    lemma_abs_square(a);
    lemma_mul_nonnegative(abs_val(a), abs_val(a));
}

} // verus!
