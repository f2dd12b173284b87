//! Exact fixed-point arithmetic for the simulation core.
//!
//! Lengths, velocities, masses and coefficients are held in milli-units:
//! the integer 1000 stands for the physical value 1.0. Times are held in
//! milliseconds, and angles in milli-quarter-turns (1000 is a quarter
//! turn, 4000 a full turn). Products of two milli quantities are scaled
//! back by [`SCALE`] with truncation toward zero, which mirrors how a
//! product of two real factors stays in the same unit system.

use vstd::prelude::*;

verus! {

/// Number of fixed-point steps that stand for the physical value 1.0.
pub const SCALE: i64 = 1000;

/// Angle value of one full turn, in milli-quarter-turns.
pub const FULL_TURN: i64 = 4000;

/// Quotient of `a / b` truncated toward zero, the rounding of Rust's
/// native integer division.
pub open spec fn tdiv(a: int, b: int) -> int {
    if a >= 0 {
        a / b
    } else {
        -((-a) / b)
    }
}

/// `a * b / SCALE`, truncated toward zero: the product of two
/// fixed-point quantities, brought back to fixed-point scale.
pub open spec fn mul_scale(a: int, b: int) -> int {
    tdiv(a * b, SCALE as int)
}

/// `x` clamped into `[lo, hi]`.
pub open spec fn clamp_spec(x: int, lo: int, hi: int) -> int {
    if x < lo {
        lo
    } else if x > hi {
        hi
    } else {
        x
    }
}

/// The nearest multiple of `m` to `x`, halves rounded away from zero.
pub open spec fn round_to_multiple_spec(x: int, m: int) -> int {
    if x >= 0 {
        ((x + m / 2) / m) * m
    } else {
        -(((-x + m / 2) / m) * m)
    }
}

/// A product of values bounded in magnitude is bounded by the product
/// of the magnitudes.
pub proof fn lemma_mul_bound(a: int, b: int, ma: int, mb: int)
    by (nonlinear_arith)
    requires
        -ma <= a <= ma,
        -mb <= b <= mb,
    ensures
        -(ma * mb) <= a * b <= ma * mb,
{
}

/// A square is never negative.
pub proof fn lemma_square_nonneg(a: int)
    by (nonlinear_arith)
    ensures
        a * a >= 0,
{
}

/// Truncated division keeps magnitude bounds: dividing a value of
/// magnitude at most `m` by a positive `b` stays within `tdiv(m, b)`.
pub proof fn lemma_tdiv_bound(a: int, b: int, m: int)
    requires
        b > 0,
        -m <= a <= m,
    ensures
        -tdiv(m, b) <= tdiv(a, b) <= tdiv(m, b),
        -m <= tdiv(a, b) <= m,
{
    if a >= 0 {
        vstd::arithmetic::div_mod::lemma_div_is_ordered(a, m, b);
        vstd::arithmetic::div_mod::lemma_div_pos_is_pos(a, b);
        vstd::arithmetic::div_mod::lemma_div_nonincreasing(a, b);
        vstd::arithmetic::div_mod::lemma_div_nonincreasing(m, b);
        vstd::arithmetic::div_mod::lemma_div_pos_is_pos(m, b);
    } else {
        vstd::arithmetic::div_mod::lemma_div_is_ordered(-a, m, b);
        vstd::arithmetic::div_mod::lemma_div_pos_is_pos(-a, b);
        vstd::arithmetic::div_mod::lemma_div_nonincreasing(-a, b);
        vstd::arithmetic::div_mod::lemma_div_nonincreasing(m, b);
        vstd::arithmetic::div_mod::lemma_div_pos_is_pos(m, b);
    }
}

/// Truncated division of `a` by a positive `b`.
pub fn div_trunc(a: i64, b: i64) -> (q: i64)
    requires
        b > 0,
        a > i64::MIN,
    ensures
        q == tdiv(a as int, b as int),
{
    if a >= 0 {
        a / b
    } else {
        -((-a) / b)
    }
}

/// The product of two fixed-point quantities, brought back to scale.
///
/// Both factors must stay under 2^30 in magnitude, so the raw product
/// fits comfortably in an `i64`.
pub fn mul_milli(a: i64, b: i64) -> (r: i64)
    requires
        -0x4000_0000 <= a <= 0x4000_0000,
        -0x4000_0000 <= b <= 0x4000_0000,
    ensures
        r == mul_scale(a as int, b as int),
{
    proof {
        lemma_mul_bound(a as int, b as int, 0x4000_0000, 0x4000_0000);
    }
    let p = a * b;
    div_trunc(p, SCALE)
}

/// `x` clamped into `[lo, hi]`.
pub fn clamp_i64(x: i64, lo: i64, hi: i64) -> (r: i64)
    requires
        lo <= hi,
    ensures
        r == clamp_spec(x as int, lo as int, hi as int),
        lo <= r <= hi,
{
    if x < lo {
        lo
    } else if x > hi {
        hi
    } else {
        x
    }
}

/// Euclidean remainder of `a` modulo a positive `m`; always in `[0, m)`.
pub fn rem_euclid_i64(a: i64, m: i64) -> (r: i64)
    requires
        m > 0,
        a > i64::MIN,
    ensures
        r == a as int % m as int,
        0 <= r < m,
{
    if a >= 0 {
        a % m
    } else {
        let down = (-a) % m;
        proof {
            let ai = a as int;
            let mi = m as int;
            let q0 = (-ai) / mi;
            let r0 = (-ai) % mi;
            vstd::arithmetic::div_mod::lemma_mod_division_less_than_divisor(-ai, mi);
            vstd::arithmetic::div_mod::lemma_fundamental_div_mod(-ai, mi);
            if r0 == 0 {
                assert(ai == (-q0) * mi + 0) by (nonlinear_arith)
                    requires
                        -ai == mi * q0 + r0,
                        r0 == 0,
                ;
                vstd::arithmetic::div_mod::lemma_fundamental_div_mod_converse_mod(ai, mi, -q0, 0);
            } else {
                assert(ai == (-q0 - 1) * mi + (mi - r0)) by (nonlinear_arith)
                    requires
                        -ai == mi * q0 + r0,
                ;
                vstd::arithmetic::div_mod::lemma_fundamental_div_mod_converse_mod(
                    ai,
                    mi,
                    -q0 - 1,
                    mi - r0,
                );
            }
        }
        if down == 0 {
            0
        } else {
            m - down
        }
    }
}

/// Nearest multiple of a positive `m`, halves rounded away from zero.
pub fn round_to_multiple(x: i64, m: i64) -> (r: i64)
    requires
        0 < m <= 0x1_0000_0000,
        -0x1000_0000_0000_0000 <= x <= 0x1000_0000_0000_0000,
    ensures
        r == round_to_multiple_spec(x as int, m as int),
        x >= 0 ==> 0 <= r <= x + m / 2,
        x < 0 ==> -(m / 2) - (-(x as int)) <= r <= 0,
{
    if x >= 0 {
        let q = (x + m / 2) / m;
        proof {
            let num = x as int + m as int / 2;
            let mi = m as int;
            vstd::arithmetic::div_mod::lemma_div_pos_is_pos(num, mi);
            vstd::arithmetic::div_mod::lemma_fundamental_div_mod(num, mi);
            vstd::arithmetic::div_mod::lemma_mod_division_less_than_divisor(num, mi);
            assert(0 <= (q as int) * mi <= num) by (nonlinear_arith)
                requires
                    q == num / mi,
                    num == mi * (num / mi) + num % mi,
                    0 <= num % mi,
                    q >= 0,
                    mi > 0,
            ;
        }
        q * m
    } else {
        let q = (-x + m / 2) / m;
        proof {
            let num = -(x as int) + m as int / 2;
            let mi = m as int;
            vstd::arithmetic::div_mod::lemma_div_pos_is_pos(num, mi);
            vstd::arithmetic::div_mod::lemma_fundamental_div_mod(num, mi);
            vstd::arithmetic::div_mod::lemma_mod_division_less_than_divisor(num, mi);
            assert(0 <= (q as int) * mi <= num) by (nonlinear_arith)
                requires
                    q == num / mi,
                    num == mi * (num / mi) + num % mi,
                    0 <= num % mi,
                    q >= 0,
                    mi > 0,
            ;
        }
        -(q * m)
    }
}

/// A two-dimensional vector in fixed-point milli-units.
#[derive(Clone, Copy, Debug, PartialEq, Eq, Structural)]
pub struct Vec2Fix {
    pub x: i64,
    pub y: i64,
}

/// Both components of `v` are within `[-b, b]`.
pub open spec fn in_box(v: Vec2Fix, b: int) -> bool {
    -b <= v.x <= b && -b <= v.y <= b
}

impl Vec2Fix {
    /// The zero vector.
    pub fn zero() -> (r: Vec2Fix)
        ensures
            r == (Vec2Fix { x: 0, y: 0 }),
    {
        Vec2Fix { x: 0, y: 0 }
    }

    /// Component-wise sum.
    pub open spec fn add_spec(self, o: Vec2Fix) -> Vec2Fix {
        Vec2Fix { x: (self.x + o.x) as i64, y: (self.y + o.y) as i64 }
    }

    /// Component-wise difference.
    pub open spec fn sub_spec(self, o: Vec2Fix) -> Vec2Fix {
        Vec2Fix { x: (self.x - o.x) as i64, y: (self.y - o.y) as i64 }
    }

    /// The vector turned a quarter turn counterclockwise.
    pub open spec fn perp_spec(self) -> Vec2Fix {
        Vec2Fix { x: (-self.y) as i64, y: self.x }
    }

    /// The opposite vector.
    pub open spec fn neg_spec(self) -> Vec2Fix {
        Vec2Fix { x: (-self.x) as i64, y: (-self.y) as i64 }
    }

    /// The vector scaled by the fixed-point factor `s`.
    pub open spec fn scale_spec(self, s: int) -> Vec2Fix {
        Vec2Fix { x: mul_scale(self.x as int, s) as i64, y: mul_scale(self.y as int, s) as i64 }
    }

    /// Dot product with `o`, brought back to fixed-point scale. When `o`
    /// is a unit vector this is the signed length of `self` along `o`.
    pub open spec fn dot_spec(self, o: Vec2Fix) -> int {
        tdiv(self.x * o.x + self.y * o.y, SCALE as int)
    }

    /// The vector rotated by the orientation whose cosine and sine are
    /// the fixed-point values `c` and `s`.
    pub open spec fn rotate_spec(self, c: int, s: int) -> Vec2Fix {
        Vec2Fix {
            x: tdiv(self.x * c - self.y * s, SCALE as int) as i64,
            y: tdiv(self.x * s + self.y * c, SCALE as int) as i64,
        }
    }

    /// Squared Euclidean distance to `o`, in squared milli-units.
    pub open spec fn dist2_spec(self, o: Vec2Fix) -> int {
        (self.x - o.x) * (self.x - o.x) + (self.y - o.y) * (self.y - o.y)
    }

    /// Component-wise sum.
    pub fn add(self, o: Vec2Fix) -> (r: Vec2Fix)
        requires
            in_box(self, 0x2000_0000_0000_0000),
            in_box(o, 0x2000_0000_0000_0000),
        ensures
            r == self.add_spec(o),
            r.x == self.x + o.x,
            r.y == self.y + o.y,
    {
        Vec2Fix { x: self.x + o.x, y: self.y + o.y }
    }

    /// Component-wise difference.
    pub fn sub(self, o: Vec2Fix) -> (r: Vec2Fix)
        requires
            in_box(self, 0x2000_0000_0000_0000),
            in_box(o, 0x2000_0000_0000_0000),
        ensures
            r == self.sub_spec(o),
            r.x == self.x - o.x,
            r.y == self.y - o.y,
    {
        Vec2Fix { x: self.x - o.x, y: self.y - o.y }
    }

    /// The vector turned a quarter turn counterclockwise.
    pub fn perp(self) -> (r: Vec2Fix)
        requires
            in_box(self, 0x2000_0000_0000_0000),
        ensures
            r == self.perp_spec(),
            r.x == -self.y,
            r.y == self.x,
    {
        Vec2Fix { x: -self.y, y: self.x }
    }

    /// The opposite vector.
    pub fn neg(self) -> (r: Vec2Fix)
        requires
            in_box(self, 0x2000_0000_0000_0000),
        ensures
            r == self.neg_spec(),
            r.x == -self.x,
            r.y == -self.y,
    {
        Vec2Fix { x: -self.x, y: -self.y }
    }

    /// The vector scaled by the fixed-point factor `s`.
    pub fn scale(self, s: i64) -> (r: Vec2Fix)
        requires
            in_box(self, 0x4000_0000),
            -0x4000_0000 <= s <= 0x4000_0000,
        ensures
            r == self.scale_spec(s as int),
    {
        Vec2Fix { x: mul_milli(self.x, s), y: mul_milli(self.y, s) }
    }

    /// Dot product with `o`, brought back to fixed-point scale.
    pub fn dot(self, o: Vec2Fix) -> (r: i64)
        requires
            in_box(self, 0x4000_0000),
            in_box(o, 0x4000_0000),
        ensures
            r == self.dot_spec(o),
    {
        proof {
            lemma_mul_bound(self.x as int, o.x as int, 0x4000_0000, 0x4000_0000);
            lemma_mul_bound(self.y as int, o.y as int, 0x4000_0000, 0x4000_0000);
        }
        div_trunc(self.x * o.x + self.y * o.y, SCALE)
    }

    /// The vector rotated by the orientation whose cosine and sine are
    /// the fixed-point values `c` and `s`.
    pub fn rotate(self, c: i64, s: i64) -> (r: Vec2Fix)
        requires
            in_box(self, 0x4000_0000),
            -0x4000_0000 <= c <= 0x4000_0000,
            -0x4000_0000 <= s <= 0x4000_0000,
        ensures
            r == self.rotate_spec(c as int, s as int),
            in_box(self, 2000) && -SCALE <= c <= SCALE && -SCALE <= s <= SCALE ==> in_box(r, 4000),
    {
        proof {
            lemma_mul_bound(self.x as int, c as int, 0x4000_0000, 0x4000_0000);
            lemma_mul_bound(self.y as int, s as int, 0x4000_0000, 0x4000_0000);
            lemma_mul_bound(self.x as int, s as int, 0x4000_0000, 0x4000_0000);
            lemma_mul_bound(self.y as int, c as int, 0x4000_0000, 0x4000_0000);
            if in_box(self, 2000) && -SCALE <= c <= SCALE && -SCALE <= s <= SCALE {
                lemma_mul_bound(self.x as int, c as int, 2000, SCALE as int);
                lemma_mul_bound(self.y as int, s as int, 2000, SCALE as int);
                lemma_mul_bound(self.x as int, s as int, 2000, SCALE as int);
                lemma_mul_bound(self.y as int, c as int, 2000, SCALE as int);
                lemma_tdiv_bound(self.x * c - self.y * s, SCALE as int, 4_000_000);
                lemma_tdiv_bound(self.x * s + self.y * c, SCALE as int, 4_000_000);
            }
        }
        Vec2Fix {
            x: div_trunc(self.x * c - self.y * s, SCALE),
            y: div_trunc(self.x * s + self.y * c, SCALE),
        }
    }

    /// Squared Euclidean distance to `o`.
    pub fn dist2(self, o: Vec2Fix) -> (r: i64)
        requires
            in_box(self, 600_000_000),
            in_box(o, 600_000_000),
        ensures
            r == self.dist2_spec(o),
            r >= 0,
    {
        let dx = self.x - o.x;
        let dy = self.y - o.y;
        proof {
            lemma_mul_bound(dx as int, dx as int, 1_200_000_000, 1_200_000_000);
            lemma_mul_bound(dy as int, dy as int, 1_200_000_000, 1_200_000_000);
            lemma_square_nonneg(dx as int);
            lemma_square_nonneg(dy as int);
        }
        dx * dx + dy * dy
    }
}

/// A position together with an orientation: the part of a body's
/// transform that the core reads. The orientation is carried two
/// ways, which the caller keeps consistent: as an angle in
/// milli-quarter-turns and as the fixed-point cosine and sine of that
/// angle.
#[derive(Clone, Copy, Debug, PartialEq, Eq, Structural)]
pub struct Pose {
    /// World position of the body's origin, in milli-units.
    pub translation: Vec2Fix,
    /// Orientation angle in milli-quarter-turns (1000 is a quarter turn).
    pub angle: i64,
    /// Fixed-point cosine of the orientation angle.
    pub rot_cos: i64,
    /// Fixed-point sine of the orientation angle.
    pub rot_sin: i64,
}

impl Pose {
    /// The magnitudes under which every computation of the core stays
    /// exact and free of overflow.
    pub open spec fn wf(self) -> bool {
        &&& in_box(self.translation, 500_000_000)
        &&& -0x1000_0000_0000 <= self.angle <= 0x1000_0000_0000
        &&& -SCALE <= self.rot_cos <= SCALE
        &&& -SCALE <= self.rot_sin <= SCALE
    }

    /// A point given in body-local coordinates, carried to world
    /// coordinates: rotated by the orientation, then translated.
    pub open spec fn transform_point_spec(self, local: Vec2Fix) -> Vec2Fix {
        local.rotate_spec(self.rot_cos as int, self.rot_sin as int).add_spec(self.translation)
    }

    /// A point given in body-local coordinates, carried to world
    /// coordinates.
    pub fn transform_point(&self, local: Vec2Fix) -> (r: Vec2Fix)
        requires
            self.wf(),
            in_box(local, 2000),
        ensures
            r == self.transform_point_spec(local),
            in_box(r, 500_004_000),
    {
        local.rotate(self.rot_cos, self.rot_sin).add(self.translation)
    }
}

} // verus!
