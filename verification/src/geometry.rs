//! Points, directions and placements on the plane, in fixed point.
//!
//! A length is a whole number of thousandths of a pixel. A direction is a unit
//! vector whose components are whole numbers of millionths. A rotation is given
//! by the direction into which it turns the x axis.

use vstd::prelude::*;
use crate::math::{
    floor_div, floor_sqrt, isqrt, lemma_floor_sqrt_exists, lemma_square_monotone, magnitude, mul_div,
    saturate, saturated,
};

verus! {

/// How many units of length make one pixel. Ratios use the same scale: 1000 is one.
pub const UNITS_PER_PIXEL: i64 = 1000;

/// The number that stands for one in the components of a direction.
pub const DIRECTION_ONE: i64 = 1_000_000;

/// Vectors with a component at or beyond this bound are shortened before their
/// heading is taken, so that the squares involved stay within 128 bits.
pub const HEADING_LIMIT: i64 = 0x800_0000_0000;

/// The divisor by which such vectors are shortened.
pub const HEADING_SHRINK: i64 = 0x20_0000;

/// A point or a displacement.
#[derive(Clone, Copy, PartialEq, Eq, Debug, Structural)]
pub struct Vec2 {
    pub x: i64,
    pub y: i64,
}

/// A unit vector in millionths; as a rotation, the image of the x axis.
#[derive(Clone, Copy, PartialEq, Eq, Debug, Structural)]
pub struct Direction {
    pub x: i64,
    pub y: i64,
}

/// Where a thing is, how it is turned and how large it is.
#[derive(Clone, Copy, PartialEq, Eq, Debug, Structural)]
pub struct Transform {
    pub translation: Vec2,
    pub rotation: Direction,
    pub scale: Vec2,
}

/// `a * b / d`, rounded down and pinned into `i64`.
pub open spec fn ratio(a: int, b: int, d: int) -> i64 {
    saturated(a * b / d)
}

/// The size of the component `c` of a vector whose squared length is `n`, as a
/// part of the whole in millionths, rounded towards zero.
pub open spec fn unit_part(c: int, n: int) -> int {
    let m = floor_sqrt(c * c * (DIRECTION_ONE * DIRECTION_ONE) / n);
    if c < 0 {
        -m
    } else {
        m
    }
}

impl Vec2 {
    pub open spec fn spec_zero() -> Vec2 {
        Vec2 { x: 0, y: 0 }
    }

    /// The origin.
    #[verifier::when_used_as_spec(spec_zero)]
    pub fn zero() -> (r: Vec2)
        ensures
            r == Vec2::spec_zero(),
    {
        Vec2 { x: 0, y: 0 }
    }

    pub fn new(x: i64, y: i64) -> (r: Vec2)
        ensures
            r == (Vec2 { x, y }),
    {
        Vec2 { x, y }
    }

    /// A point given in whole pixels.
    pub open spec fn spec_pixels(x: i32, y: i32) -> Vec2 {
        Vec2 { x: (x * UNITS_PER_PIXEL) as i64, y: (y * UNITS_PER_PIXEL) as i64 }
    }

    /// A point given in whole pixels.
    #[verifier::when_used_as_spec(spec_pixels)]
    pub fn pixels(x: i32, y: i32) -> (r: Vec2)
        ensures
            r == Vec2::spec_pixels(x, y),
            r.x == x * 1000,
            r.y == y * 1000,
    {
        Vec2 { x: x as i64 * 1000, y: y as i64 * 1000 }
    }

    pub open spec fn spec_plus(self, other: Vec2) -> Vec2 {
        Vec2 { x: saturated(self.x + other.x), y: saturated(self.y + other.y) }
    }

    /// The sum, each component pinned into `i64`.
    #[verifier::when_used_as_spec(spec_plus)]
    pub fn plus(self, other: Vec2) -> (r: Vec2)
        ensures
            r == self.spec_plus(other),
    {
        Vec2 {
            x: saturate(self.x as i128 + other.x as i128),
            y: saturate(self.y as i128 + other.y as i128),
        }
    }

    pub open spec fn spec_minus(self, other: Vec2) -> Vec2 {
        Vec2 { x: saturated(self.x - other.x), y: saturated(self.y - other.y) }
    }

    /// The difference, each component pinned into `i64`.
    #[verifier::when_used_as_spec(spec_minus)]
    pub fn minus(self, other: Vec2) -> (r: Vec2)
        ensures
            r == self.spec_minus(other),
    {
        Vec2 {
            x: saturate(self.x as i128 - other.x as i128),
            y: saturate(self.y as i128 - other.y as i128),
        }
    }

    pub open spec fn spec_midpoint(self, other: Vec2) -> Vec2 {
        Vec2 { x: ((self.x + other.x) / 2) as i64, y: ((self.y + other.y) / 2) as i64 }
    }

    /// The point half way to `other`, rounded down.
    #[verifier::when_used_as_spec(spec_midpoint)]
    pub fn midpoint(self, other: Vec2) -> (r: Vec2)
        ensures
            r == self.spec_midpoint(other),
            r.x == (self.x + other.x) / 2,
            r.y == (self.y + other.y) / 2,
    {
        let x: i128 = floor_div(self.x as i128 + other.x as i128, 2);
        let y: i128 = floor_div(self.y as i128 + other.y as i128, 2);
        Vec2 { x: x as i64, y: y as i64 }
    }

    pub open spec fn spec_abs(self) -> Vec2 {
        Vec2 {
            x: saturated(if self.x < 0 { -self.x } else { self.x as int }),
            y: saturated(if self.y < 0 { -self.y } else { self.y as int }),
        }
    }

    /// The sizes of the two components.
    #[verifier::when_used_as_spec(spec_abs)]
    pub fn abs(self) -> (r: Vec2)
        ensures
            r == self.spec_abs(),
    {
        let x: i128 = if self.x < 0 { -(self.x as i128) } else { self.x as i128 };
        let y: i128 = if self.y < 0 { -(self.y as i128) } else { self.y as i128 };
        Vec2 { x: saturate(x), y: saturate(y) }
    }

    pub open spec fn spec_scaled(self, num: i64, den: i64) -> Vec2 {
        Vec2 { x: ratio(self.x as int, num as int, den as int), y: ratio(self.y as int, num as int, den as int) }
    }

    /// The vector times `num / den`, each component rounded down.
    #[verifier::when_used_as_spec(spec_scaled)]
    pub fn scaled(self, num: i64, den: i64) -> (r: Vec2)
        requires
            den > 0,
        ensures
            r == self.spec_scaled(num, den),
    {
        Vec2 { x: mul_div(self.x, num, den), y: mul_div(self.y, num, den) }
    }

    /// The square of the length.
    pub open spec fn spec_norm_sq(self) -> int {
        self.x * self.x + self.y * self.y
    }

    /// The square of the length.
    pub fn norm_sq(self) -> (r: u128)
        ensures
            r == self.spec_norm_sq(),
            r <= 0x8000_0000_0000_0000_0000_0000_0000_0000,
    {
        let ax: u128 = magnitude(self.x);
        let ay: u128 = magnitude(self.y);
        proof {
            assert(ax * ax <= 0x8000_0000_0000_0000 * 0x8000_0000_0000_0000) by (nonlinear_arith)
                requires
                    0 <= ax <= 0x8000_0000_0000_0000,
            ;
            assert(ay * ay <= 0x8000_0000_0000_0000 * 0x8000_0000_0000_0000) by (nonlinear_arith)
                requires
                    0 <= ay <= 0x8000_0000_0000_0000,
            ;
            assert(ax * ax == self.x * self.x) by (nonlinear_arith)
                requires
                    ax == self.x || ax == -self.x,
            ;
            assert(ay * ay == self.y * self.y) by (nonlinear_arith)
                requires
                    ay == self.y || ay == -self.y,
            ;
        }
        ax * ax + ay * ay
    }

    /// The length, rounded down.
    pub open spec fn spec_length(self) -> i64 {
        saturated(floor_sqrt(self.spec_norm_sq()))
    }

    /// The length, rounded down.
    #[verifier::when_used_as_spec(spec_length)]
    pub fn length(self) -> (r: i64)
        ensures
            r == self.spec_length(),
            r >= 0,
    {
        let root: u64 = isqrt(self.norm_sq());
        saturate(root as i128)
    }

    /// The vector itself where both components are below `HEADING_LIMIT` in size,
    /// else the vector divided by `HEADING_SHRINK`.
    pub open spec fn spec_reduced(self) -> Vec2 {
        if -HEADING_LIMIT < self.x < HEADING_LIMIT && -HEADING_LIMIT < self.y < HEADING_LIMIT {
            self
        } else {
            Vec2 { x: (self.x / HEADING_SHRINK) as i64, y: (self.y / HEADING_SHRINK) as i64 }
        }
    }

    /// A vector of nearly the same heading with components below `HEADING_LIMIT`.
    #[verifier::when_used_as_spec(spec_reduced)]
    pub fn reduced(self) -> (r: Vec2)
        ensures
            r == self.spec_reduced(),
            -HEADING_LIMIT < r.x < HEADING_LIMIT,
            -HEADING_LIMIT < r.y < HEADING_LIMIT,
    {
        if -HEADING_LIMIT < self.x && self.x < HEADING_LIMIT && -HEADING_LIMIT < self.y
            && self.y < HEADING_LIMIT {
            self
        } else {
            let x: i128 = floor_div(self.x as i128, HEADING_SHRINK as i128);
            let y: i128 = floor_div(self.y as i128, HEADING_SHRINK as i128);
            Vec2 { x: x as i64, y: y as i64 }
        }
    }

    /// The direction in which the vector points: each component of the reduced
    /// vector as a part of its length, in millionths, rounded towards zero. The
    /// zero vector, which points nowhere, is given the heading of the x axis.
    pub open spec fn spec_heading(self) -> Direction {
        let v = self.spec_reduced();
        let n = v.spec_norm_sq();
        if n == 0 {
            Direction::spec_identity()
        } else {
            Direction { x: unit_part(v.x as int, n) as i64, y: unit_part(v.y as int, n) as i64 }
        }
    }

    /// The direction in which the vector points.
    #[verifier::when_used_as_spec(spec_heading)]
    pub fn heading(self) -> (r: Direction)
        ensures
            r == self.spec_heading(),
            r.is_unit(),
    {
        let v = self.reduced();
        let n: u128 = v.norm_sq();
        if n == 0 {
            Direction::identity()
        } else {
            proof {
                assert(v.x * v.x >= 0 && v.y * v.y >= 0) by (nonlinear_arith);
            }
            Direction { x: unit_component(v.x, n), y: unit_component(v.y, n) }
        }
    }
}

/// The bounds between which the square of `unit_part(c, n)` lies: what it
/// says of the component, it says to within one millionth.
proof fn lemma_unit_part_bounds(c: int, n: int)
    requires
        n > 0,
    ensures
        ({
            let m = unit_part(c, n);
            &&& m * m * n <= c * c * (DIRECTION_ONE * DIRECTION_ONE)
            &&& (m * m + 2 * floor_sqrt(c * c * (DIRECTION_ONE * DIRECTION_ONE) / n) + 1) * n > c * c * (
            DIRECTION_ONE * DIRECTION_ONE)
            &&& m * m == floor_sqrt(c * c * (DIRECTION_ONE * DIRECTION_ONE) / n) * floor_sqrt(
                c * c * (DIRECTION_ONE * DIRECTION_ONE) / n,
            )
            &&& 0 <= floor_sqrt(c * c * (DIRECTION_ONE * DIRECTION_ONE) / n)
        }),
{
    let whole = c * c * (DIRECTION_ONE * DIRECTION_ONE);
    assert(whole >= 0) by (nonlinear_arith)
        requires
            whole == c * c * (DIRECTION_ONE * DIRECTION_ONE),
    ;
    let x = whole / n;
    assert(x * n <= whole < (x + 1) * n && x >= 0) by (nonlinear_arith)
        requires
            x == whole / n,
            n > 0,
            whole >= 0,
    ;
    lemma_floor_sqrt_exists(x);
    let r = floor_sqrt(x);
    let m = unit_part(c, n);
    assert(m * m == r * r) by (nonlinear_arith)
        requires
            m == r || m == -r,
    ;
    assert(r * r * n <= x * n) by (nonlinear_arith)
        requires
            r * r <= x,
            n > 0,
    ;
    assert((r + 1) * (r + 1) == r * r + 2 * r + 1) by (nonlinear_arith);
    assert((r * r + 2 * r + 1) * n >= (x + 1) * n) by (nonlinear_arith)
        requires
            r * r + 2 * r + 1 >= x + 1,
            n > 0,
    ;
}

/// The heading of a vector is a unit vector to within three millionths: the
/// sum of the squares of its components is at most one and at least the
/// square of one less three millionths. The heading that is given to the zero
/// vector is a unit vector too.
pub proof fn lemma_heading_is_unit(v: Vec2)
    ensures
        ({
            let d = v.spec_heading();
            &&& d.x * d.x + d.y * d.y <= DIRECTION_ONE * DIRECTION_ONE
            &&& d.x * d.x + d.y * d.y >= (DIRECTION_ONE - 3) * (DIRECTION_ONE - 3)
        }),
{
    let w = v.spec_reduced();
    let n = w.spec_norm_sq();
    let one = DIRECTION_ONE * DIRECTION_ONE;
    let d = v.spec_heading();
    assert(n >= 0) by (nonlinear_arith)
        requires
            n == w.x * w.x + w.y * w.y,
    ;
    if n > 0 {
        lemma_unit_part_bounds(w.x as int, n);
        lemma_unit_part_bounds(w.y as int, n);
        let mx = unit_part(w.x as int, n);
        let my = unit_part(w.y as int, n);
        let rx = floor_sqrt(w.x * w.x * one / n);
        let ry = floor_sqrt(w.y * w.y * one / n);
        let sx = mx * mx;
        let sy = my * my;
        let xx = w.x * w.x;
        let yy = w.y * w.y;
        assert(xx * one + yy * one == n * one) by (nonlinear_arith)
            requires
                n == xx + yy,
        ;
        assert(sx + sy <= one) by (nonlinear_arith)
            requires
                sx * n <= xx * one,
                sy * n <= yy * one,
                xx * one + yy * one == n * one,
                n > 0,
        ;
        assert(sx + 2 * rx + 1 + sy + 2 * ry + 1 > one) by (nonlinear_arith)
            requires
                (sx + 2 * rx + 1) * n > xx * one,
                (sy + 2 * ry + 1) * n > yy * one,
                xx * one + yy * one == n * one,
                n > 0,
        ;
        assert(rx <= DIRECTION_ONE && ry <= DIRECTION_ONE) by (nonlinear_arith)
            requires
                rx * rx == sx,
                ry * ry == sy,
                sx + sy <= one,
                sx >= 0,
                sy >= 0,
                rx >= 0,
                ry >= 0,
                one == 1_000_000 * 1_000_000,
                DIRECTION_ONE == 1_000_000,
        ;
        assert(-DIRECTION_ONE <= mx <= DIRECTION_ONE && -DIRECTION_ONE <= my <= DIRECTION_ONE);
        assert(d.x == mx && d.y == my);
    }
}

/// One component of a heading: see `unit_part`.
fn unit_component(c: i64, n: u128) -> (r: i64)
    requires
        -HEADING_LIMIT < c < HEADING_LIMIT,
        n >= c * c,
        n > 0,
    ensures
        r == unit_part(c as int, n as int),
        -DIRECTION_ONE <= r <= DIRECTION_ONE,
{
    let a: u128 = magnitude(c);
    proof {
        assert(a * a == c * c) by (nonlinear_arith)
            requires
                a == c || a == -c,
        ;
        assert(a * a <= 0x800_0000_0000 * 0x800_0000_0000) by (nonlinear_arith)
            requires
                0 <= a <= 0x800_0000_0000,
        ;
        assert((a * a) * 1_000_000_000_000 == c * c * (DIRECTION_ONE * DIRECTION_ONE))
            by (nonlinear_arith)
            requires
                a * a == c * c,
                DIRECTION_ONE == 1_000_000,
        ;
    }
    let scaled: u128 = (a * a) * 1_000_000_000_000;
    let q: u128 = scaled / n;
    let m: u64 = isqrt(q);
    proof {
        assert(q <= 1_000_000_000_000) by (nonlinear_arith)
            requires
                q == scaled as int / n as int,
                scaled == (a * a) * 1_000_000_000_000,
                n >= a * a,
                n > 0,
                a * a >= 0,
        ;
        if m > 1_000_000 {
            lemma_square_monotone(1_000_001, m as int);
        }
    }
    if c < 0 {
        -(m as i64)
    } else {
        m as i64
    }
}

impl Direction {
    pub open spec fn spec_identity() -> Direction {
        Direction { x: DIRECTION_ONE, y: 0 }
    }

    /// The heading of the x axis; as a rotation, the one that turns nothing.
    #[verifier::when_used_as_spec(spec_identity)]
    pub fn identity() -> (r: Direction)
        ensures
            r == Direction::spec_identity(),
    {
        Direction { x: DIRECTION_ONE, y: 0 }
    }

    pub fn new(x: i64, y: i64) -> (r: Direction)
        ensures
            r == (Direction { x, y }),
    {
        Direction { x, y }
    }

    /// Neither component exceeds one in size.
    pub open spec fn is_unit(self) -> bool {
        -DIRECTION_ONE <= self.x <= DIRECTION_ONE && -DIRECTION_ONE <= self.y <= DIRECTION_ONE
    }

    pub open spec fn spec_rotate(self, v: Vec2) -> Vec2 {
        Vec2 {
            x: saturated(
                ratio(v.x as int, self.x as int, DIRECTION_ONE as int) - ratio(
                    v.y as int,
                    self.y as int,
                    DIRECTION_ONE as int,
                ),
            ),
            y: saturated(
                ratio(v.x as int, self.y as int, DIRECTION_ONE as int) + ratio(
                    v.y as int,
                    self.x as int,
                    DIRECTION_ONE as int,
                ),
            ),
        }
    }

    /// The vector `v` turned by this rotation.
    #[verifier::when_used_as_spec(spec_rotate)]
    pub fn rotate(self, v: Vec2) -> (r: Vec2)
        ensures
            r == self.spec_rotate(v),
    {
        let xx: i64 = mul_div(v.x, self.x, DIRECTION_ONE);
        let yy: i64 = mul_div(v.y, self.y, DIRECTION_ONE);
        let xy: i64 = mul_div(v.x, self.y, DIRECTION_ONE);
        let yx: i64 = mul_div(v.y, self.x, DIRECTION_ONE);
        Vec2 { x: saturate(xx as i128 - yy as i128), y: saturate(xy as i128 + yx as i128) }
    }

    pub open spec fn spec_inverse(self) -> Direction {
        Direction { x: self.x, y: saturated(-self.y) }
    }

    /// The rotation that undoes this one.
    #[verifier::when_used_as_spec(spec_inverse)]
    pub fn inverse(self) -> (r: Direction)
        ensures
            r == self.spec_inverse(),
    {
        Direction { x: self.x, y: saturate(-(self.y as i128)) }
    }

    pub open spec fn spec_followed_by(self, other: Direction) -> Direction {
        let v = other.spec_rotate(Vec2 { x: self.x, y: self.y });
        Direction { x: v.x, y: v.y }
    }

    /// This rotation followed by `other`.
    #[verifier::when_used_as_spec(spec_followed_by)]
    pub fn followed_by(self, other: Direction) -> (r: Direction)
        ensures
            r == self.spec_followed_by(other),
    {
        let v = other.rotate(Vec2 { x: self.x, y: self.y });
        Direction { x: v.x, y: v.y }
    }

    pub open spec fn spec_along(self, length: i64) -> Vec2 {
        Vec2 {
            x: ratio(self.x as int, length as int, DIRECTION_ONE as int),
            y: ratio(self.y as int, length as int, DIRECTION_ONE as int),
        }
    }

    /// The displacement of the given length in this direction.
    #[verifier::when_used_as_spec(spec_along)]
    pub fn along(self, length: i64) -> (r: Vec2)
        ensures
            r == self.spec_along(length),
    {
        Vec2 { x: mul_div(self.x, length, DIRECTION_ONE), y: mul_div(self.y, length, DIRECTION_ONE) }
    }

    pub open spec fn spec_dot(self, v: Vec2) -> i64 {
        saturated(
            ratio(self.x as int, v.x as int, DIRECTION_ONE as int) + ratio(
                self.y as int,
                v.y as int,
                DIRECTION_ONE as int,
            ),
        )
    }

    /// How far `v` reaches in this direction.
    #[verifier::when_used_as_spec(spec_dot)]
    pub fn dot(self, v: Vec2) -> (r: i64)
        ensures
            r == self.spec_dot(v),
    {
        let a: i64 = mul_div(self.x, v.x, DIRECTION_ONE);
        let b: i64 = mul_div(self.y, v.y, DIRECTION_ONE);
        saturate(a as i128 + b as i128)
    }

    pub open spec fn spec_arc_from_y(self) -> Direction {
        Direction { x: self.y, y: saturated(-self.x) }
    }

    /// The rotation that turns the y axis into this direction.
    #[verifier::when_used_as_spec(spec_arc_from_y)]
    pub fn arc_from_y(self) -> (r: Direction)
        ensures
            r == self.spec_arc_from_y(),
    {
        Direction { x: self.y, y: saturate(-(self.x as i128)) }
    }
}

impl Transform {
    pub open spec fn spec_identity() -> Transform {
        Transform {
            translation: Vec2::spec_zero(),
            rotation: Direction::spec_identity(),
            scale: Vec2 { x: UNITS_PER_PIXEL, y: UNITS_PER_PIXEL },
        }
    }

    /// At the origin, unturned, at scale one.
    #[verifier::when_used_as_spec(spec_identity)]
    pub fn identity() -> (r: Transform)
        ensures
            r == Transform::spec_identity(),
    {
        Transform {
            translation: Vec2::zero(),
            rotation: Direction::identity(),
            scale: Vec2 { x: UNITS_PER_PIXEL, y: UNITS_PER_PIXEL },
        }
    }

    pub open spec fn spec_from_translation(translation: Vec2) -> Transform {
        Transform { translation, ..Transform::spec_identity() }
    }

    /// At `translation`, unturned, at scale one.
    #[verifier::when_used_as_spec(spec_from_translation)]
    pub fn from_translation(translation: Vec2) -> (r: Transform)
        ensures
            r == Transform::spec_from_translation(translation),
    {
        Transform {
            translation,
            rotation: Direction::identity(),
            scale: Vec2 { x: UNITS_PER_PIXEL, y: UNITS_PER_PIXEL },
        }
    }

    pub open spec fn spec_with_rotation(self, rotation: Direction) -> Transform {
        Transform { rotation, ..self }
    }

    #[verifier::when_used_as_spec(spec_with_rotation)]
    pub fn with_rotation(self, rotation: Direction) -> (r: Transform)
        ensures
            r == self.spec_with_rotation(rotation),
    {
        Transform { translation: self.translation, rotation, scale: self.scale }
    }

    pub open spec fn spec_with_scale(self, scale: Vec2) -> Transform {
        Transform { scale, ..self }
    }

    #[verifier::when_used_as_spec(spec_with_scale)]
    pub fn with_scale(self, scale: Vec2) -> (r: Transform)
        ensures
            r == self.spec_with_scale(scale),
    {
        Transform { translation: self.translation, rotation: self.rotation, scale }
    }
}

impl Default for Transform {
    fn default() -> (r: Self)
        ensures
            r == Transform::spec_identity(),
    {
        Transform::identity()
    }
}

} // verus!
