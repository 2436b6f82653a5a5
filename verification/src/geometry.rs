//! Plane geometry in whole numbers.
//!
//! Lengths are counted in thousandths of a world unit, so that a step of a
//! single frame is still many units long. A direction is a vector of length
//! `UNIT`, each component rounded toward zero. Every point of the world lies
//! within `WORLD_LIMIT` of the origin on both axes; movement stops at that
//! border.

use crate::clock::{duration_nanos, span_nanos};
use std::time::Duration;
use vstd::prelude::*;

verus! {

/// Thousandths per world unit, and the length of a direction vector.
pub const UNIT: i64 = 1_000;

/// The square of `UNIT`.
pub const UNIT_SQUARED: u128 = 1_000_000;

/// The farthest a coordinate lies from the origin.
pub const WORLD_LIMIT: i64 = 1_099_511_627_776;

/// The farthest two points of the world lie apart on one axis.
pub const WORLD_SPAN: i64 = 2_199_023_255_552;

/// Nanoseconds per second times `UNIT`: what a product of a direction
/// component, a speed and a span of nanoseconds is divided by.
pub const STEP_DIVISOR: u128 = 1_000_000_000_000;

/// A point of the plane, or the difference of two.
#[derive(Clone, Copy, Debug, PartialEq, Eq, Structural)]
pub struct Vector {
    pub x: i64,
    pub y: i64,
}

/// `value` held to the range from `low` to `high`.
pub open spec fn clamp(value: int, low: int, high: int) -> int {
    if value < low {
        low
    } else if value > high {
        high
    } else {
        value
    }
}

/// The quotient rounded toward zero.
pub open spec fn toward_zero(num: int, den: int) -> int
    recommends
        den > 0,
{
    if num >= 0 {
        num / den
    } else {
        -((-num) / den)
    }
}

/// The largest number whose square is at most `n`.
pub open spec fn floor_sqrt(n: nat) -> nat
    decreases n,
{
    if n == 0 {
        0
    } else {
        let below = floor_sqrt((n - 1) as nat);
        if (below + 1) * (below + 1) <= n {
            below + 1
        } else {
            below
        }
    }
}

/// `floor_sqrt(n)` squared is at most `n`, and the next square is beyond it.
pub proof fn lemma_floor_sqrt_bounds(n: nat)
    ensures
        floor_sqrt(n) * floor_sqrt(n) <= n,
        n < (floor_sqrt(n) + 1) * (floor_sqrt(n) + 1),
    decreases n,
{
    if n == 0 {
        assert(floor_sqrt(0) == 0);
        assert(0 * 0 == 0 && (0 + 1) * (0 + 1) == 1) by (nonlinear_arith);
    } else {
        lemma_floor_sqrt_bounds((n - 1) as nat);
        let below = floor_sqrt((n - 1) as nat);
        let next = below + 1;
        if next * next <= n {
            assert(floor_sqrt(n) == next);
            assert((next + 1) * (next + 1) > next * next) by (nonlinear_arith);
        } else {
            assert(floor_sqrt(n) == below);
        }
    }
}

/// Only one number lies between the two squares.
pub proof fn lemma_floor_sqrt_unique(n: nat, r: nat)
    requires
        r * r <= n,
        n < (r + 1) * (r + 1),
    ensures
        r == floor_sqrt(n),
{
    lemma_floor_sqrt_bounds(n);
    let s = floor_sqrt(n);
    if r < s {
        assert((r + 1) * (r + 1) <= s * s) by (nonlinear_arith)
            requires
                r + 1 <= s,
        ;
    } else if s < r {
        assert((s + 1) * (s + 1) <= r * r) by (nonlinear_arith)
            requires
                s + 1 <= r,
        ;
    }
}

/// A root is at least every number whose square fits.
pub proof fn lemma_floor_sqrt_at_least(n: nat, r: nat)
    requires
        r * r <= n,
    ensures
        r <= floor_sqrt(n),
{
    lemma_floor_sqrt_bounds(n);
    let s = floor_sqrt(n);
    if s < r {
        assert((s + 1) * (s + 1) <= r * r) by (nonlinear_arith)
            requires
                s + 1 <= r,
        ;
    }
}

/// The whole part of the square root of `n`.
pub fn isqrt(n: u128) -> (root: u64)
    ensures
        root == floor_sqrt(n as nat),
{
    let mut low: u128 = 0;
    let mut high: u128 = 0x1_0000_0000_0000_0000;
    assert(n < 0x1_0000_0000_0000_0000 * 0x1_0000_0000_0000_0000) by (nonlinear_arith)
        requires
            n <= u128::MAX,
    ;
    while high - low > 1
        invariant
            low < high <= 0x1_0000_0000_0000_0000,
            low * low <= n,
            n < high * high,
        decreases high - low,
    {
        let mid: u128 = low + (high - low) / 2;
        assert(mid * mid <= 0xffff_ffff_ffff_ffff * 0xffff_ffff_ffff_ffff) by (nonlinear_arith)
            requires
                0 <= mid <= 0xffff_ffff_ffff_ffff,
        ;
        if mid * mid <= n {
            low = mid;
        } else {
            high = mid;
        }
    }
    proof {
        lemma_floor_sqrt_unique(n as nat, low as nat);
    }
    low as u64
}

/// A coordinate held inside the world.
pub fn clamp_coordinate(value: i128) -> (held: i64)
    ensures
        held == clamp(value as int, -WORLD_LIMIT as int, WORLD_LIMIT as int),
{
    if value < -(WORLD_LIMIT as i128) {
        -WORLD_LIMIT
    } else if value > WORLD_LIMIT as i128 {
        WORLD_LIMIT
    } else {
        value as i64
    }
}

/// How far a body gets along one axis: the direction component times the
/// speed times the time, in thousandths, rounded toward zero and held to the
/// span of the world.
pub open spec fn axis_step(component: int, speed: nat, nanos: nat) -> int {
    clamp(
        toward_zero(component * speed * nanos, STEP_DIVISOR as int),
        -WORLD_SPAN as int,
        WORLD_SPAN as int,
    )
}

/// The movement of a body in `nanos` nanoseconds: `direction` times `speed`
/// times the time, axis by axis.
pub open spec fn delta_of(direction: Vector, speed: nat, nanos: nat) -> Vector {
    Vector {
        x: axis_step(direction.x as int, speed, nanos) as i64,
        y: axis_step(direction.y as int, speed, nanos) as i64,
    }
}

/// One axis of a direction of length `UNIT`: `diff` times `UNIT` over the
/// distance, rounded toward zero, where `squared` is the square of the
/// distance; nothing where the distance is nothing.
///
/// The size of the component is the whole part of the root of
/// `diff * diff * UNIT * UNIT / squared`, which is that rounded quotient.
pub open spec fn axis_direction(diff: int, squared: nat) -> int {
    if squared == 0 {
        0
    } else if diff >= 0 {
        floor_sqrt((diff * diff * UNIT_SQUARED / squared as int) as nat) as int
    } else {
        -(floor_sqrt((diff * diff * UNIT_SQUARED / squared as int) as nat) as int)
    }
}

impl Vector {
    /// The point lies within `WORLD_LIMIT` of the origin on both axes.
    pub open spec fn in_world(self) -> bool {
        -WORLD_LIMIT <= self.x <= WORLD_LIMIT && -WORLD_LIMIT <= self.y <= WORLD_LIMIT
    }

    /// Both components are differences of two coordinates of the world.
    pub open spec fn in_span(self) -> bool {
        -WORLD_SPAN <= self.x <= WORLD_SPAN && -WORLD_SPAN <= self.y <= WORLD_SPAN
    }

    /// Both components are at most `UNIT` in size, as those of a direction are.
    pub open spec fn is_direction(self) -> bool {
        -UNIT <= self.x <= UNIT && -UNIT <= self.y <= UNIT
    }

    /// A size: neither component is negative, and both fit the world.
    pub open spec fn is_size(self) -> bool {
        0 <= self.x <= WORLD_LIMIT && 0 <= self.y <= WORLD_LIMIT
    }

    /// The square of the distance from `self` to `other`.
    pub open spec fn distance_squared(self, other: Vector) -> nat {
        ((self.x - other.x) * (self.x - other.x) + (self.y - other.y) * (self.y - other.y)) as nat
    }

    /// The whole part of the length of the vector.
    pub open spec fn length(self) -> nat {
        floor_sqrt((self.x * self.x + self.y * self.y) as nat)
    }

    /// The point reached from `self` by `delta`, held inside the world.
    pub open spec fn moved(self, delta: Vector) -> Vector {
        Vector {
            x: clamp(self.x + delta.x, -WORLD_LIMIT as int, WORLD_LIMIT as int) as i64,
            y: clamp(self.y + delta.y, -WORLD_LIMIT as int, WORLD_LIMIT as int) as i64,
        }
    }

    /// The direction that leads from `from` to `self`.
    pub open spec fn direction_from(self, from: Vector) -> Vector {
        let squared = self.distance_squared(from);
        Vector {
            x: axis_direction(self.x - from.x, squared) as i64,
            y: axis_direction(self.y - from.y, squared) as i64,
        }
    }

    /// The vector with these two components.
    pub fn new(x: i64, y: i64) -> (v: Vector)
        ensures
            v == (Vector { x, y }),
    {
        Vector { x, y }
    }

    /// The point with these coordinates, each held inside the world.
    pub fn in_world_at(x: i64, y: i64) -> (v: Vector)
        ensures
            v.in_world(),
            v.x == clamp(x as int, -WORLD_LIMIT as int, WORLD_LIMIT as int),
            v.y == clamp(y as int, -WORLD_LIMIT as int, WORLD_LIMIT as int),
    {
        Vector { x: clamp_coordinate(x as i128), y: clamp_coordinate(y as i128) }
    }

    /// Moves a point by `delta` and stops at the border of the world.
    pub fn translate(self, delta: Vector) -> (v: Vector)
        ensures
            v == self.moved(delta),
            v.in_world(),
    {
        Vector {
            x: clamp_coordinate(self.x as i128 + delta.x as i128),
            y: clamp_coordinate(self.y as i128 + delta.y as i128),
        }
    }

    /// The whole part of the length of the vector.
    pub fn whole_length(self) -> (length: u64)
        requires
            self.in_span(),
        ensures
            length == self.length(),
    {
        let wide_x: i128 = self.x as i128;
        let wide_y: i128 = self.y as i128;
        assert(0 <= wide_x * wide_x <= WORLD_SPAN * WORLD_SPAN) by (nonlinear_arith)
            requires
                -WORLD_SPAN <= wide_x <= WORLD_SPAN,
        ;
        assert(0 <= wide_y * wide_y <= WORLD_SPAN * WORLD_SPAN) by (nonlinear_arith)
            requires
                -WORLD_SPAN <= wide_y <= WORLD_SPAN,
        ;
        isqrt((wide_x * wide_x + wide_y * wide_y) as u128)
    }
}

/// One component of `step_of`.
fn step_along(component: i64, speed: u32, nanos: u128) -> (step: i64)
    requires
        -UNIT <= component <= UNIT,
    ensures
        step == axis_step(component as int, speed as nat, nanos as nat),
{
    let size: u128 = if component >= 0 {
        component as u128
    } else {
        (-component) as u128
    };
    assert(size * speed <= 1_000 * 0xffff_ffff) by (nonlinear_arith)
        requires
            0 <= size <= 1_000,
            0 <= speed <= 0xffff_ffff,
    ;
    let rate: u128 = size * (speed as u128);
    let far: i64 = if component >= 0 {
        WORLD_SPAN
    } else {
        -WORLD_SPAN
    };
    proof {
        assert(component * speed * nanos == (component * speed) * nanos) by (nonlinear_arith);
        if component >= 0 {
            assert(component * speed == rate);
        } else {
            assert(component * speed == -(rate as int)) by (nonlinear_arith)
                requires
                    rate == (-component) * speed,
            ;
            assert((-(rate as int)) * nanos == -(rate * nanos)) by (nonlinear_arith);
        }
    }
    match rate.checked_mul(nanos) {
        Some(product) => {
            let quotient: u128 = product / STEP_DIVISOR;
            if quotient > WORLD_SPAN as u128 {
                far
            } else if component >= 0 {
                quotient as i64
            } else {
                -(quotient as i64)
            }
        },
        None => {
            proof {
                let product = rate * nanos;
                assert(product > u128::MAX);
                assert(product / (STEP_DIVISOR as int) > WORLD_SPAN) by (nonlinear_arith)
                    requires
                        product > 0xffff_ffff_ffff_ffff_ffff_ffff_ffff_ffff,
                        STEP_DIVISOR == 1_000_000_000_000,
                        WORLD_SPAN == 2_199_023_255_552,
                ;
            }
            far
        },
    }
}

/// The movement of one frame: `direction` times `speed` (thousandths per
/// second) times the time gone by, each component rounded toward zero and
/// held to the span of the world.
pub fn step_of(direction: &Vector, speed: u32, time: &Duration) -> (delta: Vector)
    requires
        direction.is_direction(),
    ensures
        delta == delta_of(*direction, speed as nat, duration_nanos(*time)),
        delta.in_span(),
{
    let nanos = span_nanos(time);
    Vector { x: step_along(direction.x, speed, nanos), y: step_along(direction.y, speed, nanos) }
}

/// One component of `get_direction`.
fn direction_along(diff: i64, squared: u128) -> (component: i64)
    requires
        -WORLD_SPAN <= diff <= WORLD_SPAN,
        diff * diff <= squared,
    ensures
        component == axis_direction(diff as int, squared as nat),
        -UNIT <= component <= UNIT,
{
    if squared == 0 {
        0
    } else {
        let wide: i128 = diff as i128;
        assert(0 <= wide * wide <= WORLD_SPAN * WORLD_SPAN) by (nonlinear_arith)
            requires
                -WORLD_SPAN <= wide <= WORLD_SPAN,
        ;
        let square: u128 = (wide * wide) as u128;
        assert(square * UNIT_SQUARED <= WORLD_SPAN * WORLD_SPAN * 1_000_000) by (nonlinear_arith)
            requires
                square <= WORLD_SPAN * WORLD_SPAN,
                UNIT_SQUARED == 1_000_000,
        ;
        let share: u128 = square * UNIT_SQUARED / squared;
        let size = isqrt(share);
        proof {
            assert(square * UNIT_SQUARED / (squared as int) <= UNIT_SQUARED) by (nonlinear_arith)
                requires
                    0 <= square <= squared,
                    squared > 0,
                    UNIT_SQUARED == 1_000_000,
            ;
            lemma_floor_sqrt_bounds(share as nat);
            if size > 1_000 {
                assert(size * size >= 1_001 * 1_001) by (nonlinear_arith)
                    requires
                        size >= 1_001,
                ;
            }
            assert(diff * diff * UNIT_SQUARED == square * UNIT_SQUARED) by (nonlinear_arith)
                requires
                    square == diff * diff,
            ;
        }
        if diff >= 0 {
            size as i64
        } else {
            -(size as i64)
        }
    }
}

/// The direction that leads from `target` to `src`, as a vector of length
/// `UNIT`, each component rounded toward zero. Where the two points coincide
/// there is no direction, and the result is the zero vector.
pub fn get_direction(src: &Vector, target: &Vector) -> (direction: Vector)
    requires
        src.in_world(),
        target.in_world(),
    ensures
        direction == src.direction_from(*target),
        direction.is_direction(),
{
    let dx: i64 = src.x - target.x;
    let dy: i64 = src.y - target.y;
    let wide_x: i128 = dx as i128;
    let wide_y: i128 = dy as i128;
    assert(wide_x * wide_x <= WORLD_SPAN * WORLD_SPAN && wide_x * wide_x >= 0) by (nonlinear_arith)
        requires
            -WORLD_SPAN <= wide_x <= WORLD_SPAN,
    ;
    assert(wide_y * wide_y <= WORLD_SPAN * WORLD_SPAN && wide_y * wide_y >= 0) by (nonlinear_arith)
        requires
            -WORLD_SPAN <= wide_y <= WORLD_SPAN,
    ;
    let squared: u128 = (wide_x * wide_x + wide_y * wide_y) as u128;
    Vector { x: direction_along(dx, squared), y: direction_along(dy, squared) }
}

/// The root of a sum of squares is as much as, and no more than by less
/// than three, the root of the sum: a vector whose components are roots
/// rounded down is hardly shorter than the exact one.
pub proof fn lemma_rounded_roots_nearly_add_up(a: nat, b: nat)
    ensures
        floor_sqrt(a) * floor_sqrt(a) + floor_sqrt(b) * floor_sqrt(b) <= a + b,
        a + b <= floor_sqrt(a) * floor_sqrt(a) + floor_sqrt(b) * floor_sqrt(b) + 2 * floor_sqrt(a)
            + 2 * floor_sqrt(b),
{
    lemma_floor_sqrt_bounds(a);
    lemma_floor_sqrt_bounds(b);
    let r = floor_sqrt(a);
    let s = floor_sqrt(b);
    assert((r + 1) * (r + 1) == r * r + 2 * r + 1) by (nonlinear_arith);
    assert((s + 1) * (s + 1) == s * s + 2 * s + 1) by (nonlinear_arith);
}

/// A direction between two different points is as long as `UNIT`, but for
/// the rounding: its length squared is at most `UNIT` squared and falls
/// short of it by less than four times `UNIT` and two.
pub proof fn lemma_direction_has_unit_length(to: Vector, from: Vector)
    requires
        to != from,
    ensures
        ({
            let d = to.direction_from(from);
            &&& d.x * d.x + d.y * d.y <= UNIT_SQUARED
            &&& d.x * d.x + d.y * d.y + 4 * UNIT + 2 > UNIT_SQUARED
            &&& d.is_direction()
        }),
{
    let dx = to.x - from.x;
    let dy = to.y - from.y;
    let n = to.distance_squared(from);
    let d = to.direction_from(from);
    assert(dx * dx >= 0 && dy * dy >= 0) by (nonlinear_arith);
    assert(n == dx * dx + dy * dy);
    assert(n > 0) by (nonlinear_arith)
        requires
            n == dx * dx + dy * dy,
            dx != 0 || dy != 0,
    ;
    let a = (dx * dx * UNIT_SQUARED / n as int) as nat;
    let b = (dy * dy * UNIT_SQUARED / n as int) as nat;
    let p = dx * dx * UNIT_SQUARED;
    let q = dy * dy * UNIT_SQUARED;
    assert(p >= 0 && q >= 0 && p + q == n * UNIT_SQUARED) by (nonlinear_arith)
        requires
            p == dx * dx * UNIT_SQUARED,
            q == dy * dy * UNIT_SQUARED,
            n == dx * dx + dy * dy,
            dx * dx >= 0,
            dy * dy >= 0,
            UNIT_SQUARED == 1_000_000,
    ;
    // the two shares add up to the whole but for the rounding of each
    assert(p / (n as int) + q / (n as int) <= UNIT_SQUARED && p / (n as int) + q / (n as int) + 2
        > UNIT_SQUARED && p / (n as int) >= 0 && q / (n as int) >= 0) by (nonlinear_arith)
        requires
            p >= 0,
            q >= 0,
            n > 0,
            p + q == n * UNIT_SQUARED,
    ;
    lemma_rounded_roots_nearly_add_up(a, b);
    let r = floor_sqrt(a);
    let s = floor_sqrt(b);
    lemma_floor_sqrt_bounds(a);
    lemma_floor_sqrt_bounds(b);
    assert(r <= 1_000) by (nonlinear_arith)
        requires
            r * r <= a,
            a <= 1_000_000,
    ;
    assert(s <= 1_000) by (nonlinear_arith)
        requires
            s * s <= b,
            b <= 1_000_000,
    ;
    assert(d.x * d.x == r * r) by (nonlinear_arith)
        requires
            d.x == r || d.x == -r,
    ;
    assert(d.y * d.y == s * s) by (nonlinear_arith)
        requires
            d.y == s || d.y == -s,
    ;
}

} // verus!
