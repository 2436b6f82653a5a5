//! Bounding volumes: the axis-aligned box of a sprite and the circle within
//! which the player picks things up.

use crate::geometry::{clamp, Vector, WORLD_LIMIT, WORLD_SPAN};
use vstd::prelude::*;

verus! {

/// An axis-aligned box, borders included.
#[derive(Clone, Copy, Debug, PartialEq, Eq, Structural)]
pub struct Aabb2d {
    pub min: Vector,
    pub max: Vector,
}

/// A disc, border included.
#[derive(Clone, Copy, Debug, PartialEq, Eq, Structural)]
pub struct BoundingCircle {
    pub center: Vector,
    pub radius: i64,
}

impl Aabb2d {
    /// The corners are in order and no farther out than a box round a point
    /// of the world can reach.
    pub open spec fn wf(self) -> bool {
        &&& self.min.x <= self.max.x
        &&& self.min.y <= self.max.y
        &&& self.min.in_span()
        &&& self.max.in_span()
    }

    /// The box that reaches `half_size` to each side of `center`.
    pub open spec fn around(center: Vector, half_size: Vector) -> Aabb2d {
        Aabb2d {
            min: Vector { x: (center.x - half_size.x) as i64, y: (center.y - half_size.y) as i64 },
            max: Vector { x: (center.x + half_size.x) as i64, y: (center.y + half_size.y) as i64 },
        }
    }

    /// The box of a sprite of the given size that sits at `position`: it
    /// reaches half the size to each side, the half rounded down.
    pub open spec fn of_sprite(position: Vector, size: Vector) -> Aabb2d {
        Aabb2d::around(position, Vector { x: (size.x / 2) as i64, y: (size.y / 2) as i64 })
    }

    /// The point lies in the box or on its border.
    pub open spec fn contains(self, point: Vector) -> bool {
        &&& self.min.x <= point.x <= self.max.x
        &&& self.min.y <= point.y <= self.max.y
    }

    /// The two boxes overlap on both axes; touching counts.
    pub open spec fn overlaps(self, other: Aabb2d) -> bool {
        &&& self.min.x <= other.max.x
        &&& self.max.x >= other.min.x
        &&& self.min.y <= other.max.y
        &&& self.max.y >= other.min.y
    }

    /// The point of the box that lies nearest to `point`.
    pub open spec fn nearest(self, point: Vector) -> Vector {
        Vector {
            x: clamp(point.x as int, self.min.x as int, self.max.x as int) as i64,
            y: clamp(point.y as int, self.min.y as int, self.max.y as int) as i64,
        }
    }

    /// The box that reaches `half_size` to each side of `center`.
    pub fn new(center: Vector, half_size: Vector) -> (aabb: Aabb2d)
        requires
            center.in_world(),
            half_size.is_size(),
        ensures
            aabb == Aabb2d::around(center, half_size),
            aabb.wf(),
            aabb.contains(center),
    {
        Aabb2d {
            min: Vector { x: center.x - half_size.x, y: center.y - half_size.y },
            max: Vector { x: center.x + half_size.x, y: center.y + half_size.y },
        }
    }

    /// The box of a sprite: see `of_sprite`.
    pub fn from_sprite(position: Vector, size: Vector) -> (aabb: Aabb2d)
        requires
            position.in_world(),
            size.is_size(),
        ensures
            aabb == Aabb2d::of_sprite(position, size),
            aabb.wf(),
            aabb.contains(position),
    {
        Aabb2d::new(position, Vector { x: size.x / 2, y: size.y / 2 })
    }

    /// Whether the two boxes overlap; touching counts.
    pub fn intersects(&self, other: &Aabb2d) -> (hit: bool)
        ensures
            hit == self.overlaps(*other),
    {
        let x_overlaps = self.min.x <= other.max.x && self.max.x >= other.min.x;
        let y_overlaps = self.min.y <= other.max.y && self.max.y >= other.min.y;
        x_overlaps && y_overlaps
    }

    /// The point of the box that lies nearest to `point`.
    pub fn closest_point(&self, point: Vector) -> (near: Vector)
        requires
            self.min.x <= self.max.x,
            self.min.y <= self.max.y,
        ensures
            near == self.nearest(point),
            self.contains(near),
    {
        let x = if point.x < self.min.x {
            self.min.x
        } else if point.x > self.max.x {
            self.max.x
        } else {
            point.x
        };
        let y = if point.y < self.min.y {
            self.min.y
        } else if point.y > self.max.y {
            self.max.y
        } else {
            point.y
        };
        Vector { x, y }
    }
}

impl BoundingCircle {
    /// The centre lies in the world and the radius is a length of it.
    pub open spec fn wf(self) -> bool {
        &&& self.center.in_world()
        &&& 0 <= self.radius <= WORLD_LIMIT
    }

    /// The disc reaches the box: the point of the box nearest to the centre
    /// is no farther away than the radius.
    pub open spec fn reaches(self, aabb: Aabb2d) -> bool {
        self.center.distance_squared(aabb.nearest(self.center)) <= self.radius * self.radius
    }

    /// The disc of the given radius round `center`.
    pub fn new(center: Vector, radius: i64) -> (circle: BoundingCircle)
        ensures
            circle == (BoundingCircle { center, radius }),
    {
        BoundingCircle { center, radius }
    }

    /// Whether the disc reaches the box; touching counts.
    pub fn intersects(&self, aabb: &Aabb2d) -> (hit: bool)
        requires
            self.wf(),
            aabb.wf(),
        ensures
            hit == self.reaches(*aabb),
    {
        let near = aabb.closest_point(self.center);
        let dx: i128 = self.center.x as i128 - near.x as i128;
        let dy: i128 = self.center.y as i128 - near.y as i128;
        let radius: i128 = self.radius as i128;
        assert(0 <= dx * dx <= 4 * WORLD_SPAN * WORLD_SPAN) by (nonlinear_arith)
            requires
                -2 * WORLD_SPAN <= dx <= 2 * WORLD_SPAN,
        ;
        assert(0 <= dy * dy <= 4 * WORLD_SPAN * WORLD_SPAN) by (nonlinear_arith)
            requires
                -2 * WORLD_SPAN <= dy <= 2 * WORLD_SPAN,
        ;
        assert(0 <= radius * radius <= WORLD_LIMIT * WORLD_LIMIT) by (nonlinear_arith)
            requires
                0 <= radius <= WORLD_LIMIT,
        ;
        dx * dx + dy * dy <= radius * radius
    }
}

/// Whether two boxes overlap does not depend on which of them is asked.
pub proof fn lemma_overlap_symmetric(a: Aabb2d, b: Aabb2d)
    ensures
        a.overlaps(b) == b.overlaps(a),
{
}

/// Two boxes with ordered corners overlap exactly when some point lies in both.
pub proof fn lemma_overlap_shares_point(a: Aabb2d, b: Aabb2d)
    requires
        a.min.x <= a.max.x,
        a.min.y <= a.max.y,
        b.min.x <= b.max.x,
        b.min.y <= b.max.y,
    ensures
        a.overlaps(b) <==> exists|p: Vector| a.contains(p) && b.contains(p),
{
    if a.overlaps(b) {
        let p = Vector {
            x: if a.min.x >= b.min.x { a.min.x } else { b.min.x },
            y: if a.min.y >= b.min.y { a.min.y } else { b.min.y },
        };
        assert(a.contains(p) && b.contains(p));
    }
}

} // verus!
