use vstd::prelude::*;

use crate::color::{is_random_outline, random_outline_color, white_spec, Color};
use crate::handle::{BodyHandle, ColliderHandle};
use crate::physics::Physics;
use rapier2d::dynamics::RigidBody;
use rapier2d::geometry::Collider;

verus! {

/// Outline thickness of a newly made ring, in pixels.
pub const RING_OUTLINE: u32 = 5;

/// Number of points on a ring's circle.
pub const RING_POINT_COUNT: u32 = 256;

/// Restitution of a ring's collider, in thousandths.
pub const RING_RESTITUTION_MILLI: u32 = 1050;

/// Largest point count whose doubled vertex count still fits in a `u32` index.
pub const RING_MAX_POINTS: u32 = 0x7fff_ffff;

/// Size classes of a ring.
#[derive(Clone, Copy, Debug, PartialEq, Eq, Structural)]
pub enum RingSize {
    Small,
    Medium,
    Large,
}

/// Radius in pixels of each ring size.
pub open spec fn ring_size_radius(size: RingSize) -> u32 {
    match size {
        RingSize::Small => 30,
        RingSize::Medium => 200,
        RingSize::Large => 300,
    }
}

/// Why a ring's geometry cannot be turned into a collider.
#[derive(Clone, Copy, Debug, PartialEq, Eq, Structural)]
pub enum RingGeometryError {
    /// Fewer than three points on the circle.
    TooFewPoints,
    /// More points than triangle indices can address.
    TooManyPoints,
    /// A radius of zero.
    NonPositiveRadius,
    /// An outline thickness of zero.
    NonPositiveThickness,
}

/// The `i`-th triangle of a closed band of `n` vertices that alternate
/// between the outer and the inner circle: each triangle joins three
/// consecutive vertices, and the last two wrap round to the first ones.
pub open spec fn ring_triangle(n: int, i: int) -> (u32, u32, u32) {
    if i < n - 2 {
        (i as u32, (i + 1) as u32, (i + 2) as u32)
    } else if i == n - 2 {
        ((n - 2) as u32, (n - 1) as u32, 0u32)
    } else {
        ((n - 1) as u32, 1u32, 0u32)
    }
}

/// The collider description of a ring: a closed band of `vertex_count`
/// vertices, the even ones on the outer circle (radius plus outline
/// thickness) and the odd ones on the inner circle (the visual radius),
/// joined by `indices`.
#[derive(Debug)]
pub struct RingCollider {
    pub vertex_count: u32,
    pub outer_radius: u64,
    pub inner_radius: u32,
    pub indices: Vec<(u32, u32, u32)>,
    pub restitution_milli: u32,
}

impl RingCollider {
    /// Distance of vertex `i` from the ring's center.
    pub fn vertex_radius(&self, i: u32) -> (r: u64)
        ensures
            r == if i % 2 == 0 { self.outer_radius } else { self.inner_radius as u64 },
    {
        if i % 2 == 0 {
            self.outer_radius
        } else {
            self.inner_radius as u64
        }
    }
}

/// The triangle list that closes a band of `vertex_count` vertices.
pub fn trimesh_indices(vertex_count: u32) -> (r: Vec<(u32, u32, u32)>)
    requires
        vertex_count >= 3,
    ensures
        r@.len() == vertex_count,
        forall|i: int| 0 <= i < vertex_count ==> r@[i] == ring_triangle(vertex_count as int, i),
{
    let mut indices: Vec<(u32, u32, u32)> = Vec::new();
    let last: u32 = vertex_count - 2;
    let mut i: u32 = 0;
    while i < last
        invariant
            vertex_count >= 3,
            last == vertex_count - 2,
            i <= last,
            indices@.len() == i,
            forall|k: int| 0 <= k < i ==> indices@[k] == ring_triangle(vertex_count as int, k),
        decreases last - i,
    {
        indices.push((i, i + 1, i + 2));
        i = i + 1;
    }
    indices.push((vertex_count - 2, vertex_count - 1, 0));
    indices.push((vertex_count - 1, 1, 0));
    indices
}

/// The fixed boundary: a circle drawn with an outline, and the body it is
/// registered under (none until registered).
#[derive(Clone, Copy, Debug, PartialEq, Eq, Structural)]
pub struct Ring {
    pub radius: u32,
    pub outline_thickness: u32,
    pub point_count: u32,
    pub outline_color: Color,
    pub rb_handle: Option<BodyHandle>,
}

impl Ring {
    /// A ring of radius 100, not registered with any world.
    pub fn new() -> (r: Ring)
        ensures
            r.radius == 100,
            r.outline_thickness == RING_OUTLINE,
            r.point_count == RING_POINT_COUNT,
            r.outline_color == white_spec(),
            r.rb_handle.is_none(),
    {
        Ring {
            radius: 100,
            outline_thickness: RING_OUTLINE,
            point_count: RING_POINT_COUNT,
            outline_color: Color::white(),
            rb_handle: None,
        }
    }

    /// A ring of the radius that `size` names, not registered with any world.
    pub fn new_with_size(size: RingSize) -> (r: Ring)
        ensures
            r.radius == ring_size_radius(size),
            r.outline_thickness == RING_OUTLINE,
            r.point_count == RING_POINT_COUNT,
            r.outline_color == white_spec(),
            r.rb_handle.is_none(),
    {
        let radius: u32 = match size {
            RingSize::Small => 30,
            RingSize::Medium => 200,
            RingSize::Large => 300,
        };
        Ring {
            radius,
            outline_thickness: RING_OUTLINE,
            point_count: RING_POINT_COUNT,
            outline_color: Color::white(),
            rb_handle: None,
        }
    }

    /// Builds the band-shaped collider that bounds the ring: twice
    /// `point_count` vertices, alternating between the outer circle
    /// (radius plus thickness) and the inner one.
    pub fn create_collider(&self) -> (res: Result<RingCollider, RingGeometryError>)
        ensures
            self.point_count < 3 ==> res == Err::<RingCollider, _>(RingGeometryError::TooFewPoints),
            self.point_count >= 3 && self.point_count > RING_MAX_POINTS ==> res == Err::<
                RingCollider,
                _,
            >(RingGeometryError::TooManyPoints),
            3 <= self.point_count <= RING_MAX_POINTS && self.radius == 0 ==> res == Err::<
                RingCollider,
                _,
            >(RingGeometryError::NonPositiveRadius),
            3 <= self.point_count <= RING_MAX_POINTS && self.radius > 0
                && self.outline_thickness == 0 ==> res == Err::<RingCollider, _>(
                RingGeometryError::NonPositiveThickness,
            ),
            3 <= self.point_count <= RING_MAX_POINTS && self.radius > 0 && self.outline_thickness
                > 0 ==> res is Ok,
            res matches Ok(c) ==> {
                &&& c.vertex_count == 2 * self.point_count
                &&& c.outer_radius == self.radius + self.outline_thickness
                &&& c.inner_radius == self.radius
                &&& c.restitution_milli == RING_RESTITUTION_MILLI
                &&& c.indices@.len() == c.vertex_count
                &&& forall|i: int|
                    0 <= i < c.vertex_count ==> c.indices@[i] == ring_triangle(
                        c.vertex_count as int,
                        i,
                    )
            },
    {
        if self.point_count < 3 {
            return Err(RingGeometryError::TooFewPoints);
        }
        if self.point_count > RING_MAX_POINTS {
            return Err(RingGeometryError::TooManyPoints);
        }
        if self.radius == 0 {
            return Err(RingGeometryError::NonPositiveRadius);
        }
        if self.outline_thickness == 0 {
            return Err(RingGeometryError::NonPositiveThickness);
        }
        let outer: u64 = self.radius as u64 + self.outline_thickness as u64;
        let vertex_count = self.point_count * 2;
        Ok(
            RingCollider {
                vertex_count,
                outer_radius: outer,
                inner_radius: self.radius,
                indices: trimesh_indices(vertex_count),
                restitution_milli: RING_RESTITUTION_MILLI,
            },
        )
    }

    /// Registers this ring with the world: `rb` becomes its body and
    /// `collider` that body's first collider. Returns the collider's handle.
    pub fn insert_into_physics(&mut self, rb: RigidBody, collider: Collider, physics: &mut Physics) -> (c: ColliderHandle)
        ensures
            final(self).rb_handle matches Some(b) && {
                &&& !old(physics).bodies().contains(b)
                &&& final(physics).bodies() == old(physics).bodies().insert(b)
                &&& final(physics).colliders() == old(physics).colliders().insert(c, Some(b))
            },
            !old(physics).colliders().dom().contains(c),
            final(physics).removed_colliders == old(physics).removed_colliders,
            *final(self) == (Ring { rb_handle: final(self).rb_handle, ..*old(self) }),
    {
        let (body, c) = physics.insert_body(rb, collider);
        self.rb_handle = Some(body);
        c
    }

    /// Whether this ring is registered under `handle`.
    pub fn is_obj_with_handle(&self, handle: BodyHandle) -> (r: bool)
        ensures
            r == (self.rb_handle == Some(handle)),
    {
        match self.rb_handle {
            Some(h) => h == handle,
            None => false,
        }
    }

    pub fn set_outline_color(&mut self, color: Color)
        ensures
            *final(self) == (Ring { outline_color: color, ..*old(self) }),
    {
        self.outline_color = color;
    }

    /// Gives the outline a freshly drawn random color; nothing else changes.
    pub fn rand_outline_color(&mut self)
        ensures
            is_random_outline(final(self).outline_color),
            *final(self) == (Ring { outline_color: final(self).outline_color, ..*old(self) }),
    {
        self.outline_color = random_outline_color();
    }
}

} // verus!
