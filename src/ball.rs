use vstd::arithmetic::power::{lemma_pow_adds, pow};
use vstd::prelude::*;

use crate::color::{is_random_outline, white_spec, random_outline_color, Color};
use crate::handle::{BodyHandle, ColliderHandle};
use crate::physics::Physics;
use rapier2d::dynamics::RigidBody;
use rapier2d::geometry::Collider;

verus! {

/// Each reaction multiplies a ball's radius by `GROWTH_NUM / GROWTH_DEN` (one percent).
pub const GROWTH_NUM: u32 = 101;

pub const GROWTH_DEN: u32 = 100;

/// Outline thickness of a newly made ball, in pixels.
pub const BALL_OUTLINE: u32 = 5;

/// Restitution of a ball's collider, in thousandths: above one, so every
/// bounce gains a little energy.
pub const BALL_RESTITUTION_MILLI: u32 = 1035;

/// A radius that started at `base` pixels and has grown `growths` times.
///
/// Its exact value is `base * (101/100)^growths`: the fraction
/// `num() / den()`. Keeping the count instead of a rounded value means no
/// error builds up, however often a ball grows.
#[derive(Clone, Copy, Debug, PartialEq, Eq, Structural)]
pub struct Radius {
    pub base: u32,
    pub growths: u64,
}

impl Radius {
    pub open spec fn num(self) -> int {
        self.base * pow(GROWTH_NUM as int, self.growths as nat)
    }

    pub open spec fn den(self) -> int {
        pow(GROWTH_DEN as int, self.growths as nat)
    }
}

/// The radius after one more growth; a count at its largest value stays there.
pub open spec fn grown(r: Radius) -> Radius {
    Radius { base: r.base, growths: if r.growths < u64::MAX { (r.growths + 1) as u64 } else { u64::MAX } }
}

/// Size classes of a ball.
#[derive(Clone, Copy, Debug, PartialEq, Eq, Structural)]
pub enum BallSize {
    Small,
    Medium,
    Large,
}

/// Radius in pixels of each ball size.
pub open spec fn ball_size_radius(size: BallSize) -> u32 {
    match size {
        BallSize::Small => 15,
        BallSize::Medium => 100,
        BallSize::Large => 150,
    }
}

/// Description of the circular collider a ball asks the world for: a circle
/// of the visual radius plus the outline thickness.
#[derive(Clone, Copy, Debug, PartialEq, Eq, Structural)]
pub struct BallCollider {
    pub radius: Radius,
    pub outline_thickness: u32,
    pub restitution_milli: u32,
}

impl BallCollider {
    /// The collider's geometric radius, times `radius.den()`.
    pub open spec fn extent_num(self) -> int {
        self.radius.num() + self.outline_thickness * self.radius.den()
    }
}

/// A dynamic ball: its visual geometry and the body it is registered under
/// (none until registered). Its collider is whatever the world attaches to
/// that body.
#[derive(Clone, Copy, Debug, PartialEq, Eq, Structural)]
pub struct Ball {
    pub radius: Radius,
    pub outline_thickness: u32,
    pub outline_color: Color,
    pub rb_handle: Option<BodyHandle>,
}

impl Ball {
    /// A ball of radius 100, not registered with any world.
    pub fn new() -> (b: Ball)
        ensures
            b.radius.base == 100 && b.radius.growths == 0,
            b.outline_thickness == BALL_OUTLINE,
            b.outline_color == white_spec(),
            b.rb_handle.is_none(),
    {
        Ball {
            radius: Radius { base: 100, growths: 0 },
            outline_thickness: BALL_OUTLINE,
            outline_color: Color::white(),
            rb_handle: None,
        }
    }

    /// A ball of the radius that `size` names, not registered with any world.
    pub fn new_with_size(size: BallSize) -> (b: Ball)
        ensures
            b.radius.base == ball_size_radius(size) && b.radius.growths == 0,
            b.outline_thickness == BALL_OUTLINE,
            b.outline_color == white_spec(),
            b.rb_handle.is_none(),
    {
        let base: u32 = match size {
            BallSize::Small => 15,
            BallSize::Medium => 100,
            BallSize::Large => 150,
        };
        Ball {
            radius: Radius { base, growths: 0 },
            outline_thickness: BALL_OUTLINE,
            outline_color: Color::white(),
            rb_handle: None,
        }
    }

    /// Registers this ball with the world: `rb` becomes its body and
    /// `collider` that body's first collider. Returns the collider's handle.
    pub fn insert_into_physics(&mut self, rb: RigidBody, collider: Collider, physics: &mut Physics) -> (c: ColliderHandle)
        ensures
            final(self).rb_handle matches Some(b) && {
                &&& !old(physics).bodies().contains(b)
                &&& final(physics).bodies() == old(physics).bodies().insert(b)
                &&& final(physics).colliders() == old(physics).colliders().insert(c, Some(b))
            },
            !old(physics).colliders().dom().contains(c),
            final(physics).removed_colliders == old(physics).removed_colliders,
            *final(self) == (Ball { rb_handle: final(self).rb_handle, ..*old(self) }),
    {
        let (body, c) = physics.insert_body(rb, collider);
        self.rb_handle = Some(body);
        c
    }

    /// Whether this ball is registered under `handle`.
    pub fn is_obj_with_handle(&self, handle: BodyHandle) -> (r: bool)
        ensures
            r == (self.rb_handle == Some(handle)),
    {
        match self.rb_handle {
            Some(h) => h == handle,
            None => false,
        }
    }

    pub fn set_outline_color(&mut self, color: Color)
        ensures
            *final(self) == (Ball { outline_color: color, ..*old(self) }),
    {
        self.outline_color = color;
    }

    /// Gives the outline a freshly drawn random color; nothing else changes.
    pub fn rand_outline_color(&mut self)
        ensures
            is_random_outline(final(self).outline_color),
            *final(self) == (Ball { outline_color: final(self).outline_color, ..*old(self) }),
    {
        self.outline_color = random_outline_color();
    }

    pub fn radius(&self) -> (r: Radius)
        ensures
            r == self.radius,
    {
        self.radius
    }

    /// Multiplies the radius by the growth factor. A count that has reached
    /// its largest value stays there.
    pub fn grow(&mut self)
        ensures
            final(self).radius == grown(old(self).radius),
            *final(self) == (Ball { radius: final(self).radius, ..*old(self) }),
    {
        self.radius = Radius { base: self.radius.base, growths: self.radius.growths.saturating_add(1) };
    }

    /// The collider this ball's current geometry calls for: the visual radius
    /// plus the outline thickness.
    pub fn create_collider(&self) -> (c: BallCollider)
        ensures
            c.radius == self.radius,
            c.outline_thickness == self.outline_thickness,
            c.restitution_milli == BALL_RESTITUTION_MILLI,
            c.extent_num() == self.radius.num() + self.outline_thickness * self.radius.den(),
    {
        BallCollider {
            radius: self.radius,
            outline_thickness: self.outline_thickness,
            restitution_milli: BALL_RESTITUTION_MILLI,
        }
    }
}

/// Growing `n` more times multiplies a radius by exactly `(101/100)^n`:
/// `later / earlier == (101/100)^n`, written without division.
pub proof fn lemma_radius_growth(earlier: Radius, later: Radius, n: nat)
    requires
        later.base == earlier.base,
        later.growths == earlier.growths + n,
    ensures
        later.num() * earlier.den() * pow(GROWTH_DEN as int, n) == earlier.num() * later.den()
            * pow(GROWTH_NUM as int, n),
{
    let g = earlier.growths as nat;
    lemma_pow_adds(GROWTH_NUM as int, g, n);
    lemma_pow_adds(GROWTH_DEN as int, g, n);
    let a = pow(GROWTH_NUM as int, g);
    let b = pow(GROWTH_NUM as int, n);
    let c = pow(GROWTH_DEN as int, g);
    let d = pow(GROWTH_DEN as int, n);
    let base = earlier.base as int;
    assert(later.num() == base * (a * b));
    assert(later.den() == c * d);
    assert(base * (a * b) * c * d == base * a * (c * d) * b) by (nonlinear_arith);
}

/// A ball made at size `base` that has grown `n` times has radius exactly
/// `base * (101/100)^n`.
pub proof fn lemma_radius_from_fresh(r: Radius)
    ensures
        r.num() == r.base * pow(GROWTH_NUM as int, r.growths as nat),
        r.den() == pow(GROWTH_DEN as int, r.growths as nat),
        r.growths == 0 ==> r.num() == r.base && r.den() == 1,
{
    reveal_with_fuel(pow, 1);
}

} // verus!
