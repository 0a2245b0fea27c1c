use vstd::prelude::*;

use crate::ball::{grown, Ball, BallCollider, BALL_RESTITUTION_MILLI};
use crate::color::is_random_outline;
use crate::handle::{BodyHandle, ColliderHandle};
use crate::physics::{CollisionEvent, ContactKind, Physics};
use crate::pitch::{pitch, pitch_spec};
use crate::ring::Ring;

verus! {

/// A ball's request to have its old collider swapped for a new one of the
/// given shape, on the same body.
#[derive(Clone, Copy, Debug, PartialEq, Eq, Structural)]
pub struct Replacement {
    pub body: BodyHandle,
    pub old_collider: ColliderHandle,
    pub collider: BallCollider,
}

/// What one accepted collision calls for: a sound at `pitch` (in
/// `PITCH_SCALE` units), and a collider swap for each side whose body is a
/// ball's. `second` is none as well when both colliders hang on one body.
#[derive(Clone, Copy, Debug, PartialEq, Eq, Structural)]
pub struct Reaction {
    pub pitch: u32,
    pub first: Option<Replacement>,
    pub second: Option<Replacement>,
}

/// The live entities and the simulation world they are registered with.
///
/// Entities are numbered balls first, then rings. No two registered
/// entities share a body.
pub struct Scene {
    pub balls: Vec<Ball>,
    pub rings: Vec<Ring>,
    pub physics: Physics,
}

/// `after` is `before` as a reaction leaves it: a new random outline and the
/// radius grown once; nothing else changes.
pub open spec fn ball_reacted(before: Ball, after: Ball) -> bool {
    &&& is_random_outline(after.outline_color)
    &&& after == (Ball { radius: grown(before.radius), outline_color: after.outline_color, ..before })
}

/// `after` is `before` with a new random outline and nothing else changed.
pub open spec fn ring_reacted(before: Ring, after: Ring) -> bool {
    &&& is_random_outline(after.outline_color)
    &&& after == (Ring { outline_color: after.outline_color, ..before })
}

/// The collider a ball asks for once it has reacted.
pub open spec fn collider_for(b: Ball) -> BallCollider {
    BallCollider {
        radius: b.radius,
        outline_thickness: b.outline_thickness,
        restitution_milli: BALL_RESTITUTION_MILLI,
    }
}

/// The swap that the ball registered under `body` asks for in `after`, when
/// some ball of `before` is registered under it.
pub open spec fn replacement_for(before: &Scene, after: &Scene, body: BodyHandle, c: ColliderHandle) -> Option<
    Replacement,
> {
    if before.ball_owns(body) {
        Some(
            Replacement {
                body,
                old_collider: c,
                collider: collider_for(after.balls@[before.ball_index(body)]),
            },
        )
    } else {
        None
    }
}

/// `after` is `before` once entity reactions have been applied for the
/// bodies `b1` and `b2`, whose colliders are `c1` and `c2`: every entity
/// registered under one of them reacts once and every other one stays as it
/// was; the colliders of the reacting balls are marked removed (only `c1`
/// when both sides are one body); the world's bodies and colliders stay.
pub open spec fn entities_reacted(
    before: &Scene,
    after: &Scene,
    b1: BodyHandle,
    c1: ColliderHandle,
    b2: BodyHandle,
    c2: ColliderHandle,
) -> bool {
    &&& after.wf()
    &&& after.balls@.len() == before.balls@.len()
    &&& after.rings@.len() == before.rings@.len()
    &&& forall|j: int|
        0 <= j < before.balls@.len() ==> if before.balls@[j].rb_handle == Some(b1)
            || before.balls@[j].rb_handle == Some(b2) {
            ball_reacted(before.balls@[j], after.balls@[j])
        } else {
            after.balls@[j] == before.balls@[j]
        }
    &&& forall|j: int|
        0 <= j < before.rings@.len() ==> if before.rings@[j].rb_handle == Some(b1)
            || before.rings@[j].rb_handle == Some(b2) {
            ring_reacted(before.rings@[j], after.rings@[j])
        } else {
            after.rings@[j] == before.rings@[j]
        }
    &&& forall|h: ColliderHandle| #[trigger]
        after.physics.removed_colliders.contains(h) == (before.physics.removed_colliders.contains(h)
            || (h == c1 && before.ball_owns(b1)) || (h == c2 && b2 != b1 && before.ball_owns(b2)))
    &&& after.physics.bodies() == before.physics.bodies()
    &&& after.physics.colliders() == before.physics.colliders()
    &&& after.physics.retired() == before.physics.retired()
}

impl Scene {
    pub open spec fn len(&self) -> int {
        (self.balls@.len() + self.rings@.len()) as int
    }

    pub open spec fn is_ball(&self, k: int) -> bool {
        0 <= k < self.balls@.len()
    }

    pub open spec fn body_at(&self, k: int) -> Option<BodyHandle> {
        if k < self.balls@.len() {
            self.balls@[k].rb_handle
        } else {
            self.rings@[k - self.balls@.len()].rb_handle
        }
    }

    pub open spec fn body_in_use(&self, h: BodyHandle) -> bool {
        exists|k: int| 0 <= k < self.len() && self.body_at(k) == Some(h)
    }

    /// Some ball is registered under `h`.
    pub open spec fn ball_owns(&self, h: BodyHandle) -> bool {
        exists|k: int| self.is_ball(k) && self.body_at(k) == Some(h)
    }

    /// The ball registered under `h`.
    pub open spec fn ball_index(&self, h: BodyHandle) -> int {
        choose|k: int| self.is_ball(k) && self.body_at(k) == Some(h)
    }

    pub open spec fn wf(&self) -> bool {
        &&& self.len() <= usize::MAX
        &&& forall|j: int, k: int|
            0 <= j < self.len() && 0 <= k < self.len() && j != k && (#[trigger] self.body_at(
                j,
            )).is_some() ==> self.body_at(j) != #[trigger] self.body_at(k)
    }

    /// The event is a stop of contact that no removal has overtaken.
    pub open spec fn is_live_stop(&self, e: CollisionEvent) -> bool {
        &&& e.kind == ContactKind::Stopped
        &&& !e.removed
        &&& !self.physics.removed_colliders.contains(e.collider1)
        &&& !self.physics.removed_colliders.contains(e.collider2)
    }

    /// The event is a live stop and both of its colliders hang on bodies of the world.
    pub open spec fn reacts(&self, e: CollisionEvent) -> bool {
        &&& self.is_live_stop(e)
        &&& self.physics.parent_of(e.collider1).is_some()
        &&& self.physics.parent_of(e.collider2).is_some()
    }

    /// In a well-formed scene a body has at most one entity registered under it.
    pub proof fn lemma_ball_index_unique(&self, k: int, h: BodyHandle)
        requires
            self.wf(),
            self.is_ball(k),
            self.body_at(k) == Some(h),
        ensures
            self.ball_owns(h),
            self.ball_index(h) == k,
    {
        let o = self.ball_index(h);
        if o != k {
            assert(self.body_at(o) != self.body_at(k));
        }
    }

    /// An empty scene with an empty world.
    pub fn new() -> (s: Scene)
        ensures
            s.wf(),
            s.balls@.len() == 0,
            s.rings@.len() == 0,
            s.physics.bodies().is_empty(),
            s.physics.colliders().dom().is_empty(),
            forall|h: ColliderHandle| !s.physics.removed_colliders.contains(h),
    {
        Scene { balls: Vec::new(), rings: Vec::new(), physics: Physics::new() }
    }

    /// The entity registered under body `h`, if any.
    pub fn find_body_owner(&self, h: BodyHandle) -> (r: Option<usize>)
        requires
            self.wf(),
        ensures
            r matches Some(k) ==> k < self.len() && self.body_at(k as int) == Some(h),
            r is None ==> !self.body_in_use(h),
    {
        let nb = self.balls.len();
        let mut i: usize = 0;
        while i < nb
            invariant
                self.wf(),
                nb == self.balls@.len(),
                i <= nb,
                forall|k: int| 0 <= k < i ==> self.body_at(k) != Some(h),
            decreases nb - i,
        {
            if self.balls[i].is_obj_with_handle(h) {
                return Some(i);
            }
            i = i + 1;
        }
        let mut j: usize = 0;
        while j < self.rings.len()
            invariant
                self.wf(),
                nb == self.balls@.len(),
                j <= self.rings@.len(),
                forall|k: int| 0 <= k < nb + j ==> self.body_at(k) != Some(h),
            decreases self.rings@.len() - j,
        {
            if self.rings[j].is_obj_with_handle(h) {
                return Some(nb + j);
            }
            j = j + 1;
        }
        None
    }

    /// Applies a reaction to the entity registered under body `b`, whose
    /// collider in the event was `c`; nothing happens when no entity is.
    ///
    /// A ring only takes a new random outline. A ball also grows once, its
    /// collider `c` is marked removed for the rest of the frame, and it asks
    /// for a replacement sized to its new radius on the same body.
    fn react_body(&mut self, b: BodyHandle, c: ColliderHandle) -> (r: Option<Replacement>)
        requires
            old(self).wf(),
        ensures
            entities_reacted(old(self), final(self), b, c, b, c),
            r == replacement_for(old(self), final(self), b, c),
    {
        let nb = self.balls.len();
        let found = self.find_body_owner(b);
        match found {
            None => {
                proof {
                    assert forall|j: int| 0 <= j < self.balls@.len() implies self.balls@[j].rb_handle
                        != Some(b) by {
                        assert(self.body_at(j) != Some(b));
                    }
                    assert forall|j: int| 0 <= j < self.rings@.len() implies self.rings@[j].rb_handle
                        != Some(b) by {
                        assert(self.body_at(j + nb) != Some(b));
                    }
                    assert(!self.ball_owns(b));
                }
                None
            },
            Some(k) => {
                if k < nb {
                    proof {
                        self.lemma_ball_index_unique(k as int, b);
                    }
                    let ghost before = *self;
                    let mut ball = self.balls[k];
                    ball.rand_outline_color();
                    ball.grow();
                    let desc = ball.create_collider();
                    self.balls.set(k, ball);
                    self.physics.removed_colliders.insert(c);
                    proof {
                        assert forall|j: int| 0 <= j < self.len() implies #[trigger] self.body_at(j)
                            == before.body_at(j) by {}
                        assert forall|j: int| 0 <= j < before.balls@.len() && j != k implies before.balls@[j].rb_handle
                            != Some(b) by {
                            assert(before.body_at(j) != before.body_at(k as int));
                        }
                        assert forall|j: int| 0 <= j < before.rings@.len() implies before.rings@[j].rb_handle
                            != Some(b) by {
                            assert(before.body_at(j + nb) != before.body_at(k as int));
                        }
                    }
                    Some(Replacement { body: b, old_collider: c, collider: desc })
                } else {
                    let ghost before = *self;
                    let mut ring = self.rings[k - nb];
                    ring.rand_outline_color();
                    self.rings.set(k - nb, ring);
                    proof {
                        assert forall|j: int| 0 <= j < self.len() implies #[trigger] self.body_at(j)
                            == before.body_at(j) by {}
                        assert forall|j: int| 0 <= j < before.balls@.len() implies before.balls@[j].rb_handle
                            != Some(b) by {
                            assert(before.body_at(j) != before.body_at(k as int));
                        }
                        assert forall|j: int| 0 <= j < before.rings@.len() && j + nb != k implies before.rings@[j].rb_handle
                            != Some(b) by {
                            assert(before.body_at(j + nb) != before.body_at(k as int));
                        }
                        assert(!before.ball_owns(b));
                    }
                    None
                }
            },
        }
    }

    fn event_is_live(&self, e: &CollisionEvent) -> (r: bool)
        ensures
            r == self.is_live_stop(*e),
    {
        e.stopped() && !e.removed() && !self.physics.is_collider_removed(e.collider1)
            && !self.physics.is_collider_removed(e.collider2)
    }

    /// The bodies behind an event that will be reacted to, in the event's
    /// order; none when the event is skipped.
    pub fn resolve_event(&self, e: &CollisionEvent) -> (r: Option<(BodyHandle, BodyHandle)>)
        ensures
            r.is_some() == self.reacts(*e),
            r matches Some(p) ==> Some(p.0) == self.physics.parent_of(e.collider1) && Some(p.1)
                == self.physics.parent_of(e.collider2),
    {
        if !self.event_is_live(e) {
            return None;
        }
        match (self.physics.collider_parent(e.collider1), self.physics.collider_parent(e.collider2)) {
            (Some(b1), Some(b2)) => Some((b1, b2)),
            _ => None,
        }
    }

    /// Handles one collision event of the frame.
    ///
    /// Only a stop of contact counts, and only when neither collider was
    /// removed before it (by the world, or by a swap earlier in this frame)
    /// and both hang on bodies of the world; anything else leaves the scene
    /// as it is and returns none. An accepted event gives one sound, at the
    /// pitch of `magnitude` (the two bodies' speeds added up), and one
    /// reaction of each entity registered under either body; a body no
    /// entity is registered under is skipped. Body handles never change: only
    /// the reacting balls' colliders are marked removed, and so a repeated
    /// report of the same contact is skipped.
    pub fn react_to_collision(&mut self, e: CollisionEvent, magnitude: u32) -> (r: Option<Reaction>)
        requires
            old(self).wf(),
        ensures
            final(self).wf(),
            r.is_some() == old(self).reacts(e),
            r is None ==> *final(self) == *old(self),
            old(self).physics.removed_colliders.contains(e.collider1)
                || old(self).physics.removed_colliders.contains(e.collider2) ==> r is None
                && *final(self) == *old(self),
            r matches Some(x) ==> {
                let b1 = old(self).physics.parent_of(e.collider1).unwrap();
                let b2 = old(self).physics.parent_of(e.collider2).unwrap();
                &&& x.pitch == pitch_spec(magnitude as int)
                &&& entities_reacted(old(self), final(self), b1, e.collider1, b2, e.collider2)
                &&& x.first == replacement_for(old(self), final(self), b1, e.collider1)
                &&& x.second == if b2 == b1 {
                    None
                } else {
                    replacement_for(old(self), final(self), b2, e.collider2)
                }
            },
            forall|k: int| 0 <= k < old(self).len() ==> #[trigger] final(self).body_at(k) == old(self).body_at(k),
            r is Some && (old(self).ball_owns(old(self).physics.parent_of(e.collider1).unwrap())
                || old(self).ball_owns(old(self).physics.parent_of(e.collider2).unwrap()))
                ==> !final(self).reacts(e),
    {
        let bodies = self.resolve_event(&e);
        let (b1, b2) = match bodies {
            Some(p) => p,
            None => {
                return None;
            },
        };
        let ghost before = *self;
        let first = self.react_body(b1, e.collider1);
        let ghost middle = *self;
        let second = if b2 != b1 {
            proof {
                assert forall|k: int| 0 <= k < middle.len() implies #[trigger] middle.body_at(k) == before.body_at(k) by {}
                if before.ball_owns(b2) {
                    let k = before.ball_index(b2);
                    before.lemma_ball_index_unique(k, b2);
                    assert(middle.balls@[k] == before.balls@[k]);
                    middle.lemma_ball_index_unique(k, b2);
                }
                if middle.ball_owns(b2) {
                    let k = middle.ball_index(b2);
                    assert(before.body_at(k) == Some(b2));
                }
            }
            self.react_body(b2, e.collider2)
        } else {
            None
        };
        let p = pitch(magnitude);
        proof {
            assert forall|k: int| 0 <= k < before.len() implies #[trigger] self.body_at(k)
                == before.body_at(k) by {}
            if b2 != b1 && before.ball_owns(b1) {
                let k = before.ball_index(b1);
                before.lemma_ball_index_unique(k, b1);
                assert(self.balls@[k] == middle.balls@[k]);
            }
        }
        Some(Reaction { pitch: p, first, second })
    }

    /// An entity registered under `body` can join the scene and keep it well formed.
    pub open spec fn admits(&self, body: Option<BodyHandle>) -> bool {
        &&& self.len() < usize::MAX
        &&& body matches Some(h) ==> !self.body_in_use(h)
    }

    fn admits_exec(&self, body: Option<BodyHandle>) -> (r: bool)
        requires
            self.wf(),
        ensures
            r == self.admits(body),
    {
        if self.balls.len() >= usize::MAX - self.rings.len() {
            return false;
        }
        match body {
            Some(h) => self.find_body_owner(h).is_none(),
            None => true,
        }
    }

    /// A scene that is `before` with one entity added at position `n` (and
    /// the later ones moved up by one) is well formed when `before` admitted it.
    proof fn lemma_wf_after_push(&self, before: &Scene, n: int)
        requires
            before.wf(),
            0 <= n <= before.len(),
            self.len() == before.len() + 1,
            before.admits(self.body_at(n)),
            forall|k: int|
                0 <= k < self.len() && k != n ==> #[trigger] self.body_at(k) == before.body_at(
                    if k < n {
                        k
                    } else {
                        k - 1
                    },
                ),
        ensures
            self.wf(),
    {
        let prev = |k: int|
            if k < n {
                k
            } else {
                k - 1
            };
        assert forall|j: int, k: int|
            0 <= j < self.len() && 0 <= k < self.len() && j != k && (#[trigger] self.body_at(
                j,
            )).is_some() implies self.body_at(j) != #[trigger] self.body_at(k) by {
            if j != n && k != n {
                assert(before.body_at(prev(j)) != before.body_at(prev(k)));
            } else if j == n {
                assert(self.body_at(k) == before.body_at(prev(k)));
                assert(!(0 <= prev(k) < before.len() && before.body_at(prev(k)) == self.body_at(n)));
            } else {
                assert(self.body_at(j) == before.body_at(prev(j)));
                if self.body_at(n) == self.body_at(j) {
                    assert(0 <= prev(j) < before.len() && before.body_at(prev(j)) == Some(self.body_at(n).unwrap()));
                }
            }
        }
    }

    /// Adds a ball, unless its body already belongs to an entity of the
    /// scene; says whether it was added.
    pub fn add_ball(&mut self, ball: Ball) -> (r: bool)
        requires
            old(self).wf(),
        ensures
            final(self).wf(),
            r == old(self).admits(ball.rb_handle),
            r ==> final(self).balls@ == old(self).balls@.push(ball) && final(self).rings
                == old(self).rings && final(self).physics == old(self).physics,
            !r ==> *final(self) == *old(self),
    {
        if !self.admits_exec(ball.rb_handle) {
            return false;
        }
        let ghost before = *self;
        self.balls.push(ball);
        proof {
            let nb = before.balls@.len() as int;
            assert forall|k: int| 0 <= k < self.len() && k != nb implies #[trigger] self.body_at(k) == before.body_at(
                if k < nb {
                    k
                } else {
                    k - 1
                },
            ) by {}
            self.lemma_wf_after_push(&before, nb);
        }
        true
    }

    /// Adds a ring, under the same condition as [`Scene::add_ball`].
    pub fn add_ring(&mut self, ring: Ring) -> (r: bool)
        requires
            old(self).wf(),
        ensures
            final(self).wf(),
            r == old(self).admits(ring.rb_handle),
            r ==> final(self).rings@ == old(self).rings@.push(ring) && final(self).balls
                == old(self).balls && final(self).physics == old(self).physics,
            !r ==> *final(self) == *old(self),
    {
        if !self.admits_exec(ring.rb_handle) {
            return false;
        }
        let ghost before = *self;
        self.rings.push(ring);
        proof {
            assert forall|k: int| 0 <= k < self.len() && k != before.len() implies #[trigger] self.body_at(k)
                == before.body_at(k) by {}
            self.lemma_wf_after_push(&before, before.len());
        }
        true
    }

    /// Whether collider `h` was swapped out earlier in this frame.
    pub fn is_collider_removed(&self, h: ColliderHandle) -> (r: bool)
        ensures
            r == self.physics.removed_colliders.contains(h),
    {
        self.physics.is_collider_removed(h)
    }

    /// Ends the frame: no collider counts as removed any more.
    pub fn cleanup(&mut self)
        ensures
            forall|h: ColliderHandle| !final(self).physics.removed_colliders.contains(h),
            final(self).balls == old(self).balls,
            final(self).rings == old(self).rings,
            final(self).physics.bodies() == old(self).physics.bodies(),
            final(self).physics.colliders() == old(self).physics.colliders(),
    {
        self.physics.cleanup();
    }
}

} // verus!
