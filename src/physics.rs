use vstd::prelude::*;

use crate::handle::{BodyHandle, ColliderHandle};
use rapier2d::dynamics::{IslandManager, RigidBody, RigidBodyHandle, RigidBodySet};
use rapier2d::geometry::{Collider, ColliderSet};

verus! {

/// Which edge of a contact an event reports.
#[derive(Clone, Copy, Debug, PartialEq, Eq, Structural)]
pub enum ContactKind {
    /// Two colliders began to touch.
    Started,
    /// Two colliders stopped touching.
    Stopped,
}

/// A contact transition between two colliders, as reported by the world.
///
/// `removed` is set when the world produced the event because one of the two
/// colliders was taken out of it.
#[derive(Clone, Copy, Debug, PartialEq, Eq, Structural)]
pub struct CollisionEvent {
    pub kind: ContactKind,
    pub collider1: ColliderHandle,
    pub collider2: ColliderHandle,
    pub removed: bool,
}

impl CollisionEvent {
    pub fn started(&self) -> (r: bool)
        ensures
            r == (self.kind == ContactKind::Started),
    {
        match self.kind {
            ContactKind::Started => true,
            ContactKind::Stopped => false,
        }
    }

    pub fn stopped(&self) -> (r: bool)
        ensures
            r == (self.kind == ContactKind::Stopped),
    {
        match self.kind {
            ContactKind::Started => false,
            ContactKind::Stopped => true,
        }
    }

    pub fn removed(&self) -> (r: bool)
        ensures
            r == self.removed,
    {
        self.removed
    }
}

/// The colliders taken out of the world during the current frame.
///
/// A collider that was swapped out while the frame's events were handled
/// stays listed here until the frame ends, so that a later event of the same
/// frame that names it is recognised and skipped.
#[derive(Debug)]
pub struct RemovedColliderSet {
    pub handles: Vec<ColliderHandle>,
}

impl RemovedColliderSet {
    pub open spec fn contains(&self, h: ColliderHandle) -> bool {
        self.handles@.contains(h)
    }

    /// An empty set.
    pub fn new() -> (s: RemovedColliderSet)
        ensures
            forall|h: ColliderHandle| !s.contains(h),
    {
        RemovedColliderSet { handles: Vec::new() }
    }

    /// Marks `h` as removed in this frame.
    pub fn insert(&mut self, h: ColliderHandle)
        ensures
            forall|x: ColliderHandle| #[trigger]
                final(self).contains(x) == (old(self).contains(x) || x == h),
    {
        self.handles.push(h);
        proof {
            assert forall|x: ColliderHandle| #[trigger]
                self.contains(x) == (old(self).contains(x) || x == h) by {
                if old(self).contains(x) {
                    let i = choose|i: int| 0 <= i < old(self).handles@.len() && old(self).handles@[i] == x;
                    assert(self.handles@[i] == x);
                }
                if x == h {
                    assert(self.handles@[self.handles@.len() - 1] == x);
                }
            }
        }
    }

    /// Whether `h` was removed earlier in this frame.
    pub fn is_collider_removed(&self, h: ColliderHandle) -> (r: bool)
        ensures
            r == self.contains(h),
    {
        let mut i: usize = 0;
        while i < self.handles.len()
            invariant
                i <= self.handles@.len(),
                forall|j: int| 0 <= j < i ==> self.handles@[j] != h,
            decreases self.handles@.len() - i,
        {
            if self.handles[i] == h {
                return true;
            }
            i = i + 1;
        }
        false
    }

    /// Forgets every removal: called once per frame, after all of that
    /// frame's events have been handled.
    pub fn cleanup(&mut self)
        ensures
            forall|h: ColliderHandle| !final(self).contains(h),
    {
        self.handles.clear();
    }
}

#[verifier::external_type_specification]
#[verifier::external_body]
pub struct ExRigidBodySet(RigidBodySet);

#[verifier::external_type_specification]
#[verifier::external_body]
pub struct ExColliderSet(ColliderSet);

#[verifier::external_type_specification]
#[verifier::external_body]
pub struct ExIslandManager(IslandManager);

#[verifier::external_type_specification]
#[verifier::external_body]
pub struct ExRigidBody(RigidBody);

#[verifier::external_type_specification]
#[verifier::external_body]
pub struct ExCollider(Collider);

/// The handles of the bodies a body set holds.
pub uninterp spec fn body_handles(s: RigidBodySet) -> Set<BodyHandle>;

/// The colliders a collider set holds, each with the body it is attached to
/// (none for a collider without a parent).
pub uninterp spec fn collider_parents(s: ColliderSet) -> Map<ColliderHandle, Option<BodyHandle>>;

/// The collider handles a collider set has given up: each was held once and
/// removed. The set's arena raises its generation on every removal and gives
/// each new collider the current one, so none of these is handed out again.
pub uninterp spec fn retired_colliders(s: ColliderSet) -> Set<ColliderHandle>;

/// Relies on rapier's `RigidBodySet::new`: a set with no bodies.
pub assume_specification[ RigidBodySet::new ]() -> (r: RigidBodySet)
    ensures
        body_handles(r).is_empty(),
;

/// Relies on rapier's `ColliderSet::new`: a set with no colliders.
pub assume_specification[ ColliderSet::new ]() -> (r: ColliderSet)
    ensures
        collider_parents(r).dom().is_empty(),
        retired_colliders(r).is_empty(),
;

/// Relies on rapier's `IslandManager::new`; nothing about it is used.
pub assume_specification[ IslandManager::new ]() -> IslandManager;

/// Relies on rapier's `RigidBodySet::insert`: the body takes a free slot of
/// the set's arena, so its handle is one the set did not hold; the other
/// bodies stay.
#[verifier::external_body]
fn insert_rigid_body(set: &mut RigidBodySet, rb: RigidBody) -> (h: BodyHandle)
    ensures
        !body_handles(*old(set)).contains(h),
        body_handles(*final(set)) == body_handles(*old(set)).insert(h),
{
    let (index, generation) = set.insert(rb).into_raw_parts();
    BodyHandle { index, generation }
}

/// Relies on rapier's `RigidBodySet::contains`: whether the set holds the body.
#[verifier::external_body]
fn contains_body(set: &RigidBodySet, h: BodyHandle) -> (r: bool)
    ensures
        r == body_handles(*set).contains(h),
{
    set.contains(RigidBodyHandle::from_raw_parts(h.index, h.generation))
}

/// Relies on rapier's `ColliderSet::insert_with_parent`: the collider takes
/// a free slot of the set's arena, with the arena's current generation, and
/// is attached to `parent`; no body is added or removed. It panics when
/// `parent` is not in `bodies`.
#[verifier::external_body]
fn insert_collider(
    colliders: &mut ColliderSet,
    c: Collider,
    parent: BodyHandle,
    bodies: &mut RigidBodySet,
) -> (h: ColliderHandle)
    requires
        body_handles(*old(bodies)).contains(parent),
    ensures
        !collider_parents(*old(colliders)).dom().contains(h),
        !retired_colliders(*old(colliders)).contains(h),
        collider_parents(*final(colliders)) == collider_parents(*old(colliders)).insert(h, Some(parent)),
        retired_colliders(*old(colliders)).subset_of(retired_colliders(*final(colliders))),
        body_handles(*final(bodies)) == body_handles(*old(bodies)),
{
    let parent = RigidBodyHandle::from_raw_parts(parent.index, parent.generation);
    let (index, generation) = colliders.insert_with_parent(c, parent, bodies).into_raw_parts();
    ColliderHandle { index, generation }
}

/// Relies on rapier's `ColliderSet::remove`, waking the parent body: the
/// collider leaves the set when it was there (and only then is the result
/// true), and its handle is retired; no body is added or removed.
#[verifier::external_body]
fn remove_collider(
    colliders: &mut ColliderSet,
    h: ColliderHandle,
    islands: &mut IslandManager,
    bodies: &mut RigidBodySet,
) -> (r: bool)
    ensures
        r == collider_parents(*old(colliders)).dom().contains(h),
        collider_parents(*final(colliders)) == collider_parents(*old(colliders)).remove(h),
        retired_colliders(*old(colliders)).subset_of(retired_colliders(*final(colliders))),
        r ==> retired_colliders(*final(colliders)).contains(h),
        body_handles(*final(bodies)) == body_handles(*old(bodies)),
{
    let h = rapier2d::geometry::ColliderHandle::from_raw_parts(h.index, h.generation);
    colliders.remove(h, islands, bodies, true).is_some()
}

/// Relies on rapier's `ColliderSet::get` and `Collider::parent`: the body the
/// collider is attached to, none when the set does not hold the collider or
/// it has no parent.
#[verifier::external_body]
fn parent_of_collider(set: &ColliderSet, h: ColliderHandle) -> (r: Option<BodyHandle>)
    ensures
        r == (if collider_parents(*set).dom().contains(h) {
            collider_parents(*set)[h]
        } else {
            None::<BodyHandle>
        }),
{
    let h = rapier2d::geometry::ColliderHandle::from_raw_parts(h.index, h.generation);
    set.get(h).and_then(|c| c.parent()).map(|b| {
        let (index, generation) = b.into_raw_parts();
        BodyHandle { index, generation }
    })
}

/// The bodies and colliders of the simulation world, and the colliders
/// removed from it during the current frame.
///
/// The stepping machinery (integrator, broad and narrow phase) works on
/// `rigidbody_set`, `collider_set` and `island_manager` from outside.
pub struct Physics {
    pub rigidbody_set: RigidBodySet,
    pub collider_set: ColliderSet,
    pub island_manager: IslandManager,
    pub removed_colliders: RemovedColliderSet,
}

impl Physics {
    pub open spec fn bodies(&self) -> Set<BodyHandle> {
        body_handles(self.rigidbody_set)
    }

    pub open spec fn colliders(&self) -> Map<ColliderHandle, Option<BodyHandle>> {
        collider_parents(self.collider_set)
    }

    pub open spec fn retired(&self) -> Set<ColliderHandle> {
        retired_colliders(self.collider_set)
    }

    /// The body collider `h` is attached to, if the world holds `h` and it has one.
    pub open spec fn parent_of(&self, h: ColliderHandle) -> Option<BodyHandle> {
        if self.colliders().dom().contains(h) {
            self.colliders()[h]
        } else {
            None
        }
    }

    /// An empty world.
    pub fn new() -> (p: Physics)
        ensures
            p.bodies().is_empty(),
            p.colliders().dom().is_empty(),
            forall|h: ColliderHandle| !p.removed_colliders.contains(h),
    {
        let p = Physics {
            rigidbody_set: RigidBodySet::new(),
            collider_set: ColliderSet::new(),
            island_manager: IslandManager::new(),
            removed_colliders: RemovedColliderSet::new(),
        };
        p
    }

    /// Registers a body together with its first collider; returns both
    /// handles, neither of which the world held before.
    pub fn insert_body(&mut self, rb: RigidBody, collider: Collider) -> (r: (BodyHandle, ColliderHandle))
        ensures
            !old(self).bodies().contains(r.0),
            final(self).bodies() == old(self).bodies().insert(r.0),
            !old(self).colliders().dom().contains(r.1),
            !old(self).retired().contains(r.1),
            final(self).colliders() == old(self).colliders().insert(r.1, Some(r.0)),
            old(self).retired().subset_of(final(self).retired()),
            final(self).removed_colliders == old(self).removed_colliders,
    {
        let body = insert_rigid_body(&mut self.rigidbody_set, rb);
        let c = insert_collider(&mut self.collider_set, collider, body, &mut self.rigidbody_set);
        (body, c)
    }

    /// The body collider `h` is attached to, if the world holds `h` and it has one.
    pub fn collider_parent(&self, h: ColliderHandle) -> (r: Option<BodyHandle>)
        ensures
            r == self.parent_of(h),
    {
        parent_of_collider(&self.collider_set, h)
    }

    /// Whether the world holds body `h`.
    pub fn has_body(&self, h: BodyHandle) -> (r: bool)
        ensures
            r == self.bodies().contains(h),
    {
        contains_body(&self.rigidbody_set, h)
    }

    /// Swaps `old_collider` for `new_collider` on `body`, and marks the old
    /// one removed for the rest of the frame. The body keeps its handle;
    /// only the collider's identity changes. Nothing happens, and none is
    /// returned, when the world does not hold `body`.
    pub fn replace_collider(
        &mut self,
        body: BodyHandle,
        old_collider: ColliderHandle,
        new_collider: Collider,
    ) -> (r: Option<ColliderHandle>)
        ensures
            !old(self).bodies().contains(body) ==> r is None && *final(self) == *old(self),
            old(self).bodies().contains(body) ==> r is Some,
            r matches Some(c) ==> {
                &&& !old(self).colliders().dom().contains(c)
                &&& !old(self).retired().contains(c)
                &&& old(self).colliders().dom().contains(old_collider) ==> {
                    &&& c != old_collider
                    &&& !final(self).colliders().dom().contains(old_collider)
                    &&& final(self).retired().contains(old_collider)
                }
                &&& final(self).colliders() == old(self).colliders().remove(old_collider).insert(
                    c,
                    Some(body),
                )
                &&& final(self).bodies() == old(self).bodies()
                &&& forall|h: ColliderHandle| #[trigger]
                    final(self).removed_colliders.contains(h) == (old(self).removed_colliders.contains(h)
                        || h == old_collider)
            },
    {
        if !contains_body(&self.rigidbody_set, body) {
            return None;
        }
        let was_held = remove_collider(
            &mut self.collider_set,
            old_collider,
            &mut self.island_manager,
            &mut self.rigidbody_set,
        );
        self.removed_colliders.insert(old_collider);
        let c = insert_collider(&mut self.collider_set, new_collider, body, &mut self.rigidbody_set);
        assert(was_held ==> c != old_collider);
        Some(c)
    }

    /// Whether `h` was removed earlier in this frame.
    pub fn is_collider_removed(&self, h: ColliderHandle) -> (r: bool)
        ensures
            r == self.removed_colliders.contains(h),
    {
        self.removed_colliders.is_collider_removed(h)
    }

    /// Ends the frame: no collider counts as removed any more.
    pub fn cleanup(&mut self)
        ensures
            forall|h: ColliderHandle| !final(self).removed_colliders.contains(h),
            final(self).bodies() == old(self).bodies(),
            final(self).colliders() == old(self).colliders(),
    {
        self.removed_colliders.cleanup();
    }
}

} // verus!
