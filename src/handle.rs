use vstd::prelude::*;

verus! {

/// Identifies a rigid body inside the simulation world: a slot index and the
/// generation of that slot, so a reused slot never matches an old handle.
#[derive(Clone, Copy, Debug, PartialEq, Eq, Structural)]
pub struct BodyHandle {
    pub index: u32,
    pub generation: u32,
}

/// Identifies a collider inside the simulation world, in the same
/// index-and-generation form as [`BodyHandle`].
#[derive(Clone, Copy, Debug, PartialEq, Eq, Structural)]
pub struct ColliderHandle {
    pub index: u32,
    pub generation: u32,
}

impl BodyHandle {
    pub fn from_raw_parts(index: u32, generation: u32) -> (r: BodyHandle)
        ensures
            r.index == index,
            r.generation == generation,
    {
        BodyHandle { index, generation }
    }
}

impl ColliderHandle {
    pub fn from_raw_parts(index: u32, generation: u32) -> (r: ColliderHandle)
        ensures
            r.index == index,
            r.generation == generation,
    {
        ColliderHandle { index, generation }
    }
}

} // verus!
