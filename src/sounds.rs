use vstd::prelude::*;

verus! {

/// The sound cues the sandbox can play.
#[derive(Clone, Copy, Debug, PartialEq, Eq, Structural, Hash)]
pub enum SoundType {
    Bounce,
}

} // verus!
