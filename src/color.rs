use vstd::prelude::*;

verus! {

/// An opaque outline color.
#[derive(Clone, Copy, Debug, PartialEq, Eq, Structural)]
pub struct Color {
    pub r: u8,
    pub g: u8,
    pub b: u8,
}

/// Lowest channel value a randomly drawn outline color may take.
pub const CHANNEL_MIN: u8 = 10;

/// Bound (exclusive) on a randomly drawn channel value.
pub const CHANNEL_END: u8 = 255;

/// A channel value that a random draw can produce.
pub open spec fn channel_in_range(c: u8) -> bool {
    CHANNEL_MIN <= c < CHANNEL_END
}

/// A color that a random draw can produce: every channel in `10..255`,
/// so an outline never turns (nearly) black.
pub open spec fn is_random_outline(c: Color) -> bool {
    channel_in_range(c.r) && channel_in_range(c.g) && channel_in_range(c.b)
}

/// The outline color every entity starts with.
pub open spec fn white_spec() -> Color {
    Color { r: 255, g: 255, b: 255 }
}

impl Color {
    pub fn rgb(r: u8, g: u8, b: u8) -> (c: Color)
        ensures
            c.r == r,
            c.g == g,
            c.b == b,
    {
        Color { r, g, b }
    }

    /// The outline color every entity starts with.
    pub fn white() -> (c: Color)
        ensures
            c == white_spec(),
    {
        Color { r: 255, g: 255, b: 255 }
    }
}

/// Relies on rand's `Rng::gen_range` on the thread-local generator: the value
/// lies in the half-open range `lo..hi`, which must not be empty (it panics
/// on an empty range).
#[verifier::external_body]
fn random_in_range(lo: u8, hi: u8) -> (r: u8)
    requires
        lo < hi,
    ensures
        lo <= r < hi,
{
    rand::Rng::gen_range(&mut rand::thread_rng(), lo..hi)
}

/// Draws a fresh outline color, each channel independently in `10..255`.
pub fn random_outline_color() -> (c: Color)
    ensures
        is_random_outline(c),
{
    let r = random_in_range(CHANNEL_MIN, CHANNEL_END);
    let g = random_in_range(CHANNEL_MIN, CHANNEL_END);
    let b = random_in_range(CHANNEL_MIN, CHANNEL_END);
    Color { r, g, b }
}

} // verus!
