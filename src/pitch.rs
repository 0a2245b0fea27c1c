use vstd::prelude::*;

verus! {

/// Pitch values are fixed-point: a returned value `p` stands for the
/// playback multiplier `p / PITCH_SCALE`.
pub const PITCH_SCALE: u32 = 8000;

/// Highest pitch the curve reaches, in `PITCH_SCALE` units (a multiplier of 4).
pub const PITCH_MAX: u32 = 32000;

/// The pitch curve over a combined impact magnitude, in `PITCH_SCALE` units.
///
/// Four linear segments:
/// `0..=200` maps onto `0..=1`, `201..=1000` onto `1..=2`,
/// `1001..=2000` onto `2..=3`, `2001..=4000` onto `3..=4`;
/// anything above 4000 is held at 4.
pub open spec fn pitch_spec(m: int) -> int {
    if m <= 200 {
        m * 40
    } else if m <= 1000 {
        8000 + (m - 200) * 10
    } else if m <= 2000 {
        16000 + (m - 1000) * 8
    } else if m <= 4000 {
        24000 + (m - 2000) * 4
    } else {
        32000
    }
}

/// Maps a combined impact magnitude onto a playback pitch, in `PITCH_SCALE` units.
pub fn pitch(magnitude: u32) -> (r: u32)
    ensures
        r == pitch_spec(magnitude as int),
        r <= PITCH_MAX,
{
    if magnitude <= 200 {
        magnitude * 40
    } else if magnitude <= 1000 {
        8000 + (magnitude - 200) * 10
    } else if magnitude <= 2000 {
        16000 + (magnitude - 1000) * 8
    } else if magnitude <= 4000 {
        24000 + (magnitude - 2000) * 4
    } else {
        PITCH_MAX
    }
}

/// The curve passes through its segment boundaries: 0 at 0, and 1, 2, 3 and 4
/// at 200, 1000, 2000 and 4000.
pub proof fn lemma_pitch_boundaries()
    ensures
        pitch_spec(0) == 0,
        pitch_spec(200) == PITCH_SCALE,
        pitch_spec(1000) == 2 * PITCH_SCALE,
        pitch_spec(2000) == 3 * PITCH_SCALE,
        pitch_spec(4000) == 4 * PITCH_SCALE,
{
}

/// Every magnitude above 4000 gives the highest pitch, a multiplier of 4.
pub proof fn lemma_pitch_saturates(m: int)
    requires
        m > 4000,
    ensures
        pitch_spec(m) == 4 * PITCH_SCALE,
        pitch_spec(m) == PITCH_MAX,
{
}

/// The curve never falls: a larger magnitude gives at least the same pitch.
pub proof fn lemma_pitch_monotonic(a: int, b: int)
    requires
        0 <= a <= b,
    ensures
        pitch_spec(a) <= pitch_spec(b),
{
}

/// Within each segment the curve is linear: one step of magnitude adds the
/// segment's slope (40, 10, 8 or 4 units), and beyond the last segment nothing.
pub proof fn lemma_pitch_piecewise_linear(m: int)
    requires
        0 <= m,
    ensures
        m < 200 ==> pitch_spec(m + 1) == pitch_spec(m) + 40,
        200 <= m < 1000 ==> pitch_spec(m + 1) == pitch_spec(m) + 10,
        1000 <= m < 2000 ==> pitch_spec(m + 1) == pitch_spec(m) + 8,
        2000 <= m < 4000 ==> pitch_spec(m + 1) == pitch_spec(m) + 4,
        4000 <= m ==> pitch_spec(m + 1) == pitch_spec(m),
{
}

} // verus!
