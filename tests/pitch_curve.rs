use collide_sound::pitch::{pitch, PITCH_MAX, PITCH_SCALE};

#[test]
fn pitch_segment_boundaries() {
    assert_eq!(pitch(0), 0);
    assert_eq!(pitch(200), PITCH_SCALE);
    assert_eq!(pitch(1000), 2 * PITCH_SCALE);
    assert_eq!(pitch(2000), 3 * PITCH_SCALE);
    assert_eq!(pitch(4000), 4 * PITCH_SCALE);
}

#[test]
fn pitch_clamps_above_last_segment() {
    assert_eq!(pitch(4001), PITCH_MAX);
    assert_eq!(pitch(10_000), PITCH_MAX);
    assert_eq!(pitch(u32::MAX), 4 * PITCH_SCALE);
}

#[test]
fn pitch_of_combined_speed_110() {
    // speeds 50 and 60 add up to 110, in the first segment: 110 / 200 = 0.55
    let p = pitch(50 + 60);
    assert_eq!(p, 4400);
    assert!((p as f64 / PITCH_SCALE as f64 - 0.55).abs() < 1e-12);
}

#[test]
fn pitch_inside_segments() {
    assert_eq!(pitch(100), PITCH_SCALE / 2);
    assert_eq!(pitch(201), 8010);
    assert_eq!(pitch(600), 12000);
    assert_eq!(pitch(1500), 20000);
    assert_eq!(pitch(3000), 28000);
}

#[test]
fn pitch_never_decreases() {
    let mut prev = pitch(0);
    for m in 1..=5000u32 {
        let p = pitch(m);
        assert!(p >= prev, "pitch fell at {}", m);
        prev = p;
    }
}
