use collide_sound::ball::{Ball, BallSize, BALL_OUTLINE, BALL_RESTITUTION_MILLI};
use collide_sound::color::{Color, CHANNEL_END, CHANNEL_MIN};
use collide_sound::handle::BodyHandle;
use collide_sound::physics::Physics;
use collide_sound::ring::{trimesh_indices, Ring, RingGeometryError, RingSize, RING_POINT_COUNT};

#[test]
fn ball_sizes() {
    assert_eq!(Ball::new_with_size(BallSize::Small).radius().base, 15);
    assert_eq!(Ball::new_with_size(BallSize::Medium).radius().base, 100);
    assert_eq!(Ball::new_with_size(BallSize::Large).radius().base, 150);
    let b = Ball::new();
    assert_eq!(b.radius().base, 100);
    assert_eq!(b.radius().growths, 0);
    assert_eq!(b.outline_thickness, BALL_OUTLINE);
    assert_eq!(b.outline_color, Color::white());
    assert!(b.rb_handle.is_none());
}

#[test]
fn ball_growth_counts_and_collider_follows() {
    let mut b = Ball::new_with_size(BallSize::Small);
    for n in 1..=7u64 {
        b.grow();
        assert_eq!(b.radius().growths, n);
        assert_eq!(b.radius().base, 15);
        let c = b.create_collider();
        assert_eq!(c.radius, b.radius());
        assert_eq!(c.outline_thickness, b.outline_thickness);
        assert_eq!(c.restitution_milli, BALL_RESTITUTION_MILLI);
    }
    let exact = 15.0f64 * 1.01f64.powi(7);
    let stored = b.radius().base as f64 * 101f64.powi(7) / 100f64.powi(7);
    assert!((exact - stored).abs() < 1e-9);
}

#[test]
fn ball_handle_identity() {
    let mut world = Physics::new();
    let mut b = Ball::new();
    let stranger = BodyHandle::from_raw_parts(3, 1);
    assert!(!b.is_obj_with_handle(stranger));
    let c = b.insert_into_physics(
        rapier2d::dynamics::RigidBodyBuilder::dynamic().build(),
        rapier2d::geometry::ColliderBuilder::ball(1.0).build(),
        &mut world,
    );
    let h = b.rb_handle.unwrap();
    assert!(b.is_obj_with_handle(h));
    assert!(world.has_body(h));
    assert_eq!(world.collider_parent(c), Some(h));
    assert!(!b.is_obj_with_handle(BodyHandle::from_raw_parts(h.index, h.generation + 1)));
}

#[test]
fn random_outline_stays_in_range() {
    let mut b = Ball::new();
    let mut r = Ring::new();
    for _ in 0..200 {
        b.rand_outline_color();
        r.rand_outline_color();
        for c in [b.outline_color, r.outline_color] {
            for ch in [c.r, c.g, c.b] {
                assert!(ch >= CHANNEL_MIN && ch < CHANNEL_END);
            }
        }
    }
    assert_eq!(b.radius().growths, 0);
}

#[test]
fn set_outline_color_sets_it() {
    let mut r = Ring::new_with_size(RingSize::Medium);
    r.set_outline_color(Color::rgb(1, 2, 3));
    assert_eq!(r.outline_color, Color::rgb(1, 2, 3));
    assert_eq!(r.radius, 200);
}

#[test]
fn ring_sizes() {
    assert_eq!(Ring::new_with_size(RingSize::Small).radius, 30);
    assert_eq!(Ring::new_with_size(RingSize::Medium).radius, 200);
    assert_eq!(Ring::new_with_size(RingSize::Large).radius, 300);
    assert_eq!(Ring::new().radius, 100);
    assert_eq!(Ring::new().point_count, RING_POINT_COUNT);
}

#[test]
fn trimesh_of_three_points() {
    let idx = trimesh_indices(6);
    let expected: Vec<(u32, u32, u32)> =
        vec![(0, 1, 2), (1, 2, 3), (2, 3, 4), (3, 4, 5), (4, 5, 0), (5, 1, 0)];
    assert_eq!(idx, expected);
}

#[test]
fn ring_collider_layout() {
    let mut r = Ring::new_with_size(RingSize::Large);
    r.point_count = 3;
    let c = r.create_collider().unwrap();
    assert_eq!(c.vertex_count, 6);
    assert_eq!(c.outer_radius, 305);
    assert_eq!(c.inner_radius, 300);
    assert_eq!(c.vertex_radius(0), 305);
    assert_eq!(c.vertex_radius(1), 300);
    assert_eq!(c.vertex_radius(4), 305);
    assert_eq!(c.indices[4], (4, 5, 0));
    assert_eq!(c.indices[5], (5, 1, 0));
    let full = Ring::new().create_collider().unwrap();
    assert_eq!(full.vertex_count, 2 * RING_POINT_COUNT);
    assert_eq!(full.indices.len(), 512);
    assert_eq!(full.indices[509], (509, 510, 511));
    assert_eq!(full.indices[510], (510, 511, 0));
    assert_eq!(full.indices[511], (511, 1, 0));
}

#[test]
fn ring_invalid_geometry_is_refused() {
    let mut r = Ring::new();
    r.point_count = 2;
    assert_eq!(r.create_collider().unwrap_err(), RingGeometryError::TooFewPoints);
    r.point_count = 0x8000_0000;
    assert_eq!(r.create_collider().unwrap_err(), RingGeometryError::TooManyPoints);
    r.point_count = 3;
    r.radius = 0;
    assert_eq!(r.create_collider().unwrap_err(), RingGeometryError::NonPositiveRadius);
    r.radius = 10;
    r.outline_thickness = 0;
    assert_eq!(r.create_collider().unwrap_err(), RingGeometryError::NonPositiveThickness);
}
