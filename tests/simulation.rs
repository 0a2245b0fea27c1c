use collide_sound::ball::{Ball, BallCollider, BallSize};
use collide_sound::handle::{BodyHandle, ColliderHandle};
use collide_sound::physics::{CollisionEvent as Contact, ContactKind, Physics};
use collide_sound::ring::{Ring, RingCollider, RingSize};
use collide_sound::scene::Scene;
use rapier2d::dynamics::{
    CCDSolver, ImpulseJointSet, IntegrationParameters, MultibodyJointSet, RigidBodyBuilder,
    RigidBodyHandle,
};
use rapier2d::geometry::{BroadPhase, Collider, ColliderBuilder, NarrowPhase};
use rapier2d::math::{Point, Vector};
use rapier2d::pipeline::{ActiveEvents, ChannelEventCollector, PhysicsPipeline};

fn body_handle(h: RigidBodyHandle) -> BodyHandle {
    let (i, g) = h.into_raw_parts();
    BodyHandle::from_raw_parts(i, g)
}

fn collider_handle(h: rapier2d::geometry::ColliderHandle) -> ColliderHandle {
    let (i, g) = h.into_raw_parts();
    ColliderHandle::from_raw_parts(i, g)
}

fn ball_radius(desc: &BallCollider) -> f32 {
    desc.radius.base as f32 * 1.01f32.powi(desc.radius.growths as i32)
}

fn ball_collider(desc: &BallCollider) -> Collider {
    ColliderBuilder::ball(ball_radius(desc) + desc.outline_thickness as f32)
        .active_events(ActiveEvents::COLLISION_EVENTS)
        .restitution(desc.restitution_milli as f32 / 1000.0)
        .build()
}

fn ring_collider(desc: &RingCollider) -> Collider {
    let n = desc.vertex_count;
    let vertices = (0..n)
        .map(|i| {
            let angle = i as f32 / n as f32 * std::f32::consts::PI * 2.0;
            let r = desc.vertex_radius(i) as f32;
            Point::new(angle.cos() * r, angle.sin() * r)
        })
        .collect();
    let indices = desc.indices.iter().map(|&(a, b, c)| [a, b, c]).collect();
    ColliderBuilder::trimesh(vertices, indices)
        .active_events(ActiveEvents::COLLISION_EVENTS)
        .restitution(desc.restitution_milli as f32 / 1000.0)
        .build()
}

#[test]
fn two_small_balls_stay_inside_large_ring() {
    let mut scene = Scene::new();
    let center = (640.0f32, 360.0f32);

    for pos in [(580.0f32, 180.0f32), (700.0, 180.0)] {
        let mut ball = Ball::new_with_size(BallSize::Small);
        let rb = RigidBodyBuilder::dynamic().ccd_enabled(true).translation(Vector::new(pos.0, pos.1)).build();
        ball.insert_into_physics(rb, ball_collider(&ball.create_collider()), &mut scene.physics);
        assert!(scene.add_ball(ball));
    }
    let mut ring = Ring::new_with_size(RingSize::Large);
    let desc = ring.create_collider().unwrap();
    let rb = RigidBodyBuilder::fixed()
        .translation(Vector::new(center.0, center.1))
        .rotation(std::f32::consts::PI / 2.0)
        .build();
    ring.insert_into_physics(rb, ring_collider(&desc), &mut scene.physics);
    assert!(scene.add_ring(ring));

    let gravity = Vector::new(0.0, 9.81 * 25.0);
    let params = IntegrationParameters::default();
    let mut pipeline = PhysicsPipeline::new();
    let mut broad = BroadPhase::new();
    let mut narrow = NarrowPhase::new();
    let mut impulse = ImpulseJointSet::new();
    let mut multibody = MultibodyJointSet::new();
    let mut ccd = CCDSolver::new();
    let (send, recv) = crossbeam::channel::unbounded();
    let (force_send, _force_recv) = crossbeam::channel::unbounded();
    let events = ChannelEventCollector::new(send, force_send);
    let mut reactions = 0u32;

    for _ in 0..300 {
        let world = &mut scene.physics;
        pipeline.step(
            &gravity,
            &params,
            &mut world.island_manager,
            &mut broad,
            &mut narrow,
            &mut world.rigidbody_set,
            &mut world.collider_set,
            &mut impulse,
            &mut multibody,
            &mut ccd,
            None,
            &(),
            &events,
        );
        while let Ok(ev) = recv.try_recv() {
            let contact = Contact {
                kind: if ev.started() { ContactKind::Started } else { ContactKind::Stopped },
                collider1: collider_handle(ev.collider1()),
                collider2: collider_handle(ev.collider2()),
                removed: ev.removed(),
            };
            let Some((b1, b2)) = scene.resolve_event(&contact) else { continue };
            let speed = |b: BodyHandle| {
                scene.physics.rigidbody_set[RigidBodyHandle::from_raw_parts(b.index, b.generation)]
                    .linvel()
                    .norm()
            };
            let magnitude = speed(b1) + speed(b2);
            let Some(reaction) = scene.react_to_collision(contact, magnitude as u32) else { continue };
            reactions += 1;
            for swap in [reaction.first, reaction.second].into_iter().flatten() {
                let new = scene
                    .physics
                    .replace_collider(swap.body, swap.old_collider, ball_collider(&swap.collider))
                    .unwrap();
                assert!(scene.physics.is_collider_removed(swap.old_collider));
                assert_ne!(new, swap.old_collider);
                assert_eq!(scene.physics.collider_parent(new), Some(swap.body));
            }
        }
        scene.cleanup();
        for ball in scene.balls.iter() {
            let h = ball.rb_handle.unwrap();
            let p = scene.physics.rigidbody_set[RigidBodyHandle::from_raw_parts(h.index, h.generation)]
                .translation();
            let dist = ((p.x - center.0).powi(2) + (p.y - center.1).powi(2)).sqrt();
            let limit = 300.0 - ball_radius(&ball.create_collider()) + 10.0;
            assert!(dist <= limit, "a ball left the ring: {} > {}", dist, limit);
        }
    }
    assert!(reactions > 0);
}

#[test]
fn replace_collider_keeps_body_and_marks_old_collider() {
    let mut world = Physics::new();
    let rb = RigidBodyBuilder::dynamic().translation(Vector::new(0.0, 0.0)).build();
    let first = Ball::new_with_size(BallSize::Small).create_collider();
    let (body, c1) = world.insert_body(rb, ball_collider(&first));
    assert!(world.has_body(body));
    assert!(!world.is_collider_removed(c1));
    let mut grown = Ball::new_with_size(BallSize::Small);
    grown.grow();
    let c2 = world.replace_collider(body, c1, ball_collider(&grown.create_collider())).unwrap();
    assert_ne!(c1, c2);
    assert!(world.is_collider_removed(c1));
    assert!(!world.is_collider_removed(c2));
    let rapier_c2 = rapier2d::geometry::ColliderHandle::from_raw_parts(c2.index, c2.generation);
    let parent = world.collider_set[rapier_c2].parent().unwrap();
    assert_eq!(body_handle(parent), body);
    let radius = world.collider_set[rapier_c2].shape().as_ball().unwrap().radius;
    assert!((radius - (15.0 * 1.01 + 5.0)).abs() < 1e-4);
    assert_eq!(world.collider_set.len(), 1);
    world.cleanup();
    assert!(!world.is_collider_removed(c1));
    assert!(!world.is_collider_removed(c2));
    let missing = BodyHandle::from_raw_parts(body.index + 7, 0);
    assert!(!world.has_body(missing));
    assert_eq!(world.replace_collider(missing, c2, ball_collider(&first)), None);
    assert!(!world.is_collider_removed(c2));
}
