//! Collision bookkeeping and reaction logic for a sandbox of bouncing balls
//! held inside a fixed ring.
//!
//! The library holds the simulation's bodies and colliders (in rapier's sets)
//! and the entities registered with them, and decides what happens when two
//! shapes stop touching: which events count, which entities react, how a
//! ball grows, which colliders are swapped out, and the pitch of the sound
//! that plays. Stepping the integrator, rendering and audio happen outside.
pub mod ball;
pub mod color;
pub mod handle;
pub mod physics;
pub mod pitch;
pub mod ring;
pub mod scene;

pub mod sounds;
