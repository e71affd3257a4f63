//! Gameplay simulation core of an arcade space shooter.
//!
//! The crate decides who is alive, who gets hit, when enemy waves spawn,
//! move and advance, and what power-ups do.  Rendering, input polling,
//! asset loading and the collision broad phase are external collaborators:
//! the caller feeds this core a time delta and the collision pairs reported
//! for the tick, and consumes the notifications the core emits.
//!
//! All world quantities are fixed-point integers: positions, speeds and
//! velocities in milli-units (1000 = one world unit), durations and timers
//! in milli-seconds (1000 = one second), probabilities in milli (a roll is
//! drawn from `0..1000`).

pub mod camera;
pub mod combat;
pub mod geom;
pub mod particles;
pub mod player;
pub mod powerups;
pub mod rng;
pub mod state;
pub mod waves;
