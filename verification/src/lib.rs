//! Combat core of a small arcade space shooter.
//!
//! The game is made of entities that carry components; once per frame a
//! handful of systems reads some components and changes others. This crate
//! holds what those systems decide: who is hurt by a contact, when a weapon
//! may fire and what the shot is, how a homing projectile finds and follows
//! its target, and which entities leave the world and are replaced. It does
//! not hold the world: each function takes the components it needs as plain
//! values and hands back the new values and what is to be spawned or
//! despawned.
//!
//! Every quantity is an integer. Hit points are whole points, times are
//! microseconds, lengths are thousandths of a world unit, speeds are
//! thousandths of a unit per second, angles are microradians. An
//! orientation is given by the images of the three axes, a million to the
//! unit. Sums stop at the ends of their type's range; quotients round
//! toward zero.
//!
//! - [`collision`]: teams, health, contacts by event and by distance, the
//!   death sweep.
//! - [`hierarchy`]: why the walk from a shape to its combatant may be
//!   bounded.
//! - [`weapons`]: the firing state machine, the cannon, the rocket launcher.
//! - [`projectiles`]: projectiles, guidance, the cannon ball, the rocket.
//! - [`enemies`], [`target`]: the two kinds of enemy and the sweeps that keep
//!   their number constant.
//! - [`ship`]: the player's ship and its controls.
//! - [`movable`]: motion without a physics engine.
//! - [`hud`]: the score and the health bar.
//! - [`math`]: vectors, rotations, timers.

pub mod math;
pub mod collision;
pub mod hierarchy;
pub mod hud;
mod random;
pub mod enemies;
pub mod movable;
pub mod projectiles;
pub mod weapons;
pub mod ship;
pub mod target;
