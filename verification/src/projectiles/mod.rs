//! Projectiles: what they are, how the homing ones are guided, and what a
//! freshly fired one holds.

pub mod cannon_ball;
pub mod projectile;
pub mod rocket;

use vstd::prelude::*;
use crate::collision::Collidable;
use crate::math::{Transform, Vec3};
use crate::projectiles::projectile::Projectile;

verus! {

/// Everything a freshly fired projectile is made of.
#[derive(Clone, Copy, PartialEq, Eq, Structural, Debug)]
pub struct ProjectileBundle {
    pub projectile: Projectile,
    pub collidable: Collidable,
    /// Thousandths of a world unit per second.
    pub velocity: Vec3,
    pub transform: Transform,
    /// What the physics engine leaves of the velocity, in thousandths; `None`
    /// where it is not damped.
    pub linear_damping: Option<u32>,
    /// Radius of the ball that stands for the projectile in the physics
    /// engine, in thousandths of a world unit; `None` where the shape is
    /// taken from the mesh.
    pub collider_radius: Option<u32>,
}

} // verus!
