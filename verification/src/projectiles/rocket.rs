//! The rocket: a homing projectile of the player.

use vstd::prelude::*;
use crate::collision::{Collidable, Team};
use crate::math::{Rotation, Transform, Vec3, ROTATION_UNIT};
use crate::projectiles::projectile::Projectile;
use crate::projectiles::ProjectileBundle;

verus! {

/// Damage of a rocket.
pub const ROCKET_DAMAGE: u32 = 25;

/// Gain of speed of a rocket, in thousandths of a world unit per second, per
/// second.
pub const ROCKET_ACCELERATION: u32 = 5000;

/// The fastest turn of a rocket, in milliradians per second.
pub const ROCKET_AGILITY: u32 = 500;

/// Microseconds a rocket flies before its guidance begins.
pub const ROCKET_ACTIVATION: u64 = 1_000_000;

/// What the physics engine leaves of a rocket's velocity, in thousandths.
pub const ROCKET_DAMPING: u32 = 600;

/// A rocket of the player: turned a quarter about the vertical axis from
/// `rotation`, it heads where that turns the `z` axis, and homes in after a
/// second of straight flight.
pub fn spawn_rocket_projectile(
    position: Vec3,
    velocity: Vec3,
    rotation: Rotation,
) -> (rocket: ProjectileBundle)
    ensures
        rocket == (ProjectileBundle {
            projectile: Projectile {
                damage: ROCKET_DAMAGE,
                acceleration: ROCKET_ACCELERATION,
                agility: ROCKET_AGILITY,
                direction: rotation.composed(Rotation::spec_quarter_turn_y()).turned(
                    Vec3 { x: 0, y: 0, z: ROTATION_UNIT },
                ),
                homing: true,
                activation_timer: ROCKET_ACTIVATION,
                target: None,
                mesh_rotation_offset: Rotation::spec_half_turn_y(),
            },
            collidable: Collidable {
                damage: ROCKET_DAMAGE,
                max_hit_points: 1,
                hit_points: 1,
                team: Team::Player,
            },
            velocity,
            transform: Transform {
                translation: position,
                rotation: rotation.composed(Rotation::spec_quarter_turn_y()),
            },
            linear_damping: Some(ROCKET_DAMPING),
            collider_radius: None,
        }),
{
    let rocket_rotation = rotation.compose(&Rotation::quarter_turn_y());
    let forward_direction = rocket_rotation.turn(Vec3 { x: 0, y: 0, z: ROTATION_UNIT });
    ProjectileBundle {
        projectile: Projectile {
            damage: ROCKET_DAMAGE,
            acceleration: ROCKET_ACCELERATION,
            agility: ROCKET_AGILITY,
            direction: forward_direction,
            homing: true,
            activation_timer: ROCKET_ACTIVATION,
            target: None,
            mesh_rotation_offset: Rotation::half_turn_y(),
        },
        collidable: Collidable::new(ROCKET_DAMAGE, 1, Team::Player),
        velocity,
        transform: Transform { translation: position, rotation: rocket_rotation },
        linear_damping: Some(ROCKET_DAMPING),
        collider_radius: None,
    }
}

} // verus!
