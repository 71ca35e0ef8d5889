//! The drone: a slow enemy that drifts left and fires a slow cannon.

use vstd::prelude::*;
use crate::collision::{Collidable, Team};
use crate::enemies::{Enemy, ENEMY_HIT_POINTS};
use crate::math::{found, Rotation, Transform, Vec3};
use crate::weapons::cannon::{cannon_at, create_cannon};
use crate::weapons::weapon::{fire_weapon, fired, Shot, Weapon};

verus! {

/// Damage a drone deals on contact.
pub const DRONE_DAMAGE: u32 = 20;

/// Points for a drone.
pub const DRONE_SCORE: u32 = 100;

/// A drone's cannon cools down this many times as long as a cannon does.
pub const DRONE_COOLDOWN_FACTOR: u64 = 50;

/// What a drone's cannon keeps of a cannon's projectile speed, in
/// thousandths.
pub const DRONE_PROJECTILE_SPEED: u32 = 100;

/// Everything a fresh drone is made of.
#[derive(Clone, Copy, PartialEq, Eq, Structural, Debug)]
pub struct DroneBundle {
    pub enemy: Enemy,
    pub collidable: Collidable,
    /// Thousandths of a world unit per second.
    pub velocity: Vec3,
    pub transform: Transform,
    /// The drone's weapon, already turned as it sits on the drone.
    pub weapon: Weapon,
}

/// A drone acts by firing its weapon whenever it is ready.
pub fn drone_behave(
    weapon: &mut Weapon,
    transform: Option<&Transform>,
    velocity: Option<&Vec3>,
    collidable: Option<&Collidable>,
) -> (shot: Option<Shot>)
    ensures
        (shot, *final(weapon)) == fired(
            *old(weapon),
            found(transform),
            found(velocity),
            found(collidable),
        ),
{
    fire_weapon(weapon, transform, velocity, collidable)
}

/// A drone at `position`: an enemy at full health that faces left, drifts
/// left at a fifth of a unit per second and carries a cannon that fires
/// slowly and sends its projectiles slowly.
pub fn spawn_drone(position: Vec3) -> (drone: DroneBundle)
    ensures
        drone == (DroneBundle {
            enemy: Enemy { score: DRONE_SCORE },
            collidable: Collidable {
                damage: DRONE_DAMAGE,
                max_hit_points: ENEMY_HIT_POINTS,
                hit_points: ENEMY_HIT_POINTS,
                team: Team::Enemy,
            },
            velocity: Vec3 { x: (-200) as i32, y: 0, z: 0 },
            transform: Transform {
                translation: position,
                rotation: Rotation::spec_quarter_turn_back_y(),
            },
            weapon: Weapon {
                fire_cooldown_duration: 25_000_000,
                projectile_spawn_speed_vector: Vec3 { x: 1000, y: 0, z: 0 },
                weapon_rotation: Rotation::spec_quarter_turn_back_y(),
                ..cannon_at(Vec3 { x: 0, y: 0, z: 0 })
            },
        }),
{
    let mut cannon = create_cannon(Vec3::zero());
    cannon.fire_cooldown_duration = cannon.fire_cooldown_duration * DRONE_COOLDOWN_FACTOR;
    cannon.projectile_spawn_speed_vector = cannon.projectile_spawn_speed_vector.damp(
        DRONE_PROJECTILE_SPEED,
    );
    cannon.weapon_rotation = Rotation::quarter_turn_back_y();
    DroneBundle {
        enemy: Enemy { score: DRONE_SCORE },
        collidable: Collidable::new(DRONE_DAMAGE, ENEMY_HIT_POINTS, Team::Enemy),
        velocity: Vec3 { x: -200, y: 0, z: 0 },
        transform: Transform { translation: position, rotation: Rotation::quarter_turn_back_y() },
        weapon: cannon,
    }
}

} // verus!
