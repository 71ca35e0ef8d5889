//! The cannon ball: a projectile that flies straight.

use vstd::prelude::*;
use crate::collision::{Collidable, Team};
use crate::math::{Rotation, Transform, Vec3, ROTATION_UNIT};
use crate::projectiles::projectile::Projectile;
use crate::projectiles::ProjectileBundle;

verus! {

/// Damage of a cannon ball.
pub const CANNON_BALL_DAMAGE: u32 = 10;

/// Radius of a cannon ball, in thousandths of a world unit.
pub const CANNON_BALL_RADIUS: u32 = 30;

/// A cannon ball fired for `team`: it heads where `rotation` turns the `z`
/// axis, deals ten damage and breaks at the first hit.
pub fn spawn_cannon_ball_projectile(
    position: Vec3,
    velocity: Vec3,
    rotation: Rotation,
    team: Team,
) -> (ball: ProjectileBundle)
    ensures
        ball == (ProjectileBundle {
            projectile: Projectile {
                damage: CANNON_BALL_DAMAGE,
                acceleration: 0,
                agility: 0,
                direction: rotation.turned(Vec3 { x: 0, y: 0, z: ROTATION_UNIT }),
                homing: false,
                activation_timer: 0,
                target: None,
                mesh_rotation_offset: Rotation::spec_identity(),
            },
            collidable: Collidable {
                damage: CANNON_BALL_DAMAGE,
                max_hit_points: 1,
                hit_points: 1,
                team,
            },
            velocity,
            transform: Transform { translation: position, rotation },
            linear_damping: None,
            collider_radius: Some(CANNON_BALL_RADIUS),
        }),
{
    let forward_direction = rotation.turn(Vec3 { x: 0, y: 0, z: ROTATION_UNIT });
    ProjectileBundle {
        projectile: Projectile {
            damage: CANNON_BALL_DAMAGE,
            acceleration: 0,
            agility: 0,
            direction: forward_direction,
            homing: false,
            activation_timer: 0,
            target: None,
            mesh_rotation_offset: Rotation::identity(),
        },
        collidable: Collidable::new(CANNON_BALL_DAMAGE, 1, team),
        velocity,
        transform: Transform { translation: position, rotation },
        linear_damping: None,
        collider_radius: Some(CANNON_BALL_RADIUS),
    }
}

} // verus!
