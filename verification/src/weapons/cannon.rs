//! The cannon.

use vstd::prelude::*;
use crate::collision::Entity;
use crate::math::{Rotation, Vec3, ROTATION_UNIT};
use crate::movable::{Movable, NO_DAMPING};
use crate::projectiles::projectile::Projectile;
use crate::weapons::weapon::{MeshRequest, MeshSpawner, ProjectileSpawner, Weapon};

verus! {

/// A cannon ball that moves by its own velocity, without a physics engine.
#[derive(Clone, Copy, PartialEq, Eq, Structural, Debug)]
pub struct FreeCannonBall {
    pub projectile: Projectile,
    pub movable: Movable,
    pub position: Vec3,
}

/// A cannon ball at `position` that flies at `velocity`, undamped.
pub fn spawn_cannon_ball_projectile(position: Vec3, velocity: Vec3) -> (ball: FreeCannonBall)
    ensures
        ball.projectile == (Projectile {
            damage: 10,
            acceleration: 0,
            agility: 0,
            direction: Vec3 { x: 0, y: 0, z: ROTATION_UNIT },
            homing: false,
            activation_timer: 0,
            target: None,
            mesh_rotation_offset: Rotation::spec_identity(),
        }),
        ball.movable == (Movable {
            velocity,
            acceleration: Vec3 { x: 0, y: 0, z: 0 },
            damping: NO_DAMPING,
        }),
        ball.position == position,
{
    FreeCannonBall {
        projectile: Projectile::default(),
        movable: Movable::with_velocity(velocity, NO_DAMPING),
        position,
    }
}

/// The cannon at `weapon_position`: it fires cannon balls twice a second
/// from half a unit in front of itself, and shows a mesh.
pub open spec fn cannon_at(weapon_position: Vec3) -> Weapon {
    Weapon {
        fire_cooldown_duration: 500_000,
        projectile_spawner: Some(ProjectileSpawner::CannonBall),
        mesh_spawner: Some(MeshSpawner::Cannon),
        weapon_position_offset: weapon_position,
        projectile_spawn_offset: Vec3 { x: 500, y: 0, z: 0 },
        ..Weapon::initial()
    }
}

/// A cannon at `weapon_position`.
pub fn create_cannon(weapon_position: Vec3) -> (w: Weapon)
    ensures
        w == cannon_at(weapon_position),
{
    Weapon::new().with_fire_cooldown(500_000).with_projectile_spawner(
        ProjectileSpawner::CannonBall,
    ).with_mesh_spawner(MeshSpawner::Cannon).with_weapon_position_offset(
        weapon_position,
    ).with_projectile_spawn_offset(Vec3 { x: 500, y: 0, z: 0 })
}

/// The cannon's mesh as a child of `parent_entity`, at `translation` from
/// it, a quarter turn back about the vertical axis.
pub fn spawn_cannon_mesh(parent_entity: Entity, translation: Vec3) -> (mesh: MeshRequest)
    ensures
        mesh == (MeshRequest {
            spawner: MeshSpawner::Cannon,
            parent: parent_entity,
            translation,
            rotation: Rotation::spec_quarter_turn_back_y(),
        }),
{
    MeshRequest {
        spawner: MeshSpawner::Cannon,
        parent: parent_entity,
        translation,
        rotation: Rotation::quarter_turn_back_y(),
    }
}

} // verus!
