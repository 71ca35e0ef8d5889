//! Weapons: the firing state machine and the kinds of weapon.

pub mod cannon;
pub mod weapon;

use vstd::prelude::*;
use crate::math::Vec3;
use crate::weapons::weapon::{ProjectileSpawner, Weapon};

verus! {

/// The rocket launcher at `weapon_position`: a weapon as `Weapon::new`
/// makes it, which fires rockets.
pub open spec fn rocket_launcher_at(weapon_position: Vec3) -> Weapon {
    Weapon {
        projectile_spawner: Some(ProjectileSpawner::Rocket),
        weapon_position_offset: weapon_position,
        ..Weapon::initial()
    }
}

/// A rocket launcher at `weapon_position`.
pub fn create_rocket_launcher(weapon_position: Vec3) -> (w: Weapon)
    ensures
        w == rocket_launcher_at(weapon_position),
{
    Weapon::new().with_projectile_spawner(ProjectileSpawner::Rocket).with_weapon_position_offset(
        weapon_position,
    )
}

} // verus!
