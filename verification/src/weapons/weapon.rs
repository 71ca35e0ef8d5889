//! A weapon is ready or cooling. Firing a ready weapon hands out one shot,
//! composed from the owner's position, rotation and velocity, and starts the
//! cooldown; firing a cooling weapon does nothing.

use vstd::prelude::*;
use crate::collision::{Collidable, Entity, Team};
use crate::math::{count_down, counted_down, elapsed, found, Rotation, Transform, Vec3};

verus! {

/// The kinds of projectile a weapon can fire.
#[derive(Clone, Copy, PartialEq, Eq, Structural, Debug)]
pub enum ProjectileSpawner {
    CannonBall,
    Rocket,
}

/// The kinds of mesh that show a weapon on its owner.
#[derive(Clone, Copy, PartialEq, Eq, Structural, Debug)]
pub enum MeshSpawner {
    Cannon,
}

/// Marks the entity that shows a weapon.
#[derive(Clone, Copy, PartialEq, Eq, Structural, Debug)]
pub struct WeaponMesh;

/// A weapon on its owner.
#[derive(Clone, Copy, PartialEq, Eq, Structural, Debug)]
pub struct Weapon {
    /// Microseconds between two shots.
    pub fire_cooldown_duration: u64,
    /// Microseconds until the weapon is ready again.
    pub cooldown_timer: u64,
    pub projectile_spawner: Option<ProjectileSpawner>,
    pub mesh_spawner: Option<MeshSpawner>,
    /// Where the weapon sits, seen from its owner.
    pub weapon_position_offset: Vec3,
    /// Where projectiles appear, seen from the weapon.
    pub projectile_spawn_offset: Vec3,
    /// The velocity a projectile leaves with, before any rotation.
    pub projectile_spawn_speed_vector: Vec3,
    /// How the weapon is turned on its owner.
    pub weapon_rotation: Rotation,
}

impl Weapon {
    /// What `new` returns.
    pub open spec fn initial() -> Weapon {
        Weapon {
            fire_cooldown_duration: 1_000_000,
            cooldown_timer: 0,
            projectile_spawner: None,
            mesh_spawner: None,
            weapon_position_offset: Vec3 { x: 0, y: 0, z: 0 },
            projectile_spawn_offset: Vec3 { x: 0, y: 0, z: 0 },
            projectile_spawn_speed_vector: Vec3 { x: 10_000, y: 0, z: 0 },
            weapon_rotation: Rotation::spec_identity(),
        }
    }

    /// A ready weapon with a cooldown of one second that fires nothing yet,
    /// sits at its owner's origin and sends projectiles forward at ten units
    /// per second.
    pub fn new() -> (w: Weapon)
        ensures
            w == Weapon::initial(),
    {
        Weapon {
            fire_cooldown_duration: 1_000_000,
            cooldown_timer: 0,
            projectile_spawner: None,
            mesh_spawner: None,
            weapon_position_offset: Vec3::zero(),
            projectile_spawn_offset: Vec3::zero(),
            projectile_spawn_speed_vector: Vec3 { x: 10_000, y: 0, z: 0 },
            weapon_rotation: Rotation::identity(),
        }
    }

    /// This weapon with a cooldown of `duration` microseconds.
    pub fn with_fire_cooldown(self, duration: u64) -> (w: Weapon)
        ensures
            w == (Weapon { fire_cooldown_duration: duration, ..self }),
    {
        let mut weapon = self;
        weapon.fire_cooldown_duration = duration;
        weapon
    }

    /// This weapon, firing projectiles of the kind `spawner`.
    pub fn with_projectile_spawner(self, spawner: ProjectileSpawner) -> (w: Weapon)
        ensures
            w == (Weapon { projectile_spawner: Some(spawner), ..self }),
    {
        let mut weapon = self;
        weapon.projectile_spawner = Some(spawner);
        weapon
    }

    /// This weapon, shown by a mesh of the kind `spawner`.
    pub fn with_mesh_spawner(self, spawner: MeshSpawner) -> (w: Weapon)
        ensures
            w == (Weapon { mesh_spawner: Some(spawner), ..self }),
    {
        let mut weapon = self;
        weapon.mesh_spawner = Some(spawner);
        weapon
    }

    /// This weapon, sitting at `offset` from its owner.
    pub fn with_weapon_position_offset(self, offset: Vec3) -> (w: Weapon)
        ensures
            w == (Weapon { weapon_position_offset: offset, ..self }),
    {
        let mut weapon = self;
        weapon.weapon_position_offset = offset;
        weapon
    }

    /// This weapon, with projectiles appearing at `offset` from it.
    pub fn with_projectile_spawn_offset(self, offset: Vec3) -> (w: Weapon)
        ensures
            w == (Weapon { projectile_spawn_offset: offset, ..self }),
    {
        let mut weapon = self;
        weapon.projectile_spawn_offset = offset;
        weapon
    }

    /// This weapon, with projectiles leaving at `speed_vector`.
    pub fn with_projectile_spawn_speed_vector(self, speed_vector: Vec3) -> (w: Weapon)
        ensures
            w == (Weapon { projectile_spawn_speed_vector: speed_vector, ..self }),
    {
        let mut weapon = self;
        weapon.projectile_spawn_speed_vector = speed_vector;
        weapon
    }

    /// Sets the cooldown to `duration` microseconds.
    pub fn set_fire_cooldown(&mut self, duration: u64) -> (this: &mut Self)
        ensures
            *this == (Weapon { fire_cooldown_duration: duration, ..*old(self) }),
            *final(self) == *final(this),
    {
        self.fire_cooldown_duration = duration;
        self
    }

    /// Sets the kind of projectile fired.
    pub fn set_projectile_spawner(&mut self, spawner: ProjectileSpawner) -> (this: &mut Self)
        ensures
            *this == (Weapon { projectile_spawner: Some(spawner), ..*old(self) }),
            *final(self) == *final(this),
    {
        self.projectile_spawner = Some(spawner);
        self
    }

    /// Sets the kind of mesh shown.
    pub fn set_mesh_spawner(&mut self, spawner: MeshSpawner) -> (this: &mut Self)
        ensures
            *this == (Weapon { mesh_spawner: Some(spawner), ..*old(self) }),
            *final(self) == *final(this),
    {
        self.mesh_spawner = Some(spawner);
        self
    }

    /// Sets where the weapon sits, seen from its owner.
    pub fn set_weapon_position_offset(&mut self, offset: Vec3) -> (this: &mut Self)
        ensures
            *this == (Weapon { weapon_position_offset: offset, ..*old(self) }),
            *final(self) == *final(this),
    {
        self.weapon_position_offset = offset;
        self
    }

    /// Sets where projectiles appear, seen from the weapon.
    pub fn set_projectile_spawn_offset(&mut self, offset: Vec3) -> (this: &mut Self)
        ensures
            *this == (Weapon { projectile_spawn_offset: offset, ..*old(self) }),
            *final(self) == *final(this),
    {
        self.projectile_spawn_offset = offset;
        self
    }

    /// Sets the velocity projectiles leave with.
    pub fn set_projectile_spawn_speed_vector(&mut self, speed_vector: Vec3) -> (this: &mut Self)
        ensures
            *this == (Weapon { projectile_spawn_speed_vector: speed_vector, ..*old(self) }),
            *final(self) == *final(this),
    {
        self.projectile_spawn_speed_vector = speed_vector;
        self
    }

    /// Ready: the cooldown has run out.
    pub open spec fn ready(self) -> bool {
        self.cooldown_timer == 0
    }

    /// This weapon right after a shot: the cooldown runs for its whole
    /// duration.
    pub open spec fn cooling(self) -> Weapon {
        Weapon { cooldown_timer: self.fire_cooldown_duration, ..self }
    }

    /// This weapon one frame of `dt` microseconds later.
    pub open spec fn cooled(self, dt: u64) -> Weapon {
        Weapon { cooldown_timer: counted_down(self.cooldown_timer, dt), ..self }
    }

    /// This weapon after the frames have passed, in order, without a shot.
    pub open spec fn after_frames(self, frames: Seq<u64>) -> Weapon
        decreases frames.len(),
    {
        if frames.len() == 0 {
            self
        } else {
            self.after_frames(frames.drop_last()).cooled(frames.last())
        }
    }

    /// Whether the weapon is ready.
    pub fn can_fire(&self) -> (ready: bool)
        ensures
            ready == self.ready(),
    {
        self.cooldown_timer == 0
    }

    /// Starts the cooldown over.
    pub fn start_cooldown(&mut self)
        ensures
            *final(self) == old(self).cooling(),
    {
        self.cooldown_timer = self.fire_cooldown_duration;
    }
}

/// After a shot the weapon is ready again exactly when the frames since
/// then add up to the cooldown's duration; until then the timer holds what
/// is left of the duration. Frames change nothing else of the weapon.
pub proof fn lemma_cooldown_elapses(weapon: Weapon, frames: Seq<u64>)
    ensures
        weapon.cooling().after_frames(frames).ready() <==> elapsed(frames)
            >= weapon.fire_cooldown_duration,
        elapsed(frames) < weapon.fire_cooldown_duration ==> weapon.cooling().after_frames(
            frames,
        ).cooldown_timer == weapon.fire_cooldown_duration - elapsed(frames),
        weapon.cooling().after_frames(frames) == (Weapon {
            cooldown_timer: weapon.cooling().after_frames(frames).cooldown_timer,
            ..weapon
        }),
        elapsed(frames) >= 0,
    decreases frames.len(),
{
    if frames.len() > 0 {
        lemma_cooldown_elapses(weapon, frames.drop_last());
    }
}

/// A weapon that has fired cannot fire again before the frames since then
/// add up to its cooldown: until then an attempt gives no shot and leaves
/// the weapon as it is. From then on an attempt for an owner that is in the
/// world gives a shot.
pub proof fn lemma_no_shot_while_cooling(
    weapon: Weapon,
    frames: Seq<u64>,
    transform: Option<Transform>,
    velocity: Option<Vec3>,
    collidable: Option<Collidable>,
)
    ensures
        elapsed(frames) < weapon.fire_cooldown_duration ==> fired(
            weapon.cooling().after_frames(frames),
            transform,
            velocity,
            collidable,
        ) == (None::<Shot>, weapon.cooling().after_frames(frames)),
        elapsed(frames) >= weapon.fire_cooldown_duration && transform is Some && velocity is Some
            && collidable is Some ==> fired(
            weapon.cooling().after_frames(frames),
            transform,
            velocity,
            collidable,
        ).0 is Some,
{
    lemma_cooldown_elapses(weapon, frames);
}

/// A weapon with a cooldown to speak of is not ready right after a shot.
pub proof fn lemma_not_ready_after_shot(weapon: Weapon)
    requires
        weapon.fire_cooldown_duration > 0,
    ensures
        !weapon.cooling().ready(),
{
}

/// Counts every weapon's cooldown down by `dt` microseconds, stopping at
/// zero.
pub fn update_weapon_cooldowns(weapons: &mut Vec<Weapon>, dt: u64)
    ensures
        final(weapons)@.len() == old(weapons)@.len(),
        forall|i: int|
            0 <= i < old(weapons)@.len() ==> #[trigger] final(weapons)@[i] == old(weapons)@[i].cooled(
                dt,
            ),
{
    let mut i: usize = 0;
    while i < weapons.len()
        invariant
            i <= weapons.len(),
            weapons@.len() == old(weapons)@.len(),
            forall|k: int| 0 <= k < i ==> #[trigger] weapons@[k] == old(weapons)@[k].cooled(dt),
            forall|k: int| i <= k < weapons@.len() ==> #[trigger] weapons@[k] == old(weapons)@[k],
        decreases weapons.len() - i,
    {
        let mut weapon = weapons[i];
        weapon.cooldown_timer = count_down(weapon.cooldown_timer, dt);
        weapons.set(i, weapon);
        i = i + 1;
    }
}

/// What a weapon hands to its projectile spawner.
#[derive(Clone, Copy, PartialEq, Eq, Structural, Debug)]
pub struct Shot {
    /// The kind of projectile, where the weapon has one.
    pub spawner: Option<ProjectileSpawner>,
    pub position: Vec3,
    pub velocity: Vec3,
    pub rotation: Rotation,
    /// The owner's team, which the projectile fights for.
    pub team: Team,
}

/// The shot of `weapon` on an owner at `transform` that moves at
/// `velocity` and fights for `team`. The weapon's rotation is applied after
/// the owner's; the projectile leaves with the owner's velocity and the
/// weapon's speed vector, turned by both; the weapon sits at its offset,
/// turned by the owner; the projectile appears at its offset from there,
/// turned by both.
pub open spec fn shot_of(weapon: Weapon, transform: Transform, velocity: Vec3, team: Team) -> Shot {
    let effective = transform.rotation.composed(weapon.weapon_rotation);
    let weapon_position = transform.translation.plus(
        transform.rotation.turned(weapon.weapon_position_offset),
    );
    Shot {
        spawner: weapon.projectile_spawner,
        position: weapon_position.plus(effective.turned(weapon.projectile_spawn_offset)),
        velocity: velocity.plus(effective.turned(weapon.projectile_spawn_speed_vector)),
        rotation: effective,
        team,
    }
}

/// What firing does: a ready weapon on an owner that has a transform, a
/// velocity and a team gives a shot and begins to cool; anything else gives
/// nothing and changes nothing.
pub open spec fn fired(
    weapon: Weapon,
    transform: Option<Transform>,
    velocity: Option<Vec3>,
    collidable: Option<Collidable>,
) -> (Option<Shot>, Weapon) {
    if weapon.ready() && transform is Some && velocity is Some && collidable is Some {
        (
            Some(shot_of(weapon, transform->0, velocity->0, collidable->0.team)),
            weapon.cooling(),
        )
    } else {
        (None, weapon)
    }
}

/// Fires `weapon` for its owner, of which the caller hands over what it
/// found: transform, velocity and collidable. An owner that lacks one of
/// them has left the world, and the attempt is dropped.
pub fn fire_weapon(
    weapon: &mut Weapon,
    transform: Option<&Transform>,
    velocity: Option<&Vec3>,
    collidable: Option<&Collidable>,
) -> (shot: Option<Shot>)
    ensures
        (shot, *final(weapon)) == fired(
            *old(weapon),
            found(transform),
            found(velocity),
            found(collidable),
        ),
{
    if !weapon.can_fire() {
        return None;
    }
    if let (Some(transform), Some(velocity), Some(collidable)) = (transform, velocity, collidable) {
        let effective = transform.rotation.compose(&weapon.weapon_rotation);
        let projectile_velocity = velocity.saturating_add(
            effective.turn(weapon.projectile_spawn_speed_vector),
        );
        let weapon_position = transform.translation.saturating_add(
            transform.rotation.turn(weapon.weapon_position_offset),
        );
        let projectile_position = weapon_position.saturating_add(
            effective.turn(weapon.projectile_spawn_offset),
        );
        let shot = Shot {
            spawner: weapon.projectile_spawner,
            position: projectile_position,
            velocity: projectile_velocity,
            rotation: effective,
            team: collidable.team,
        };
        weapon.start_cooldown();
        Some(shot)
    } else {
        None
    }
}

/// What holding the trigger does to an owner's weapon slot: with the
/// trigger held and a weapon in the slot, what firing that weapon does;
/// else nothing.
pub open spec fn activated(
    fire: bool,
    slot: Option<Weapon>,
    transform: Option<Transform>,
    velocity: Option<Vec3>,
    collidable: Option<Collidable>,
) -> (Option<Shot>, Option<Weapon>) {
    match slot {
        Some(weapon) => if fire {
            (
                fired(weapon, transform, velocity, collidable).0,
                Some(fired(weapon, transform, velocity, collidable).1),
            )
        } else {
            (None, slot)
        },
        None => (None, slot),
    }
}

/// Fires the owner's weapon while the trigger is held. Without a trigger or
/// without a weapon nothing happens.
pub fn activate_weapon(
    fire: bool,
    weapon: &mut Option<Weapon>,
    transform: Option<&Transform>,
    velocity: Option<&Vec3>,
    collidable: Option<&Collidable>,
) -> (shot: Option<Shot>)
    ensures
        (shot, *final(weapon)) == activated(
            fire,
            *old(weapon),
            found(transform),
            found(velocity),
            found(collidable),
        ),
{
    if !fire {
        return None;
    }
    match *weapon {
        Some(held) => {
            let mut held = held;
            let shot = fire_weapon(&mut held, transform, velocity, collidable);
            *weapon = Some(held);
            shot
        },
        None => None,
    }
}

/// The mesh that shows a weapon, to be spawned as a child of the owner.
#[derive(Clone, Copy, PartialEq, Eq, Structural, Debug)]
pub struct MeshRequest {
    pub spawner: MeshSpawner,
    pub parent: Entity,
    /// Where the mesh sits, seen from the owner.
    pub translation: Vec3,
    pub rotation: Rotation,
}

/// The mesh to spawn for `weapon` on `owner`, where the weapon has a mesh
/// spawner.
pub open spec fn mesh_of(weapon: Weapon, owner: Entity) -> Option<MeshRequest> {
    match weapon.mesh_spawner {
        Some(spawner) => Some(
            MeshRequest {
                spawner,
                parent: owner,
                translation: weapon.weapon_position_offset,
                rotation: weapon.weapon_rotation,
            },
        ),
        None => None,
    }
}

/// Puts `weapon` on `owner`, turned by `rotation`, in place of whatever
/// weapon the owner held. Where the weapon shows a mesh, the mesh to spawn
/// is returned.
pub fn attach_weapon(
    slot: &mut Option<Weapon>,
    owner: Entity,
    weapon: Weapon,
    rotation: Rotation,
) -> (mesh: Option<MeshRequest>)
    ensures
        *final(slot) == Some(Weapon { weapon_rotation: rotation, ..weapon }),
        mesh == mesh_of(Weapon { weapon_rotation: rotation, ..weapon }, owner),
{
    let mut attached = weapon;
    attached.weapon_rotation = rotation;
    *slot = Some(attached);
    match attached.mesh_spawner {
        Some(spawner) => Some(
            MeshRequest {
                spawner,
                parent: owner,
                translation: attached.weapon_position_offset,
                rotation,
            },
        ),
        None => None,
    }
}

} // verus!
