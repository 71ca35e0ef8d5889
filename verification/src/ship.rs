//! The player's ship: what it is made of, how it answers to the controls,
//! and how it changes weapons.

use vstd::prelude::*;
use crate::collision::{Collidable, Entity, Persistent, Team};
use crate::math::{found, Rotation, Transform, Vec3};
use crate::weapons::cannon::{cannon_at, create_cannon};
use crate::weapons::weapon::{
    activated, attach_weapon, mesh_of, MeshRequest, MeshSpawner, Shot, Weapon,
};
use crate::weapons::{create_rocket_launcher, rocket_launcher_at};

verus! {

/// Gain of speed while a direction is held, in thousandths of a world unit
/// per second, per second.
pub const ACCELERATION_RATE: i32 = 5000;

/// How close to the edge of the view the ship may come, in thousandths of
/// the view's width and height.
pub const BOUNDARY_MARGIN: i32 = 50;

/// The far edge of the view, in thousandths.
pub const VIEW_EXTENT: i32 = 1000;

/// Microradians the ship turns in a microsecond.
pub const ROTATION_SPEED: i128 = 2;

/// Damage the ship deals on contact.
pub const SHIP_DAMAGE: u32 = 1000;

/// Hit points of the ship.
pub const SHIP_HIT_POINTS: u32 = 100;

/// Marks the player's ship.
#[derive(Clone, Copy, PartialEq, Eq, Structural, Debug)]
pub struct Ship;

/// The entity that is the player's ship.
#[derive(Clone, Copy, PartialEq, Eq, Structural, Debug)]
pub struct SpaceshipEntity(pub Entity);

/// What the player asks of the ship in one frame.
#[derive(Clone, Copy, PartialEq, Eq, Structural, Debug)]
pub struct ShipInput {
    pub accelerate_up: bool,
    pub accelerate_left: bool,
    pub accelerate_down: bool,
    pub accelerate_right: bool,
    pub rotate_left: bool,
    pub rotate_right: bool,
    /// The trigger is held.
    pub fire: bool,
    /// The cannon's slot was chosen in this frame.
    pub select_cannon: bool,
    /// The rocket launcher's slot was chosen in this frame.
    pub select_rocket_launcher: bool,
}

/// Where the ship shows in the view, in thousandths of the view's width and
/// height, from the left and from the top.
#[derive(Clone, Copy, PartialEq, Eq, Structural, Debug)]
pub struct ScreenPosition {
    pub x: i32,
    pub y: i32,
}

/// Everything the ship is made of.
#[derive(Clone, Copy, PartialEq, Eq, Structural, Debug)]
pub struct ShipBundle {
    pub ship: Ship,
    /// The ship stays in the world when its health is spent.
    pub persistent: Persistent,
    pub collidable: Collidable,
    pub transform: Transform,
    /// Thousandths of a world unit per second.
    pub velocity: Vec3,
    /// The damping handed to the physics engine, in thousandths.
    pub linear_damping: u32,
    /// The weapon the ship starts with.
    pub weapon: Weapon,
}

/// What a change of weapon asks of the world.
#[derive(Debug)]
pub struct WeaponSwitch {
    /// The meshes of the old weapon, to despawn.
    pub despawned: Vec<Entity>,
    /// The mesh of the new weapon, to spawn.
    pub mesh: Option<MeshRequest>,
}

/// The acceleration that the held directions add up to: up and down along
/// `y`, right and left along `x`.
pub open spec fn intent(input: ShipInput) -> Vec3 {
    Vec3 {
        x: ((if input.accelerate_right {
            ACCELERATION_RATE as int
        } else {
            0
        }) - (if input.accelerate_left {
            ACCELERATION_RATE as int
        } else {
            0
        })) as i32,
        y: ((if input.accelerate_up {
            ACCELERATION_RATE as int
        } else {
            0
        }) - (if input.accelerate_down {
            ACCELERATION_RATE as int
        } else {
            0
        })) as i32,
        z: 0,
    }
}

/// `velocity` with what would carry the ship out of the view taken away:
/// within the margin of an edge, the motion toward that edge stops. The
/// view's `y` grows downward, the world's upward.
pub open spec fn held_in_view(velocity: Vec3, screen: Option<ScreenPosition>) -> Vec3 {
    match screen {
        Some(at) => Vec3 {
            x: if at.x > VIEW_EXTENT - BOUNDARY_MARGIN && velocity.x > 0 {
                0
            } else if at.x < BOUNDARY_MARGIN && velocity.x < 0 {
                0
            } else {
                velocity.x
            },
            y: if at.y > VIEW_EXTENT - BOUNDARY_MARGIN && velocity.y < 0 {
                0
            } else if at.y < BOUNDARY_MARGIN && velocity.y > 0 {
                0
            } else {
                velocity.y
            },
            z: velocity.z,
        },
        None => velocity,
    }
}

/// The turn about the vertical axis that the held keys ask for in `dt`
/// microseconds, in microradians: leftward counts up, rightward down.
pub open spec fn turn_asked(input: ShipInput, dt: u64) -> int {
    (if input.rotate_left {
        ROTATION_SPEED * dt
    } else {
        0
    }) - (if input.rotate_right {
        ROTATION_SPEED * dt
    } else {
        0
    })
}

/// The ship as the game begins: at the origin, at rest, unturned, at full
/// health, with a rocket launcher. It is persistent.
pub fn setup_ship() -> (ship: ShipBundle)
    ensures
        ship == (ShipBundle {
            ship: Ship,
            persistent: Persistent,
            collidable: Collidable {
                damage: SHIP_DAMAGE,
                max_hit_points: SHIP_HIT_POINTS,
                hit_points: SHIP_HIT_POINTS,
                team: Team::Player,
            },
            transform: Transform {
                translation: Vec3 { x: 0, y: 0, z: 0 },
                rotation: Rotation::spec_identity(),
            },
            velocity: Vec3 { x: 0, y: 0, z: 0 },
            linear_damping: 1000,
            weapon: rocket_launcher_at(Vec3 { x: 0, y: 0, z: 0 }),
        }),
{
    ShipBundle {
        ship: Ship,
        persistent: Persistent,
        collidable: Collidable::new(SHIP_DAMAGE, SHIP_HIT_POINTS, Team::Player),
        transform: Transform { translation: Vec3::zero(), rotation: Rotation::identity() },
        velocity: Vec3::zero(),
        linear_damping: 1000,
        weapon: create_rocket_launcher(Vec3::zero()),
    }
}

/// Takes the weapon off its owner. Every weapon mesh is to be despawned.
pub fn remove_weapon(
    slot: &mut Option<Weapon>,
    weapon_meshes: &Vec<Entity>,
) -> (despawned: Vec<Entity>)
    ensures
        *final(slot) is None,
        despawned@ == weapon_meshes@,
{
    *slot = None;
    let mut despawned: Vec<Entity> = Vec::new();
    let mut i: usize = 0;
    while i < weapon_meshes.len()
        invariant
            i <= weapon_meshes.len(),
            despawned@ == weapon_meshes@.take(i as int),
        decreases weapon_meshes.len() - i,
    {
        despawned.push(weapon_meshes[i]);
        assert(weapon_meshes@.take(i + 1) == weapon_meshes@.take(i as int).push(
            weapon_meshes@[i as int],
        ));
        i = i + 1;
    }
    assert(weapon_meshes@.take(weapon_meshes.len() as int) == weapon_meshes@);
    despawned
}

/// Changes the ship's weapon in one step: the old one goes with its meshes,
/// the new one is put on, unturned.
pub fn switch_weapon(
    slot: &mut Option<Weapon>,
    ship_entity: Entity,
    weapon_meshes: &Vec<Entity>,
    new_weapon: Weapon,
) -> (switch: WeaponSwitch)
    ensures
        *final(slot) == Some(Weapon { weapon_rotation: Rotation::spec_identity(), ..new_weapon }),
        switch.despawned@ == weapon_meshes@,
        switch.mesh == mesh_of(
            Weapon { weapon_rotation: Rotation::spec_identity(), ..new_weapon },
            ship_entity,
        ),
{
    let despawned = remove_weapon(slot, weapon_meshes);
    let mesh = attach_weapon(slot, ship_entity, new_weapon, Rotation::identity());
    WeaponSwitch { despawned, mesh }
}

/// One component of the acceleration that two opposite keys ask for.
fn axis_intent(forward: bool, backward: bool) -> (a: i32)
    ensures
        a == (if forward {
            ACCELERATION_RATE as int
        } else {
            0
        }) - (if backward {
            ACCELERATION_RATE as int
        } else {
            0
        }),
{
    let mut a: i32 = 0;
    if forward {
        a = a + ACCELERATION_RATE;
    }
    if backward {
        a = a - ACCELERATION_RATE;
    }
    a
}

/// The ship's velocity after one frame of `dt` microseconds: what would
/// carry it out of the view is stopped first, then the held directions
/// accelerate it. `screen` is where the ship shows in the view, where that
/// is known.
pub fn update_ship_velocity(
    input: &ShipInput,
    velocity: Vec3,
    screen: Option<&ScreenPosition>,
    dt: u64,
) -> (updated: Vec3)
    ensures
        updated == held_in_view(velocity, found(screen)).advanced(intent(*input), dt),
{
    let accel_vector = Vec3 {
        x: axis_intent(input.accelerate_right, input.accelerate_left),
        y: axis_intent(input.accelerate_up, input.accelerate_down),
        z: 0,
    };
    let mut held = velocity;
    if let Some(at) = screen {
        if at.x > VIEW_EXTENT - BOUNDARY_MARGIN && held.x > 0 {
            held.x = 0;
        } else if at.x < BOUNDARY_MARGIN && held.x < 0 {
            held.x = 0;
        }
        if at.y > VIEW_EXTENT - BOUNDARY_MARGIN && held.y < 0 {
            held.y = 0;
        } else if at.y < BOUNDARY_MARGIN && held.y > 0 {
            held.y = 0;
        }
    }
    held.advance(accel_vector, dt)
}

/// The turn about the vertical axis to apply to the ship in this frame, in
/// microradians; `None` where the keys ask for none.
pub fn set_ship_rotation(input: &ShipInput, dt: u64) -> (rotation_delta: Option<i128>)
    ensures
        rotation_delta == if turn_asked(*input, dt) != 0 {
            Some(turn_asked(*input, dt) as i128)
        } else {
            None
        },
{
    let mut delta: i128 = 0;
    if input.rotate_left {
        delta = delta + ROTATION_SPEED * (dt as i128);
    }
    if input.rotate_right {
        delta = delta - ROTATION_SPEED * (dt as i128);
    }
    if delta != 0 {
        Some(delta)
    } else {
        None
    }
}

/// What the weapon keys did in one frame.
#[derive(Debug)]
pub struct WeaponSelection {
    /// The change to the cannon, where its slot was chosen.
    pub cannon: Option<WeaponSwitch>,
    /// The change to the rocket launcher, where its slot was chosen. It
    /// comes after the change to the cannon.
    pub rocket_launcher: Option<WeaponSwitch>,
}

/// The weapon in the slot after the weapon keys of one frame.
pub open spec fn selected(input: ShipInput, slot: Option<Weapon>) -> Option<Weapon> {
    if input.select_rocket_launcher {
        Some(rocket_launcher_at(Vec3 { x: 0, y: 0, z: 0 }))
    } else if input.select_cannon {
        Some(cannon_at(Vec3 { x: 0, y: 0, z: 0 }))
    } else {
        slot
    }
}

/// Changes the ship's weapon as the weapon keys ask: to the cannon, to the
/// rocket launcher, or to one after the other where both were chosen. Each
/// new weapon sits at the ship's origin.
pub fn switch_weapon_input(
    input: &ShipInput,
    slot: &mut Option<Weapon>,
    ship_entity: Entity,
    weapon_meshes: &Vec<Entity>,
) -> (selection: WeaponSelection)
    ensures
        *final(slot) == selected(*input, *old(slot)),
        selection.cannon is Some == input.select_cannon,
        selection.rocket_launcher is Some == input.select_rocket_launcher,
        selection.cannon matches Some(switch) ==> {
            &&& switch.despawned@ == weapon_meshes@
            &&& switch.mesh == Some(
                MeshRequest {
                    spawner: MeshSpawner::Cannon,
                    parent: ship_entity,
                    translation: Vec3 { x: 0, y: 0, z: 0 },
                    rotation: Rotation::spec_identity(),
                },
            )
        },
        selection.rocket_launcher matches Some(switch) ==> {
            &&& switch.despawned@ == weapon_meshes@
            &&& switch.mesh is None
        },
{
    let mut cannon: Option<WeaponSwitch> = None;
    let mut rocket_launcher: Option<WeaponSwitch> = None;
    if input.select_cannon {
        let cannon_weapon = create_cannon(Vec3::zero());
        cannon = Some(switch_weapon(slot, ship_entity, weapon_meshes, cannon_weapon));
    }
    if input.select_rocket_launcher {
        let rocket_weapon = create_rocket_launcher(Vec3::zero());
        rocket_launcher = Some(switch_weapon(slot, ship_entity, weapon_meshes, rocket_weapon));
    }
    WeaponSelection { cannon, rocket_launcher }
}

/// Fires the ship's weapon while the trigger is held.
pub fn activate_weapon(
    input: &ShipInput,
    weapon: &mut Option<Weapon>,
    transform: Option<&Transform>,
    velocity: Option<&Vec3>,
    collidable: Option<&Collidable>,
) -> (shot: Option<Shot>)
    ensures
        (shot, *final(weapon)) == activated(
            input.fire,
            *old(weapon),
            found(transform),
            found(velocity),
            found(collidable),
        ),
{
    crate::weapons::weapon::activate_weapon(input.fire, weapon, transform, velocity, collidable)
}

} // verus!
