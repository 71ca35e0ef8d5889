//! Motion without a physics engine: velocity, acceleration and damping.

use vstd::prelude::*;
use crate::math::{Transform, Vec3};

verus! {

/// The damping that leaves a velocity as it is.
pub const NO_DAMPING: u32 = 1000;

/// What moves an entity.
#[derive(Clone, Copy, PartialEq, Eq, Structural, Debug)]
pub struct Movable {
    /// Thousandths of a world unit per second.
    pub velocity: Vec3,
    /// Thousandths of a world unit per second, per second.
    pub acceleration: Vec3,
    /// What is left of the velocity after one frame, in thousandths.
    pub damping: u32,
}

impl Movable {
    /// The damping is above nothing and at most everything.
    pub open spec fn wf(self) -> bool {
        0 < self.damping <= NO_DAMPING
    }

    /// This movable one frame of `dt` microseconds later: the velocity has
    /// gained the acceleration and has then been damped.
    pub open spec fn accelerated(self, dt: u64) -> Movable {
        Movable { velocity: self.velocity.advanced(self.acceleration, dt).damped(self.damping), ..self }
    }

    /// A movable with the given velocity, acceleration and damping.
    pub fn new(velocity: Vec3, acceleration: Vec3, damping: u32) -> (m: Movable)
        ensures
            m == (Movable { velocity, acceleration, damping }),
    {
        Movable { velocity, acceleration, damping }
    }

    /// At rest.
    pub fn zero(damping: u32) -> (m: Movable)
        ensures
            m == (Movable {
                velocity: Vec3 { x: 0, y: 0, z: 0 },
                acceleration: Vec3 { x: 0, y: 0, z: 0 },
                damping,
            }),
    {
        Movable { velocity: Vec3::zero(), acceleration: Vec3::zero(), damping }
    }

    /// Moving, not accelerating.
    pub fn with_velocity(velocity: Vec3, damping: u32) -> (m: Movable)
        ensures
            m == (Movable { velocity, acceleration: Vec3 { x: 0, y: 0, z: 0 }, damping }),
    {
        Movable { velocity, acceleration: Vec3::zero(), damping }
    }
}

/// Lets every velocity gain its acceleration over `dt` microseconds, then
/// damps it.
pub fn apply_acceleration_to_movable(movables: &mut Vec<Movable>, dt: u64)
    ensures
        final(movables)@.len() == old(movables)@.len(),
        forall|i: int|
            0 <= i < old(movables)@.len() ==> #[trigger] final(movables)@[i] == old(
                movables,
            )@[i].accelerated(dt),
{
    let mut i: usize = 0;
    while i < movables.len()
        invariant
            i <= movables.len(),
            movables@.len() == old(movables)@.len(),
            forall|k: int| 0 <= k < i ==> #[trigger] movables@[k] == old(movables)@[k].accelerated(dt),
            forall|k: int| i <= k < movables@.len() ==> #[trigger] movables@[k] == old(movables)@[k],
        decreases movables.len() - i,
    {
        let mut movable = movables[i];
        let acceleration = movable.acceleration;
        let damping = movable.damping;
        movable.velocity = movable.velocity.advance(acceleration, dt);
        movable.velocity = movable.velocity.damp(damping);
        movables.set(i, movable);
        i = i + 1;
    }
}

/// How many transforms and movables pair up: as many as the shorter of the
/// two holds.
pub open spec fn paired(transforms: int, movables: int) -> int {
    if transforms <= movables {
        transforms
    } else {
        movables
    }
}

/// Moves each transform by the velocity of the movable at the same place,
/// over `dt` microseconds. What has no partner stays.
pub fn move_movable(transforms: &mut Vec<Transform>, movables: &Vec<Movable>, dt: u64)
    ensures
        final(transforms)@.len() == old(transforms)@.len(),
        forall|i: int|
            0 <= i < paired(old(transforms)@.len() as int, movables@.len() as int)
                ==> #[trigger] final(transforms)@[i] == (Transform {
                translation: old(transforms)@[i].translation.advanced(movables@[i].velocity, dt),
                ..old(transforms)@[i]
            }),
        forall|i: int|
            movables@.len() <= i < old(transforms)@.len() ==> #[trigger] final(transforms)@[i]
                == old(transforms)@[i],
{
    let mut i: usize = 0;
    while i < transforms.len() && i < movables.len()
        invariant
            i <= transforms.len(),
            i <= movables.len(),
            transforms@.len() == old(transforms)@.len(),
            forall|k: int|
                0 <= k < i ==> #[trigger] transforms@[k] == (Transform {
                    translation: old(transforms)@[k].translation.advanced(movables@[k].velocity, dt),
                    ..old(transforms)@[k]
                }),
            forall|k: int| i <= k < transforms@.len() ==> #[trigger] transforms@[k] == old(transforms)@[k],
        decreases transforms.len() - i,
    {
        let mut transform = transforms[i];
        transform.translation = transform.translation.advance(movables[i].velocity, dt);
        transforms.set(i, transform);
        i = i + 1;
    }
}

} // verus!
