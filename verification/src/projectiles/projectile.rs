//! A projectile in flight, and the guidance of the homing kind.
//!
//! A homing projectile is inert while its activation timer runs, then seeks
//! a target, then tracks the one it was given until that target is gone.

use std::collections::HashMap;
use vstd::prelude::*;
use vstd::std_specs::hash::*;
use crate::collision::Entity;
use crate::math::{
    clamp_i32, count_down, counted_down, elapsed, toward_zero, Rotation, Transform, Vec3,
    ROTATION_UNIT,
};
use crate::random::random_below;

verus! {

broadcast use vstd::std_specs::hash::group_hash_axioms;

/// A projectile beyond this on any axis has left the field.
pub const BOUNDARY: i32 = 50_000;

/// An angle to the target at or below this many microradians counts as
/// none: the heading snaps to the target.
pub const SNAP_ANGLE: u32 = 1000;

/// A heading shorter than this, squared, gives the mesh no orientation.
pub const FACING_THRESHOLD: u64 = 1_000_000_000;

/// Microseconds in a second times the length of a heading.
pub const THRUST_SCALE: u128 = 1_000_000_000_000;

/// What makes an entity a projectile.
#[derive(Clone, Copy, PartialEq, Eq, Structural, Debug)]
pub struct Projectile {
    pub damage: u32,
    /// Gain of speed along the heading, in thousandths of a world unit per
    /// second, per second.
    pub acceleration: u32,
    /// The fastest turn, in milliradians per second.
    pub agility: u32,
    /// The heading, of length `ROTATION_UNIT`.
    pub direction: Vec3,
    pub homing: bool,
    /// Microseconds until guidance begins.
    pub activation_timer: u64,
    /// The tracked target. It is not kept alive by being tracked.
    pub target: Option<Entity>,
    /// Turns the mesh from the way it was modelled to the heading.
    pub mesh_rotation_offset: Rotation,
}

/// Where a homing projectile stands in its guidance.
#[derive(Clone, Copy, PartialEq, Eq, Structural, Debug)]
pub enum Phase {
    /// The activation timer still runs.
    Inert,
    /// Active, without a target.
    Seeking,
    /// Active, with a target.
    Tracking,
}

impl Default for Projectile {
    fn default() -> (p: Projectile)
        ensures
            p == (Projectile {
                damage: 10,
                acceleration: 0,
                agility: 0,
                direction: Vec3 { x: 0, y: 0, z: ROTATION_UNIT },
                homing: false,
                activation_timer: 0,
                target: None,
                mesh_rotation_offset: Rotation::spec_identity(),
            }),
    {
        Projectile {
            damage: 10,
            acceleration: 0,
            agility: 0,
            direction: Vec3 { x: 0, y: 0, z: ROTATION_UNIT },
            homing: false,
            activation_timer: 0,
            target: None,
            mesh_rotation_offset: Rotation::identity(),
        }
    }
}

/// The speed that `acceleration` adds along one component of the heading in
/// `dt` microseconds, rounded toward zero.
pub open spec fn thrust(heading: int, acceleration: int, dt: int) -> int {
    toward_zero(heading * acceleration * dt, THRUST_SCALE as int)
}

impl Projectile {
    /// The phase of guidance.
    pub open spec fn phase(self) -> Phase {
        if self.activation_timer > 0 {
            Phase::Inert
        } else if self.target is None {
            Phase::Seeking
        } else {
            Phase::Tracking
        }
    }

    /// Whether guidance is switched on: a homing projectile whose activation
    /// timer has run out.
    pub open spec fn active(self) -> bool {
        self.homing && self.activation_timer == 0
    }

    /// Whether the projectile waits for a target.
    pub open spec fn seeking(self) -> bool {
        self.active() && self.target is None
    }

    /// This projectile `dt` microseconds later, as far as its timer goes.
    pub open spec fn ticked(self, dt: u64) -> Projectile {
        Projectile { activation_timer: counted_down(self.activation_timer, dt), ..self }
    }

    /// `velocity` after this projectile has pushed for `dt` microseconds:
    /// unchanged unless guidance is switched on, else grown along the
    /// heading.
    pub open spec fn pushed(self, velocity: Vec3, dt: u64) -> Vec3 {
        if self.active() {
            Vec3 {
                x: clamp_i32(
                    velocity.x + thrust(self.direction.x as int, self.acceleration as int, dt as int),
                ) as i32,
                y: clamp_i32(
                    velocity.y + thrust(self.direction.y as int, self.acceleration as int, dt as int),
                ) as i32,
                z: clamp_i32(
                    velocity.z + thrust(self.direction.z as int, self.acceleration as int, dt as int),
                ) as i32,
            }
        } else {
            velocity
        }
    }

    /// The phase of guidance.
    pub fn current_phase(&self) -> (phase: Phase)
        ensures
            phase == self.phase(),
    {
        if self.activation_timer > 0 {
            Phase::Inert
        } else if self.target.is_none() {
            Phase::Seeking
        } else {
            Phase::Tracking
        }
    }
}

/// One projectile as the systems see it.
#[derive(Clone, Copy, PartialEq, Eq, Structural, Debug)]
pub struct ProjectileRecord {
    pub entity: Entity,
    pub projectile: Projectile,
    pub transform: Transform,
    /// Thousandths of a world unit per second.
    pub velocity: Vec3,
}

impl ProjectileRecord {
    /// The entity to despawn, where the projectile has left the field on any
    /// axis.
    pub open spec fn out_of_bounds(self) -> Option<Entity> {
        let p = self.transform.translation;
        if p.x > BOUNDARY || p.x < -BOUNDARY || p.y > BOUNDARY || p.y < -BOUNDARY || p.z > BOUNDARY
            || p.z < -BOUNDARY {
            Some(self.entity)
        } else {
            None
        }
    }
}

/// The projectiles that have left the field, in their order.
pub fn despawn_out_of_bounds_projectiles(
    projectiles: &Vec<ProjectileRecord>,
) -> (despawned: Vec<Entity>)
    ensures
        despawned@ == projectiles@.filter_map(|p: ProjectileRecord| p.out_of_bounds()),
{
    let mut despawned: Vec<Entity> = Vec::new();
    let mut i: usize = 0;
    while i < projectiles.len()
        invariant
            i <= projectiles.len(),
            despawned@ == projectiles@.take(i as int).filter_map(
                |p: ProjectileRecord| p.out_of_bounds(),
            ),
        decreases projectiles.len() - i,
    {
        proof {
            assert(projectiles@.take(i + 1).drop_last() == projectiles@.take(i as int));
        }
        let record = projectiles[i];
        let pos = record.transform.translation;
        if pos.x > BOUNDARY || pos.x < -BOUNDARY || pos.y > BOUNDARY || pos.y < -BOUNDARY || pos.z
            > BOUNDARY || pos.z < -BOUNDARY {
            despawned.push(record.entity);
        }
        i = i + 1;
    }
    assert(projectiles@.take(projectiles.len() as int) == projectiles@);
    despawned
}

/// Counts every activation timer down by `dt` microseconds, stopping at
/// zero.
pub fn update_projectile_activation_timers(projectiles: &mut Vec<ProjectileRecord>, dt: u64)
    ensures
        final(projectiles)@.len() == old(projectiles)@.len(),
        forall|i: int|
            0 <= i < old(projectiles)@.len() ==> #[trigger] final(projectiles)@[i] == (
            ProjectileRecord {
                projectile: old(projectiles)@[i].projectile.ticked(dt),
                ..old(projectiles)@[i]
            }),
{
    let mut i: usize = 0;
    while i < projectiles.len()
        invariant
            i <= projectiles.len(),
            projectiles@.len() == old(projectiles)@.len(),
            forall|k: int|
                0 <= k < i ==> #[trigger] projectiles@[k] == (ProjectileRecord {
                    projectile: old(projectiles)@[k].projectile.ticked(dt),
                    ..old(projectiles)@[k]
                }),
            forall|k: int| i <= k < projectiles@.len() ==> #[trigger] projectiles@[k] == old(projectiles)@[k],
        decreases projectiles.len() - i,
    {
        let mut record = projectiles[i];
        record.projectile.activation_timer = count_down(record.projectile.activation_timer, dt);
        projectiles.set(i, record);
        i = i + 1;
    }
}

/// Gives `projectile` the target at `draw` among `targets`, where it is
/// seeking and there is such a target; otherwise the projectile is left as
/// it is.
pub fn assign_target(projectile: &mut Projectile, targets: &Vec<Entity>, draw: usize)
    ensures
        *final(projectile) == if old(projectile).seeking() && draw < targets@.len() {
            Projectile { target: Some(targets@[draw as int]), ..*old(projectile) }
        } else {
            *old(projectile)
        },
{
    if projectile.homing && projectile.activation_timer == 0 && projectile.target.is_none() && draw
        < targets.len() {
        projectile.target = Some(targets[draw]);
    }
}

/// Gives every seeking projectile a target drawn at random from `targets`.
/// Without targets nothing changes.
pub fn select_projectile_targets(projectiles: &mut Vec<ProjectileRecord>, targets: &Vec<Entity>)
    ensures
        final(projectiles)@.len() == old(projectiles)@.len(),
        forall|i: int|
            0 <= i < old(projectiles)@.len() ==> {
                let before = old(projectiles)@[i];
                let after = #[trigger] final(projectiles)@[i];
                if targets@.len() > 0 && before.projectile.seeking() {
                    &&& after.projectile.target is Some
                    &&& targets@.contains(after.projectile.target->0)
                    &&& after == (ProjectileRecord {
                        projectile: Projectile {
                            target: after.projectile.target,
                            ..before.projectile
                        },
                        ..before
                    })
                } else {
                    after == before
                }
            },
{
    if targets.len() == 0 {
        return ;
    }
    let mut i: usize = 0;
    while i < projectiles.len()
        invariant
            i <= projectiles.len(),
            targets@.len() > 0,
            projectiles@.len() == old(projectiles)@.len(),
            forall|k: int|
                0 <= k < i ==> {
                    let before = old(projectiles)@[k];
                    let after = #[trigger] projectiles@[k];
                    if before.projectile.seeking() {
                        &&& after.projectile.target is Some
                        &&& targets@.contains(after.projectile.target->0)
                        &&& after == (ProjectileRecord {
                            projectile: Projectile {
                                target: after.projectile.target,
                                ..before.projectile
                            },
                            ..before
                        })
                    } else {
                        after == before
                    }
                },
            forall|k: int| i <= k < projectiles@.len() ==> #[trigger] projectiles@[k] == old(projectiles)@[k],
        decreases projectiles.len() - i,
    {
        let mut record = projectiles[i];
        if record.projectile.homing && record.projectile.activation_timer == 0
            && record.projectile.target.is_none() {
            let draw = random_below(targets.len() as u64) as usize;
            assign_target(&mut record.projectile, targets, draw);
            projectiles.set(i, record);
        }
        i = i + 1;
    }
}

/// One component of a velocity after the push of `dt` microseconds.
fn push(velocity: i32, heading: i32, acceleration: u32, dt: u64) -> (pushed: i32)
    ensures
        pushed == clamp_i32(velocity + thrust(heading as int, acceleration as int, dt as int)),
{
    let magnitude: u128 = if heading >= 0 {
        heading as u128
    } else {
        (-(heading as i64)) as u128
    };
    assert(magnitude * (acceleration as u128) <= 0x8000_0000 * 0xffff_ffff) by (nonlinear_arith)
        requires
            magnitude <= 0x8000_0000,
            acceleration <= 0xffff_ffff,
    ;
    let rate: u128 = magnitude * (acceleration as u128);
    assert(rate * (dt as u128) <= 0x8000_0000 * 0xffff_ffff * 0xffff_ffff_ffff_ffff)
        by (nonlinear_arith)
        requires
            rate <= 0x8000_0000 * 0xffff_ffff,
            dt <= 0xffff_ffff_ffff_ffff,
    ;
    let product: u128 = rate * (dt as u128);
    assert(heading < 0 ==> -(heading * acceleration * dt) == product && heading * acceleration * dt
        <= 0) by (nonlinear_arith)
        requires
            heading < 0 ==> magnitude == -heading,
            product == magnitude * acceleration * dt,
            acceleration >= 0,
            dt >= 0,
    ;
    let change: u128 = product / THRUST_SCALE;
    if heading >= 0 {
        let limit: u128 = (i32::MAX as i64 - velocity as i64) as u128;
        if change > limit {
            i32::MAX
        } else {
            (velocity as i64 + change as i64) as i32
        }
    } else {
        let limit: u128 = (velocity as i64 - i32::MIN as i64) as u128;
        if change > limit {
            i32::MIN
        } else {
            (velocity as i64 - change as i64) as i32
        }
    }
}

/// Lets every projectile whose guidance is switched on gain speed along its
/// heading, whether or not it has a target. The others keep their velocity.
pub fn apply_projectile_acceleration(projectiles: &mut Vec<ProjectileRecord>, dt: u64)
    ensures
        final(projectiles)@.len() == old(projectiles)@.len(),
        forall|i: int|
            0 <= i < old(projectiles)@.len() ==> #[trigger] final(projectiles)@[i] == (
            ProjectileRecord {
                velocity: old(projectiles)@[i].projectile.pushed(old(projectiles)@[i].velocity, dt),
                ..old(projectiles)@[i]
            }),
{
    let mut i: usize = 0;
    while i < projectiles.len()
        invariant
            i <= projectiles.len(),
            projectiles@.len() == old(projectiles)@.len(),
            forall|k: int|
                0 <= k < i ==> #[trigger] projectiles@[k] == (ProjectileRecord {
                    velocity: old(projectiles)@[k].projectile.pushed(old(projectiles)@[k].velocity, dt),
                    ..old(projectiles)@[k]
                }),
            forall|k: int| i <= k < projectiles@.len() ==> #[trigger] projectiles@[k] == old(projectiles)@[k],
        decreases projectiles.len() - i,
    {
        let mut record = projectiles[i];
        let projectile = record.projectile;
        if projectile.homing && projectile.activation_timer == 0 {
            record.velocity = Vec3 {
                x: push(record.velocity.x, projectile.direction.x, projectile.acceleration, dt),
                y: push(record.velocity.y, projectile.direction.y, projectile.acceleration, dt),
                z: push(record.velocity.z, projectile.direction.z, projectile.acceleration, dt),
            };
            projectiles.set(i, record);
        }
        i = i + 1;
    }
}

/// What guidance asks of a projectile's heading in one frame.
#[derive(Clone, Copy, PartialEq, Eq, Structural, Debug)]
pub enum Turn {
    /// Leave the heading: the projectile is not homing or tracks nothing.
    Keep,
    /// The tracked target is gone; the projectile seeks again.
    Lost,
    /// Turn toward the target by `amount` of the `angle` microradians that
    /// lie between heading and target.
    Rotate { amount: u32, angle: u32 },
    /// The heading is as good as on the target: take the direction to the
    /// target as the heading.
    Snap,
}

/// The furthest a projectile of this agility turns in `dt` microseconds, in
/// microradians.
pub open spec fn turn_budget(agility: u32, dt: u64) -> int {
    (agility * dt) / 1000
}

/// The turn for a heading `angle` microradians off the target: none to
/// speak of snaps, else as much of the angle as the budget allows.
pub open spec fn turn_for(angle: u32, agility: u32, dt: u64) -> Turn {
    if angle > SNAP_ANGLE {
        Turn::Rotate {
            amount: if angle <= turn_budget(agility, dt) {
                angle
            } else {
                turn_budget(agility, dt) as u32
            },
            angle,
        }
    } else {
        Turn::Snap
    }
}

/// The angle to the target once `turn` has been carried out to the letter.
pub open spec fn angle_left(angle: u32, turn: Turn) -> u32 {
    match turn {
        Turn::Rotate { amount, angle: _ } => if amount <= angle {
            (angle - amount) as u32
        } else {
            0
        },
        Turn::Snap => 0,
        _ => angle,
    }
}

/// The angle to a target that stands still, after one turn for each frame.
pub open spec fn angle_after(angle: u32, agility: u32, frames: Seq<u64>) -> u32
    decreases frames.len(),
{
    if frames.len() == 0 {
        angle
    } else {
        let before = angle_after(angle, agility, frames.drop_last());
        angle_left(before, turn_for(before, agility, frames.last()))
    }
}

/// The turn budgets of the frames, added up.
pub open spec fn total_budget(agility: u32, frames: Seq<u64>) -> int
    decreases frames.len(),
{
    if frames.len() == 0 {
        0
    } else {
        total_budget(agility, frames.drop_last()) + turn_budget(agility, frames.last())
    }
}

/// A turn never overshoots: it stays within the angle and within the
/// frame's budget.
pub proof fn lemma_turn_within_angle_and_budget(angle: u32, agility: u32, dt: u64)
    ensures
        match turn_for(angle, agility, dt) {
            Turn::Rotate { amount, angle: of } => of == angle && amount <= angle && amount
                <= turn_budget(agility, dt),
            Turn::Snap => angle <= SNAP_ANGLE,
            _ => false,
        },
        angle_left(angle, turn_for(angle, agility, dt)) <= angle,
{
    assert(turn_budget(agility, dt) >= 0) by (nonlinear_arith)
        requires
            turn_budget(agility, dt) == (agility * dt) / 1000,
            agility >= 0,
            dt >= 0,
    ;
}

/// With the target standing still and each turn carried out to the letter,
/// the angle to the target never grows from one frame to the next, is never
/// more than what the budgets spent so far have left of it, and is zero once
/// the budgets add up to the first angle.
pub proof fn lemma_homing_converges(angle: u32, agility: u32, frames: Seq<u64>)
    ensures
        frames.len() > 0 ==> angle_after(angle, agility, frames) <= angle_after(
            angle,
            agility,
            frames.drop_last(),
        ),
        angle_after(angle, agility, frames) <= angle,
        angle_after(angle, agility, frames) + total_budget(agility, frames) <= angle
            || angle_after(angle, agility, frames) == 0,
        total_budget(agility, frames) >= angle ==> angle_after(angle, agility, frames) == 0,
        total_budget(agility, frames) >= 0,
    decreases frames.len(),
{
    if frames.len() > 0 {
        lemma_homing_converges(angle, agility, frames.drop_last());
        let before = angle_after(angle, agility, frames.drop_last());
        lemma_turn_within_angle_and_budget(before, agility, frames.last());
    }
}

/// The turn budgets of the frames add up to the agility times the frames'
/// time, less what rounding takes: under a microradian for each frame.
pub proof fn lemma_budget_tracks_time(agility: u32, frames: Seq<u64>)
    ensures
        total_budget(agility, frames) <= (agility * elapsed(frames)) / 1000,
        total_budget(agility, frames) + frames.len() >= (agility * elapsed(frames)) / 1000,
        elapsed(frames) >= 0,
    decreases frames.len(),
{
    if frames.len() > 0 {
        lemma_budget_tracks_time(agility, frames.drop_last());
        let before = elapsed(frames.drop_last());
        let last = frames.last();
        assert(agility * elapsed(frames) == agility * before + agility * last) by (nonlinear_arith)
            requires
                elapsed(frames) == before + last,
        ;
        assert(agility * before >= 0 && agility * last >= 0) by (nonlinear_arith)
            requires
                before >= 0,
                last >= 0,
                agility >= 0,
        ;
    }
}

/// A homing projectile is on its target once the agility times the time
/// flown covers the first angle and a microradian for each frame, where the
/// target stands still and each turn is carried out to the letter.
pub proof fn lemma_homing_converges_in_time(angle: u32, agility: u32, frames: Seq<u64>)
    requires
        (agility * elapsed(frames)) / 1000 >= angle + frames.len(),
    ensures
        angle_after(angle, agility, frames) == 0,
{
    lemma_budget_tracks_time(agility, frames);
    lemma_homing_converges(angle, agility, frames);
}

/// What guidance does with one projectile: the turn it asks for, and the
/// projectile afterwards. `angle` is the angle between the heading and the
/// tracked target, in microradians, or `None` where that target is gone.
pub open spec fn steered(record: ProjectileRecord, angle: Option<u32>, dt: u64) -> (
    Turn,
    ProjectileRecord,
) {
    if !record.projectile.homing || record.projectile.target is None {
        (Turn::Keep, record)
    } else {
        match angle {
            Some(angle) => (turn_for(angle, record.projectile.agility, dt), record),
            None => (
                Turn::Lost,
                ProjectileRecord {
                    projectile: Projectile { target: None, ..record.projectile },
                    ..record
                },
            ),
        }
    }
}

/// The angle on record for the projectile `entity`.
pub open spec fn sighted(angles: Map<Entity, u32>, entity: Entity) -> Option<u32> {
    if angles.contains_key(entity) {
        Some(angles[entity])
    } else {
        None
    }
}

/// The turn for a heading `angle` microradians off the target.
pub fn turn_toward(angle: u32, agility: u32, dt: u64) -> (turn: Turn)
    ensures
        turn == turn_for(angle, agility, dt),
{
    if angle > SNAP_ANGLE {
        assert((agility as u128) * (dt as u128) <= 0xffff_ffff * 0xffff_ffff_ffff_ffff)
            by (nonlinear_arith)
            requires
                agility <= 0xffff_ffff,
                dt <= 0xffff_ffff_ffff_ffff,
        ;
        let max_rotation: u128 = ((agility as u128) * (dt as u128)) / 1000;
        let amount: u32 = if angle as u128 <= max_rotation {
            angle
        } else {
            max_rotation as u32
        };
        Turn::Rotate { amount, angle }
    } else {
        Turn::Snap
    }
}

/// Decides each projectile's turn for this frame. `angles` holds, for each
/// projectile whose tracked target still exists, the angle between its
/// heading and that target, in microradians. A projectile that tracks a
/// target without an entry has lost it and seeks again.
pub fn steer_projectiles_toward_target(
    projectiles: &mut Vec<ProjectileRecord>,
    angles: &HashMap<Entity, u32>,
    dt: u64,
) -> (turns: Vec<Turn>)
    ensures
        final(projectiles)@.len() == old(projectiles)@.len(),
        turns@.len() == old(projectiles)@.len(),
        forall|i: int|
            0 <= i < old(projectiles)@.len() ==> (#[trigger] turns@[i], final(projectiles)@[i])
                == steered(
                old(projectiles)@[i],
                sighted(angles@, old(projectiles)@[i].entity),
                dt,
            ),
{
    let mut turns: Vec<Turn> = Vec::new();
    let mut i: usize = 0;
    while i < projectiles.len()
        invariant
            i <= projectiles.len(),
            turns@.len() == i,
            projectiles@.len() == old(projectiles)@.len(),
            forall|k: int|
                0 <= k < i ==> (#[trigger] turns@[k], projectiles@[k]) == steered(
                    old(projectiles)@[k],
                    sighted(angles@, old(projectiles)@[k].entity),
                    dt,
                ),
            forall|k: int| i <= k < projectiles@.len() ==> #[trigger] projectiles@[k] == old(projectiles)@[k],
        decreases projectiles.len() - i,
    {
        let mut record = projectiles[i];
        let mut turn = Turn::Keep;
        if record.projectile.homing && record.projectile.target.is_some() {
            match angles.get(&record.entity) {
                Some(angle) => {
                    turn = turn_toward(*angle, record.projectile.agility, dt);
                },
                None => {
                    record.projectile.target = None;
                    projectiles.set(i, record);
                    turn = Turn::Lost;
                },
            }
        }
        turns.push(turn);
        i = i + 1;
    }
    turns
}

impl ProjectileRecord {
    /// This projectile once a turn has been carried out: `heading` is the new
    /// heading and `look` the orientation that faces along it. A rotation
    /// gives the mesh its orientation only where the heading has a length to
    /// speak of; a snap always does.
    pub open spec fn turned(self, turn: Turn, heading: Vec3, look: Rotation) -> ProjectileRecord {
        let faced = Transform {
            rotation: look.composed(self.projectile.mesh_rotation_offset),
            ..self.transform
        };
        let aimed = Projectile { direction: heading, ..self.projectile };
        match turn {
            Turn::Rotate { amount: _, angle: _ } => ProjectileRecord {
                projectile: aimed,
                transform: if heading.distance_squared(Vec3 { x: 0, y: 0, z: 0 })
                    > FACING_THRESHOLD {
                    faced
                } else {
                    self.transform
                },
                ..self
            },
            Turn::Snap => ProjectileRecord { projectile: aimed, transform: faced, ..self },
            _ => self,
        }
    }

    /// Carries out a turn: takes `heading` as the new heading and faces the
    /// mesh along `look`.
    pub fn apply_turn(&mut self, turn: Turn, heading: Vec3, look: &Rotation)
        ensures
            *final(self) == old(self).turned(turn, heading, *look),
    {
        match turn {
            Turn::Rotate { amount: _, angle: _ } => {
                self.projectile.direction = heading;
                if heading.distance_squared_to(Vec3::zero()) > FACING_THRESHOLD as u128 {
                    self.transform.rotation = look.compose(&self.projectile.mesh_rotation_offset);
                }
            },
            Turn::Snap => {
                self.projectile.direction = heading;
                self.transform.rotation = look.compose(&self.projectile.mesh_rotation_offset);
            },
            _ => {},
        }
    }
}

} // verus!
