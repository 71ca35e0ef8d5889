//! Targets: plain enemies that drift left, are shot at and ram the ship.
//! Their number is kept constant like that of the other enemies.

use vstd::prelude::*;
use crate::collision::{drained, Collidable, Entity};
use crate::enemies::{
    health_color, health_ratio, on_spawn_side, random_respawn_position, HealthColor, Sweep,
    LEFT_BOUNDARY,
};
use crate::hud::{raised, PlayerScore};
use crate::math::Vec3;
use crate::movable::{Movable, NO_DAMPING};
use crate::projectiles::projectile::ProjectileRecord;

verus! {

/// Hit points of a fresh target.
pub const TARGET_HIT_POINTS: u32 = 20;

/// Two things closer than this are in contact, in thousandths of a world
/// unit.
pub const COLLISION_DISTANCE: u32 = 500;

/// What makes an entity a target.
#[derive(Clone, Copy, PartialEq, Eq, Structural, Debug)]
pub struct Target {
    pub hit_points: u32,
    /// Points credited to the player when this target is destroyed.
    pub score: u32,
    /// Damage dealt to the ship on contact.
    pub damage: u32,
}

impl Default for Target {
    fn default() -> (t: Target)
        ensures
            t == (Target { hit_points: TARGET_HIT_POINTS, score: 100, damage: 20 }),
    {
        Target { hit_points: TARGET_HIT_POINTS, score: 100, damage: 20 }
    }
}

/// One target as the systems see it.
#[derive(Clone, Copy, PartialEq, Eq, Structural, Debug)]
pub struct TargetRecord {
    pub entity: Entity,
    pub target: Target,
    pub position: Vec3,
}

/// Everything a fresh target is made of.
#[derive(Clone, Copy, PartialEq, Eq, Structural, Debug)]
pub struct TargetBundle {
    pub target: Target,
    pub movable: Movable,
    pub position: Vec3,
}

/// Whether two points are closer to each other than `collision_distance`.
pub open spec fn colliding(pos1: Vec3, pos2: Vec3, collision_distance: u32) -> bool {
    pos1.distance_squared(pos2) < collision_distance * collision_distance
}

/// Whether two points are closer to each other than `collision_distance`.
pub fn check_collision(pos1: Vec3, pos2: Vec3, collision_distance: u32) -> (hit: bool)
    ensures
        hit == colliding(pos1, pos2, collision_distance),
{
    pos1.closer_than(pos2, collision_distance as u64)
}

/// Where the first targets stand.
pub fn setup_targets() -> (positions: Vec<Vec3>)
    ensures
        positions@ == seq![
            Vec3 { x: 3000, y: 0, z: 0 },
            Vec3 { x: 3000, y: 2000, z: 0 },
            Vec3 { x: 3000, y: (-2000) as i32, z: 0 },
            Vec3 { x: 3000, y: 1000, z: 0 },
            Vec3 { x: 3000, y: (-1000) as i32, z: 0 },
        ],
{
    let mut positions: Vec<Vec3> = Vec::new();
    positions.push(Vec3 { x: 3000, y: 0, z: 0 });
    positions.push(Vec3 { x: 3000, y: 2000, z: 0 });
    positions.push(Vec3 { x: 3000, y: -2000, z: 0 });
    positions.push(Vec3 { x: 3000, y: 1000, z: 0 });
    positions.push(Vec3 { x: 3000, y: -1000, z: 0 });
    positions
}

/// A target at `position`, at full health, drifting left at a fifth of a
/// unit per second.
pub fn spawn_target(position: Vec3) -> (target: TargetBundle)
    ensures
        target == (TargetBundle {
            target: Target { hit_points: TARGET_HIT_POINTS, score: 100, damage: 20 },
            movable: Movable {
                velocity: Vec3 { x: (-200) as i32, y: 0, z: 0 },
                acceleration: Vec3 { x: 0, y: 0, z: 0 },
                damping: NO_DAMPING,
            },
            position,
        }),
{
    TargetBundle {
        target: Target::default(),
        movable: Movable::with_velocity(Vec3 { x: -200, y: 0, z: 0 }, NO_DAMPING),
        position,
    }
}

/// The damage that something at `at` takes from the projectiles before
/// `upto`: that of each one in contact with it.
pub open spec fn projectile_damage(projectiles: Seq<ProjectileRecord>, at: Vec3, upto: int) -> int
    decreases upto,
{
    if upto <= 0 {
        0
    } else {
        projectile_damage(projectiles, at, upto - 1) + if colliding(
            projectiles[upto - 1].transform.translation,
            at,
            COLLISION_DISTANCE,
        ) {
            projectiles[upto - 1].projectile.damage as int
        } else {
            0
        }
    }
}

/// Whether a projectile at `at` is in contact with one of the targets before
/// `upto`.
pub open spec fn strikes(at: Vec3, targets: Seq<TargetRecord>, upto: int) -> bool {
    exists|j: int| 0 <= j < upto && colliding(at, #[trigger] targets[j].position, COLLISION_DISTANCE)
}

/// The projectiles that are in contact with a target, in their order.
pub open spec fn struck(
    projectiles: Seq<ProjectileRecord>,
    targets: Seq<TargetRecord>,
) -> Seq<Entity>
    decreases projectiles.len(),
{
    if projectiles.len() == 0 {
        Seq::empty()
    } else {
        let rest = struck(projectiles.drop_last(), targets);
        if strikes(projectiles.last().transform.translation, targets, targets.len() as int) {
            rest.push(projectiles.last().entity)
        } else {
            rest
        }
    }
}

/// `target` with `damage` taken from its hit points.
pub open spec fn hurt(target: TargetRecord, damage: int) -> TargetRecord {
    TargetRecord {
        target: Target { hit_points: drained(target.target.hit_points, damage), ..target.target },
        ..target
    }
}

/// Damage taken from projectiles is never negative.
pub proof fn lemma_projectile_damage_nonnegative(
    projectiles: Seq<ProjectileRecord>,
    at: Vec3,
    upto: int,
)
    ensures
        projectile_damage(projectiles, at, upto) >= 0,
    decreases upto,
{
    if upto > 0 {
        lemma_projectile_damage_nonnegative(projectiles, at, upto - 1);
    }
}

/// Applies every contact between a projectile and a target: the target
/// loses the projectile's damage, and the projectile is spent. Returns the
/// spent projectiles, to despawn.
pub fn check_projectile_target_collisions(
    projectiles: &Vec<ProjectileRecord>,
    targets: &mut Vec<TargetRecord>,
) -> (despawned: Vec<Entity>)
    ensures
        final(targets)@.len() == old(targets)@.len(),
        forall|j: int|
            0 <= j < old(targets)@.len() ==> #[trigger] final(targets)@[j] == hurt(
                old(targets)@[j],
                projectile_damage(projectiles@, old(targets)@[j].position, projectiles@.len() as int),
            ),
        despawned@ == struck(projectiles@, old(targets)@),
{
    let ghost before = targets@;
    let n = targets.len();
    let mut despawned: Vec<Entity> = Vec::new();
    let mut i: usize = 0;
    while i < projectiles.len()
        invariant
            i <= projectiles.len(),
            n == before.len(),
            targets@.len() == n,
            forall|k: int|
                0 <= k < n ==> #[trigger] targets@[k] == hurt(
                    before[k],
                    projectile_damage(projectiles@, before[k].position, i as int),
                ),
            despawned@ == struck(projectiles@.take(i as int), before),
        decreases projectiles.len() - i,
    {
        let projectile = projectiles[i];
        let at = projectile.transform.translation;
        let mut hit = false;
        let mut j: usize = 0;
        proof {
            assert(projectiles@.take(i + 1).drop_last() == projectiles@.take(i as int));
        }
        while j < n
            invariant
                i < projectiles.len(),
                j <= n,
                n == before.len(),
                targets@.len() == n,
                projectile == projectiles@[i as int],
                at == projectile.transform.translation,
                forall|k: int|
                    0 <= k < j ==> #[trigger] targets@[k] == hurt(
                        before[k],
                        projectile_damage(projectiles@, before[k].position, i + 1),
                    ),
                forall|k: int|
                    j <= k < n ==> #[trigger] targets@[k] == hurt(
                        before[k],
                        projectile_damage(projectiles@, before[k].position, i as int),
                    ),
                hit == strikes(at, before, j as int),
            decreases n - j,
        {
            let mut record = targets[j];
            proof {
                lemma_projectile_damage_nonnegative(projectiles@, before[j as int].position, i as int);
            }
            if check_collision(at, record.position, COLLISION_DISTANCE) {
                record.target.hit_points = if record.target.hit_points > projectile.projectile.damage {
                    record.target.hit_points - projectile.projectile.damage
                } else {
                    0
                };
                targets.set(j, record);
                hit = true;
            }
            j = j + 1;
        }
        if hit {
            despawned.push(projectile.entity);
        }
        i = i + 1;
    }
    assert(projectiles@.take(projectiles.len() as int) == projectiles@);
    despawned
}

/// The colours of the targets, in their order: green in the measure of the
/// health that is left of a fresh target's, red in the measure of what is
/// lost.
pub fn update_target_colors(targets: &Vec<TargetRecord>) -> (colors: Vec<HealthColor>)
    ensures
        colors@.len() == targets@.len(),
        forall|i: int|
            0 <= i < targets@.len() ==> {
                &&& (#[trigger] colors@[i]).green == health_ratio(
                    targets@[i].target.hit_points,
                    TARGET_HIT_POINTS,
                )
                &&& colors@[i].red == 1000 - colors@[i].green
            },
{
    let mut colors: Vec<HealthColor> = Vec::new();
    let mut i: usize = 0;
    while i < targets.len()
        invariant
            i <= targets.len(),
            colors@.len() == i,
            forall|k: int|
                0 <= k < i ==> {
                    &&& (#[trigger] colors@[k]).green == health_ratio(
                        targets@[k].target.hit_points,
                        TARGET_HIT_POINTS,
                    )
                    &&& colors@[k].red == 1000 - colors@[k].green
                },
        decreases targets.len() - i,
    {
        colors.push(health_color(targets[i].target.hit_points, TARGET_HIT_POINTS));
        i = i + 1;
    }
    colors
}

impl TargetRecord {
    /// The entity to despawn, where this target has no hit points left.
    pub open spec fn dead(self) -> Option<Entity> {
        if self.target.hit_points == 0 {
            Some(self.entity)
        } else {
            None
        }
    }

    /// The entity to despawn, where this target has drifted off the field.
    pub open spec fn out_of_bounds(self) -> Option<Entity> {
        if self.position.x < LEFT_BOUNDARY {
            Some(self.entity)
        } else {
            None
        }
    }
}

/// The points that the dead among `targets` are worth.
pub open spec fn bounty(targets: Seq<TargetRecord>) -> int
    decreases targets.len(),
{
    if targets.len() == 0 {
        0
    } else {
        bounty(targets.drop_last()) + if targets.last().dead() is Some {
            targets.last().target.score as int
        } else {
            0
        }
    }
}

/// The points of the dead are never negative.
pub proof fn lemma_bounty_nonnegative(targets: Seq<TargetRecord>)
    ensures
        bounty(targets) >= 0,
    decreases targets.len(),
{
    if targets.len() > 0 {
        lemma_bounty_nonnegative(targets.drop_last());
    }
}

/// The death sweep: every target without hit points is despawned, its score
/// is credited to the player, and a replacement appears on the spawn side.
pub fn despawn_dead_targets(
    targets: &Vec<TargetRecord>,
    player_score: &mut PlayerScore,
) -> (sweep: Sweep)
    ensures
        sweep@.despawned == targets@.filter_map(|t: TargetRecord| t.dead()),
        sweep@.balanced(),
        sweep@.respawns_on_spawn_side(),
        final(player_score).score == raised(old(player_score).score, bounty(targets@)),
{
    let mut despawned: Vec<Entity> = Vec::new();
    let mut respawned: Vec<Vec3> = Vec::new();
    let mut i: usize = 0;
    while i < targets.len()
        invariant
            i <= targets.len(),
            despawned@ == targets@.take(i as int).filter_map(|t: TargetRecord| t.dead()),
            despawned@.len() == respawned@.len(),
            forall|k: int| 0 <= k < respawned@.len() ==> on_spawn_side(#[trigger] respawned@[k]),
            player_score.score == raised(old(player_score).score, bounty(targets@.take(i as int))),
        decreases targets.len() - i,
    {
        proof {
            assert(targets@.take(i + 1).drop_last() == targets@.take(i as int));
            lemma_bounty_nonnegative(targets@.take(i as int));
        }
        let record = targets[i];
        if record.target.hit_points == 0 {
            player_score.award(record.target.score);
            respawned.push(random_respawn_position());
            despawned.push(record.entity);
        }
        i = i + 1;
    }
    assert(targets@.take(targets.len() as int) == targets@);
    Sweep { despawned, respawned }
}

/// The bounds sweep: every target left of the field is despawned, and a
/// replacement appears on the spawn side.
pub fn despawn_out_of_bounds_targets(targets: &Vec<TargetRecord>) -> (sweep: Sweep)
    ensures
        sweep@.despawned == targets@.filter_map(|t: TargetRecord| t.out_of_bounds()),
        sweep@.balanced(),
        sweep@.respawns_on_spawn_side(),
{
    let mut despawned: Vec<Entity> = Vec::new();
    let mut respawned: Vec<Vec3> = Vec::new();
    let mut i: usize = 0;
    while i < targets.len()
        invariant
            i <= targets.len(),
            despawned@ == targets@.take(i as int).filter_map(|t: TargetRecord| t.out_of_bounds()),
            despawned@.len() == respawned@.len(),
            forall|k: int| 0 <= k < respawned@.len() ==> on_spawn_side(#[trigger] respawned@[k]),
        decreases targets.len() - i,
    {
        proof {
            assert(targets@.take(i + 1).drop_last() == targets@.take(i as int));
        }
        let record = targets[i];
        if record.position.x < LEFT_BOUNDARY {
            respawned.push(random_respawn_position());
            despawned.push(record.entity);
        }
        i = i + 1;
    }
    assert(targets@.take(targets.len() as int) == targets@);
    Sweep { despawned, respawned }
}

/// The damage that a ship at `at` takes from the targets before `upto`:
/// that of each one in contact with it.
pub open spec fn ramming_damage(targets: Seq<TargetRecord>, at: Vec3, upto: int) -> int
    decreases upto,
{
    if upto <= 0 {
        0
    } else {
        ramming_damage(targets, at, upto - 1) + if colliding(
            at,
            targets[upto - 1].position,
            COLLISION_DISTANCE,
        ) {
            targets[upto - 1].target.damage as int
        } else {
            0
        }
    }
}

/// Damage taken from targets is never negative.
pub proof fn lemma_ramming_damage_nonnegative(targets: Seq<TargetRecord>, at: Vec3, upto: int)
    ensures
        ramming_damage(targets, at, upto) >= 0,
    decreases upto,
{
    if upto > 0 {
        lemma_ramming_damage_nonnegative(targets, at, upto - 1);
    }
}

/// Applies every contact between the ship and a target, to both sides: the
/// ship loses the target's damage, the target the ship's.
pub fn check_ship_target_collisions(
    ship: &mut Collidable,
    ship_position: Vec3,
    targets: &mut Vec<TargetRecord>,
)
    ensures
        *final(ship) == (Collidable {
            hit_points: drained(
                old(ship).hit_points,
                ramming_damage(old(targets)@, ship_position, old(targets)@.len() as int),
            ),
            ..*old(ship)
        }),
        old(ship).wf() ==> final(ship).wf(),
        final(targets)@.len() == old(targets)@.len(),
        forall|j: int|
            0 <= j < old(targets)@.len() ==> #[trigger] final(targets)@[j] == if colliding(
                ship_position,
                old(targets)@[j].position,
                COLLISION_DISTANCE,
            ) {
                hurt(old(targets)@[j], old(ship).damage as int)
            } else {
                old(targets)@[j]
            },
{
    let ghost before = targets@;
    let mut j: usize = 0;
    while j < targets.len()
        invariant
            j <= targets.len(),
            targets@.len() == before.len(),
            *ship == (Collidable {
                hit_points: drained(
                    old(ship).hit_points,
                    ramming_damage(before, ship_position, j as int),
                ),
                ..*old(ship)
            }),
            forall|k: int|
                0 <= k < j ==> #[trigger] targets@[k] == if colliding(
                    ship_position,
                    before[k].position,
                    COLLISION_DISTANCE,
                ) {
                    hurt(before[k], old(ship).damage as int)
                } else {
                    before[k]
                },
            forall|k: int| j <= k < targets@.len() ==> #[trigger] targets@[k] == before[k],
        decreases targets.len() - j,
    {
        let mut record = targets[j];
        proof {
            lemma_ramming_damage_nonnegative(before, ship_position, j as int);
        }
        if check_collision(ship_position, record.position, COLLISION_DISTANCE) {
            let ship_damage = ship.damage;
            ship.take_damage(record.target.damage);
            record.target.hit_points = if record.target.hit_points > ship_damage {
                record.target.hit_points - ship_damage
            } else {
                0
            };
            targets.set(j, record);
        }
        j = j + 1;
    }
    proof {
        lemma_ramming_damage_nonnegative(before, ship_position, before.len() as int);
    }
}

} // verus!
