//! Enemies and the sweeps that keep their number constant: one that is shot
//! down or drifts off the field is replaced by a fresh one on the spawn side.

pub mod drones;

use vstd::prelude::*;
use crate::collision::{Collidable, Entity};
use crate::hud::{raised, PlayerScore};
use crate::math::Vec3;
use crate::random::random_below;

verus! {

/// Hit points of a fresh enemy.
pub const ENEMY_HIT_POINTS: u32 = 20;

/// The `x` at which replacements appear.
pub const SPAWN_X: i32 = 3000;

/// The lowest `y` at which a replacement appears.
pub const SPAWN_Y_MIN: i32 = -2000;

/// How many places along `y` a replacement is drawn from.
pub const SPAWN_Y_SPREAD: u64 = 4000;

/// An enemy left of this `x` has drifted off the field.
pub const LEFT_BOUNDARY: i32 = -5000;

/// What marks an entity as an enemy.
#[derive(Clone, Copy, PartialEq, Eq, Structural, Debug)]
pub struct Enemy {
    /// Points credited to the player when this enemy is destroyed.
    pub score: u32,
}

impl Default for Enemy {
    fn default() -> (e: Enemy)
        ensures
            e.score == 100,
    {
        Enemy { score: 100 }
    }
}

/// One enemy as the sweeps see it.
#[derive(Clone, Copy, PartialEq, Eq, Structural, Debug)]
pub struct EnemyRecord {
    pub entity: Entity,
    pub enemy: Enemy,
    pub collidable: Collidable,
    pub position: Vec3,
}

/// What one sweep asks of the world: entities to remove, and where to put a
/// fresh instance for each.
#[derive(Debug)]
pub struct Sweep {
    pub despawned: Vec<Entity>,
    pub respawned: Vec<Vec3>,
}

/// A sweep as two sequences.
pub struct SweepView {
    pub despawned: Seq<Entity>,
    pub respawned: Seq<Vec3>,
}

impl View for Sweep {
    type V = SweepView;

    open spec fn view(&self) -> SweepView {
        SweepView { despawned: self.despawned@, respawned: self.respawned@ }
    }
}

impl SweepView {
    /// Each despawn is paired with exactly one respawn.
    pub open spec fn balanced(self) -> bool {
        self.despawned.len() == self.respawned.len()
    }

    /// Every respawn lies on the spawn side.
    pub open spec fn respawns_on_spawn_side(self) -> bool {
        forall|i: int| 0 <= i < self.respawned.len() ==> on_spawn_side(#[trigger] self.respawned[i])
    }
}

/// A population of `count` after the sweeps have been carried out, in order.
pub open spec fn population_after(count: int, sweeps: Seq<SweepView>) -> int
    decreases sweeps.len(),
{
    if sweeps.len() == 0 {
        count
    } else {
        population_after(count, sweeps.drop_last()) - sweeps.last().despawned.len()
            + sweeps.last().respawned.len()
    }
}

/// Whatever sequence of balanced sweeps is carried out, the population keeps
/// its size.
pub proof fn lemma_population_conserved(count: int, sweeps: Seq<SweepView>)
    requires
        forall|i: int| 0 <= i < sweeps.len() ==> (#[trigger] sweeps[i]).balanced(),
    ensures
        population_after(count, sweeps) == count,
    decreases sweeps.len(),
{
    if sweeps.len() > 0 {
        lemma_population_conserved(count, sweeps.drop_last());
    }
}

/// Where replacements may appear: at `SPAWN_X`, with `y` within the spread
/// above `SPAWN_Y_MIN`, at depth zero.
pub open spec fn on_spawn_side(position: Vec3) -> bool {
    &&& position.x == SPAWN_X
    &&& SPAWN_Y_MIN <= position.y < SPAWN_Y_MIN + SPAWN_Y_SPREAD
    &&& position.z == 0
}

/// The place on the spawn side that the draw `draw` stands for.
pub fn respawn_position(draw: u64) -> (position: Vec3)
    requires
        draw < SPAWN_Y_SPREAD,
    ensures
        position == (Vec3 { x: SPAWN_X, y: (SPAWN_Y_MIN + draw) as i32, z: 0 }),
        on_spawn_side(position),
{
    Vec3 { x: SPAWN_X, y: SPAWN_Y_MIN + draw as i32, z: 0 }
}

/// A place on the spawn side, drawn at random.
pub fn random_respawn_position() -> (position: Vec3)
    ensures
        on_spawn_side(position),
{
    respawn_position(random_below(SPAWN_Y_SPREAD))
}

/// Where the first enemies stand.
pub fn setup_enemies() -> (positions: Vec<Vec3>)
    ensures
        positions@ == seq![
            Vec3 { x: 3000, y: 0, z: 0 },
            Vec3 { x: 3000, y: 2000, z: 0 },
            Vec3 { x: 3000, y: (-2000) as i32, z: 0 },
            Vec3 { x: 3000, y: 1000, z: 0 },
            Vec3 { x: 3000, y: (-1000) as i32, z: 0 },
        ],
{
    let mut positions: Vec<Vec3> = Vec::new();
    positions.push(Vec3 { x: 3000, y: 0, z: 0 });
    positions.push(Vec3 { x: 3000, y: 2000, z: 0 });
    positions.push(Vec3 { x: 3000, y: -2000, z: 0 });
    positions.push(Vec3 { x: 3000, y: 1000, z: 0 });
    positions.push(Vec3 { x: 3000, y: -1000, z: 0 });
    positions
}

/// The colour that shows an enemy's health, each channel in thousandths.
#[derive(Clone, Copy, PartialEq, Eq, Structural, Debug)]
pub struct HealthColor {
    pub red: u32,
    pub green: u32,
}

/// Health as a share of the maximum, in thousandths, rounded down and never
/// above a thousand.
pub open spec fn health_ratio(hit_points: u32, max_hit_points: u32) -> int {
    if hit_points >= max_hit_points {
        1000
    } else {
        (hit_points * 1000) / (max_hit_points as int)
    }
}

/// Green in the measure of the health that is left, red in the measure of
/// what is lost.
pub fn health_color(hit_points: u32, max_hit_points: u32) -> (color: HealthColor)
    ensures
        color.green == health_ratio(hit_points, max_hit_points),
        color.red == 1000 - color.green,
{
    if hit_points >= max_hit_points {
        HealthColor { red: 0, green: 1000 }
    } else {
        let green: u64 = (hit_points as u64 * 1000) / (max_hit_points as u64);
        assert(green <= 1000) by (nonlinear_arith)
            requires
                green == (hit_points * 1000) / (max_hit_points as int),
                hit_points < max_hit_points,
        ;
        HealthColor { red: (1000 - green) as u32, green: green as u32 }
    }
}

/// The colours of the enemies, in their order.
pub fn update_enemy_colors(enemies: &Vec<EnemyRecord>) -> (colors: Vec<HealthColor>)
    ensures
        colors@.len() == enemies@.len(),
        forall|i: int|
            0 <= i < enemies@.len() ==> {
                &&& (#[trigger] colors@[i]).green == health_ratio(
                    enemies@[i].collidable.hit_points,
                    enemies@[i].collidable.max_hit_points,
                )
                &&& colors@[i].red == 1000 - colors@[i].green
            },
{
    let mut colors: Vec<HealthColor> = Vec::new();
    let mut i: usize = 0;
    while i < enemies.len()
        invariant
            i <= enemies.len(),
            colors@.len() == i,
            forall|k: int|
                0 <= k < i ==> {
                    &&& (#[trigger] colors@[k]).green == health_ratio(
                        enemies@[k].collidable.hit_points,
                        enemies@[k].collidable.max_hit_points,
                    )
                    &&& colors@[k].red == 1000 - colors@[k].green
                },
        decreases enemies.len() - i,
    {
        let collidable = enemies[i].collidable;
        colors.push(health_color(collidable.hit_points, collidable.max_hit_points));
        i = i + 1;
    }
    colors
}

impl EnemyRecord {
    /// The entity to despawn, where this enemy has no hit points left.
    pub open spec fn dead(self) -> Option<Entity> {
        if self.collidable.hit_points == 0 {
            Some(self.entity)
        } else {
            None
        }
    }

    /// The entity to despawn, where this enemy has drifted off the field.
    pub open spec fn out_of_bounds(self) -> Option<Entity> {
        if self.position.x < LEFT_BOUNDARY {
            Some(self.entity)
        } else {
            None
        }
    }
}

/// The points that the dead among `enemies` are worth.
pub open spec fn bounty(enemies: Seq<EnemyRecord>) -> int
    decreases enemies.len(),
{
    if enemies.len() == 0 {
        0
    } else {
        bounty(enemies.drop_last()) + if enemies.last().dead() is Some {
            enemies.last().enemy.score as int
        } else {
            0
        }
    }
}

/// The points of the dead are never negative.
pub proof fn lemma_bounty_nonnegative(enemies: Seq<EnemyRecord>)
    ensures
        bounty(enemies) >= 0,
    decreases enemies.len(),
{
    if enemies.len() > 0 {
        lemma_bounty_nonnegative(enemies.drop_last());
    }
}

/// The death sweep: every enemy without hit points is despawned, its score
/// is credited to the player, and a replacement appears on the spawn side.
pub fn despawn_dead_enemies(
    enemies: &Vec<EnemyRecord>,
    player_score: &mut PlayerScore,
) -> (sweep: Sweep)
    ensures
        sweep@.despawned == enemies@.filter_map(|e: EnemyRecord| e.dead()),
        sweep@.balanced(),
        sweep@.respawns_on_spawn_side(),
        final(player_score).score == raised(old(player_score).score, bounty(enemies@)),
{
    let mut despawned: Vec<Entity> = Vec::new();
    let mut respawned: Vec<Vec3> = Vec::new();
    let mut i: usize = 0;
    while i < enemies.len()
        invariant
            i <= enemies.len(),
            despawned@ == enemies@.take(i as int).filter_map(|e: EnemyRecord| e.dead()),
            despawned@.len() == respawned@.len(),
            forall|k: int| 0 <= k < respawned@.len() ==> on_spawn_side(#[trigger] respawned@[k]),
            player_score.score == raised(old(player_score).score, bounty(enemies@.take(i as int))),
        decreases enemies.len() - i,
    {
        proof {
            assert(enemies@.take(i + 1).drop_last() == enemies@.take(i as int));
            lemma_bounty_nonnegative(enemies@.take(i as int));
        }
        let record = enemies[i];
        if record.collidable.hit_points == 0 {
            player_score.award(record.enemy.score);
            respawned.push(random_respawn_position());
            despawned.push(record.entity);
        }
        i = i + 1;
    }
    assert(enemies@.take(enemies.len() as int) == enemies@);
    Sweep { despawned, respawned }
}

/// The bounds sweep: every enemy left of the field is despawned, and a
/// replacement appears on the spawn side.
pub fn despawn_out_of_bounds_enemies(enemies: &Vec<EnemyRecord>) -> (sweep: Sweep)
    ensures
        sweep@.despawned == enemies@.filter_map(|e: EnemyRecord| e.out_of_bounds()),
        sweep@.balanced(),
        sweep@.respawns_on_spawn_side(),
{
    let mut despawned: Vec<Entity> = Vec::new();
    let mut respawned: Vec<Vec3> = Vec::new();
    let mut i: usize = 0;
    while i < enemies.len()
        invariant
            i <= enemies.len(),
            despawned@ == enemies@.take(i as int).filter_map(|e: EnemyRecord| e.out_of_bounds()),
            despawned@.len() == respawned@.len(),
            forall|k: int| 0 <= k < respawned@.len() ==> on_spawn_side(#[trigger] respawned@[k]),
        decreases enemies.len() - i,
    {
        proof {
            assert(enemies@.take(i + 1).drop_last() == enemies@.take(i as int));
        }
        let record = enemies[i];
        if record.position.x < LEFT_BOUNDARY {
            respawned.push(random_respawn_position());
            despawned.push(record.entity);
        }
        i = i + 1;
    }
    assert(enemies@.take(enemies.len() as int) == enemies@);
    Sweep { despawned, respawned }
}

} // verus!
