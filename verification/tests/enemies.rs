use space_shooter::collision::{Collidable, Team};
use space_shooter::enemies::drones::{drone_behave, spawn_drone};
use space_shooter::enemies::{
    despawn_dead_enemies, despawn_out_of_bounds_enemies, health_color, random_respawn_position,
    respawn_position, setup_enemies, update_enemy_colors, Enemy, EnemyRecord, HealthColor,
    ENEMY_HIT_POINTS,
};
use space_shooter::hud::PlayerScore;
use space_shooter::math::{Rotation, Transform, Vec3};
use space_shooter::weapons::weapon::{MeshSpawner, ProjectileSpawner};

fn enemy(entity: u64, hit_points: u32, score: u32, x: i32) -> EnemyRecord {
    EnemyRecord {
        entity,
        enemy: Enemy { score },
        collidable: Collidable { damage: 20, max_hit_points: 20, hit_points, team: Team::Enemy },
        position: Vec3::new(x, 0, 0),
    }
}

fn on_spawn_side(p: Vec3) -> bool {
    p.x == 3000 && -2000 <= p.y && p.y < 2000 && p.z == 0
}

#[test]
fn default_enemy_is_worth_a_hundred() {
    assert_eq!(Enemy::default(), Enemy { score: 100 });
    assert_eq!(ENEMY_HIT_POINTS, 20);
}

#[test]
fn first_enemies_stand_in_a_column() {
    assert_eq!(
        setup_enemies(),
        vec![
            Vec3::new(3000, 0, 0),
            Vec3::new(3000, 2000, 0),
            Vec3::new(3000, -2000, 0),
            Vec3::new(3000, 1000, 0),
            Vec3::new(3000, -1000, 0),
        ]
    );
}

#[test]
fn respawn_position_of_each_draw() {
    assert_eq!(respawn_position(0), Vec3::new(3000, -2000, 0));
    assert_eq!(respawn_position(2000), Vec3::new(3000, 0, 0));
    assert_eq!(respawn_position(3999), Vec3::new(3000, 1999, 0));
}

#[test]
fn random_respawn_is_on_the_spawn_side() {
    let mut low = false;
    let mut high = false;
    for _ in 0..2000 {
        let p = random_respawn_position();
        assert!(on_spawn_side(p));
        low |= p.y < 0;
        high |= p.y >= 0;
    }
    assert!(low && high);
}

#[test]
fn dead_enemies_are_replaced_and_scored() {
    let enemies = vec![
        enemy(1, 20, 100, 0),
        enemy(2, 0, 100, 0),
        enemy(3, 1, 100, -9000),
        enemy(4, 0, 250, 0),
    ];
    let mut score = PlayerScore { score: 5 };
    let sweep = despawn_dead_enemies(&enemies, &mut score);
    assert_eq!(sweep.despawned, vec![2, 4]);
    assert_eq!(sweep.respawned.len(), 2);
    assert!(sweep.respawned.iter().all(|p| on_spawn_side(*p)));
    assert_eq!(score.score, 355);
}

#[test]
fn no_dead_enemies_no_sweep() {
    let enemies = vec![enemy(1, 20, 100, 0), enemy(2, 1, 100, 0)];
    let mut score = PlayerScore::default();
    let sweep = despawn_dead_enemies(&enemies, &mut score);
    assert!(sweep.despawned.is_empty());
    assert!(sweep.respawned.is_empty());
    assert_eq!(score.score, 0);
    let none = despawn_dead_enemies(&Vec::new(), &mut score);
    assert!(none.despawned.is_empty() && none.respawned.is_empty());
}

#[test]
fn score_stops_at_its_largest_value() {
    let enemies = vec![enemy(1, 0, u32::MAX - 10, 0), enemy(2, 0, 100, 0)];
    let mut score = PlayerScore { score: 5 };
    despawn_dead_enemies(&enemies, &mut score);
    assert_eq!(score.score, u32::MAX);
}

#[test]
fn enemies_left_of_the_field_are_replaced() {
    let enemies = vec![
        enemy(1, 20, 100, -5000),
        enemy(2, 20, 100, -5001),
        enemy(3, 0, 100, 3000),
        enemy(4, 20, 100, i32::MIN),
    ];
    let sweep = despawn_out_of_bounds_enemies(&enemies);
    assert_eq!(sweep.despawned, vec![2, 4]);
    assert_eq!(sweep.respawned.len(), 2);
    assert!(sweep.respawned.iter().all(|p| on_spawn_side(*p)));
}

#[test]
fn population_keeps_its_size_over_many_sweeps() {
    // Five drones; every frame some die or drift out and are replaced.
    let mut population: Vec<EnemyRecord> =
        (0..5).map(|i| enemy(i, 20, 100, 3000)).collect();
    let mut next_entity = 5;
    let mut score = PlayerScore::default();
    for frame in 0..40u32 {
        for (i, e) in population.iter_mut().enumerate() {
            if (frame as usize + i) % 3 == 0 {
                e.collidable.hit_points = 0;
            }
            if (frame as usize + 2 * i) % 7 == 0 {
                e.position.x = -6000;
            }
        }
        let dead = despawn_dead_enemies(&population, &mut score);
        let mut sweeps = vec![dead];
        for sweep in sweeps.drain(..) {
            assert_eq!(sweep.despawned.len(), sweep.respawned.len());
            population.retain(|e| !sweep.despawned.contains(&e.entity));
            for position in sweep.respawned {
                let drone = spawn_drone(position);
                population.push(EnemyRecord {
                    entity: next_entity,
                    enemy: drone.enemy,
                    collidable: drone.collidable,
                    position: drone.transform.translation,
                });
                next_entity += 1;
            }
        }
        assert_eq!(population.len(), 5);
        let out = despawn_out_of_bounds_enemies(&population);
        assert_eq!(out.despawned.len(), out.respawned.len());
        population.retain(|e| !out.despawned.contains(&e.entity));
        for position in out.respawned {
            let drone = spawn_drone(position);
            population.push(EnemyRecord {
                entity: next_entity,
                enemy: drone.enemy,
                collidable: drone.collidable,
                position: drone.transform.translation,
            });
            next_entity += 1;
        }
        assert_eq!(population.len(), 5);
    }
    assert!(score.score > 0);
}

#[test]
fn health_colors() {
    assert_eq!(health_color(20, 20), HealthColor { red: 0, green: 1000 });
    assert_eq!(health_color(0, 20), HealthColor { red: 1000, green: 0 });
    assert_eq!(health_color(5, 20), HealthColor { red: 750, green: 250 });
    assert_eq!(health_color(1, 3), HealthColor { red: 667, green: 333 });
    assert_eq!(health_color(30, 20), HealthColor { red: 0, green: 1000 });
    assert_eq!(health_color(0, 0), HealthColor { red: 0, green: 1000 });
    assert_eq!(health_color(u32::MAX - 1, u32::MAX), HealthColor { red: 1, green: 999 });
    let colors = update_enemy_colors(&vec![enemy(1, 20, 1, 0), enemy(2, 10, 1, 0), enemy(3, 0, 1, 0)]);
    assert_eq!(
        colors,
        vec![
            HealthColor { red: 0, green: 1000 },
            HealthColor { red: 500, green: 500 },
            HealthColor { red: 1000, green: 0 },
        ]
    );
}

#[test]
fn drone_bundle() {
    let drone = spawn_drone(Vec3::new(3000, 1000, 0));
    assert_eq!(drone.enemy, Enemy { score: 100 });
    assert_eq!(
        drone.collidable,
        Collidable { damage: 20, max_hit_points: 20, hit_points: 20, team: Team::Enemy }
    );
    assert_eq!(drone.velocity, Vec3::new(-200, 0, 0));
    assert_eq!(drone.transform.translation, Vec3::new(3000, 1000, 0));
    assert_eq!(drone.transform.rotation, Rotation::quarter_turn_back_y());
    assert_eq!(drone.weapon.fire_cooldown_duration, 25_000_000);
    assert_eq!(drone.weapon.cooldown_timer, 0);
    assert_eq!(drone.weapon.projectile_spawn_speed_vector, Vec3::new(1000, 0, 0));
    assert_eq!(drone.weapon.projectile_spawn_offset, Vec3::new(500, 0, 0));
    assert_eq!(drone.weapon.weapon_position_offset, Vec3::zero());
    assert_eq!(drone.weapon.projectile_spawner, Some(ProjectileSpawner::CannonBall));
    assert_eq!(drone.weapon.mesh_spawner, Some(MeshSpawner::Cannon));
    assert_eq!(drone.weapon.weapon_rotation, Rotation::quarter_turn_back_y());
}

#[test]
fn drone_fires_leftward_for_its_team() {
    let drone = spawn_drone(Vec3::new(3000, 1000, 0));
    let mut weapon = drone.weapon;
    let transform: Transform = drone.transform;
    let shot = drone_behave(&mut weapon, Some(&transform), Some(&drone.velocity), Some(&drone.collidable))
        .unwrap();
    // Turned a quarter back by the drone and again by its cannon, the x axis
    // points to -x.
    assert_eq!(shot.velocity, Vec3::new(-200 - 1000, 0, 0));
    assert_eq!(shot.position, Vec3::new(3000 - 500, 1000, 0));
    assert_eq!(shot.team, Team::Enemy);
    assert_eq!(shot.rotation, Rotation::half_turn_y());
    assert_eq!(weapon.cooldown_timer, 25_000_000);
    assert_eq!(
        drone_behave(&mut weapon, Some(&transform), Some(&drone.velocity), Some(&drone.collidable)),
        None
    );
}
