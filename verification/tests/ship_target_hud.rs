use space_shooter::collision::{Collidable, Team};
use space_shooter::hud::{health_percentage, update_health_bar, PlayerScore};
use space_shooter::math::{Rotation, Transform, Vec3};
use space_shooter::movable::Movable;
use space_shooter::projectiles::projectile::{Projectile, ProjectileRecord};
use space_shooter::ship::{
    remove_weapon, set_ship_rotation, setup_ship, switch_weapon, switch_weapon_input,
    update_ship_velocity, ScreenPosition, Ship, ShipInput, SpaceshipEntity,
};
use space_shooter::target::{
    check_collision, check_projectile_target_collisions, check_ship_target_collisions,
    despawn_dead_targets, despawn_out_of_bounds_targets, setup_targets, spawn_target,
    update_target_colors, Target, TargetRecord,
};
use space_shooter::enemies::HealthColor;
use space_shooter::weapons::cannon::create_cannon;
use space_shooter::weapons::create_rocket_launcher;
use space_shooter::weapons::weapon::{MeshRequest, MeshSpawner};

fn idle() -> ShipInput {
    ShipInput {
        accelerate_up: false,
        accelerate_left: false,
        accelerate_down: false,
        accelerate_right: false,
        rotate_left: false,
        rotate_right: false,
        fire: false,
        select_cannon: false,
        select_rocket_launcher: false,
    }
}

#[test]
fn ship_as_the_game_begins() {
    let ship = setup_ship();
    assert_eq!(ship.ship, Ship);
    assert_eq!(ship.persistent, space_shooter::collision::Persistent);
    assert_eq!(
        ship.collidable,
        Collidable { damage: 1000, max_hit_points: 100, hit_points: 100, team: Team::Player }
    );
    assert_eq!(ship.transform, Transform { translation: Vec3::zero(), rotation: Rotation::identity() });
    assert_eq!(ship.velocity, Vec3::zero());
    assert_eq!(ship.linear_damping, 1000);
    assert_eq!(ship.weapon, create_rocket_launcher(Vec3::zero()));
    assert_eq!(SpaceshipEntity(5).0, 5);
}

#[test]
fn held_directions_accelerate() {
    let v = Vec3::new(100, 200, 300);
    let up = ShipInput { accelerate_up: true, ..idle() };
    let left = ShipInput { accelerate_left: true, ..idle() };
    let down_right = ShipInput { accelerate_down: true, accelerate_right: true, ..idle() };
    let all = ShipInput {
        accelerate_up: true,
        accelerate_down: true,
        accelerate_left: true,
        accelerate_right: true,
        ..idle()
    };
    assert_eq!(update_ship_velocity(&idle(), v, None, 100_000), v);
    assert_eq!(update_ship_velocity(&up, v, None, 100_000), Vec3::new(100, 700, 300));
    assert_eq!(update_ship_velocity(&left, v, None, 100_000), Vec3::new(-400, 200, 300));
    assert_eq!(update_ship_velocity(&down_right, v, None, 100_000), Vec3::new(600, -300, 300));
    assert_eq!(update_ship_velocity(&all, v, None, 100_000), v);
    assert_eq!(update_ship_velocity(&up, v, None, 16_667), Vec3::new(100, 283, 300));
}

#[test]
fn ship_is_held_in_the_view() {
    let right = Vec3::new(100, 0, 0);
    let left = Vec3::new(-100, 0, 0);
    let up = Vec3::new(0, 100, 0);
    let down = Vec3::new(0, -100, 0);
    let at = |x: i32, y: i32| ScreenPosition { x, y };
    // Right edge.
    assert_eq!(update_ship_velocity(&idle(), right, Some(&at(951, 500)), 0), Vec3::zero());
    assert_eq!(update_ship_velocity(&idle(), right, Some(&at(950, 500)), 0), right);
    assert_eq!(update_ship_velocity(&idle(), left, Some(&at(951, 500)), 0), left);
    // Left edge.
    assert_eq!(update_ship_velocity(&idle(), left, Some(&at(49, 500)), 0), Vec3::zero());
    assert_eq!(update_ship_velocity(&idle(), left, Some(&at(50, 500)), 0), left);
    assert_eq!(update_ship_velocity(&idle(), right, Some(&at(49, 500)), 0), right);
    // The view's y grows downward: near the bottom, motion down stops.
    assert_eq!(update_ship_velocity(&idle(), down, Some(&at(500, 951)), 0), Vec3::zero());
    assert_eq!(update_ship_velocity(&idle(), up, Some(&at(500, 951)), 0), up);
    assert_eq!(update_ship_velocity(&idle(), up, Some(&at(500, 49)), 0), Vec3::zero());
    assert_eq!(update_ship_velocity(&idle(), down, Some(&at(500, 49)), 0), down);
    // The keys accelerate after the stop.
    let push = ShipInput { accelerate_right: true, ..idle() };
    assert_eq!(
        update_ship_velocity(&push, Vec3::new(100, 7, 9), Some(&at(999, 500)), 100_000),
        Vec3::new(500, 7, 9)
    );
}

#[test]
fn rotation_keys_turn_two_radians_per_second() {
    let left = ShipInput { rotate_left: true, ..idle() };
    let right = ShipInput { rotate_right: true, ..idle() };
    let both = ShipInput { rotate_left: true, rotate_right: true, ..idle() };
    assert_eq!(set_ship_rotation(&idle(), 16_667), None);
    assert_eq!(set_ship_rotation(&left, 16_667), Some(33_334));
    assert_eq!(set_ship_rotation(&right, 16_667), Some(-33_334));
    assert_eq!(set_ship_rotation(&both, 16_667), None);
    assert_eq!(set_ship_rotation(&left, 0), None);
    assert_eq!(set_ship_rotation(&right, u64::MAX), Some(-2 * (u64::MAX as i128)));
}

#[test]
fn removing_a_weapon_despawns_the_weapon_meshes() {
    let mut slot = Some(create_cannon(Vec3::zero()));
    assert_eq!(remove_weapon(&mut slot, &vec![7, 8, 9]), vec![7, 8, 9]);
    assert_eq!(slot, None);
    assert_eq!(remove_weapon(&mut slot, &Vec::new()), Vec::<u64>::new());
    assert_eq!(slot, None);
}

#[test]
fn switching_leaves_no_gap() {
    let mut slot = Some(create_rocket_launcher(Vec3::zero()));
    let switch = switch_weapon(&mut slot, 1, &vec![7], create_cannon(Vec3::new(1, 2, 3)));
    assert_eq!(switch.despawned, vec![7]);
    assert_eq!(
        switch.mesh,
        Some(MeshRequest {
            spawner: MeshSpawner::Cannon,
            parent: 1,
            translation: Vec3::new(1, 2, 3),
            rotation: Rotation::identity(),
        })
    );
    assert_eq!(slot, Some(create_cannon(Vec3::new(1, 2, 3))));
    let back = switch_weapon(&mut slot, 1, &vec![8], create_rocket_launcher(Vec3::zero()));
    assert_eq!(back.despawned, vec![8]);
    assert_eq!(back.mesh, None);
    assert_eq!(slot, Some(create_rocket_launcher(Vec3::zero())));
}

#[test]
fn weapon_keys() {
    let cannon_key = ShipInput { select_cannon: true, ..idle() };
    let rocket_key = ShipInput { select_rocket_launcher: true, ..idle() };
    let both = ShipInput { select_cannon: true, select_rocket_launcher: true, ..idle() };

    let mut slot = Some(create_rocket_launcher(Vec3::zero()));
    let none = switch_weapon_input(&idle(), &mut slot, 1, &vec![7]);
    assert!(none.cannon.is_none() && none.rocket_launcher.is_none());
    assert_eq!(slot, Some(create_rocket_launcher(Vec3::zero())));

    let to_cannon = switch_weapon_input(&cannon_key, &mut slot, 1, &vec![7]);
    assert_eq!(slot, Some(create_cannon(Vec3::zero())));
    assert!(to_cannon.rocket_launcher.is_none());
    let switch = to_cannon.cannon.unwrap();
    assert_eq!(switch.despawned, vec![7]);
    assert_eq!(switch.mesh.unwrap().parent, 1);

    let to_rocket = switch_weapon_input(&rocket_key, &mut slot, 1, &vec![8]);
    assert_eq!(slot, Some(create_rocket_launcher(Vec3::zero())));
    assert!(to_rocket.cannon.is_none());
    assert_eq!(to_rocket.rocket_launcher.unwrap().despawned, vec![8]);

    let mut empty = None;
    let twice = switch_weapon_input(&both, &mut empty, 1, &vec![9]);
    assert_eq!(empty, Some(create_rocket_launcher(Vec3::zero())));
    assert!(twice.cannon.unwrap().mesh.is_some());
    assert!(twice.rocket_launcher.unwrap().mesh.is_none());
}

#[test]
fn ship_trigger() {
    let ship = setup_ship();
    let mut slot = Some(ship.weapon);
    let held = ShipInput { fire: true, ..idle() };
    let none = space_shooter::ship::activate_weapon(
        &idle(),
        &mut slot,
        Some(&ship.transform),
        Some(&ship.velocity),
        Some(&ship.collidable),
    );
    assert_eq!(none, None);
    let shot = space_shooter::ship::activate_weapon(
        &held,
        &mut slot,
        Some(&ship.transform),
        Some(&ship.velocity),
        Some(&ship.collidable),
    )
    .unwrap();
    assert_eq!(shot.velocity, Vec3::new(10_000, 0, 0));
    assert_eq!(shot.position, Vec3::zero());
    assert_eq!(shot.team, Team::Player);
    assert_eq!(slot.unwrap().cooldown_timer, 1_000_000);
}

fn target(entity: u64, hit_points: u32, x: i32, y: i32) -> TargetRecord {
    TargetRecord { entity, target: Target { hit_points, score: 100, damage: 20 }, position: Vec3::new(x, y, 0) }
}

fn shell(entity: u64, damage: u32, x: i32, y: i32) -> ProjectileRecord {
    ProjectileRecord {
        entity,
        projectile: Projectile { damage, ..Projectile::default() },
        transform: Transform { translation: Vec3::new(x, y, 0), rotation: Rotation::identity() },
        velocity: Vec3::zero(),
    }
}

#[test]
fn default_target_and_its_bundle() {
    assert_eq!(Target::default(), Target { hit_points: 20, score: 100, damage: 20 });
    let bundle = spawn_target(Vec3::new(3000, 1000, 0));
    assert_eq!(bundle.target, Target::default());
    assert_eq!(bundle.movable, Movable::with_velocity(Vec3::new(-200, 0, 0), 1000));
    assert_eq!(bundle.position, Vec3::new(3000, 1000, 0));
    assert_eq!(setup_targets().len(), 5);
    assert_eq!(setup_targets()[2], Vec3::new(3000, -2000, 0));
}

#[test]
fn collision_is_strictly_closer_than_the_distance() {
    assert!(check_collision(Vec3::new(0, 0, 0), Vec3::new(499, 0, 0), 500));
    assert!(!check_collision(Vec3::new(0, 0, 0), Vec3::new(500, 0, 0), 500));
    assert!(check_collision(Vec3::new(0, 0, 0), Vec3::new(300, 399, 0), 500));
    assert!(!check_collision(Vec3::new(0, 0, 0), Vec3::new(300, 400, 0), 500));
    assert!(!check_collision(Vec3::new(1, 1, 1), Vec3::new(1, 1, 1), 0));
}

#[test]
fn projectiles_hurt_the_targets_they_touch_and_are_spent() {
    let projectiles = vec![
        shell(1, 10, 0, 0),
        shell(2, 5, 100, 0),
        shell(3, 10, 9000, 0),
        shell(4, 30, 5000, 100),
    ];
    let mut targets = vec![target(10, 20, 200, 0), target(11, 20, 5000, 0), target(12, 20, -3000, 0)];
    let despawned = check_projectile_target_collisions(&projectiles, &mut targets);
    assert_eq!(despawned, vec![1, 2, 4]);
    assert_eq!(targets[0], target(10, 5, 200, 0));
    assert_eq!(targets[1], target(11, 0, 5000, 0));
    assert_eq!(targets[2], target(12, 20, -3000, 0));
}

#[test]
fn a_projectile_between_two_targets_hurts_both() {
    let projectiles = vec![shell(1, 10, 0, 0)];
    let mut targets = vec![target(10, 20, 200, 0), target(11, 20, -200, 0)];
    assert_eq!(check_projectile_target_collisions(&projectiles, &mut targets), vec![1]);
    assert_eq!(targets[0].target.hit_points, 10);
    assert_eq!(targets[1].target.hit_points, 10);
}

#[test]
fn no_projectiles_or_no_targets() {
    let mut targets = vec![target(10, 20, 200, 0)];
    assert_eq!(check_projectile_target_collisions(&Vec::new(), &mut targets), Vec::<u64>::new());
    assert_eq!(targets, vec![target(10, 20, 200, 0)]);
    let mut none: Vec<TargetRecord> = Vec::new();
    assert_eq!(check_projectile_target_collisions(&vec![shell(1, 10, 0, 0)], &mut none), Vec::<u64>::new());
}

#[test]
fn targets_ram_the_ship() {
    let mut ship = Collidable::new(0, 100, Team::Player);
    let mut targets = vec![target(10, 20, 200, 0), target(11, 20, 5000, 0), target(12, 20, 0, -300)];
    check_ship_target_collisions(&mut ship, Vec3::zero(), &mut targets);
    assert_eq!(ship.hit_points, 60);
    assert_eq!(targets, vec![target(10, 20, 200, 0), target(11, 20, 5000, 0), target(12, 20, 0, -300)]);
    let mut ram = Collidable::new(15, 30, Team::Player);
    check_ship_target_collisions(&mut ram, Vec3::zero(), &mut targets);
    assert_eq!(ram.hit_points, 0);
    assert_eq!(targets, vec![target(10, 5, 200, 0), target(11, 20, 5000, 0), target(12, 5, 0, -300)]);
    assert_eq!(ram.max_hit_points, 30);
}

#[test]
fn target_sweeps() {
    let targets = vec![target(1, 0, 0, 0), target(2, 20, -5001, 0), target(3, 0, -6000, 0), target(4, 1, -5000, 0)];
    let mut score = PlayerScore { score: 1 };
    let dead = despawn_dead_targets(&targets, &mut score);
    assert_eq!(dead.despawned, vec![1, 3]);
    assert_eq!(dead.respawned.len(), 2);
    assert_eq!(score.score, 201);
    let out = despawn_out_of_bounds_targets(&targets);
    assert_eq!(out.despawned, vec![2, 3]);
    assert_eq!(out.respawned.len(), 2);
    for p in dead.respawned.iter().chain(out.respawned.iter()) {
        assert_eq!(p.x, 3000);
        assert_eq!(p.z, 0);
        assert!(-2000 <= p.y && p.y < 2000);
    }
}

#[test]
fn target_colors() {
    let colors = update_target_colors(&vec![target(1, 20, 0, 0), target(2, 15, 0, 0), target(3, 0, 0, 0), target(4, 90, 0, 0)]);
    assert_eq!(
        colors,
        vec![
            HealthColor { red: 0, green: 1000 },
            HealthColor { red: 250, green: 750 },
            HealthColor { red: 1000, green: 0 },
            HealthColor { red: 0, green: 1000 },
        ]
    );
}

#[test]
fn score_and_health_bar() {
    assert_eq!(PlayerScore::default(), PlayerScore { score: 0 });
    let mut score = PlayerScore::default();
    score.award(100);
    score.award(250);
    assert_eq!(score.score, 350);
    score.award(u32::MAX);
    assert_eq!(score.score, u32::MAX);

    let mut ship = Collidable::new(1000, 100, Team::Player);
    assert_eq!(health_percentage(&ship), 100);
    ship.take_damage(20);
    assert_eq!(health_percentage(&ship), 80);
    ship.hit_points = 1;
    ship.max_hit_points = 3;
    assert_eq!(health_percentage(&ship), 33);
    ship.hit_points = 0;
    assert_eq!(health_percentage(&ship), 0);
    ship.hit_points = 9;
    assert_eq!(health_percentage(&ship), 100);
    assert_eq!(update_health_bar(Some(&Collidable::new(0, 50, Team::Player))), Some(100));
    assert_eq!(update_health_bar(None), None);
}
