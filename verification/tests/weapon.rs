use space_shooter::collision::{Collidable, Team};
use space_shooter::math::{Rotation, Transform, Vec3};
use space_shooter::weapons::cannon::{create_cannon, spawn_cannon_ball_projectile, spawn_cannon_mesh};
use space_shooter::weapons::create_rocket_launcher;
use space_shooter::weapons::weapon::{
    activate_weapon, attach_weapon, fire_weapon, update_weapon_cooldowns, MeshRequest,
    MeshSpawner, ProjectileSpawner, Shot, Weapon,
};

fn owner() -> (Transform, Vec3, Collidable) {
    (
        Transform { translation: Vec3::new(1000, 2000, 3000), rotation: Rotation::identity() },
        Vec3::new(100, -200, 0),
        Collidable::new(1000, 100, Team::Player),
    )
}

#[test]
fn new_weapon_is_ready_with_defaults() {
    let w = Weapon::new();
    assert_eq!(w.fire_cooldown_duration, 1_000_000);
    assert_eq!(w.cooldown_timer, 0);
    assert_eq!(w.projectile_spawner, None);
    assert_eq!(w.mesh_spawner, None);
    assert_eq!(w.weapon_position_offset, Vec3::zero());
    assert_eq!(w.projectile_spawn_offset, Vec3::zero());
    assert_eq!(w.projectile_spawn_speed_vector, Vec3::new(10_000, 0, 0));
    assert_eq!(w.weapon_rotation, Rotation::identity());
    assert!(w.can_fire());
}

#[test]
fn builders_set_one_field_each() {
    let w = Weapon::new()
        .with_fire_cooldown(250_000)
        .with_projectile_spawner(ProjectileSpawner::Rocket)
        .with_mesh_spawner(MeshSpawner::Cannon)
        .with_weapon_position_offset(Vec3::new(1, 2, 3))
        .with_projectile_spawn_offset(Vec3::new(4, 5, 6))
        .with_projectile_spawn_speed_vector(Vec3::new(7, 8, 9));
    assert_eq!(
        w,
        Weapon {
            fire_cooldown_duration: 250_000,
            cooldown_timer: 0,
            projectile_spawner: Some(ProjectileSpawner::Rocket),
            mesh_spawner: Some(MeshSpawner::Cannon),
            weapon_position_offset: Vec3::new(1, 2, 3),
            projectile_spawn_offset: Vec3::new(4, 5, 6),
            projectile_spawn_speed_vector: Vec3::new(7, 8, 9),
            weapon_rotation: Rotation::identity(),
        }
    );
}

#[test]
fn setters_set_one_field_each_and_chain() {
    let mut w = Weapon::new();
    w.set_fire_cooldown(250_000)
        .set_projectile_spawner(ProjectileSpawner::CannonBall)
        .set_mesh_spawner(MeshSpawner::Cannon)
        .set_weapon_position_offset(Vec3::new(1, 2, 3))
        .set_projectile_spawn_offset(Vec3::new(4, 5, 6))
        .set_projectile_spawn_speed_vector(Vec3::new(7, 8, 9));
    assert_eq!(
        w,
        Weapon::new()
            .with_fire_cooldown(250_000)
            .with_projectile_spawner(ProjectileSpawner::CannonBall)
            .with_mesh_spawner(MeshSpawner::Cannon)
            .with_weapon_position_offset(Vec3::new(1, 2, 3))
            .with_projectile_spawn_offset(Vec3::new(4, 5, 6))
            .with_projectile_spawn_speed_vector(Vec3::new(7, 8, 9))
    );
}

#[test]
fn start_cooldown_makes_the_weapon_cool() {
    let mut w = Weapon::new().with_fire_cooldown(500_000);
    w.start_cooldown();
    assert_eq!(w.cooldown_timer, 500_000);
    assert!(!w.can_fire());
}

#[test]
fn cooldowns_count_down_and_stop_at_zero() {
    let mut a = Weapon::new();
    a.cooldown_timer = 500_000;
    let mut b = Weapon::new();
    b.cooldown_timer = 100_000;
    let c = Weapon::new();
    let mut weapons = vec![a, b, c];
    update_weapon_cooldowns(&mut weapons, 300_000);
    assert_eq!(weapons[0].cooldown_timer, 200_000);
    assert_eq!(weapons[1].cooldown_timer, 0);
    assert_eq!(weapons[2].cooldown_timer, 0);
    assert!(!weapons[0].can_fire());
    assert!(weapons[1].can_fire());
    update_weapon_cooldowns(&mut weapons, 200_000);
    assert!(weapons[0].can_fire());
}

#[test]
fn cannon_fires_at_zero_not_at_300ms_again_at_600ms() {
    let (transform, velocity, collidable) = owner();
    let mut weapons = vec![create_cannon(Vec3::zero())];
    assert_eq!(weapons[0].fire_cooldown_duration, 500_000);
    let first = fire_weapon(&mut weapons[0], Some(&transform), Some(&velocity), Some(&collidable));
    assert!(first.is_some());
    assert!(!weapons[0].can_fire());
    update_weapon_cooldowns(&mut weapons, 300_000);
    let held = weapons[0];
    let second = fire_weapon(&mut weapons[0], Some(&transform), Some(&velocity), Some(&collidable));
    assert_eq!(second, None);
    assert_eq!(weapons[0], held);
    update_weapon_cooldowns(&mut weapons, 300_000);
    let third = fire_weapon(&mut weapons[0], Some(&transform), Some(&velocity), Some(&collidable));
    assert!(third.is_some());
    assert_eq!(weapons[0].cooldown_timer, 500_000);
}

#[test]
fn weapon_is_ready_exactly_when_the_frames_add_up_to_the_cooldown() {
    let mut weapons = vec![Weapon::new().with_fire_cooldown(50_000)];
    weapons[0].start_cooldown();
    let mut elapsed = 0;
    for dt in [16_667u64, 16_667, 16_665, 1] {
        assert!(!weapons[0].can_fire());
        update_weapon_cooldowns(&mut weapons, dt);
        elapsed += dt;
        assert_eq!(weapons[0].can_fire(), elapsed >= 50_000);
    }
    assert!(weapons[0].can_fire());
}

#[test]
fn shot_of_an_unturned_owner_adds_offsets_and_speeds() {
    let (transform, velocity, collidable) = owner();
    let mut w = create_cannon(Vec3::new(10, 20, 30));
    let shot = fire_weapon(&mut w, Some(&transform), Some(&velocity), Some(&collidable));
    assert_eq!(
        shot,
        Some(Shot {
            spawner: Some(ProjectileSpawner::CannonBall),
            position: Vec3::new(1000 + 10 + 500, 2020, 3030),
            velocity: Vec3::new(10_100, -200, 0),
            rotation: Rotation::identity(),
            team: Team::Player,
        })
    );
}

#[test]
fn shot_turns_with_the_owner() {
    let (mut transform, velocity, collidable) = owner();
    // A quarter turn about the vertical axis takes x to -z.
    transform.rotation = Rotation::quarter_turn_y();
    let mut w = create_cannon(Vec3::new(10, 20, 30));
    let shot = fire_weapon(&mut w, Some(&transform), Some(&velocity), Some(&collidable)).unwrap();
    // weapon offset (10, 20, 30) -> (30, 20, -10); spawn offset (500, 0, 0) -> (0, 0, -500)
    assert_eq!(shot.position, Vec3::new(1030, 2020, 3000 - 10 - 500));
    // speed (10000, 0, 0) -> (0, 0, -10000)
    assert_eq!(shot.velocity, Vec3::new(100, -200, -10_000));
    assert_eq!(shot.rotation, Rotation::quarter_turn_y());
}

#[test]
fn shot_turns_with_the_weapon_after_the_owner() {
    let (mut transform, velocity, mut collidable) = owner();
    collidable.team = Team::Enemy;
    transform.rotation = Rotation::quarter_turn_y();
    let mut slot = None;
    attach_weapon(&mut slot, 5, create_cannon(Vec3::new(10, 20, 30)), Rotation::quarter_turn_y());
    let mut w = slot.unwrap();
    let shot = fire_weapon(&mut w, Some(&transform), Some(&velocity), Some(&collidable)).unwrap();
    // The weapon's own offset turns with the owner alone.
    // Spawn offset and speed turn by both quarter turns: x -> -x.
    assert_eq!(shot.position, Vec3::new(1030 - 500, 2020, 3000 - 10));
    assert_eq!(shot.velocity, Vec3::new(100 - 10_000, -200, 0));
    assert_eq!(shot.rotation, Rotation::half_turn_y());
    assert_eq!(shot.team, Team::Enemy);
}

#[test]
fn fire_without_owner_is_dropped() {
    let (transform, velocity, collidable) = owner();
    let fresh = create_cannon(Vec3::zero());
    let mut w = fresh;
    assert_eq!(fire_weapon(&mut w, None, Some(&velocity), Some(&collidable)), None);
    assert_eq!(fire_weapon(&mut w, Some(&transform), None, Some(&collidable)), None);
    assert_eq!(fire_weapon(&mut w, Some(&transform), Some(&velocity), None), None);
    assert_eq!(fire_weapon(&mut w, None, None, None), None);
    assert_eq!(w, fresh);
    assert!(w.can_fire());
}

#[test]
fn weapon_without_spawner_still_cools_down() {
    let (transform, velocity, collidable) = owner();
    let mut w = Weapon::new();
    let shot = fire_weapon(&mut w, Some(&transform), Some(&velocity), Some(&collidable)).unwrap();
    assert_eq!(shot.spawner, None);
    assert!(!w.can_fire());
}

#[test]
fn shot_saturates_at_the_ends_of_the_world() {
    let transform = Transform {
        translation: Vec3::new(i32::MAX, i32::MIN, 0),
        rotation: Rotation::identity(),
    };
    let velocity = Vec3::new(i32::MAX, 0, 0);
    let collidable = Collidable::new(0, 1, Team::Player);
    let mut w = create_cannon(Vec3::new(10, -10, 0));
    let shot = fire_weapon(&mut w, Some(&transform), Some(&velocity), Some(&collidable)).unwrap();
    assert_eq!(shot.position, Vec3::new(i32::MAX, i32::MIN, 0));
    assert_eq!(shot.velocity, Vec3::new(i32::MAX, 0, 0));
}

#[test]
fn trigger_not_held_does_nothing() {
    let (transform, velocity, collidable) = owner();
    let mut slot = Some(create_cannon(Vec3::zero()));
    let shot = activate_weapon(false, &mut slot, Some(&transform), Some(&velocity), Some(&collidable));
    assert_eq!(shot, None);
    assert_eq!(slot, Some(create_cannon(Vec3::zero())));
}

#[test]
fn trigger_without_weapon_does_nothing() {
    let (transform, velocity, collidable) = owner();
    let mut slot = None;
    let shot = activate_weapon(true, &mut slot, Some(&transform), Some(&velocity), Some(&collidable));
    assert_eq!(shot, None);
    assert_eq!(slot, None);
}

#[test]
fn held_trigger_fires_once_per_cooldown() {
    let (transform, velocity, collidable) = owner();
    let mut slot = Some(create_cannon(Vec3::zero()));
    let mut shots = 0;
    // 70 frames of 10 ms with the trigger held: shots at 0, 500 and 1000 ms... the 70th frame ends at 700 ms.
    for _ in 0..70 {
        if activate_weapon(true, &mut slot, Some(&transform), Some(&velocity), Some(&collidable)).is_some() {
            shots += 1;
        }
        let mut weapons = vec![slot.unwrap()];
        update_weapon_cooldowns(&mut weapons, 10_000);
        slot = Some(weapons[0]);
    }
    assert_eq!(shots, 2);
}

#[test]
fn cannon_and_rocket_launcher() {
    let cannon = create_cannon(Vec3::new(1, 2, 3));
    assert_eq!(
        cannon,
        Weapon {
            fire_cooldown_duration: 500_000,
            cooldown_timer: 0,
            projectile_spawner: Some(ProjectileSpawner::CannonBall),
            mesh_spawner: Some(MeshSpawner::Cannon),
            weapon_position_offset: Vec3::new(1, 2, 3),
            projectile_spawn_offset: Vec3::new(500, 0, 0),
            projectile_spawn_speed_vector: Vec3::new(10_000, 0, 0),
            weapon_rotation: Rotation::identity(),
        }
    );
    let launcher = create_rocket_launcher(Vec3::new(1, 2, 3));
    assert_eq!(
        launcher,
        Weapon {
            fire_cooldown_duration: 1_000_000,
            cooldown_timer: 0,
            projectile_spawner: Some(ProjectileSpawner::Rocket),
            mesh_spawner: None,
            weapon_position_offset: Vec3::new(1, 2, 3),
            projectile_spawn_offset: Vec3::zero(),
            projectile_spawn_speed_vector: Vec3::new(10_000, 0, 0),
            weapon_rotation: Rotation::identity(),
        }
    );
}

#[test]
fn attach_puts_the_weapon_on_and_asks_for_its_mesh() {
    let mut slot = Some(create_rocket_launcher(Vec3::zero()));
    let mesh = attach_weapon(&mut slot, 9, create_cannon(Vec3::new(1, 2, 3)), Rotation::half_turn_y());
    assert_eq!(
        mesh,
        Some(MeshRequest {
            spawner: MeshSpawner::Cannon,
            parent: 9,
            translation: Vec3::new(1, 2, 3),
            rotation: Rotation::half_turn_y(),
        })
    );
    let mut expected = create_cannon(Vec3::new(1, 2, 3));
    expected.weapon_rotation = Rotation::half_turn_y();
    assert_eq!(slot, Some(expected));
    let none = attach_weapon(&mut slot, 9, create_rocket_launcher(Vec3::zero()), Rotation::identity());
    assert_eq!(none, None);
    assert_eq!(slot, Some(create_rocket_launcher(Vec3::zero())));
}

#[test]
fn cannon_mesh_and_free_cannon_ball() {
    let mesh = spawn_cannon_mesh(4, Vec3::new(1, 2, 3));
    assert_eq!(mesh.parent, 4);
    assert_eq!(mesh.translation, Vec3::new(1, 2, 3));
    assert_eq!(mesh.rotation, Rotation::quarter_turn_back_y());
    let ball = spawn_cannon_ball_projectile(Vec3::new(1, 2, 3), Vec3::new(4, 5, 6));
    assert_eq!(ball.position, Vec3::new(1, 2, 3));
    assert_eq!(ball.movable.velocity, Vec3::new(4, 5, 6));
    assert_eq!(ball.movable.acceleration, Vec3::zero());
    assert_eq!(ball.movable.damping, 1000);
    assert_eq!(ball.projectile.damage, 10);
    assert!(!ball.projectile.homing);
}
