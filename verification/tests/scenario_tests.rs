//! End-to-end scenarios over whole simulation ticks.

use shooter_core::camera::CameraShakeEvent;
use shooter_core::combat::{
    check_bullet_damage, spawn_bullet, Actor, BulletEnt, CollisionPair, Damageable, EntityDeath,
    Faction, ParticleHitEffect,
};
use shooter_core::geom::Vec3;
use shooter_core::player::{player_controls, InputState, Player};
use shooter_core::powerups::{
    detect_powerup_collisions, update_powerups, PickupEnt, Powerup, PowerupComponent,
};
use shooter_core::state::GameState;
use shooter_core::waves::{
    change_wave_with, destroy_enemies, init_enemy_waves, EnemyAIState, EnemyInstance, EnemyType,
    NewWaveEvent, SpawnDraw, Wave, spawn_wave_from,
};

fn v(x: i64, y: i64, z: i64) -> Vec3 {
    Vec3 { x, y, z }
}

/// Spawn one wave of 4 enemies with health 2, hit one of them with two
/// player bullets: it ends at 0 health, despawned, with exactly one
/// enemy death emitted, and 3 enemies stay alive.
#[test]
fn two_hits_kill_one_of_four_enemies() {
    let wave = Wave {
        enemies: (0..4)
            .map(|c| EnemyInstance { col: c, row: 0, ship_type: EnemyType::Type1, health: 2 })
            .collect(),
    };
    let draws = vec![SpawnDraw { jitter_x: 0, jitter_z: -2000, cooldown: 2500 }; 4];
    let mut actors: Vec<Actor> = Vec::new();
    let mut next_id: u64 = 0;
    spawn_wave_from(&mut actors, &mut next_id, &wave, &draws);
    assert_eq!(actors.len(), 4);
    let target_id = actors[2].id;
    let target_pos = actors[2].position;

    let mut bullets: Vec<BulletEnt> = Vec::new();
    spawn_bullet(&mut bullets, &mut next_id, target_pos, Faction::Player);
    spawn_bullet(&mut bullets, &mut next_id, target_pos, Faction::Player);
    let pairs = vec![
        CollisionPair { damageable: target_id, bullet: bullets[0].id },
        CollisionPair { damageable: target_id, bullet: bullets[1].id },
    ];

    let mut deaths: Vec<EntityDeath> = Vec::new();
    let mut hits: Vec<ParticleHitEffect> = Vec::new();
    let mut shakes: Vec<CameraShakeEvent> = Vec::new();
    check_bullet_damage(&mut actors, &mut bullets, &pairs, &mut deaths, &mut hits, &mut shakes);

    assert_eq!(actors.len(), 3);
    assert!(actors.iter().all(|a| a.id != target_id));
    assert_eq!(deaths.len(), 1);
    assert!(matches!(deaths[0].faction, Faction::Enemy));
    assert_eq!(deaths[0].position, target_pos);
    assert!(bullets.is_empty());
    // First hit small, killing hit large.
    assert_eq!(hits.len(), 2);
    assert!(!hits[0].is_large);
    assert!(hits[1].is_large);
}

/// Two DoubleShot pickups collected before expiry: the tier becomes
/// TripleShot and the remaining time is the sum of both durations minus
/// the elapsed time.
#[test]
fn double_pickup_upgrades_and_adds_time() {
    let mut actors = vec![Actor {
        id: 1,
        damageable: Damageable { health: 5, faction: Faction::Player },
        position: v(0, 0, 7000),
        velocity: v(0, 0, 0),
        player: Some(Player { lives: 3, bullet_cooldown: 0, bullet_cooldown_timer: 250 }),
        enemy: None,
        move_target: None,
        powerup: None,
    }];
    let mk = |id: u64| PickupEnt {
        id,
        powerup: PowerupComponent { powerup: Powerup::DoubleShot, time_left: 5000 },
        position: v(0, 0, 7000),
        velocity: v(0, 0, 3000),
    };
    let mut pickups = vec![mk(10), mk(11)];

    detect_powerup_collisions(&mut actors, &mut pickups, &vec![10]);
    // One second passes before the second pickup.
    update_powerups(&mut actors, 1000);
    detect_powerup_collisions(&mut actors, &mut pickups, &vec![11]);

    assert!(pickups.is_empty());
    let slot = actors[0].powerup.unwrap();
    assert!(matches!(slot.powerup, Powerup::TripleShot));
    // 5000 + 5000 minus the 1000 elapsed.
    assert_eq!(slot.time_left, 9000);

    // The upgraded pattern fires three bullets on the next shot.
    let mut bullets: Vec<BulletEnt> = Vec::new();
    let mut next_id: u64 = 100;
    let mut state = GameState::Game;
    player_controls(
        &mut actors,
        &mut bullets,
        &mut next_id,
        Some(1),
        &mut state,
        InputState { left: false, right: false, shoot: true },
        16,
    );
    assert_eq!(bullets.len(), 3);
    assert!(bullets.iter().all(|b| matches!(b.bullet.faction, Faction::Player)));
    assert_eq!(bullets[0].position, v(0, 0, 6500));
    assert_eq!(bullets[1].position, v(-200, 0, 7000));
    assert_eq!(bullets[2].position, v(200, 0, 7000));
    // The cooldown was reset by the shot.
    assert_eq!(actors[0].player.unwrap().bullet_cooldown, 250);
}

/// A catalog of two waves, cleared in sequence: the session leaves combat
/// exactly once and no further enemies spawn.
#[test]
fn clearing_both_waves_ends_combat_once() {
    let mut actors: Vec<Actor> = Vec::new();
    let mut next_id: u64 = 0;
    let mut ai = EnemyAIState::default();
    let mut state = GameState::Game;
    let mut events: Vec<NewWaveEvent> = Vec::new();
    let draws = vec![SpawnDraw { jitter_x: 0, jitter_z: -2000, cooldown: 2500 }; 30];

    // Session start: the first wave spawns.
    init_enemy_waves(&mut actors, &mut next_id, &ai, &mut events);
    assert_eq!(actors.len(), 15);
    assert_eq!(events.len(), 1);
    assert_eq!(events[0].wave, 0);

    // While the wave lives, no advancement happens.
    change_wave_with(&mut actors, &mut next_id, &mut ai, &mut state, &mut events, &draws);
    assert_eq!(ai.current_wave, 0);
    assert!(matches!(state, GameState::Game));

    // First wave cleared: the second spawns, still in combat.
    destroy_enemies(&mut actors);
    change_wave_with(&mut actors, &mut next_id, &mut ai, &mut state, &mut events, &draws);
    assert_eq!(ai.current_wave, 1);
    assert_eq!(actors.len(), 30);
    assert!(matches!(state, GameState::Game));

    // Second wave cleared: the catalog is exhausted, combat ends, and
    // nothing further spawns.
    destroy_enemies(&mut actors);
    change_wave_with(&mut actors, &mut next_id, &mut ai, &mut state, &mut events, &draws);
    assert_eq!(ai.current_wave, 2);
    assert!(matches!(state, GameState::Menu));
    assert!(actors.is_empty());
    assert_eq!(events.len(), 3);
    assert_eq!(events[2].wave, 2);
}
