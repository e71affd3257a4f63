use shooter_core::combat::{Actor, BulletEnt, Damageable, Faction};
use shooter_core::geom::Vec3;
use shooter_core::state::GameState;
use shooter_core::waves::{
    change_wave_with, destroy_enemies, get_waves, reset_ai_state, spawn_wave, spawn_wave_from,
    update_enemies_with, update_move_to_target, Enemy, EnemyAIState, EnemyInstance, EnemyType,
    FireRoll, MoveToTarget, NewWaveEvent, SpawnDraw, Wave,
};

fn v(x: i64, y: i64, z: i64) -> Vec3 {
    Vec3 { x, y, z }
}

fn draw(jx: i64, jz: i64, cd: i64) -> SpawnDraw {
    SpawnDraw { jitter_x: jx, jitter_z: jz, cooldown: cd }
}

fn plain_enemy(id: u64, pos: Vec3, cooldown: i64) -> Actor {
    Actor {
        id,
        damageable: Damageable { health: 2, faction: Faction::Enemy },
        position: pos,
        velocity: v(0, 0, 0),
        player: None,
        enemy: Some(Enemy { shot_cooldown_timer: cooldown }),
        move_target: None,
        powerup: None,
    }
}

#[test]
fn ship_paths_name_the_models() {
    assert_eq!(EnemyType::Type1.get_ship_path(), "Spaceship1/model.obj");
    assert_eq!(EnemyType::Type2.get_ship_path(), "Spaceship2/model.obj");
    assert_eq!(EnemyType::Type3.get_ship_path(), "Spaceship3/model.obj");
}

#[test]
fn wave_catalog_has_two_waves_with_expected_grids() {
    let waves = get_waves();
    assert_eq!(waves.len(), 2);
    assert_eq!(waves[0].enemies.len(), 15);
    assert_eq!(waves[1].enemies.len(), 30);
    for e in &waves[0].enemies {
        assert_eq!(e.health, 2);
        assert!(matches!(e.ship_type, EnemyType::Type1));
        assert!(e.col >= -4 && e.col <= 4 && e.col % 2 == 0);
        assert!(e.row >= -1 && e.row <= 1);
    }
    for e in &waves[1].enemies {
        assert_eq!(e.health, 2);
        assert!(matches!(e.ship_type, EnemyType::Type2));
        assert!(e.col >= -5 && e.col <= 5 && (e.col % 2 == 1 || e.col % 2 == -1));
        assert!(e.row >= -2 && e.row <= 2);
    }
    // Column-major order: first template is the top of the leftmost column.
    assert_eq!(waves[0].enemies[0].col, -4);
    assert_eq!(waves[0].enemies[0].row, -1);
    assert_eq!(waves[0].enemies[14].col, 4);
    assert_eq!(waves[0].enemies[14].row, 1);
}

#[test]
fn default_ai_state_starts_half_period() {
    let st = EnemyAIState::default();
    assert_eq!(st.current_wave, 0);
    assert_eq!(st.move_timer, 1000);
    assert!(st.moving_left);
}

#[test]
fn spawn_wave_from_places_targets_on_grid() {
    let wave = Wave {
        enemies: vec![EnemyInstance { col: -4, row: 1, ship_type: EnemyType::Type1, health: 2 }],
    };
    let mut actors: Vec<Actor> = Vec::new();
    let mut next_id: u64 = 5;
    let draws = vec![draw(100, -2000, 2500)];
    spawn_wave_from(&mut actors, &mut next_id, &wave, &draws);
    assert_eq!(next_id, 6);
    assert_eq!(actors.len(), 1);
    let a = &actors[0];
    assert_eq!(a.id, 5);
    assert_eq!(a.damageable.health, 2);
    assert!(matches!(a.damageable.faction, Faction::Enemy));
    // Target: col * 500, row * 1000 - 3000; position jittered off it.
    let target = a.move_target.as_ref().unwrap().target;
    assert_eq!(target, v(-2000, 0, -2000));
    assert_eq!(a.position, v(-1900, 0, -4000));
    assert_eq!(a.enemy.as_ref().unwrap().shot_cooldown_timer, 2500);
    assert_eq!(a.velocity, v(0, 0, 0));
}

#[test]
fn spawn_wave_draws_stay_in_their_ranges() {
    let mut actors: Vec<Actor> = Vec::new();
    let mut next_id: u64 = 0;
    spawn_wave(&mut actors, &mut next_id, 0);
    assert_eq!(actors.len(), 15);
    assert_eq!(next_id, 15);
    for a in &actors {
        let cd = a.enemy.as_ref().unwrap().shot_cooldown_timer;
        assert!((2000..=3000).contains(&cd));
        let t = a.move_target.as_ref().unwrap().target;
        let jx = a.position.x - t.x;
        let jz = a.position.z - t.z;
        assert!((-7000..7000).contains(&jx));
        assert!((-7000..-1000).contains(&jz));
    }
}

#[test]
fn forming_up_enemy_approaches_then_snaps() {
    let mut actors = vec![Actor {
        move_target: Some(MoveToTarget { target: v(0, 0, 0) }),
        ..plain_enemy(1, v(1000, 0, 0), 2500)
    }];
    update_move_to_target(&mut actors);
    // 1000 milli-units away: moves toward the target at approach speed.
    assert_eq!(actors[0].velocity, v(-7500, 0, 0));
    assert!(actors[0].move_target.is_some());

    // Within the 100 milli-unit tolerance: snap, stop, drop the tag.
    actors[0].position = v(90, 0, 0);
    update_move_to_target(&mut actors);
    assert_eq!(actors[0].position, v(0, 0, 0));
    assert_eq!(actors[0].velocity, v(0, 0, 0));
    assert!(actors[0].move_target.is_none());
}

#[test]
fn patrol_is_suppressed_while_any_enemy_forms_up() {
    let mut actors = vec![
        plain_enemy(1, v(0, 0, -3000), 2500),
        Actor {
            move_target: Some(MoveToTarget { target: v(0, 0, 0) }),
            ..plain_enemy(2, v(5000, 0, -9000), 2500)
        },
    ];
    let mut bullets: Vec<BulletEnt> = Vec::new();
    let mut next_id: u64 = 10;
    let mut ai = EnemyAIState::default();
    let rolls = vec![FireRoll { roll: 0, next_cooldown: 2000 }; 2];
    update_enemies_with(&mut actors, &mut bullets, &mut next_id, &mut ai, 100, &rolls);
    // Patrol stayed suppressed: no velocity, no timer movement, no fire.
    assert_eq!(actors[0].velocity, v(0, 0, 0));
    assert_eq!(ai, EnemyAIState::default());
    assert!(bullets.is_empty());
}

#[test]
fn patrol_moves_all_enemies_in_lockstep() {
    let mut actors = vec![
        plain_enemy(1, v(0, 0, -3000), 2500),
        plain_enemy(2, v(1000, 0, -4000), 900),
    ];
    let mut bullets: Vec<BulletEnt> = Vec::new();
    let mut next_id: u64 = 10;
    let mut ai = EnemyAIState { current_wave: 0, move_timer: 500, moving_left: true };
    let rolls = vec![FireRoll { roll: 999, next_cooldown: 2222 }; 2];
    update_enemies_with(&mut actors, &mut bullets, &mut next_id, &mut ai, 100, &rolls);
    // Timer still running: direction unchanged, both move left together.
    assert_eq!(ai.move_timer, 400);
    assert!(ai.moving_left);
    assert_eq!(actors[0].velocity.x, -750);
    assert_eq!(actors[1].velocity.x, -750);
    // Cooldowns wound down; the second stays open until it expires.
    assert_eq!(actors[0].enemy.as_ref().unwrap().shot_cooldown_timer, 2400);
    assert_eq!(actors[1].enemy.as_ref().unwrap().shot_cooldown_timer, 800);
    assert!(bullets.is_empty());
}

#[test]
fn patrol_timer_expiry_flips_direction() {
    let mut actors = vec![plain_enemy(1, v(0, 0, -3000), 2500)];
    let mut bullets: Vec<BulletEnt> = Vec::new();
    let mut next_id: u64 = 10;
    let mut ai = EnemyAIState { current_wave: 0, move_timer: 50, moving_left: true };
    let rolls = vec![FireRoll { roll: 999, next_cooldown: 2222 }];
    update_enemies_with(&mut actors, &mut bullets, &mut next_id, &mut ai, 100, &rolls);
    assert!(!ai.moving_left);
    assert_eq!(ai.move_timer, 2000);
    assert_eq!(actors[0].velocity.x, 750);
}

#[test]
fn expired_cooldown_fires_on_winning_roll_only() {
    let mut actors = vec![
        plain_enemy(1, v(100, 0, -3000), 50),
        plain_enemy(2, v(200, 0, -4000), 50),
    ];
    let mut bullets: Vec<BulletEnt> = Vec::new();
    let mut next_id: u64 = 10;
    let mut ai = EnemyAIState { current_wave: 0, move_timer: 5000, moving_left: false };
    let rolls = vec![
        FireRoll { roll: 499, next_cooldown: 2100 },
        FireRoll { roll: 500, next_cooldown: 2900 },
    ];
    update_enemies_with(&mut actors, &mut bullets, &mut next_id, &mut ai, 100, &rolls);
    // Only the first roll beats the 0.5 fire probability.
    assert_eq!(bullets.len(), 1);
    assert_eq!(bullets[0].id, 10);
    assert!(matches!(bullets[0].bullet.faction, Faction::Enemy));
    assert_eq!(bullets[0].position, v(100, 0, -3000));
    assert_eq!(next_id, 11);
    // Both cooldowns were reset to their drawn values.
    assert_eq!(actors[0].enemy.as_ref().unwrap().shot_cooldown_timer, 2100);
    assert_eq!(actors[1].enemy.as_ref().unwrap().shot_cooldown_timer, 2900);
}

#[test]
fn wave_does_not_advance_while_enemies_live() {
    let mut actors = vec![plain_enemy(1, v(0, 0, -3000), 2500)];
    let mut next_id: u64 = 10;
    let mut ai = EnemyAIState::default();
    let mut state = GameState::Game;
    let mut events: Vec<NewWaveEvent> = Vec::new();
    let draws = vec![draw(0, -2000, 2500); 30];
    change_wave_with(&mut actors, &mut next_id, &mut ai, &mut state, &mut events, &draws);
    assert_eq!(ai.current_wave, 0);
    assert_eq!(actors.len(), 1);
    assert!(events.is_empty());
    assert!(matches!(state, GameState::Game));
}

#[test]
fn wave_advances_exactly_once_when_cleared() {
    let mut actors: Vec<Actor> = Vec::new();
    let mut next_id: u64 = 10;
    let mut ai = EnemyAIState::default();
    let mut state = GameState::Game;
    let mut events: Vec<NewWaveEvent> = Vec::new();
    let draws = vec![draw(0, -2000, 2500); 30];
    change_wave_with(&mut actors, &mut next_id, &mut ai, &mut state, &mut events, &draws);
    assert_eq!(ai.current_wave, 1);
    assert_eq!(events.len(), 1);
    assert_eq!(events[0].wave, 1);
    // The second catalog wave spawned and combat continues.
    assert_eq!(actors.len(), 30);
    assert!(matches!(state, GameState::Game));
}

#[test]
fn destroy_enemies_spares_non_enemies() {
    let mut actors = vec![
        plain_enemy(1, v(0, 0, 0), 2500),
        Actor { enemy: None, ..plain_enemy(2, v(0, 0, 7000), 0) },
        plain_enemy(3, v(0, 0, 0), 2500),
    ];
    destroy_enemies(&mut actors);
    assert_eq!(actors.len(), 1);
    assert_eq!(actors[0].id, 2);
}

#[test]
fn reset_restores_initial_patrol_state() {
    let mut ai = EnemyAIState { current_wave: 7, move_timer: 123, moving_left: false };
    reset_ai_state(&mut ai);
    assert_eq!(ai, EnemyAIState::default());
}
