use shooter_core::combat::{Actor, Damageable, EntityDeath, Faction};
use shooter_core::geom::Vec3;
use shooter_core::player::{current_shot_pattern, Player};
use shooter_core::powerups::{
    apply_pickup, detect_powerup_collisions, expire_powerup, spawn_powerups_with,
    update_powerups, PickupEnt, Powerup, PowerupComponent,
};

fn v(x: i64, y: i64, z: i64) -> Vec3 {
    Vec3 { x, y, z }
}

fn player_actor(id: u64, powerup: Option<PowerupComponent>) -> Actor {
    Actor {
        id,
        damageable: Damageable { health: 5, faction: Faction::Player },
        position: v(0, 0, 7000),
        velocity: v(0, 0, 0),
        player: Some(Player { lives: 3, bullet_cooldown: 0, bullet_cooldown_timer: 250 }),
        enemy: None,
        move_target: None,
        powerup,
    }
}

fn pickup(id: u64, time_left: i64) -> PickupEnt {
    PickupEnt {
        id,
        powerup: PowerupComponent { powerup: Powerup::DoubleShot, time_left },
        position: v(0, 0, 0),
        velocity: v(0, 0, 3000),
    }
}

#[test]
fn upgrade_chain_is_monotonic_and_capped() {
    let p = PowerupComponent { powerup: Powerup::DoubleShot, time_left: 5000 };
    let mut slot: Option<PowerupComponent> = None;
    apply_pickup(&mut slot, &p);
    assert!(matches!(slot.unwrap().powerup, Powerup::DoubleShot));
    apply_pickup(&mut slot, &p);
    assert!(matches!(slot.unwrap().powerup, Powerup::TripleShot));
    apply_pickup(&mut slot, &p);
    // No tier above TripleShot: the chain is capped.
    assert!(matches!(slot.unwrap().powerup, Powerup::TripleShot));
    // Time was additive on every pickup while active.
    assert_eq!(slot.unwrap().time_left, 15000);
}

#[test]
fn powerup_expires_below_zero() {
    let mut slot = Some(PowerupComponent { powerup: Powerup::DoubleShot, time_left: 100 });
    expire_powerup(&mut slot, 100);
    // Exactly zero is kept; it expires only once it drops below zero.
    assert_eq!(slot.unwrap().time_left, 0);
    expire_powerup(&mut slot, 1);
    assert!(slot.is_none());
}

#[test]
fn update_powerups_only_touches_the_player() {
    let stray = PickupEnt {
        id: 9,
        powerup: PowerupComponent { powerup: Powerup::DoubleShot, time_left: 5000 },
        position: v(0, 0, 0),
        velocity: v(0, 0, 3000),
    };
    let mut actors = vec![player_actor(
        1,
        Some(PowerupComponent { powerup: Powerup::TripleShot, time_left: 700 }),
    )];
    update_powerups(&mut actors, 200);
    assert_eq!(actors[0].powerup.unwrap().time_left, 500);
    // A pickup entity's own component is not a player slot; it is untouched.
    assert_eq!(stray.powerup.time_left, 5000);
}

#[test]
fn dropped_pickups_follow_the_rolls() {
    let mut pickups: Vec<PickupEnt> = Vec::new();
    let mut next_id: u64 = 50;
    let mut deaths = vec![
        EntityDeath { position: v(1, 0, 0), faction: Faction::Enemy },
        EntityDeath { position: v(2, 0, 0), faction: Faction::Player },
        EntityDeath { position: v(3, 0, 0), faction: Faction::Enemy },
        EntityDeath { position: v(4, 0, 0), faction: Faction::Enemy },
    ];
    // One roll slot per notification; a roll below 100 (of 1000) drops.
    let rolls = vec![99, 0, 100, 5];
    spawn_powerups_with(&mut pickups, &mut next_id, &mut deaths, &rolls);
    assert_eq!(pickups.len(), 2);
    assert_eq!(pickups[0].id, 50);
    assert_eq!(pickups[0].position, v(1, 0, 0));
    assert!(matches!(pickups[0].powerup.powerup, Powerup::DoubleShot));
    assert_eq!(pickups[0].powerup.time_left, 5000);
    assert_eq!(pickups[0].velocity, v(0, 0, 3000));
    assert_eq!(pickups[1].position, v(4, 0, 0));
    assert_eq!(next_id, 52);
    // Enemy deaths were consumed exactly once; the player death stays.
    assert_eq!(deaths.len(), 1);
    assert!(matches!(deaths[0].faction, Faction::Player));
}

#[test]
fn collected_pickup_attaches_and_despawns() {
    let mut actors = vec![player_actor(1, None)];
    let mut pickups = vec![pickup(10, 5000), pickup(11, 5000)];
    detect_powerup_collisions(&mut actors, &mut pickups, &vec![10]);
    assert_eq!(pickups.len(), 1);
    assert_eq!(pickups[0].id, 11);
    let slot = actors[0].powerup.unwrap();
    assert!(matches!(slot.powerup, Powerup::DoubleShot));
    assert_eq!(slot.time_left, 5000);
}

#[test]
fn pickup_hits_without_player_do_nothing() {
    let mut actors: Vec<Actor> = Vec::new();
    let mut pickups = vec![pickup(10, 5000)];
    detect_powerup_collisions(&mut actors, &mut pickups, &vec![10]);
    assert_eq!(pickups.len(), 1);
}

#[test]
fn stale_pickup_hits_are_skipped() {
    let mut actors = vec![player_actor(1, None)];
    let mut pickups = vec![pickup(10, 5000)];
    // The same pickup reported twice in one tick: collected once.
    detect_powerup_collisions(&mut actors, &mut pickups, &vec![10, 10]);
    assert!(pickups.is_empty());
    let slot = actors[0].powerup.unwrap();
    assert!(matches!(slot.powerup, Powerup::DoubleShot));
    assert_eq!(slot.time_left, 5000);
}

#[test]
fn shot_pattern_follows_the_tier() {
    assert_eq!(current_shot_pattern(&None), 1);
    assert_eq!(
        current_shot_pattern(&Some(PowerupComponent {
            powerup: Powerup::DoubleShot,
            time_left: 5000
        })),
        2
    );
    assert_eq!(
        current_shot_pattern(&Some(PowerupComponent {
            powerup: Powerup::TripleShot,
            time_left: 5000
        })),
        3
    );
}
