use shooter_core::combat::{
    check_bullet_damage, destroy_bullets, bullet_controls, spawn_bullet, Actor, Bullet,
    BulletDirection, BulletEnt, CollisionPair, Damageable, EntityDeath, Faction,
    ParticleHitEffect,
};
use shooter_core::camera::CameraShakeEvent;
use shooter_core::geom::Vec3;

fn v(x: i64, y: i64, z: i64) -> Vec3 {
    Vec3 { x, y, z }
}

fn enemy_actor(id: u64, health: u32, pos: Vec3) -> Actor {
    Actor {
        id,
        damageable: Damageable { health, faction: Faction::Enemy },
        position: pos,
        velocity: v(0, 0, 0),
        player: None,
        enemy: Some(shooter_core::waves::Enemy { shot_cooldown_timer: 2500 }),
        move_target: None,
        powerup: None,
    }
}

fn player_bullet(id: u64, pos: Vec3) -> BulletEnt {
    BulletEnt {
        id,
        bullet: Bullet {
            faction: Faction::Player,
            direction: BulletDirection::Forward,
            speed: 7500,
            damage: 1,
        },
        position: pos,
    }
}

#[test]
fn damage_saturates_at_zero() {
    let mut d = Damageable { health: 2, faction: Faction::Enemy };
    d.apply_damage(1);
    assert_eq!(d.health, 1);
    d.apply_damage(5);
    assert_eq!(d.health, 0);
    d.apply_damage(7);
    assert_eq!(d.health, 0);
}

#[test]
fn spawn_bullet_sets_fixed_stats() {
    let mut bullets: Vec<BulletEnt> = Vec::new();
    let mut next_id: u64 = 10;
    spawn_bullet(&mut bullets, &mut next_id, v(1, 2, 3), Faction::Player);
    spawn_bullet(&mut bullets, &mut next_id, v(4, 5, 6), Faction::Enemy);
    assert_eq!(next_id, 12);
    assert_eq!(bullets.len(), 2);
    assert_eq!(bullets[0].id, 10);
    assert_eq!(bullets[0].bullet.speed, 7500);
    assert_eq!(bullets[0].bullet.damage, 1);
    assert!(matches!(bullets[0].bullet.direction, BulletDirection::Forward));
    assert!(matches!(bullets[1].bullet.direction, BulletDirection::Backward));
    assert_eq!(bullets[1].position, v(4, 5, 6));
}

#[test]
fn bullets_advance_along_depth_axis() {
    let mut bullets = vec![
        player_bullet(0, v(0, 0, 1000)),
        BulletEnt {
            id: 1,
            bullet: Bullet {
                faction: Faction::Enemy,
                direction: BulletDirection::Backward,
                speed: 7500,
                damage: 1,
            },
            position: v(0, 0, -2000),
        },
    ];
    // 16 milli-seconds: 7500 * 16 / 1000 = 120 milli-units.
    bullet_controls(&mut bullets, 16);
    assert_eq!(bullets[0].position.z, 880);
    assert_eq!(bullets[1].position.z, -1880);
}

#[test]
fn out_of_bounds_bullets_are_retired() {
    let mut bullets = vec![
        player_bullet(0, v(0, 0, 20000)),
        player_bullet(1, v(0, 0, 20001)),
        player_bullet(2, v(0, 0, -20001)),
        player_bullet(3, v(0, 0, -19999)),
    ];
    destroy_bullets(&mut bullets);
    let ids: Vec<u64> = bullets.iter().map(|b| b.id).collect();
    assert_eq!(ids, vec![0, 3]);
}

#[test]
fn friendly_fire_changes_nothing() {
    let mut actors = vec![enemy_actor(1, 2, v(0, 0, 0))];
    let mut bullets = vec![BulletEnt {
        id: 2,
        bullet: Bullet {
            faction: Faction::Enemy,
            direction: BulletDirection::Backward,
            speed: 7500,
            damage: 1,
        },
        position: v(0, 0, 0),
    }];
    let pairs = vec![CollisionPair { damageable: 1, bullet: 2 }];
    let mut deaths: Vec<EntityDeath> = Vec::new();
    let mut hits: Vec<ParticleHitEffect> = Vec::new();
    let mut shakes: Vec<CameraShakeEvent> = Vec::new();
    check_bullet_damage(&mut actors, &mut bullets, &pairs, &mut deaths, &mut hits, &mut shakes);
    assert_eq!(actors.len(), 1);
    assert_eq!(actors[0].damageable.health, 2);
    assert_eq!(bullets.len(), 1);
    assert!(deaths.is_empty());
    assert!(hits.is_empty());
    assert!(shakes.is_empty());
}

#[test]
fn cross_faction_hit_emits_small_effect_and_weak_shake() {
    let mut actors = vec![enemy_actor(1, 2, v(5, 0, 7))];
    let mut bullets = vec![player_bullet(9, v(5, 0, 7))];
    let pairs = vec![CollisionPair { damageable: 1, bullet: 9 }];
    let mut deaths: Vec<EntityDeath> = Vec::new();
    let mut hits: Vec<ParticleHitEffect> = Vec::new();
    let mut shakes: Vec<CameraShakeEvent> = Vec::new();
    check_bullet_damage(&mut actors, &mut bullets, &pairs, &mut deaths, &mut hits, &mut shakes);
    assert_eq!(actors[0].damageable.health, 1);
    assert!(bullets.is_empty());
    assert!(deaths.is_empty());
    assert_eq!(hits.len(), 1);
    assert!(!hits[0].is_large);
    assert_eq!(hits[0].position, v(5, 0, 7));
    assert_eq!(shakes.len(), 1);
    assert_eq!(shakes[0].intensity, 500);
}

#[test]
fn killing_hit_despawns_and_emits_one_death() {
    let mut actors = vec![enemy_actor(1, 1, v(0, 0, 0))];
    let mut bullets = vec![player_bullet(2, v(0, 0, 0))];
    let pairs = vec![CollisionPair { damageable: 1, bullet: 2 }];
    let mut deaths: Vec<EntityDeath> = Vec::new();
    let mut hits: Vec<ParticleHitEffect> = Vec::new();
    let mut shakes: Vec<CameraShakeEvent> = Vec::new();
    check_bullet_damage(&mut actors, &mut bullets, &pairs, &mut deaths, &mut hits, &mut shakes);
    assert!(actors.is_empty());
    assert!(bullets.is_empty());
    assert_eq!(deaths.len(), 1);
    assert!(matches!(deaths[0].faction, Faction::Enemy));
    assert_eq!(hits.len(), 1);
    assert!(hits[0].is_large);
    assert_eq!(shakes.len(), 1);
    assert_eq!(shakes[0].intensity, 1000);
}

#[test]
fn stale_pairs_against_dead_entity_are_skipped() {
    // Three bullets reported against one enemy with 1 health in the same
    // tick: the first kills and despawns it, the others are skipped.
    let mut actors = vec![enemy_actor(1, 1, v(0, 0, 0))];
    let mut bullets = vec![
        player_bullet(2, v(0, 0, 0)),
        player_bullet(3, v(0, 0, 0)),
        player_bullet(4, v(0, 0, 0)),
    ];
    let pairs = vec![
        CollisionPair { damageable: 1, bullet: 2 },
        CollisionPair { damageable: 1, bullet: 3 },
        CollisionPair { damageable: 1, bullet: 4 },
    ];
    let mut deaths: Vec<EntityDeath> = Vec::new();
    let mut hits: Vec<ParticleHitEffect> = Vec::new();
    let mut shakes: Vec<CameraShakeEvent> = Vec::new();
    check_bullet_damage(&mut actors, &mut bullets, &pairs, &mut deaths, &mut hits, &mut shakes);
    assert!(actors.is_empty());
    assert_eq!(deaths.len(), 1);
    assert_eq!(hits.len(), 1);
    // The killing bullet was consumed; the stale pairs left theirs alone.
    assert_eq!(bullets.len(), 2);
}

#[test]
fn pair_with_unknown_ids_is_ignored() {
    let mut actors = vec![enemy_actor(1, 2, v(0, 0, 0))];
    let mut bullets = vec![player_bullet(2, v(0, 0, 0))];
    let pairs = vec![
        CollisionPair { damageable: 77, bullet: 2 },
        CollisionPair { damageable: 1, bullet: 88 },
    ];
    let mut deaths: Vec<EntityDeath> = Vec::new();
    let mut hits: Vec<ParticleHitEffect> = Vec::new();
    let mut shakes: Vec<CameraShakeEvent> = Vec::new();
    check_bullet_damage(&mut actors, &mut bullets, &pairs, &mut deaths, &mut hits, &mut shakes);
    assert_eq!(actors[0].damageable.health, 2);
    assert_eq!(bullets.len(), 1);
    assert!(deaths.is_empty() && hits.is_empty() && shakes.is_empty());
}

#[test]
fn route_hit_effects_splits_by_size() {
    let mut effects = vec![
        ParticleHitEffect { position: v(1, 0, 0), is_large: false },
        ParticleHitEffect { position: v(2, 0, 0), is_large: true },
        ParticleHitEffect { position: v(3, 0, 0), is_large: false },
    ];
    let (small, large) = shooter_core::particles::route_hit_effects(&mut effects);
    assert!(effects.is_empty());
    assert_eq!(small, vec![v(1, 0, 0), v(3, 0, 0)]);
    assert_eq!(large, vec![v(2, 0, 0)]);
}

#[test]
fn isqrt_matches_exact_squares() {
    assert_eq!(shooter_core::geom::isqrt(0), 0);
    assert_eq!(shooter_core::geom::isqrt(1), 1);
    assert_eq!(shooter_core::geom::isqrt(9999), 99);
    assert_eq!(shooter_core::geom::isqrt(10000), 100);
    assert_eq!(shooter_core::geom::isqrt(10001), 100);
    assert_eq!(shooter_core::geom::isqrt(u64::MAX), 4294967295);
}
