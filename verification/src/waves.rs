//! The enemy wave state machine: the read-only wave catalog, spawn-in
//! formation movement, the shared patrol oscillation, per-enemy fire
//! control, and wave-clear advancement.

use vstd::prelude::*;
use crate::combat::{
    Actor, BulletEnt, Damageable, Faction, actor_ids_unique, actors_fresh, bullet_ids_unique,
    bullets_fresh, spawn_bullet, spec_bullet,
};
use crate::geom::{COORD_LIMIT, Vec3, dist_sq, dist_sq_u64, isqrt, sqrt_floor};
use crate::state::GameState;

verus! {

broadcast use vstd::string::group_string_axioms;

/// Lower (inclusive) bound of a fresh fire cooldown, in milli-seconds.
pub const ENEMY_COOLDOWN_MIN: i64 = 2000;

/// Upper (inclusive) bound of a fresh fire cooldown, in milli-seconds.
pub const ENEMY_COOLDOWN_MAX: i64 = 3000;

/// A fire roll below this (out of 1000) spawns a bullet when the cooldown
/// window closes.
pub const ENEMY_FIRE_PROBABILITY: i64 = 500;

/// How long the shared patrol moves one way before flipping, in
/// milli-seconds.
pub const ENEMY_MOVE_DURATION: i64 = 2000;

/// Horizontal patrol speed, in milli-units per second.
pub const ENEMY_MOVE_VELOCITY: i64 = 750;

/// Approach speed while flying into formation, in milli-units per second.
pub const ENEMY_APPROACH_SPEED: i64 = 7500;

/// World distance between two grid columns, in milli-units.
pub const GRID_X_SPACING: i64 = 500;

/// World distance between two grid rows, in milli-units.
pub const GRID_Z_SPACING: i64 = 1000;

/// Depth offset of the whole formation, in milli-units.
pub const GRID_Z_OFFSET: i64 = -3000;

/// An enemy within this distance of its formation target (in milli-units)
/// snaps onto it and stops forming up.
pub const ARRIVE_TOLERANCE: i64 = 100;

/// The AI component of one enemy: how long until its next fire decision,
/// in milli-seconds.
#[derive(Clone, Copy, PartialEq, Eq, Structural, Debug)]
pub struct Enemy {
    pub shot_cooldown_timer: i64,
}

/// Transient formation target attached to a freshly spawned enemy and
/// removed on arrival.  While any enemy still carries one, the shared
/// patrol movement is suppressed.
#[derive(Clone, Copy, PartialEq, Eq, Structural, Debug)]
pub struct MoveToTarget {
    pub target: crate::geom::Vec3,
}

/// Which ship model an enemy uses.
#[derive(Clone, Copy, PartialEq, Eq, Structural, Debug)]
pub enum EnemyType {
    Type1,
    Type2,
    Type3,
}

impl EnemyType {
    /// Asset path of this ship's model.
    pub fn get_ship_path(&self) -> (r: String)
        ensures
            *self is Type1 ==> r@ == "Spaceship1/model.obj"@,
            *self is Type2 ==> r@ == "Spaceship2/model.obj"@,
            *self is Type3 ==> r@ == "Spaceship3/model.obj"@,
    {
        match self {
            EnemyType::Type1 => "Spaceship1/model.obj".to_string(),
            EnemyType::Type2 => "Spaceship2/model.obj".to_string(),
            EnemyType::Type3 => "Spaceship3/model.obj".to_string(),
        }
    }
}

/// One spawn instruction of a wave template: a grid position, with
/// `(0, 0)` at the center of the formation, the ship kind, and the
/// starting health.
#[derive(Clone, Copy, PartialEq, Eq, Structural, Debug)]
pub struct EnemyInstance {
    pub col: i32,
    pub row: i32,
    pub ship_type: EnemyType,
    pub health: u32,
}

/// A wave template: an ordered batch of spawn instructions.
pub struct Wave {
    pub enemies: Vec<EnemyInstance>,
}

/// Notification that the session advanced to the given wave index.
#[derive(Clone, Copy, PartialEq, Eq, Structural, Debug)]
pub struct NewWaveEvent {
    pub wave: u32,
}

/// Session-wide patrol state: the catalog index of the active wave, the
/// shared oscillation timer (milli-seconds) and its direction flag.
#[derive(Clone, Copy, PartialEq, Eq, Structural, Debug)]
pub struct EnemyAIState {
    pub current_wave: u32,
    pub move_timer: i64,
    pub moving_left: bool,
}

impl EnemyAIState {
    /// Initial patrol state: first wave, default direction, and half an
    /// oscillation period on the clock so the first flip comes early.
    pub open spec fn spec_default() -> EnemyAIState {
        EnemyAIState {
            current_wave: 0,
            move_timer: (ENEMY_MOVE_DURATION / 2) as i64,
            moving_left: true,
        }
    }
}

impl Default for EnemyAIState {
    fn default() -> (r: Self)
        ensures
            r == EnemyAIState::spec_default(),
    {
        EnemyAIState { current_wave: 0, move_timer: ENEMY_MOVE_DURATION / 2, moving_left: true }
    }
}

/// The first wave of the catalog: grid columns -4..=4 two apart, rows
/// -1..=1, all of ship kind 1 with health 2, column-major.
pub open spec fn wave0_enemies() -> Seq<EnemyInstance> {
    Seq::new(
        15,
        |k: int|
            EnemyInstance {
                col: (-4 + 2 * (k / 3)) as i32,
                row: (-1 + k % 3) as i32,
                ship_type: EnemyType::Type1,
                health: 2,
            },
    )
}

/// The second wave of the catalog: grid columns -5..=5 two apart, rows
/// -2..=2, all of ship kind 2 with health 2, column-major.
pub open spec fn wave1_enemies() -> Seq<EnemyInstance> {
    Seq::new(
        30,
        |k: int|
            EnemyInstance {
                col: (-5 + 2 * (k / 5)) as i32,
                row: (-2 + k % 5) as i32,
                ship_type: EnemyType::Type2,
                health: 2,
            },
    )
}

/// The wave catalog: ordered, read-only at simulation time; the session's
/// wave index is the only mutable pointer into it.
pub fn get_waves() -> (r: Vec<Wave>)
    ensures
        r@.len() == 2,
        r@[0].enemies@ == wave0_enemies(),
        r@[1].enemies@ == wave1_enemies(),
{
    let mut enemies0: Vec<EnemyInstance> = Vec::new();
    let mut ci: usize = 0;
    while ci < 5
        invariant
            ci <= 5,
            enemies0@.len() == 3 * ci,
            forall|k: int| 0 <= k < enemies0@.len() ==> enemies0@[k] == wave0_enemies()[k],
        decreases 5 - ci,
    {
        let mut ri: usize = 0;
        while ri < 3
            invariant
                ci < 5,
                ri <= 3,
                enemies0@.len() == 3 * ci + ri,
                forall|k: int| 0 <= k < enemies0@.len() ==> enemies0@[k] == wave0_enemies()[k],
            decreases 3 - ri,
        {
            proof {
                vstd::arithmetic::div_mod::lemma_fundamental_div_mod_converse(
                    3 * ci + ri,
                    3,
                    ci as int,
                    ri as int,
                );
            }
            enemies0.push(
                EnemyInstance {
                    col: -4 + 2 * (ci as i32),
                    row: -1 + (ri as i32),
                    ship_type: EnemyType::Type1,
                    health: 2,
                },
            );
            ri = ri + 1;
        }
        ci = ci + 1;
    }

    let mut enemies1: Vec<EnemyInstance> = Vec::new();
    let mut cj: usize = 0;
    while cj < 6
        invariant
            cj <= 6,
            enemies1@.len() == 5 * cj,
            forall|k: int| 0 <= k < enemies1@.len() ==> enemies1@[k] == wave1_enemies()[k],
        decreases 6 - cj,
    {
        let mut rj: usize = 0;
        while rj < 5
            invariant
                cj < 6,
                rj <= 5,
                enemies1@.len() == 5 * cj + rj,
                forall|k: int| 0 <= k < enemies1@.len() ==> enemies1@[k] == wave1_enemies()[k],
            decreases 5 - rj,
        {
            proof {
                vstd::arithmetic::div_mod::lemma_fundamental_div_mod_converse(
                    5 * cj + rj,
                    5,
                    cj as int,
                    rj as int,
                );
            }
            enemies1.push(
                EnemyInstance {
                    col: -5 + 2 * (cj as i32),
                    row: -2 + (rj as i32),
                    ship_type: EnemyType::Type2,
                    health: 2,
                },
            );
            rj = rj + 1;
        }
        cj = cj + 1;
    }

    let mut waves: Vec<Wave> = Vec::new();
    waves.push(Wave { enemies: enemies0 });
    waves.push(Wave { enemies: enemies1 });
    proof {
        assert(waves@[0].enemies@ =~= wave0_enemies());
        assert(waves@[1].enemies@ =~= wave1_enemies());
    }
    waves
}

/// Templates of the wave at a catalog index.
pub open spec fn catalog_enemies(wave: int) -> Seq<EnemyInstance> {
    if wave == 0 {
        wave0_enemies()
    } else {
        wave1_enemies()
    }
}

/// Grid coordinates of wave templates stay within this many cells.
pub const GRID_LIMIT: i32 = 1000;

/// Lower (inclusive) bound of the horizontal spawn jitter, milli-units.
pub const SPAWN_JITTER_X_MIN: i64 = -7000;

/// Upper (exclusive) bound of the horizontal spawn jitter, milli-units.
pub const SPAWN_JITTER_X_MAX: i64 = 7000;

/// Lower (inclusive) bound of the depth spawn jitter, milli-units.
pub const SPAWN_JITTER_Z_MIN: i64 = -7000;

/// Upper (exclusive) bound of the depth spawn jitter, milli-units.
pub const SPAWN_JITTER_Z_MAX: i64 = -1000;

/// The random draws consumed when spawning one enemy: its off-screen
/// spawn offset and its first fire cooldown.
#[derive(Clone, Copy, PartialEq, Eq, Structural, Debug)]
pub struct SpawnDraw {
    pub jitter_x: i64,
    pub jitter_z: i64,
    pub cooldown: i64,
}

pub open spec fn valid_spawn_draw(d: SpawnDraw) -> bool {
    &&& SPAWN_JITTER_X_MIN <= d.jitter_x < SPAWN_JITTER_X_MAX
    &&& SPAWN_JITTER_Z_MIN <= d.jitter_z < SPAWN_JITTER_Z_MAX
    &&& ENEMY_COOLDOWN_MIN <= d.cooldown <= ENEMY_COOLDOWN_MAX
}

pub open spec fn valid_spawn_draws(draws: Seq<SpawnDraw>, n: int) -> bool {
    &&& draws.len() >= n
    &&& forall|k: int| 0 <= k < draws.len() ==> valid_spawn_draw(#[trigger] draws[k])
}

/// The template's grid position in world units: fixed spacing, with the
/// whole formation pushed back by a fixed depth offset.
pub open spec fn spec_grid_target(tmpl: EnemyInstance) -> Vec3 {
    Vec3 {
        x: (tmpl.col * GRID_X_SPACING) as i64,
        y: 0,
        z: (tmpl.row * GRID_Z_SPACING + GRID_Z_OFFSET) as i64,
    }
}

/// The enemy entity one template spawns: full health, enemy faction, a
/// randomized off-screen position, and a formation target at its grid
/// position.
pub open spec fn spec_spawned_enemy(id: u64, tmpl: EnemyInstance, d: SpawnDraw) -> Actor {
    Actor {
        id,
        damageable: Damageable { health: tmpl.health, faction: Faction::Enemy },
        position: Vec3 {
            x: (tmpl.col * GRID_X_SPACING + d.jitter_x) as i64,
            y: 0,
            z: (tmpl.row * GRID_Z_SPACING + GRID_Z_OFFSET + d.jitter_z) as i64,
        },
        velocity: Vec3::spec_zero(),
        player: None,
        enemy: Some(Enemy { shot_cooldown_timer: d.cooldown }),
        move_target: Some(MoveToTarget { target: spec_grid_target(tmpl) }),
        powerup: None,
    }
}

pub open spec fn template_in_grid(tmpl: EnemyInstance) -> bool {
    &&& -GRID_LIMIT <= tmpl.col <= GRID_LIMIT
    &&& -GRID_LIMIT <= tmpl.row <= GRID_LIMIT
}

/// Instantiate every template of one wave at a randomized off-screen
/// position, each tagged with its formation target.
pub fn spawn_wave_from(
    actors: &mut Vec<Actor>,
    next_id: &mut u64,
    wave: &Wave,
    draws: &Vec<SpawnDraw>,
)
    requires
        actor_ids_unique(old(actors)@),
        actors_fresh(old(actors)@, *old(next_id)),
        valid_spawn_draws(draws@, wave.enemies@.len() as int),
        forall|k: int| 0 <= k < wave.enemies@.len() ==> template_in_grid(#[trigger] wave.enemies@[k]),
        *old(next_id) + wave.enemies@.len() <= u64::MAX,
    ensures
        final(actors)@.len() == old(actors)@.len() + wave.enemies@.len(),
        forall|k: int| 0 <= k < old(actors)@.len() ==> final(actors)@[k] == old(actors)@[k],
        forall|k: int| 0 <= k < wave.enemies@.len() ==> final(actors)@[old(actors)@.len() + k]
            == spec_spawned_enemy(
            (*old(next_id) + k) as u64,
            wave.enemies@[k],
            draws@[k],
        ),
        *final(next_id) == *old(next_id) + wave.enemies@.len(),
        actor_ids_unique(final(actors)@),
        actors_fresh(final(actors)@, *final(next_id)),
{
    let mut n: usize = 0;
    let ghost base = *next_id;
    while n < wave.enemies.len()
        invariant
            n <= wave.enemies@.len(),
            *next_id == base + n,
            base + wave.enemies@.len() <= u64::MAX,
            actors@.len() == old(actors)@.len() + n,
            forall|k: int| 0 <= k < old(actors)@.len() ==> actors@[k] == old(actors)@[k],
            forall|k: int| 0 <= k < n ==> actors@[old(actors)@.len() + k] == spec_spawned_enemy(
                (base + k) as u64,
                wave.enemies@[k],
                draws@[k],
            ),
            actor_ids_unique(actors@),
            actors_fresh(actors@, *next_id),
            actor_ids_unique(old(actors)@),
            actors_fresh(old(actors)@, base),
            valid_spawn_draws(draws@, wave.enemies@.len() as int),
            forall|k: int| 0 <= k < wave.enemies@.len() ==> template_in_grid(
                #[trigger] wave.enemies@[k],
            ),
        decreases wave.enemies@.len() - n,
    {
        let tmpl = wave.enemies[n];
        let d = draws[n];
        let target_x = (tmpl.col as i64) * GRID_X_SPACING;
        let target_z = (tmpl.row as i64) * GRID_Z_SPACING + GRID_Z_OFFSET;
        let spawned = Actor {
            id: *next_id,
            damageable: Damageable { health: tmpl.health, faction: Faction::Enemy },
            position: Vec3 { x: target_x + d.jitter_x, y: 0, z: target_z + d.jitter_z },
            velocity: Vec3::zero(),
            player: None,
            enemy: Some(Enemy { shot_cooldown_timer: d.cooldown }),
            move_target: Some(
                MoveToTarget { target: Vec3 { x: target_x, y: 0, z: target_z } },
            ),
            powerup: None,
        };
        proof {
            assert(spawned == spec_spawned_enemy(
                (base + n) as u64,
                wave.enemies@[n as int],
                draws@[n as int],
            ));
        }
        actors.push(spawned);
        *next_id = *next_id + 1;
        n = n + 1;
    }
}

/// Squared arrival tolerance: an enemy within 100 milli-units (0.10 world
/// units) of its target has arrived.
pub const ARRIVE_TOLERANCE_SQ: i64 = 10000;

/// One velocity component while approaching: the position delta scaled to
/// approach speed by the (floored) distance.
pub open spec fn spec_scaled_component(delta: int, d: int) -> i64 {
    if delta >= 0 {
        ((delta * ENEMY_APPROACH_SPEED) / d) as i64
    } else {
        (-((-delta * ENEMY_APPROACH_SPEED) / d)) as i64
    }
}

/// The approach velocity of an enemy still flying toward `target`: a unit
/// vector from `pos` toward `target`, scaled by the approach speed.
pub open spec fn spec_approach_velocity(pos: Vec3, target: Vec3) -> Vec3 {
    let d = sqrt_floor(dist_sq(pos, target) as nat) as int;
    Vec3 {
        x: spec_scaled_component(target.x - pos.x, d),
        y: spec_scaled_component(target.y - pos.y, d),
        z: spec_scaled_component(target.z - pos.z, d),
    }
}

/// An enemy with a formation target after one movement tick: still far
/// from the target it flies toward it; within tolerance it snaps exactly
/// onto the target, stops, and drops the target tag.  Entities without an
/// enemy component or without a target are untouched.
pub open spec fn spec_move_step(a: Actor) -> Actor {
    if a.enemy is Some && a.move_target is Some {
        let target = a.move_target->Some_0.target;
        if dist_sq(a.position, target) > ARRIVE_TOLERANCE_SQ {
            Actor { velocity: spec_approach_velocity(a.position, target), ..a }
        } else {
            Actor { position: target, velocity: Vec3::spec_zero(), move_target: None, ..a }
        }
    } else {
        a
    }
}

fn scaled_component(delta: i64, d: u64) -> (r: i64)
    requires
        -2000000000 <= delta <= 2000000000,
        100 <= d,
    ensures
        r == spec_scaled_component(delta as int, d as int),
{
    let mag = if delta >= 0 {
        delta as u64
    } else {
        (-delta) as u64
    };
    proof {
        assert(mag * 7500 <= 15000000000000) by (nonlinear_arith)
            requires
                0 <= mag <= 2000000000,
        ;
        assert((mag * 7500) as int / (d as int) <= mag * 7500) by (nonlinear_arith)
            requires
                d >= 100,
                mag >= 0,
        ;
    }
    let num = mag * (ENEMY_APPROACH_SPEED as u64);
    let q = (num / d) as i64;
    if delta >= 0 {
        q
    } else {
        -q
    }
}

/// One tick of spawn-in formation movement, over every enemy that still
/// holds a formation target.
pub fn update_move_to_target(actors: &mut Vec<Actor>)
    requires
        forall|i: int| 0 <= i < old(actors)@.len() && #[trigger] old(actors)@[i].move_target
            is Some ==> old(actors)@[i].position.in_bounds(COORD_LIMIT)
            && old(actors)@[i].move_target->Some_0.target.in_bounds(COORD_LIMIT),
    ensures
        final(actors)@.len() == old(actors)@.len(),
        forall|i: int| 0 <= i < old(actors)@.len() ==> final(actors)@[i] == spec_move_step(
            old(actors)@[i],
        ),
{
    let mut n: usize = 0;
    while n < actors.len()
        invariant
            n <= actors@.len(),
            actors@.len() == old(actors)@.len(),
            forall|i: int| 0 <= i < old(actors)@.len() && #[trigger] old(actors)@[i].move_target
                is Some ==> old(actors)@[i].position.in_bounds(COORD_LIMIT)
                && old(actors)@[i].move_target->Some_0.target.in_bounds(COORD_LIMIT),
            forall|i: int| n <= i < actors@.len() ==> actors@[i] == old(actors)@[i],
            forall|i: int| 0 <= i < n ==> actors@[i] == spec_move_step(old(actors)@[i]),
        decreases actors@.len() - n,
    {
        let a = actors[n];
        proof {
            assert(a == old(actors)@[n as int]);
        }
        if a.enemy.is_some() {
            if let Some(m) = a.move_target {
                let d2 = dist_sq_u64(a.position, m.target);
                if d2 > ARRIVE_TOLERANCE_SQ as u64 {
                    let d = isqrt(d2);
                    proof {
                        if d < 100 {
                            assert((d + 1) * (d + 1) <= 100 * 100) by (nonlinear_arith)
                                requires
                                    0 <= d < 100,
                            ;
                        }
                    }
                    let vel = Vec3 {
                        x: scaled_component(m.target.x - a.position.x, d),
                        y: scaled_component(m.target.y - a.position.y, d),
                        z: scaled_component(m.target.z - a.position.z, d),
                    };
                    actors[n] = Actor { velocity: vel, ..a };
                } else {
                    actors[n] = Actor {
                        position: m.target,
                        velocity: Vec3::zero(),
                        move_target: None,
                        ..a
                    };
                }
            }
        }
        n = n + 1;
    }
}

/// Timers handled by the patrol and fire systems stay within this many
/// milli-seconds in magnitude.
pub const TIMER_LIMIT: i64 = 1000000000000000;

/// Some enemy is still flying into formation; while this holds, the
/// shared patrol is suppressed.
pub open spec fn any_forming_up(s: Seq<Actor>) -> bool {
    exists|i: int| 0 <= i < s.len() && s[i].move_target is Some
}

/// Some live actor is an enemy.
pub open spec fn any_enemy(s: Seq<Actor>) -> bool {
    exists|i: int| 0 <= i < s.len() && s[i].enemy is Some
}

/// The random draws consumed by one enemy's fire decision: the fire roll
/// (out of 1000) and the next cooldown.
#[derive(Clone, Copy, PartialEq, Eq, Structural, Debug)]
pub struct FireRoll {
    pub roll: i64,
    pub next_cooldown: i64,
}

pub open spec fn valid_fire_roll(r: FireRoll) -> bool {
    &&& 0 <= r.roll < 1000
    &&& ENEMY_COOLDOWN_MIN <= r.next_cooldown <= ENEMY_COOLDOWN_MAX
}

pub open spec fn valid_fire_rolls(rolls: Seq<FireRoll>, n: int) -> bool {
    &&& rolls.len() >= n
    &&& forall|k: int| 0 <= k < rolls.len() ==> valid_fire_roll(#[trigger] rolls[k])
}

/// The shared patrol state after one tick: the timer falls by `dt`, and on
/// reaching zero the direction flips and the timer resets to a full
/// period.
pub open spec fn spec_patrol_step(st: EnemyAIState, dt: i64) -> EnemyAIState {
    if st.move_timer - dt <= 0 {
        EnemyAIState {
            current_wave: st.current_wave,
            move_timer: ENEMY_MOVE_DURATION,
            moving_left: !st.moving_left,
        }
    } else {
        EnemyAIState {
            current_wave: st.current_wave,
            move_timer: (st.move_timer - dt) as i64,
            moving_left: st.moving_left,
        }
    }
}

/// Whether this enemy fires this tick: its cooldown window closes and its
/// roll beats the fire probability.
pub open spec fn spec_enemy_fires(a: Actor, dt: i64, r: FireRoll) -> bool {
    &&& a.enemy is Some
    &&& a.enemy->Some_0.shot_cooldown_timer - dt <= 0
    &&& r.roll < ENEMY_FIRE_PROBABILITY
}

/// One enemy after a patrol tick: lockstep horizontal velocity signed by
/// the shared direction, and the fire cooldown wound down — or reset to
/// the drawn value once its window closes.  Non-enemies are untouched.
pub open spec fn spec_enemy_tick(a: Actor, moving_left: bool, dt: i64, r: FireRoll) -> Actor {
    match a.enemy {
        None => a,
        Some(e) => {
            let t = e.shot_cooldown_timer - dt;
            Actor {
                velocity: Vec3 {
                    x: if moving_left {
                        (-ENEMY_MOVE_VELOCITY) as i64
                    } else {
                        ENEMY_MOVE_VELOCITY
                    },
                    y: a.velocity.y,
                    z: a.velocity.z,
                },
                enemy: Some(
                    Enemy {
                        shot_cooldown_timer: if t <= 0 {
                            r.next_cooldown
                        } else {
                            t as i64
                        },
                    },
                ),
                ..a
            }
        },
    }
}

/// The bullets fired by the first `n` actors this tick, in actor order,
/// with consecutive fresh ids starting at `base`.
pub open spec fn spec_fired_bullets(
    actors: Seq<Actor>,
    dt: i64,
    rolls: Seq<FireRoll>,
    base: int,
    n: int,
) -> Seq<BulletEnt>
    decreases n,
{
    if n <= 0 {
        Seq::empty()
    } else {
        let pre = spec_fired_bullets(actors, dt, rolls, base, n - 1);
        if spec_enemy_fires(actors[n - 1], dt, rolls[n - 1]) {
            pre.push(
                spec_bullet((base + pre.len()) as u64, actors[n - 1].position, Faction::Enemy),
            )
        } else {
            pre
        }
    }
}

pub proof fn lemma_fired_bullets_len(
    actors: Seq<Actor>,
    dt: i64,
    rolls: Seq<FireRoll>,
    base: int,
    n: int,
)
    requires
        n >= 0,
    ensures
        spec_fired_bullets(actors, dt, rolls, base, n).len() <= n,
    decreases n,
{
    if n > 0 {
        lemma_fired_bullets_len(actors, dt, rolls, base, n - 1);
    }
}

/// Law: the formation guard produces lockstep patrol.  Any two enemies
/// ticked with the same shared direction end with the same horizontal
/// velocity — all enemies lacking a formation target move in lockstep.
pub proof fn lemma_patrol_lockstep(
    actors: Seq<Actor>,
    moving_left: bool,
    dt: i64,
    rolls: Seq<FireRoll>,
    i: int,
    j: int,
)
    requires
        0 <= i < actors.len(),
        0 <= j < actors.len(),
        0 <= i < rolls.len(),
        0 <= j < rolls.len(),
        actors[i].enemy is Some,
        actors[j].enemy is Some,
    ensures
        spec_enemy_tick(actors[i], moving_left, dt, rolls[i]).velocity.x == spec_enemy_tick(
            actors[j],
            moving_left,
            dt,
            rolls[j],
        ).velocity.x,
{
}

/// One tick of the shared patrol and per-enemy fire control, with the
/// fire rolls supplied by the caller (one slot per actor).
///
/// While any enemy still holds a formation target, nothing moves: the
/// timer does not run, no velocity is applied, no enemy fires.  Otherwise
/// the shared timer steps (flipping direction on expiry), every enemy
/// takes the shared horizontal velocity, and each enemy whose cooldown
/// window closed fires with the supplied roll and resets its cooldown.
pub fn update_enemies_with(
    actors: &mut Vec<Actor>,
    bullets: &mut Vec<BulletEnt>,
    next_id: &mut u64,
    ai_state: &mut EnemyAIState,
    dt: i64,
    rolls: &Vec<FireRoll>,
)
    requires
        0 <= dt <= 60000,
        valid_fire_rolls(rolls@, old(actors)@.len() as int),
        actor_ids_unique(old(actors)@),
        actors_fresh(old(actors)@, *old(next_id)),
        bullet_ids_unique(old(bullets)@),
        bullets_fresh(old(bullets)@, *old(next_id)),
        *old(next_id) + old(actors)@.len() <= u64::MAX,
        -TIMER_LIMIT <= old(ai_state).move_timer <= TIMER_LIMIT,
        forall|i: int| 0 <= i < old(actors)@.len() && #[trigger] old(actors)@[i].enemy is Some
            ==> -TIMER_LIMIT <= old(actors)@[i].enemy->Some_0.shot_cooldown_timer <= TIMER_LIMIT,
    ensures
        any_forming_up(old(actors)@) ==> final(actors)@ == old(actors)@
            && final(bullets)@ == old(bullets)@
            && *final(next_id) == *old(next_id)
            && *final(ai_state) == *old(ai_state),
        !any_forming_up(old(actors)@) ==> {
            &&& *final(ai_state) == spec_patrol_step(*old(ai_state), dt)
            &&& final(actors)@.len() == old(actors)@.len()
            &&& forall|i: int| 0 <= i < old(actors)@.len() ==> final(actors)@[i]
                == spec_enemy_tick(
                old(actors)@[i],
                spec_patrol_step(*old(ai_state), dt).moving_left,
                dt,
                rolls@[i],
            )
            &&& final(bullets)@ == old(bullets)@ + spec_fired_bullets(
                old(actors)@,
                dt,
                rolls@,
                *old(next_id) as int,
                old(actors)@.len() as int,
            )
            &&& *final(next_id) == *old(next_id) + spec_fired_bullets(
                old(actors)@,
                dt,
                rolls@,
                *old(next_id) as int,
                old(actors)@.len() as int,
            ).len()
        },
        actor_ids_unique(final(actors)@),
        actors_fresh(final(actors)@, *final(next_id)),
        bullet_ids_unique(final(bullets)@),
        bullets_fresh(final(bullets)@, *final(next_id)),
{
    let mut k: usize = 0;
    while k < actors.len()
        invariant
            k <= actors@.len(),
            actors@ == old(actors)@,
            bullets@ == old(bullets)@,
            *next_id == *old(next_id),
            *ai_state == *old(ai_state),
            actor_ids_unique(actors@),
            actors_fresh(actors@, *next_id),
            bullet_ids_unique(bullets@),
            bullets_fresh(bullets@, *next_id),
            forall|i: int| 0 <= i < k ==> !(#[trigger] actors@[i].move_target is Some),
        decreases actors@.len() - k,
    {
        if actors[k].move_target.is_some() {
            proof {
                assert(any_forming_up(actors@));
            }
            return ;
        }
        k = k + 1;
    }
    proof {
        assert(!any_forming_up(actors@));
    }

    let nt = ai_state.move_timer - dt;
    if nt <= 0 {
        ai_state.moving_left = !ai_state.moving_left;
        ai_state.move_timer = ENEMY_MOVE_DURATION;
    } else {
        ai_state.move_timer = nt;
    }
    let moving_left = ai_state.moving_left;

    let ghost base = *next_id;
    let mut n: usize = 0;
    while n < actors.len()
        invariant
            n <= actors@.len(),
            0 <= dt <= 60000,
            actors@.len() == old(actors)@.len(),
            valid_fire_rolls(rolls@, old(actors)@.len() as int),
            forall|i: int| 0 <= i < old(actors)@.len() && #[trigger] old(actors)@[i].enemy is Some
                ==> -TIMER_LIMIT <= old(actors)@[i].enemy->Some_0.shot_cooldown_timer
                <= TIMER_LIMIT,
            forall|i: int| n <= i < actors@.len() ==> actors@[i] == old(actors)@[i],
            forall|i: int| 0 <= i < n ==> actors@[i] == spec_enemy_tick(
                old(actors)@[i],
                moving_left,
                dt,
                rolls@[i],
            ),
            bullets@ == old(bullets)@ + spec_fired_bullets(
                old(actors)@,
                dt,
                rolls@,
                base as int,
                n as int,
            ),
            *next_id == base + spec_fired_bullets(
                old(actors)@,
                dt,
                rolls@,
                base as int,
                n as int,
            ).len(),
            base + old(actors)@.len() <= u64::MAX,
            bullet_ids_unique(bullets@),
            bullets_fresh(bullets@, *next_id),
        decreases actors@.len() - n,
    {
        proof {
            lemma_fired_bullets_len(old(actors)@, dt, rolls@, base as int, n as int);
        }
        let a = actors[n];
        proof {
            assert(a == old(actors)@[n as int]);
        }
        if let Some(e) = a.enemy {
            let t = e.shot_cooldown_timer - dt;
            let roll = rolls[n];
            let timer = if t <= 0 {
                if roll.roll < ENEMY_FIRE_PROBABILITY {
                    spawn_bullet(bullets, next_id, a.position, Faction::Enemy);
                    proof {
                        let pre = spec_fired_bullets(
                            old(actors)@,
                            dt,
                            rolls@,
                            base as int,
                            n as int,
                        );
                        assert(old(bullets)@ + pre.push(
                            spec_bullet((base + pre.len()) as u64, a.position, Faction::Enemy),
                        ) =~= (old(bullets)@ + pre).push(
                            spec_bullet((base + pre.len()) as u64, a.position, Faction::Enemy),
                        ));
                    }
                }
                roll.next_cooldown
            } else {
                t
            };
            let vx = if moving_left {
                -ENEMY_MOVE_VELOCITY
            } else {
                ENEMY_MOVE_VELOCITY
            };
            actors[n] = Actor {
                velocity: Vec3 { x: vx, y: a.velocity.y, z: a.velocity.z },
                enemy: Some(Enemy { shot_cooldown_timer: timer }),
                ..a
            };
        }
        n = n + 1;
    }
    proof {
        assert forall|i: int| 0 <= i < actors@.len() implies actors@[i].id == old(actors)@[i].id
            by {
            assert(actors@[i] == spec_enemy_tick(old(actors)@[i], moving_left, dt, rolls@[i]));
        }
    }
}

pub proof fn lemma_catalog_in_grid(wave: int)
    ensures
        catalog_enemies(wave).len() <= 30,
        forall|k: int| 0 <= k < catalog_enemies(wave).len() ==> template_in_grid(
            #[trigger] catalog_enemies(wave)[k],
        ),
{
    assert forall|k: int| 0 <= k < catalog_enemies(wave).len() implies template_in_grid(
        #[trigger] catalog_enemies(wave)[k],
    ) by {
        if wave == 0 {
            vstd::arithmetic::div_mod::lemma_fundamental_div_mod(k, 3);
            vstd::arithmetic::div_mod::lemma_mod_division_less_than_divisor(k, 3);
        } else {
            vstd::arithmetic::div_mod::lemma_fundamental_div_mod(k, 5);
            vstd::arithmetic::div_mod::lemma_mod_division_less_than_divisor(k, 5);
        }
    }
}

/// Population-driven wave advancement, with the spawn draws for a
/// possible next wave supplied by the caller.
///
/// While any enemy is alive, nothing changes.  Once the enemy population
/// is empty the wave index advances exactly once and a new-wave event is
/// emitted; if the catalog still has a wave at the new index it is
/// spawned, otherwise the run is complete and the session leaves combat.
pub fn change_wave_with(
    actors: &mut Vec<Actor>,
    next_id: &mut u64,
    ai_state: &mut EnemyAIState,
    game_state: &mut GameState,
    wave_events: &mut Vec<NewWaveEvent>,
    draws: &Vec<SpawnDraw>,
)
    requires
        actor_ids_unique(old(actors)@),
        actors_fresh(old(actors)@, *old(next_id)),
        old(ai_state).current_wave < u32::MAX,
        valid_spawn_draws(draws@, 30),
        *old(next_id) + 30 <= u64::MAX,
    ensures
        any_enemy(old(actors)@) ==> final(actors)@ == old(actors)@
            && *final(next_id) == *old(next_id)
            && *final(ai_state) == *old(ai_state)
            && *final(game_state) == *old(game_state)
            && final(wave_events)@ == old(wave_events)@,
        !any_enemy(old(actors)@) ==> {
            &&& final(ai_state).current_wave == old(ai_state).current_wave + 1
            &&& final(ai_state).move_timer == old(ai_state).move_timer
            &&& final(ai_state).moving_left == old(ai_state).moving_left
            &&& final(wave_events)@ == old(wave_events)@.push(
                NewWaveEvent { wave: (old(ai_state).current_wave + 1) as u32 },
            )
            &&& if old(ai_state).current_wave + 1 >= 2 {
                &&& *final(game_state) == GameState::Menu
                &&& final(actors)@ == old(actors)@
                &&& *final(next_id) == *old(next_id)
            } else {
                let wave = catalog_enemies(old(ai_state).current_wave + 1);
                &&& *final(game_state) == *old(game_state)
                &&& final(actors)@.len() == old(actors)@.len() + wave.len()
                &&& (forall|k: int| 0 <= k < old(actors)@.len() ==> final(actors)@[k]
                    == old(actors)@[k])
                &&& (forall|k: int| 0 <= k < wave.len() ==> final(actors)@[old(actors)@.len()
                    + k] == spec_spawned_enemy((*old(next_id) + k) as u64, wave[k], draws@[k]))
                &&& *final(next_id) == *old(next_id) + wave.len()
            }
        },
        actor_ids_unique(final(actors)@),
        actors_fresh(final(actors)@, *final(next_id)),
{
    let mut k: usize = 0;
    while k < actors.len()
        invariant
            k <= actors@.len(),
            actors@ == old(actors)@,
            *next_id == *old(next_id),
            *ai_state == *old(ai_state),
            *game_state == *old(game_state),
            wave_events@ == old(wave_events)@,
            actor_ids_unique(actors@),
            actors_fresh(actors@, *next_id),
            forall|i: int| 0 <= i < k ==> !(#[trigger] actors@[i].enemy is Some),
        decreases actors@.len() - k,
    {
        if actors[k].enemy.is_some() {
            proof {
                assert(any_enemy(actors@));
            }
            return ;
        }
        k = k + 1;
    }
    proof {
        assert(!any_enemy(actors@));
    }

    let waves = get_waves();
    ai_state.current_wave = ai_state.current_wave + 1;
    wave_events.push(NewWaveEvent { wave: ai_state.current_wave });
    if ai_state.current_wave >= 2 {
        *game_state = GameState::Menu;
        return ;
    }
    let wave = &waves[ai_state.current_wave as usize];
    proof {
        assert(wave.enemies@ == catalog_enemies(old(ai_state).current_wave + 1));
        lemma_catalog_in_grid(old(ai_state).current_wave + 1);
    }
    spawn_wave_from(actors, next_id, wave, draws);
}

/// The actors among the first `n` of `s` that are not enemies, in order:
/// what wave teardown leaves alive.
pub open spec fn retained_non_enemies(s: Seq<Actor>, n: int) -> Seq<Actor>
    decreases n,
{
    if n <= 0 {
        Seq::empty()
    } else {
        let pre = retained_non_enemies(s, n - 1);
        if s[n - 1].enemy is Some {
            pre
        } else {
            pre.push(s[n - 1])
        }
    }
}

pub proof fn lemma_retained_non_enemies_unique(s: Seq<Actor>, n: int)
    requires
        actor_ids_unique(s),
        0 <= n <= s.len(),
    ensures
        actor_ids_unique(retained_non_enemies(s, n)),
        forall|j: int| 0 <= j < retained_non_enemies(s, n).len() ==> exists|k: int|
            0 <= k < n && #[trigger] retained_non_enemies(s, n)[j] == s[k],
    decreases n,
{
    if n > 0 {
        lemma_retained_non_enemies_unique(s, n - 1);
    }
}

/// Session teardown for the wave system: despawn every enemy
/// unconditionally.
pub fn destroy_enemies(actors: &mut Vec<Actor>)
    requires
        actor_ids_unique(old(actors)@),
    ensures
        final(actors)@ == retained_non_enemies(old(actors)@, old(actors)@.len() as int),
        actor_ids_unique(final(actors)@),
        forall|i: int| 0 <= i < final(actors)@.len() ==> !(#[trigger] final(actors)@[i].enemy
            is Some),
        !any_enemy(final(actors)@),
        forall|j: int| 0 <= j < final(actors)@.len() ==> exists|k: int|
            0 <= k < old(actors)@.len() && #[trigger] final(actors)@[j] == old(actors)@[k],
{
    let mut kept: Vec<Actor> = Vec::new();
    let mut n: usize = 0;
    while n < actors.len()
        invariant
            n <= actors@.len(),
            actors@ == old(actors)@,
            kept@ == retained_non_enemies(actors@, n as int),
            forall|i: int| 0 <= i < kept@.len() ==> !(#[trigger] kept@[i].enemy is Some),
        decreases actors@.len() - n,
    {
        let a = actors[n];
        if a.enemy.is_none() {
            kept.push(a);
        }
        n = n + 1;
    }
    proof {
        lemma_retained_non_enemies_unique(actors@, actors@.len() as int);
    }
    *actors = kept;
}

/// Session teardown for the patrol state: back to the initial values.
pub fn reset_ai_state(ai_state: &mut EnemyAIState)
    ensures
        *final(ai_state) == EnemyAIState::spec_default(),
{
    *ai_state = EnemyAIState::default();
}

/// `post` is `pre` with the wave at catalog index `wave` appended, spawned
/// under `draws`.
pub open spec fn wave_spawned_with(
    pre: Seq<Actor>,
    pre_id: u64,
    wave: int,
    post: Seq<Actor>,
    post_id: u64,
    draws: Seq<SpawnDraw>,
) -> bool {
    &&& valid_spawn_draws(draws, catalog_enemies(wave).len() as int)
    &&& post.len() == pre.len() + catalog_enemies(wave).len()
    &&& (forall|k: int| 0 <= k < pre.len() ==> post[k] == pre[k])
    &&& (forall|k: int| 0 <= k < catalog_enemies(wave).len() ==> post[pre.len() + k]
        == spec_spawned_enemy((pre_id + k) as u64, catalog_enemies(wave)[k], draws[k]))
    &&& post_id == pre_id + catalog_enemies(wave).len()
}

/// Spawn the wave at a catalog index, drawing its jitters and cooldowns
/// from the random source.
pub fn spawn_wave(actors: &mut Vec<Actor>, next_id: &mut u64, wave_id: usize)
    requires
        wave_id < 2,
        actor_ids_unique(old(actors)@),
        actors_fresh(old(actors)@, *old(next_id)),
        *old(next_id) + 30 <= u64::MAX,
    ensures
        exists|draws: Seq<SpawnDraw>| #[trigger] wave_spawned_with(
            old(actors)@,
            *old(next_id),
            wave_id as int,
            final(actors)@,
            *final(next_id),
            draws,
        ),
        actor_ids_unique(final(actors)@),
        actors_fresh(final(actors)@, *final(next_id)),
{
    let waves = get_waves();
    let wave = &waves[wave_id];
    let mut draws: Vec<SpawnDraw> = Vec::new();
    let mut n: usize = 0;
    while n < wave.enemies.len()
        invariant
            n <= wave.enemies@.len(),
            draws@.len() == n,
            forall|k: int| 0 <= k < n ==> valid_spawn_draw(#[trigger] draws@[k]),
        decreases wave.enemies@.len() - n,
    {
        draws.push(
            SpawnDraw {
                jitter_x: crate::rng::sample_range(SPAWN_JITTER_X_MIN, SPAWN_JITTER_X_MAX),
                jitter_z: crate::rng::sample_range(SPAWN_JITTER_Z_MIN, SPAWN_JITTER_Z_MAX),
                cooldown: crate::rng::sample_range_inclusive(
                    ENEMY_COOLDOWN_MIN,
                    ENEMY_COOLDOWN_MAX,
                ),
            },
        );
        n = n + 1;
    }
    proof {
        lemma_catalog_in_grid(wave_id as int);
        assert(wave.enemies@ == catalog_enemies(wave_id as int));
    }
    spawn_wave_from(actors, next_id, wave, &draws);
    proof {
        assert(wave_spawned_with(
            old(actors)@,
            *old(next_id),
            wave_id as int,
            actors@,
            *next_id,
            draws@,
        ));
    }
}

/// `post` is `pre` after one patrol/fire tick under `rolls`.
pub open spec fn enemies_updated_with(
    pre_actors: Seq<Actor>,
    pre_bullets: Seq<BulletEnt>,
    pre_id: u64,
    pre_ai: EnemyAIState,
    post_actors: Seq<Actor>,
    post_bullets: Seq<BulletEnt>,
    post_id: u64,
    post_ai: EnemyAIState,
    dt: i64,
    rolls: Seq<FireRoll>,
) -> bool {
    &&& valid_fire_rolls(rolls, pre_actors.len() as int)
    &&& if any_forming_up(pre_actors) {
        &&& post_actors == pre_actors
        &&& post_bullets == pre_bullets
        &&& post_id == pre_id
        &&& post_ai == pre_ai
    } else {
        &&& post_ai == spec_patrol_step(pre_ai, dt)
        &&& post_actors.len() == pre_actors.len()
        &&& (forall|i: int| 0 <= i < pre_actors.len() ==> post_actors[i] == spec_enemy_tick(
            pre_actors[i],
            spec_patrol_step(pre_ai, dt).moving_left,
            dt,
            rolls[i],
        ))
        &&& post_bullets == pre_bullets + spec_fired_bullets(
            pre_actors,
            dt,
            rolls,
            pre_id as int,
            pre_actors.len() as int,
        )
        &&& post_id == pre_id + spec_fired_bullets(
            pre_actors,
            dt,
            rolls,
            pre_id as int,
            pre_actors.len() as int,
        ).len()
    }
}

/// One tick of the shared patrol and per-enemy fire control, drawing the
/// fire rolls from the random source.
pub fn update_enemies(
    actors: &mut Vec<Actor>,
    bullets: &mut Vec<BulletEnt>,
    next_id: &mut u64,
    ai_state: &mut EnemyAIState,
    dt: i64,
)
    requires
        0 <= dt <= 60000,
        actor_ids_unique(old(actors)@),
        actors_fresh(old(actors)@, *old(next_id)),
        bullet_ids_unique(old(bullets)@),
        bullets_fresh(old(bullets)@, *old(next_id)),
        *old(next_id) + old(actors)@.len() <= u64::MAX,
        -TIMER_LIMIT <= old(ai_state).move_timer <= TIMER_LIMIT,
        forall|i: int| 0 <= i < old(actors)@.len() && #[trigger] old(actors)@[i].enemy is Some
            ==> -TIMER_LIMIT <= old(actors)@[i].enemy->Some_0.shot_cooldown_timer <= TIMER_LIMIT,
    ensures
        exists|rolls: Seq<FireRoll>| #[trigger] enemies_updated_with(
            old(actors)@,
            old(bullets)@,
            *old(next_id),
            *old(ai_state),
            final(actors)@,
            final(bullets)@,
            *final(next_id),
            *final(ai_state),
            dt,
            rolls,
        ),
        actor_ids_unique(final(actors)@),
        actors_fresh(final(actors)@, *final(next_id)),
        bullet_ids_unique(final(bullets)@),
        bullets_fresh(final(bullets)@, *final(next_id)),
{
    let mut rolls: Vec<FireRoll> = Vec::new();
    let mut n: usize = 0;
    while n < actors.len()
        invariant
            n <= actors@.len(),
            actors@ == old(actors)@,
            bullets@ == old(bullets)@,
            *next_id == *old(next_id),
            *ai_state == *old(ai_state),
            rolls@.len() == n,
            forall|k: int| 0 <= k < n ==> valid_fire_roll(#[trigger] rolls@[k]),
        decreases actors@.len() - n,
    {
        rolls.push(
            FireRoll {
                roll: crate::rng::sample_range(0, 1000),
                next_cooldown: crate::rng::sample_range_inclusive(
                    ENEMY_COOLDOWN_MIN,
                    ENEMY_COOLDOWN_MAX,
                ),
            },
        );
        n = n + 1;
    }
    update_enemies_with(actors, bullets, next_id, ai_state, dt, &rolls);
    proof {
        assert(enemies_updated_with(
            old(actors)@,
            old(bullets)@,
            *old(next_id),
            *old(ai_state),
            actors@,
            bullets@,
            *next_id,
            *ai_state,
            dt,
            rolls@,
        ));
    }
}

/// Population-driven wave advancement, drawing any needed spawn jitters
/// from the random source.
pub fn change_wave(
    actors: &mut Vec<Actor>,
    next_id: &mut u64,
    ai_state: &mut EnemyAIState,
    game_state: &mut GameState,
    wave_events: &mut Vec<NewWaveEvent>,
)
    requires
        actor_ids_unique(old(actors)@),
        actors_fresh(old(actors)@, *old(next_id)),
        old(ai_state).current_wave < u32::MAX,
        *old(next_id) + 30 <= u64::MAX,
    ensures
        any_enemy(old(actors)@) ==> final(actors)@ == old(actors)@
            && *final(next_id) == *old(next_id)
            && *final(ai_state) == *old(ai_state)
            && *final(game_state) == *old(game_state)
            && final(wave_events)@ == old(wave_events)@,
        !any_enemy(old(actors)@) ==> {
            &&& final(ai_state).current_wave == old(ai_state).current_wave + 1
            &&& final(ai_state).move_timer == old(ai_state).move_timer
            &&& final(ai_state).moving_left == old(ai_state).moving_left
            &&& final(wave_events)@ == old(wave_events)@.push(
                NewWaveEvent { wave: (old(ai_state).current_wave + 1) as u32 },
            )
            &&& if old(ai_state).current_wave + 1 >= 2 {
                &&& *final(game_state) == GameState::Menu
                &&& final(actors)@ == old(actors)@
                &&& *final(next_id) == *old(next_id)
            } else {
                &&& *final(game_state) == *old(game_state)
                &&& exists|draws: Seq<SpawnDraw>| #[trigger] wave_spawned_with(
                    old(actors)@,
                    *old(next_id),
                    old(ai_state).current_wave + 1,
                    final(actors)@,
                    *final(next_id),
                    draws,
                )
            }
        },
        actor_ids_unique(final(actors)@),
        actors_fresh(final(actors)@, *final(next_id)),
{
    let mut draws: Vec<SpawnDraw> = Vec::new();
    let mut n: usize = 0;
    while n < 30
        invariant
            n <= 30,
            actors@ == old(actors)@,
            *next_id == *old(next_id),
            *ai_state == *old(ai_state),
            *game_state == *old(game_state),
            wave_events@ == old(wave_events)@,
            draws@.len() == n,
            forall|k: int| 0 <= k < n ==> valid_spawn_draw(#[trigger] draws@[k]),
        decreases 30 - n,
    {
        draws.push(
            SpawnDraw {
                jitter_x: crate::rng::sample_range(SPAWN_JITTER_X_MIN, SPAWN_JITTER_X_MAX),
                jitter_z: crate::rng::sample_range(SPAWN_JITTER_Z_MIN, SPAWN_JITTER_Z_MAX),
                cooldown: crate::rng::sample_range_inclusive(
                    ENEMY_COOLDOWN_MIN,
                    ENEMY_COOLDOWN_MAX,
                ),
            },
        );
        n = n + 1;
    }
    change_wave_with(actors, next_id, ai_state, game_state, wave_events, &draws);
    proof {
        if !any_enemy(old(actors)@) && old(ai_state).current_wave + 1 < 2 {
            lemma_catalog_in_grid(old(ai_state).current_wave + 1);
            assert(wave_spawned_with(
                old(actors)@,
                *old(next_id),
                old(ai_state).current_wave + 1,
                actors@,
                *next_id,
                draws@,
            ));
        }
    }
}

/// Session start for the wave system: announce the starting wave index
/// and spawn the first wave of the catalog.
pub fn init_enemy_waves(
    actors: &mut Vec<Actor>,
    next_id: &mut u64,
    ai_state: &EnemyAIState,
    wave_events: &mut Vec<NewWaveEvent>,
)
    requires
        actor_ids_unique(old(actors)@),
        actors_fresh(old(actors)@, *old(next_id)),
        *old(next_id) + 30 <= u64::MAX,
    ensures
        final(wave_events)@ == old(wave_events)@.push(
            NewWaveEvent { wave: ai_state.current_wave },
        ),
        exists|draws: Seq<SpawnDraw>| #[trigger] wave_spawned_with(
            old(actors)@,
            *old(next_id),
            0,
            final(actors)@,
            *final(next_id),
            draws,
        ),
        actor_ids_unique(final(actors)@),
        actors_fresh(final(actors)@, *final(next_id)),
{
    wave_events.push(NewWaveEvent { wave: ai_state.current_wave });
    spawn_wave(actors, next_id, 0);
}

} // verus!
