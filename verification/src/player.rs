//! The player entity's own component and the per-tick player control
//! decision: movement, fire cooldown, and the power-up-driven shot pattern.

use vstd::prelude::*;
use crate::combat::{
    Actor, BulletEnt, Damageable, Faction, actor_ids_unique, actor_index, actors_fresh,
    bullet_ids_unique, bullets_fresh, find_actor, has_actor, lemma_actor_index_of,
    lemma_actor_unique_remove, lemma_actor_unique_update, spawn_bullet, spec_bullet,
};
use crate::geom::{COORD_LIMIT, Vec3, spec_add};
use crate::powerups::{Powerup, PowerupComponent};
use crate::state::GameState;
use crate::waves::TIMER_LIMIT;

verus! {

/// The player's control component: remaining lives, the running fire
/// cooldown and the value it is reset to after a shot (milli-seconds).
#[derive(Clone, Copy, PartialEq, Eq, Structural, Debug)]
pub struct Player {
    pub lives: u32,
    pub bullet_cooldown: i64,
    pub bullet_cooldown_timer: i64,
}

/// The player's inputs for one tick, already polled by the caller.
#[derive(Clone, Copy, PartialEq, Eq, Structural, Debug)]
pub struct InputState {
    pub left: bool,
    pub right: bool,
    pub shoot: bool,
}

/// Horizontal player speed, in milli-units per second.
pub const PLAYER_MOVE_SPEED: i64 = 3000;

/// The player's starting health pool.
pub const PLAYER_START_HEALTH: u32 = 5;

/// The player's starting lives.
pub const PLAYER_START_LIVES: u32 = 3;

/// Fire cooldown after a shot, in milli-seconds.
pub const PLAYER_FIRE_COOLDOWN: i64 = 250;

/// Some live actor carries the player component.
pub open spec fn has_player_actor(s: Seq<Actor>) -> bool {
    exists|i: int| 0 <= i < s.len() && s[i].player is Some
}

pub open spec fn player_actor_index(s: Seq<Actor>) -> int {
    choose|i: int| 0 <= i < s.len() && s[i].player is Some
}

/// At most one live actor carries the player component.
pub open spec fn one_player(s: Seq<Actor>) -> bool {
    forall|i: int, j: int| 0 <= i < s.len() && 0 <= j < s.len() && s[i].player is Some
        && s[j].player is Some ==> i == j
}

pub proof fn lemma_player_index_of(s: Seq<Actor>, i: int)
    requires
        one_player(s),
        0 <= i < s.len(),
        s[i].player is Some,
    ensures
        has_player_actor(s),
        player_actor_index(s) == i,
{
    assert(has_player_actor(s));
    let j = player_actor_index(s);
    assert(0 <= j < s.len() && s[j].player is Some);
}

/// Look up the player entity; degrades to `None` when it was despawned.
pub fn find_player_actor(actors: &Vec<Actor>) -> (r: Option<usize>)
    ensures
        match r {
            Some(i) => 0 <= i < actors@.len() && actors@[i as int].player is Some,
            None => !has_player_actor(actors@),
        },
{
    let mut n: usize = 0;
    while n < actors.len()
        invariant
            n <= actors@.len(),
            forall|k: int| 0 <= k < n ==> !(#[trigger] actors@[k].player is Some),
        decreases actors@.len() - n,
    {
        if actors[n].player.is_some() {
            return Some(n);
        }
        n = n + 1;
    }
    None
}

/// How many bullets the player's next shot spawns: one with no power-up,
/// two with DoubleShot, three with TripleShot.
pub open spec fn spec_shot_pattern(p: Option<PowerupComponent>) -> int {
    match p {
        None => 1,
        Some(c) => match c.powerup {
            Powerup::DoubleShot => 2,
            Powerup::TripleShot => 3,
        },
    }
}

/// The lateral offsets (relative to the player) of the bullets one shot
/// spawns, decided by the active power-up.
pub open spec fn spec_shot_offsets(p: Option<PowerupComponent>) -> Seq<Vec3> {
    let front = Vec3 { x: 0, y: 0, z: (-500) as i64 };
    let left = Vec3 { x: (-200) as i64, y: 0, z: 0 };
    let right = Vec3 { x: 200, y: 0, z: 0 };
    match p {
        None => seq![front],
        Some(c) => match c.powerup {
            Powerup::DoubleShot => seq![front, left],
            Powerup::TripleShot => seq![front, left, right],
        },
    }
}

/// The player's shot pattern, derived from the active power-up.
pub fn current_shot_pattern(powerup: &Option<PowerupComponent>) -> (n: u32)
    ensures
        n == spec_shot_pattern(*powerup),
        n == spec_shot_offsets(*powerup).len(),
{
    match powerup {
        None => 1,
        Some(c) => match c.powerup {
            Powerup::DoubleShot => 2,
            Powerup::TripleShot => 3,
        },
    }
}

/// Whether the player fires this tick: the shoot input is held and the
/// cooldown window is open.
pub open spec fn spec_player_fires(a: Actor, input: InputState) -> bool {
    &&& a.player is Some
    &&& a.player->Some_0.bullet_cooldown <= 0
    &&& input.shoot
}

/// The player actor after one control tick: moved sideways by the held
/// inputs, with the fire cooldown reset on a shot, held while closed, and
/// wound down otherwise.
pub open spec fn spec_player_tick(a: Actor, input: InputState, dt: i64) -> Actor {
    let p = a.player->Some_0;
    let step = PLAYER_MOVE_SPEED * dt / 1000;
    let x1 = if input.left {
        a.position.x - step
    } else {
        a.position.x as int
    };
    let x2 = if input.right {
        x1 + step
    } else {
        x1
    };
    let can_shoot = p.bullet_cooldown <= 0;
    let cd = if can_shoot && input.shoot {
        p.bullet_cooldown_timer
    } else if can_shoot {
        p.bullet_cooldown
    } else {
        (p.bullet_cooldown - dt) as i64
    };
    Actor {
        position: Vec3 { x: x2 as i64, y: a.position.y, z: a.position.z },
        player: Some(
            Player {
                lives: p.lives,
                bullet_cooldown: cd,
                bullet_cooldown_timer: p.bullet_cooldown_timer,
            },
        ),
        ..a
    }
}

/// The bullets one control tick spawns: on a shot, one bullet per shot
/// offset, at the player's moved position, with consecutive fresh ids.
pub open spec fn spec_player_bullets(a: Actor, input: InputState, dt: i64, base: int) -> Seq<
    BulletEnt,
> {
    if spec_player_fires(a, input) {
        let pos = spec_player_tick(a, input, dt).position;
        let offs = spec_shot_offsets(a.powerup);
        Seq::new(
            offs.len(),
            |k: int| spec_bullet((base + k) as u64, spec_add(pos, offs[k]), Faction::Player),
        )
    } else {
        Seq::empty()
    }
}

/// One tick of player control: sideways movement, the fire cooldown, and
/// shot spawning under the active power-up's pattern.
///
/// With no player registered nothing happens; with a registered player
/// entity that was despawned since, the session falls back to the menu.
pub fn player_controls(
    actors: &mut Vec<Actor>,
    bullets: &mut Vec<BulletEnt>,
    next_id: &mut u64,
    player_id: Option<u64>,
    game_state: &mut GameState,
    input: InputState,
    dt: i64,
)
    requires
        0 <= dt <= 60000,
        actor_ids_unique(old(actors)@),
        actors_fresh(old(actors)@, *old(next_id)),
        bullet_ids_unique(old(bullets)@),
        bullets_fresh(old(bullets)@, *old(next_id)),
        *old(next_id) + 3 <= u64::MAX,
        forall|i: int| 0 <= i < old(actors)@.len() ==> (#[trigger] old(actors)@[i].position)
            .in_bounds(COORD_LIMIT),
        forall|i: int| 0 <= i < old(actors)@.len() && #[trigger] old(actors)@[i].player is Some
            ==> -TIMER_LIMIT <= old(actors)@[i].player->Some_0.bullet_cooldown <= TIMER_LIMIT,
    ensures
        match player_id {
            None => final(actors)@ == old(actors)@ && final(bullets)@ == old(bullets)@
                && *final(next_id) == *old(next_id) && *final(game_state) == *old(game_state),
            Some(pid) => if has_actor(old(actors)@, pid) && old(actors)@[actor_index(
                old(actors)@,
                pid,
            )].player is Some {
                let i = actor_index(old(actors)@, pid);
                let a = old(actors)@[i];
                &&& final(actors)@ == old(actors)@.update(i, spec_player_tick(a, input, dt))
                &&& final(bullets)@ == old(bullets)@ + spec_player_bullets(
                    a,
                    input,
                    dt,
                    *old(next_id) as int,
                )
                &&& *final(next_id) == *old(next_id) + spec_player_bullets(
                    a,
                    input,
                    dt,
                    *old(next_id) as int,
                ).len()
                &&& *final(game_state) == *old(game_state)
            } else {
                &&& final(actors)@ == old(actors)@
                &&& final(bullets)@ == old(bullets)@
                &&& *final(next_id) == *old(next_id)
                &&& *final(game_state) == GameState::Menu
            },
        },
        actor_ids_unique(final(actors)@),
        actors_fresh(final(actors)@, *final(next_id)),
        bullet_ids_unique(final(bullets)@),
        bullets_fresh(final(bullets)@, *final(next_id)),
{
    let pid = match player_id {
        None => {
            return ;
        },
        Some(p) => p,
    };
    let i = match find_actor(actors, pid) {
        None => {
            *game_state = GameState::Menu;
            return ;
        },
        Some(i) => i,
    };
    proof {
        lemma_actor_index_of(actors@, pid, i as int);
    }
    let a = actors[i];
    let p = match a.player {
        None => {
            *game_state = GameState::Menu;
            return ;
        },
        Some(p) => p,
    };

    let step = PLAYER_MOVE_SPEED * dt / 1000;
    let mut x = a.position.x;
    if input.left {
        x = x - step;
    }
    if input.right {
        x = x + step;
    }

    let can_shoot = p.bullet_cooldown <= 0;
    let fires = can_shoot && input.shoot;
    let cd = if fires {
        p.bullet_cooldown_timer
    } else if can_shoot {
        p.bullet_cooldown
    } else {
        p.bullet_cooldown - dt
    };
    let moved = Actor {
        position: Vec3 { x, y: a.position.y, z: a.position.z },
        player: Some(
            Player {
                lives: p.lives,
                bullet_cooldown: cd,
                bullet_cooldown_timer: p.bullet_cooldown_timer,
            },
        ),
        ..a
    };
    proof {
        assert(moved == spec_player_tick(a, input, dt));
        lemma_actor_unique_update(actors@, i as int, moved);
    }
    actors[i] = moved;

    if fires {
        let mut offs: Vec<Vec3> = Vec::new();
        offs.push(Vec3 { x: 0, y: 0, z: -500 });
        match a.powerup {
            None => {},
            Some(c) => match c.powerup {
                Powerup::DoubleShot => {
                    offs.push(Vec3 { x: -200, y: 0, z: 0 });
                },
                Powerup::TripleShot => {
                    offs.push(Vec3 { x: -200, y: 0, z: 0 });
                    offs.push(Vec3 { x: 200, y: 0, z: 0 });
                },
            },
        }
        proof {
            assert(offs@ =~= spec_shot_offsets(a.powerup));
        }
        let ghost base = *next_id;
        let ghost to_spawn = spec_player_bullets(a, input, dt, base as int);
        let mut k: usize = 0;
        while k < offs.len()
            invariant
                k <= offs@.len(),
                offs@ == spec_shot_offsets(a.powerup),
                to_spawn == spec_player_bullets(a, input, dt, base as int),
                to_spawn.len() == offs@.len(),
                moved.position.in_bounds((COORD_LIMIT + 180000) as i64),
                forall|m: int| 0 <= m < offs@.len() ==> (#[trigger] offs@[m]).in_bounds(500),
                forall|m: int| 0 <= m < offs@.len() ==> to_spawn[m] == spec_bullet(
                    (base + m) as u64,
                    spec_add(moved.position, offs@[m]),
                    Faction::Player,
                ),
                *next_id == base + k,
                base + offs@.len() <= u64::MAX,
                bullets@ == old(bullets)@ + to_spawn.take(k as int),
                bullet_ids_unique(bullets@),
                bullets_fresh(bullets@, *next_id),
            decreases offs@.len() - k,
        {
            let off = offs[k];
            let pos = Vec3 {
                x: moved.position.x + off.x,
                y: moved.position.y + off.y,
                z: moved.position.z + off.z,
            };
            spawn_bullet(bullets, next_id, pos, Faction::Player);
            proof {
                assert(to_spawn.take(k + 1) =~= to_spawn.take(k as int).push(to_spawn[k as int]));
                assert(old(bullets)@ + to_spawn.take(k as int).push(to_spawn[k as int]) =~= (old(
                    bullets,
                )@ + to_spawn.take(k as int)).push(to_spawn[k as int]));
            }
            k = k + 1;
        }
        proof {
            assert(to_spawn.take(to_spawn.len() as int) =~= to_spawn);
        }
    }
}

/// One per-actor damage slot: the despawn of the old player on session
/// restart.
pub open spec fn spec_despawned(s: Seq<Actor>, pid: Option<u64>) -> Seq<Actor> {
    match pid {
        None => s,
        Some(id) => if has_actor(s, id) {
            s.remove(actor_index(s, id))
        } else {
            s
        },
    }
}

/// The fresh player entity a new session starts with.
pub open spec fn spec_player_actor(id: u64) -> Actor {
    Actor {
        id,
        damageable: Damageable { health: PLAYER_START_HEALTH, faction: Faction::Player },
        position: Vec3 { x: 0, y: 0, z: 7000 },
        velocity: Vec3::spec_zero(),
        player: Some(
            Player {
                lives: PLAYER_START_LIVES,
                bullet_cooldown: 0,
                bullet_cooldown_timer: PLAYER_FIRE_COOLDOWN,
            },
        ),
        enemy: None,
        move_target: None,
        powerup: None,
    }
}

/// Session start: reset the score, despawn a leftover player entity, and
/// spawn a fresh player.
pub fn setup_game_state(
    actors: &mut Vec<Actor>,
    next_id: &mut u64,
    player_id: &mut Option<u64>,
    score: &mut u32,
)
    requires
        actor_ids_unique(old(actors)@),
        actors_fresh(old(actors)@, *old(next_id)),
        *old(next_id) < u64::MAX,
    ensures
        *final(score) == 0,
        *final(player_id) == Some(*old(next_id)),
        *final(next_id) == *old(next_id) + 1,
        final(actors)@ == spec_despawned(old(actors)@, *old(player_id)).push(
            spec_player_actor(*old(next_id)),
        ),
        actor_ids_unique(final(actors)@),
        actors_fresh(final(actors)@, *final(next_id)),
{
    *score = 0;
    if let Some(pid) = *player_id {
        if let Some(i) = find_actor(actors, pid) {
            proof {
                lemma_actor_index_of(actors@, pid, i as int);
                lemma_actor_unique_remove(actors@, i as int);
                let t = actors@.remove(i as int);
                assert forall|m: int| 0 <= m < t.len() implies #[trigger] t[m].id < *next_id by {
                    let m0 = if m < i as int {
                        m
                    } else {
                        m + 1
                    };
                    assert(t[m] == actors@[m0]);
                }
            }
            let _old_player = actors.remove(i);
        }
    }
    let fresh = Actor {
        id: *next_id,
        damageable: Damageable { health: PLAYER_START_HEALTH, faction: Faction::Player },
        position: Vec3 { x: 0, y: 0, z: 7000 },
        velocity: Vec3::zero(),
        player: Some(
            Player {
                lives: PLAYER_START_LIVES,
                bullet_cooldown: 0,
                bullet_cooldown_timer: PLAYER_FIRE_COOLDOWN,
            },
        ),
        enemy: None,
        move_target: None,
        powerup: None,
    };
    actors.push(fresh);
    *player_id = Some(*next_id);
    *next_id = *next_id + 1;
}

/// Session teardown: despawn every bullet unconditionally.
pub fn destroy_entities(bullets: &mut Vec<BulletEnt>)
    ensures
        final(bullets)@.len() == 0,
{
    bullets.clear();
}

} // verus!
