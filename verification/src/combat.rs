//! Combat resolution: the shared health model, bullets, and the per-tick
//! resolution of collision pairs between damageable entities and bullets.

use vstd::prelude::*;
use crate::camera::CameraShakeEvent;
use crate::geom::Vec3;

verus! {

/// Ownership tag deciding valid damage targets: a faction's own
/// projectiles never harm its own entities.
#[derive(Clone, Copy, PartialEq, Eq, Structural, Debug)]
pub enum Faction {
    Player,
    Enemy,
}

/// Travel direction of a bullet along the depth axis.  `Forward` (player
/// fire) moves toward the enemy rows, in the negative depth direction;
/// `Backward` (enemy fire) moves toward the player.
#[derive(Clone, Copy, PartialEq, Eq, Structural, Debug)]
pub enum BulletDirection {
    Forward,
    Backward,
}

/// Anything with a health pool that bullets can reduce.
#[derive(Clone, Copy, PartialEq, Eq, Structural, Debug)]
pub struct Damageable {
    pub health: u32,
    pub faction: Faction,
}

/// Health after one saturating damage application: floors at 0,
/// never underflows.
pub open spec fn damage_result(health: u32, damage: u32) -> u32 {
    if damage >= health {
        0u32
    } else {
        (health - damage) as u32
    }
}

impl Damageable {
    /// Apply one hit with saturating subtraction.
    pub fn apply_damage(&mut self, damage: u32)
        ensures
            final(self).faction == old(self).faction,
            final(self).health == damage_result(old(self).health, damage),
    {
        if self.health >= damage {
            self.health = self.health - damage;
        } else {
            self.health = 0;
        }
    }
}

/// Health after a whole sequence of damage applications, first hit first.
pub open spec fn apply_damages(health: u32, damages: Seq<u32>) -> u32
    decreases damages.len(),
{
    if damages.len() == 0 {
        health
    } else {
        apply_damages(damage_result(health, damages[0]), damages.drop_first())
    }
}

/// The total of a sequence of damage values.
pub open spec fn total_damage(damages: Seq<u32>) -> int
    decreases damages.len(),
{
    if damages.len() == 0 {
        0
    } else {
        damages[0] + total_damage(damages.drop_first())
    }
}

pub proof fn lemma_total_damage_nonneg(damages: Seq<u32>)
    ensures
        total_damage(damages) >= 0,
    decreases damages.len(),
{
    if damages.len() != 0 {
        lemma_total_damage_nonneg(damages.drop_first());
    }
}

/// Law: health never underflows.  After any number of damage applications
/// the pool is still a natural number, and equals the starting health minus
/// the total damage, floored at zero.
pub proof fn lemma_health_never_negative(health: u32, damages: Seq<u32>)
    ensures
        apply_damages(health, damages) >= 0,
        apply_damages(health, damages) == if total_damage(damages) >= health {
            0int
        } else {
            health - total_damage(damages)
        },
    decreases damages.len(),
{
    if damages.len() != 0 {
        lemma_total_damage_nonneg(damages.drop_first());
        lemma_health_never_negative(damage_result(health, damages[0]), damages.drop_first());
    }
}

/// A projectile.  `speed` is in milli-units per second; `damage` is taken
/// from the target's health pool on a confirmed cross-faction hit.
#[derive(Clone, Copy, PartialEq, Eq, Structural, Debug)]
pub struct Bullet {
    pub faction: Faction,
    pub direction: BulletDirection,
    pub speed: i64,
    pub damage: u32,
}

/// Speed of every bullet, in milli-units per second.
pub const BULLET_SPEED: i64 = 7500;

/// Damage of every bullet.
pub const BULLET_DAMAGE: u32 = 1;

/// A bullet whose depth coordinate leaves `[-BULLET_BOUND, BULLET_BOUND]`
/// is retired.
pub const BULLET_BOUND: i64 = 20000;

/// Notification that a damageable entity died, consumed by the power-up
/// lifecycle (enemy deaths may drop a pickup).
#[derive(Clone, Copy, PartialEq, Eq, Structural, Debug)]
pub struct EntityDeath {
    pub position: Vec3,
    pub faction: Faction,
}

/// Notification that a hit landed; `is_large` when the hit was a kill.
#[derive(Clone, Copy, PartialEq, Eq, Structural, Debug)]
pub struct ParticleHitEffect {
    pub position: Vec3,
    pub is_large: bool,
}

/// Marker for the particle spawner that plays small (non-kill) hits.
#[derive(Clone, Copy, PartialEq, Eq, Structural, Debug)]
pub struct SmallHitEffect {}

/// Marker for the particle spawner that plays large (kill) hits.
#[derive(Clone, Copy, PartialEq, Eq, Structural, Debug)]
pub struct LargeHitEffect {}

/// Shake intensity emitted for a hit that kills (milli).
pub const KILL_SHAKE_INTENSITY: i64 = 1000;

/// Shake intensity emitted for a hit that does not kill (milli).
pub const HIT_SHAKE_INTENSITY: i64 = 500;

/// A damageable entity in the arena: the player or one enemy, with its
/// spatial state and optional components.
#[derive(Clone, Copy, PartialEq, Eq, Structural, Debug)]
pub struct Actor {
    pub id: u64,
    pub damageable: Damageable,
    pub position: Vec3,
    pub velocity: Vec3,
    pub player: Option<crate::player::Player>,
    pub enemy: Option<crate::waves::Enemy>,
    pub move_target: Option<crate::waves::MoveToTarget>,
    pub powerup: Option<crate::powerups::PowerupComponent>,
}

/// A live bullet entity.
#[derive(Clone, Copy, PartialEq, Eq, Structural, Debug)]
pub struct BulletEnt {
    pub id: u64,
    pub bullet: Bullet,
    pub position: Vec3,
}

/// One overlapping pair reported by the external collision collaborator
/// for this tick: a damageable entity and a bullet.
#[derive(Clone, Copy, PartialEq, Eq, Structural, Debug)]
pub struct CollisionPair {
    pub damageable: u64,
    pub bullet: u64,
}

pub open spec fn actor_ids_unique(s: Seq<Actor>) -> bool {
    forall|i: int, j: int| 0 <= i < j < s.len() ==> s[i].id != s[j].id
}

pub open spec fn actors_fresh(s: Seq<Actor>, next_id: u64) -> bool {
    forall|i: int| 0 <= i < s.len() ==> #[trigger] s[i].id < next_id
}

pub open spec fn bullet_ids_unique(s: Seq<BulletEnt>) -> bool {
    forall|i: int, j: int| 0 <= i < j < s.len() ==> s[i].id != s[j].id
}

pub open spec fn bullets_fresh(s: Seq<BulletEnt>, next_id: u64) -> bool {
    forall|i: int| 0 <= i < s.len() ==> #[trigger] s[i].id < next_id
}

pub open spec fn has_actor(s: Seq<Actor>, id: u64) -> bool {
    exists|i: int| 0 <= i < s.len() && s[i].id == id
}

pub open spec fn actor_index(s: Seq<Actor>, id: u64) -> int {
    choose|i: int| 0 <= i < s.len() && s[i].id == id
}

pub open spec fn has_bullet(s: Seq<BulletEnt>, id: u64) -> bool {
    exists|i: int| 0 <= i < s.len() && s[i].id == id
}

pub open spec fn bullet_index(s: Seq<BulletEnt>, id: u64) -> int {
    choose|i: int| 0 <= i < s.len() && s[i].id == id
}

pub proof fn lemma_actor_index_of(s: Seq<Actor>, id: u64, i: int)
    requires
        actor_ids_unique(s),
        0 <= i < s.len(),
        s[i].id == id,
    ensures
        has_actor(s, id),
        actor_index(s, id) == i,
{
    assert(has_actor(s, id));
    let j = actor_index(s, id);
    assert(0 <= j < s.len() && s[j].id == id);
}

pub proof fn lemma_bullet_index_of(s: Seq<BulletEnt>, id: u64, i: int)
    requires
        bullet_ids_unique(s),
        0 <= i < s.len(),
        s[i].id == id,
    ensures
        has_bullet(s, id),
        bullet_index(s, id) == i,
{
    assert(has_bullet(s, id));
    let j = bullet_index(s, id);
    assert(0 <= j < s.len() && s[j].id == id);
}

pub proof fn lemma_actor_unique_remove(s: Seq<Actor>, k: int)
    requires
        actor_ids_unique(s),
        0 <= k < s.len(),
    ensures
        actor_ids_unique(s.remove(k)),
        !has_actor(s.remove(k), s[k].id),
    decreases s.len(),
{
    let t = s.remove(k);
    assert forall|i: int, j: int| 0 <= i < j < t.len() implies t[i].id != t[j].id by {
        let i0 = if i < k { i } else { i + 1 };
        let j0 = if j < k { j } else { j + 1 };
        assert(t[i] == s[i0]);
        assert(t[j] == s[j0]);
    }
    assert forall|i: int| 0 <= i < t.len() implies t[i].id != s[k].id by {
        let i0 = if i < k { i } else { i + 1 };
        assert(t[i] == s[i0]);
    }
}

pub proof fn lemma_actor_unique_update(s: Seq<Actor>, k: int, a: Actor)
    requires
        actor_ids_unique(s),
        0 <= k < s.len(),
        a.id == s[k].id,
    ensures
        actor_ids_unique(s.update(k, a)),
{
}

pub proof fn lemma_bullet_unique_remove(s: Seq<BulletEnt>, k: int)
    requires
        bullet_ids_unique(s),
        0 <= k < s.len(),
    ensures
        bullet_ids_unique(s.remove(k)),
    decreases s.len(),
{
    let t = s.remove(k);
    assert forall|i: int, j: int| 0 <= i < j < t.len() implies t[i].id != t[j].id by {
        let i0 = if i < k { i } else { i + 1 };
        let j0 = if j < k { j } else { j + 1 };
        assert(t[i] == s[i0]);
        assert(t[j] == s[j0]);
    }
}

/// The bullet entity created by one spawn: it always flies at
/// `BULLET_SPEED` with `BULLET_DAMAGE`, toward the side opposing its
/// faction.
pub open spec fn spec_bullet(id: u64, translation: Vec3, faction: Faction) -> BulletEnt {
    BulletEnt {
        id,
        bullet: Bullet {
            faction,
            direction: if faction is Player {
                BulletDirection::Forward
            } else {
                BulletDirection::Backward
            },
            speed: BULLET_SPEED,
            damage: BULLET_DAMAGE,
        },
        position: translation,
    }
}

/// Spawn one bullet at `translation` for `faction`.  Always succeeds; the
/// new entity gets the next fresh id.
pub fn spawn_bullet(
    bullets: &mut Vec<BulletEnt>,
    next_id: &mut u64,
    translation: Vec3,
    faction: Faction,
)
    requires
        bullet_ids_unique(old(bullets)@),
        bullets_fresh(old(bullets)@, *old(next_id)),
        *old(next_id) < u64::MAX,
    ensures
        final(bullets)@ == old(bullets)@.push(
            spec_bullet(*old(next_id), translation, faction),
        ),
        *final(next_id) == *old(next_id) + 1,
        bullet_ids_unique(final(bullets)@),
        bullets_fresh(final(bullets)@, *final(next_id)),
{
    let direction = if let Faction::Player = faction {
        BulletDirection::Forward
    } else {
        BulletDirection::Backward
    };
    bullets.push(
        BulletEnt {
            id: *next_id,
            bullet: Bullet { faction, direction, speed: BULLET_SPEED, damage: BULLET_DAMAGE },
            position: translation,
        },
    );
    *next_id = *next_id + 1;
}

/// A bullet after one tick of travel: the depth coordinate moves by
/// `speed * dt / 1000`, forward bullets toward negative depth.
pub open spec fn spec_bullet_step(b: BulletEnt, dt: i64) -> BulletEnt {
    let step = b.bullet.speed * dt / 1000;
    BulletEnt {
        id: b.id,
        bullet: b.bullet,
        position: Vec3 {
            x: b.position.x,
            y: b.position.y,
            z: if b.bullet.direction is Forward {
                (b.position.z - step) as i64
            } else {
                (b.position.z + step) as i64
            },
        },
    }
}

/// Advance every live bullet by one tick.  Pure position mutation.
pub fn bullet_controls(bullets: &mut Vec<BulletEnt>, dt: i64)
    requires
        0 <= dt <= 60000,
        forall|i: int| 0 <= i < old(bullets)@.len() ==> (
            #[trigger] old(bullets)@[i].bullet.speed >= 0
            && old(bullets)@[i].bullet.speed <= 100000
            && old(bullets)@[i].position.z >= -1000000000000
            && old(bullets)@[i].position.z <= 1000000000000
        ),
    ensures
        final(bullets)@.len() == old(bullets)@.len(),
        forall|i: int| 0 <= i < old(bullets)@.len() ==> final(bullets)@[i]
            == spec_bullet_step(old(bullets)@[i], dt),
{
    let mut n: usize = 0;
    while n < bullets.len()
        invariant
            0 <= dt <= 60000,
            n <= bullets@.len(),
            bullets@.len() == old(bullets)@.len(),
            forall|i: int| 0 <= i < bullets@.len() ==> (
                #[trigger] old(bullets)@[i].bullet.speed >= 0
                && old(bullets)@[i].bullet.speed <= 100000
                && old(bullets)@[i].position.z >= -1000000000000
                && old(bullets)@[i].position.z <= 1000000000000
            ),
            forall|i: int| n <= i < bullets@.len() ==> bullets@[i] == old(bullets)@[i],
            forall|i: int| 0 <= i < n ==> bullets@[i] == spec_bullet_step(old(bullets)@[i], dt),
        decreases bullets@.len() - n,
    {
        let b = bullets[n];
        proof {
            assert(b == old(bullets)@[n as int]);
            assert(b.bullet.speed * dt <= 100000 * 60000 && b.bullet.speed * dt >= 0)
                by (nonlinear_arith)
                requires
                    0 <= b.bullet.speed <= 100000,
                    0 <= dt <= 60000,
            ;
        }
        let step = b.bullet.speed * dt / 1000;
        let z = if let BulletDirection::Forward = b.bullet.direction {
            b.position.z - step
        } else {
            b.position.z + step
        };
        bullets[n] = BulletEnt {
            id: b.id,
            bullet: b.bullet,
            position: Vec3 { x: b.position.x, y: b.position.y, z },
        };
        n = n + 1;
    }
}

/// A bullet stays in play while its depth coordinate is within the
/// playfield bound.
pub open spec fn bullet_in_play(b: BulletEnt) -> bool {
    -BULLET_BOUND <= b.position.z <= BULLET_BOUND
}

/// The bullets among the first `n` of `s` that are still in play, in
/// order.
pub open spec fn retained_bullets(s: Seq<BulletEnt>, n: int) -> Seq<BulletEnt>
    decreases n,
{
    if n <= 0 {
        Seq::empty()
    } else {
        let pre = retained_bullets(s, n - 1);
        if bullet_in_play(s[n - 1]) {
            pre.push(s[n - 1])
        } else {
            pre
        }
    }
}

pub proof fn lemma_retained_bullets_unique(s: Seq<BulletEnt>, n: int)
    requires
        bullet_ids_unique(s),
        0 <= n <= s.len(),
    ensures
        bullet_ids_unique(retained_bullets(s, n)),
        forall|j: int| 0 <= j < retained_bullets(s, n).len() ==> exists|k: int|
            0 <= k < n && #[trigger] retained_bullets(s, n)[j] == s[k],
    decreases n,
{
    if n > 0 {
        lemma_retained_bullets_unique(s, n - 1);
    }
}

/// Retire every bullet that travelled out of bounds.  Bullets in play are
/// kept, in order.
pub fn destroy_bullets(bullets: &mut Vec<BulletEnt>)
    requires
        bullet_ids_unique(old(bullets)@),
    ensures
        final(bullets)@ == retained_bullets(old(bullets)@, old(bullets)@.len() as int),
        bullet_ids_unique(final(bullets)@),
        forall|i: int| 0 <= i < final(bullets)@.len() ==> bullet_in_play(
            #[trigger] final(bullets)@[i],
        ),
{
    let mut kept: Vec<BulletEnt> = Vec::new();
    let mut n: usize = 0;
    while n < bullets.len()
        invariant
            n <= bullets@.len(),
            bullets@ == old(bullets)@,
            kept@ == retained_bullets(bullets@, n as int),
            forall|i: int| 0 <= i < kept@.len() ==> bullet_in_play(#[trigger] kept@[i]),
        decreases bullets@.len() - n,
    {
        let b = bullets[n];
        let out_of_bounds = b.position.z > BULLET_BOUND || b.position.z < -BULLET_BOUND;
        if !out_of_bounds {
            kept.push(b);
        }
        n = n + 1;
    }
    proof {
        lemma_retained_bullets_unique(bullets@, bullets@.len() as int);
    }
    *bullets = kept;
}

/// The full state damage resolution reads and writes: the damageable
/// entities, the live bullets, and the three notification streams.
pub struct ResolveState {
    pub actors: Seq<Actor>,
    pub bullets: Seq<BulletEnt>,
    pub deaths: Seq<EntityDeath>,
    pub hit_effects: Seq<ParticleHitEffect>,
    pub shake_events: Seq<CameraShakeEvent>,
}

/// Resolution of one reported collision pair.
///
/// A pair whose entity or bullet is gone (despawned earlier this tick, or
/// never existed) is skipped.  A friendly-fire pair — the entity and the
/// bullet share a faction — is ignored entirely: no damage, no despawn, no
/// event.  Otherwise the bullet is consumed, the entity takes saturating
/// damage, and if its health reaches 0 it is despawned and emits exactly
/// one death notification; a hit effect and a camera-shake event are
/// emitted either way, large and strong exactly when the hit killed.
pub open spec fn resolve_step(st: ResolveState, p: CollisionPair) -> ResolveState {
    if has_actor(st.actors, p.damageable) && has_bullet(st.bullets, p.bullet) {
        let i = actor_index(st.actors, p.damageable);
        let j = bullet_index(st.bullets, p.bullet);
        let a = st.actors[i];
        let b = st.bullets[j];
        if a.damageable.faction == b.bullet.faction {
            st
        } else {
            let health = damage_result(a.damageable.health, b.bullet.damage);
            let died = health == 0;
            ResolveState {
                actors: if died {
                    st.actors.remove(i)
                } else {
                    st.actors.update(
                        i,
                        Actor {
                            damageable: Damageable { health, faction: a.damageable.faction },
                            ..a
                        },
                    )
                },
                bullets: st.bullets.remove(j),
                deaths: if died {
                    st.deaths.push(
                        EntityDeath { position: a.position, faction: a.damageable.faction },
                    )
                } else {
                    st.deaths
                },
                hit_effects: st.hit_effects.push(
                    ParticleHitEffect { position: a.position, is_large: died },
                ),
                shake_events: st.shake_events.push(
                    CameraShakeEvent {
                        intensity: if died {
                            KILL_SHAKE_INTENSITY
                        } else {
                            HIT_SHAKE_INTENSITY
                        },
                    },
                ),
            }
        }
    } else {
        st
    }
}

/// Resolution of the first `n` reported pairs, in arrival order.
pub open spec fn resolve_pairs(st: ResolveState, pairs: Seq<CollisionPair>, n: int) -> ResolveState
    decreases n,
{
    if n <= 0 {
        st
    } else {
        resolve_step(resolve_pairs(st, pairs, n - 1), pairs[n - 1])
    }
}

pub proof fn lemma_resolve_step_unique(st: ResolveState, p: CollisionPair)
    requires
        actor_ids_unique(st.actors),
        bullet_ids_unique(st.bullets),
    ensures
        actor_ids_unique(resolve_step(st, p).actors),
        bullet_ids_unique(resolve_step(st, p).bullets),
{
    if has_actor(st.actors, p.damageable) && has_bullet(st.bullets, p.bullet) {
        let i = actor_index(st.actors, p.damageable);
        let j = bullet_index(st.bullets, p.bullet);
        assert(0 <= i < st.actors.len() && st.actors[i].id == p.damageable);
        assert(0 <= j < st.bullets.len() && st.bullets[j].id == p.bullet);
        let a = st.actors[i];
        let b = st.bullets[j];
        if a.damageable.faction != b.bullet.faction {
            lemma_bullet_unique_remove(st.bullets, j);
            let health = damage_result(a.damageable.health, b.bullet.damage);
            if health == 0 {
                lemma_actor_unique_remove(st.actors, i);
            } else {
                lemma_actor_unique_update(
                    st.actors,
                    i,
                    Actor { damageable: Damageable { health, faction: a.damageable.faction }, ..a },
                );
            }
        }
    }
}

/// The state the caller's vectors stand for.
pub open spec fn resolve_state_of(
    actors: Seq<Actor>,
    bullets: Seq<BulletEnt>,
    deaths: Seq<EntityDeath>,
    hit_effects: Seq<ParticleHitEffect>,
    shake_events: Seq<CameraShakeEvent>,
) -> ResolveState {
    ResolveState { actors, bullets, deaths, hit_effects, shake_events }
}

pub fn find_actor(actors: &Vec<Actor>, id: u64) -> (r: Option<usize>)
    ensures
        match r {
            Some(i) => 0 <= i < actors@.len() && actors@[i as int].id == id,
            None => !has_actor(actors@, id),
        },
{
    let mut n: usize = 0;
    while n < actors.len()
        invariant
            n <= actors@.len(),
            forall|k: int| 0 <= k < n ==> #[trigger] actors@[k].id != id,
        decreases actors@.len() - n,
    {
        if actors[n].id == id {
            return Some(n);
        }
        n = n + 1;
    }
    None
}

pub fn find_bullet(bullets: &Vec<BulletEnt>, id: u64) -> (r: Option<usize>)
    ensures
        match r {
            Some(i) => 0 <= i < bullets@.len() && bullets@[i as int].id == id,
            None => !has_bullet(bullets@, id),
        },
{
    let mut n: usize = 0;
    while n < bullets.len()
        invariant
            n <= bullets@.len(),
            forall|k: int| 0 <= k < n ==> #[trigger] bullets@[k].id != id,
        decreases bullets@.len() - n,
    {
        if bullets[n].id == id {
            return Some(n);
        }
        n = n + 1;
    }
    None
}

/// Consume the collision pairs reported for this tick, in arrival order:
/// apply damage, despawn killed entities and consumed bullets, and emit
/// death, hit-effect and camera-shake notifications.
pub fn check_bullet_damage(
    actors: &mut Vec<Actor>,
    bullets: &mut Vec<BulletEnt>,
    pairs: &Vec<CollisionPair>,
    deaths: &mut Vec<EntityDeath>,
    hit_effects: &mut Vec<ParticleHitEffect>,
    shake_events: &mut Vec<CameraShakeEvent>,
)
    requires
        actor_ids_unique(old(actors)@),
        bullet_ids_unique(old(bullets)@),
    ensures
        resolve_state_of(
            final(actors)@,
            final(bullets)@,
            final(deaths)@,
            final(hit_effects)@,
            final(shake_events)@,
        ) == resolve_pairs(
            resolve_state_of(
                old(actors)@,
                old(bullets)@,
                old(deaths)@,
                old(hit_effects)@,
                old(shake_events)@,
            ),
            pairs@,
            pairs@.len() as int,
        ),
        actor_ids_unique(final(actors)@),
        bullet_ids_unique(final(bullets)@),
{
    let ghost st0 = resolve_state_of(actors@, bullets@, deaths@, hit_effects@, shake_events@);
    let mut n: usize = 0;
    while n < pairs.len()
        invariant
            n <= pairs@.len(),
            actor_ids_unique(actors@),
            bullet_ids_unique(bullets@),
            resolve_state_of(actors@, bullets@, deaths@, hit_effects@, shake_events@)
                == resolve_pairs(st0, pairs@, n as int),
        decreases pairs@.len() - n,
    {
        let p = pairs[n];
        let ghost pre = resolve_pairs(st0, pairs@, n as int);
        let a_found = find_actor(actors, p.damageable);
        let b_found = find_bullet(bullets, p.bullet);
        if let (Some(i), Some(j)) = (a_found, b_found) {
            proof {
                lemma_actor_index_of(actors@, p.damageable, i as int);
                lemma_bullet_index_of(bullets@, p.bullet, j as int);
            }
            let a = actors[i];
            let b = bullets[j];
            if a.damageable.faction != b.bullet.faction {
                let _consumed = bullets.remove(j);
                let health = if a.damageable.health >= b.bullet.damage {
                    a.damageable.health - b.bullet.damage
                } else {
                    0
                };
                proof {
                    lemma_bullet_unique_remove(pre.bullets, j as int);
                }
                if health == 0 {
                    let dead = actors.remove(i);
                    deaths.push(
                        EntityDeath { position: dead.position, faction: dead.damageable.faction },
                    );
                    hit_effects.push(ParticleHitEffect { position: dead.position, is_large: true });
                    shake_events.push(CameraShakeEvent { intensity: KILL_SHAKE_INTENSITY });
                    proof {
                        lemma_actor_unique_remove(pre.actors, i as int);
                    }
                } else {
                    actors[i] = Actor {
                        damageable: Damageable { health, faction: a.damageable.faction },
                        ..a
                    };
                    hit_effects.push(ParticleHitEffect { position: a.position, is_large: false });
                    shake_events.push(CameraShakeEvent { intensity: HIT_SHAKE_INTENSITY });
                    proof {
                        lemma_actor_unique_update(
                            pre.actors,
                            i as int,
                            Actor {
                                damageable: Damageable { health, faction: a.damageable.faction },
                                ..a
                            },
                        );
                    }
                }
            }
        }
        n = n + 1;
    }
}

/// Law: friendly fire is inert.  A pair whose entity and bullet share a
/// faction changes nothing: health is untouched, the bullet is not
/// despawned, and no notification is emitted.
pub proof fn lemma_friendly_fire_harmless(st: ResolveState, p: CollisionPair)
    requires
        has_actor(st.actors, p.damageable),
        has_bullet(st.bullets, p.bullet),
        st.actors[actor_index(st.actors, p.damageable)].damageable.faction
            == st.bullets[bullet_index(st.bullets, p.bullet)].bullet.faction,
    ensures
        resolve_step(st, p) == st,
{
}

/// Law: a pair referencing an entity or bullet that is already gone is
/// skipped, not re-processed.
pub proof fn lemma_missing_entity_skipped(st: ResolveState, p: CollisionPair)
    requires
        !has_actor(st.actors, p.damageable) || !has_bullet(st.bullets, p.bullet),
    ensures
        resolve_step(st, p) == st,
{
}

/// Law: a hit that drives an entity's health to 0 despawns it in the same
/// step and pushes exactly one death notification for it.
pub proof fn lemma_killed_actor_despawned(st: ResolveState, p: CollisionPair)
    requires
        actor_ids_unique(st.actors),
        has_actor(st.actors, p.damageable),
        has_bullet(st.bullets, p.bullet),
        st.actors[actor_index(st.actors, p.damageable)].damageable.faction
            != st.bullets[bullet_index(st.bullets, p.bullet)].bullet.faction,
        damage_result(
            st.actors[actor_index(st.actors, p.damageable)].damageable.health,
            st.bullets[bullet_index(st.bullets, p.bullet)].bullet.damage,
        ) == 0,
    ensures
        !has_actor(resolve_step(st, p).actors, p.damageable),
        resolve_step(st, p).deaths == st.deaths.push(
            EntityDeath {
                position: st.actors[actor_index(st.actors, p.damageable)].position,
                faction: st.actors[actor_index(st.actors, p.damageable)].damageable.faction,
            },
        ),
{
    let i = actor_index(st.actors, p.damageable);
    assert(0 <= i < st.actors.len() && st.actors[i].id == p.damageable);
    lemma_actor_unique_remove(st.actors, i);
}

/// Law: death notifications match despawns one for one.  Over any run of
/// pairs, the number of deaths emitted equals the number of entities
/// despawned — an entity that dies is despawned exactly once and emits
/// exactly one death event, even under several hits in the same tick.
pub proof fn lemma_one_death_per_despawn(
    st: ResolveState,
    pairs: Seq<CollisionPair>,
    n: int,
)
    requires
        0 <= n <= pairs.len(),
        actor_ids_unique(st.actors),
        bullet_ids_unique(st.bullets),
    ensures
        resolve_pairs(st, pairs, n).actors.len() <= st.actors.len(),
        resolve_pairs(st, pairs, n).deaths.len() - st.deaths.len() == st.actors.len()
            - resolve_pairs(st, pairs, n).actors.len(),
        actor_ids_unique(resolve_pairs(st, pairs, n).actors),
        bullet_ids_unique(resolve_pairs(st, pairs, n).bullets),
    decreases n,
{
    if n > 0 {
        lemma_one_death_per_despawn(st, pairs, n - 1);
        lemma_resolve_step_unique(resolve_pairs(st, pairs, n - 1), pairs[n - 1]);
    }
}

} // verus!
