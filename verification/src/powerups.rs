//! The power-up lifecycle: pickups dropped by dying enemies, the upgrade
//! chain attached to the player, and its expiry.

use vstd::prelude::*;
use crate::combat::{Actor, EntityDeath, Faction, actor_ids_unique, actors_fresh};
use crate::geom::Vec3;

verus! {

/// The upgrade level of the player's shot pattern.  There is no tier above
/// `TripleShot`.
#[derive(Clone, Copy, PartialEq, Eq, Structural, Debug)]
pub enum Powerup {
    DoubleShot,
    TripleShot,
}

/// An active power-up: its tier, and how long it still lasts, in
/// milli-seconds.  Attached to the player while active, and carried by a
/// drifting pickup before collection.
#[derive(Clone, Copy, PartialEq, Eq, Structural, Debug)]
pub struct PowerupComponent {
    pub powerup: Powerup,
    pub time_left: i64,
}

/// How long one pickup lasts, in milli-seconds.
pub const POWERUP_DURATION: i64 = 5000;

/// A drop roll below this (out of 1000) spawns a pickup at an enemy's
/// death position.
pub const POWERUP_DROP_CHANCE: i64 = 100;

/// Addition on i64 that saturates instead of overflowing.
pub open spec fn sat_add_i64(a: i64, b: i64) -> i64 {
    if a + b > i64::MAX {
        i64::MAX
    } else if a + b < i64::MIN {
        i64::MIN
    } else {
        (a + b) as i64
    }
}

pub fn saturating_add_i64(a: i64, b: i64) -> (r: i64)
    ensures
        r == sat_add_i64(a, b),
{
    match a.checked_add(b) {
        Option::Some(s) => s,
        Option::None => {
            if b >= 0 {
                i64::MAX
            } else {
                i64::MIN
            }
        },
    }
}

/// The numeric rank of an upgrade tier: no power-up < DoubleShot <
/// TripleShot.
pub open spec fn tier_rank(p: Option<PowerupComponent>) -> int {
    match p {
        Option::None => 0,
        Option::Some(c) => match c.powerup {
            Powerup::DoubleShot => 1,
            Powerup::TripleShot => 2,
        },
    }
}

/// The power-up state after the player collects one pickup: a first pickup
/// attaches as-is, a pickup on top of DoubleShot upgrades to TripleShot,
/// and a pickup on top of TripleShot only extends the time; the remaining
/// time is additive while a power-up is active.
pub open spec fn spec_apply_pickup(
    current: Option<PowerupComponent>,
    pickup: PowerupComponent,
) -> PowerupComponent {
    match current {
        Option::None => pickup,
        Option::Some(c) => PowerupComponent {
            powerup: Powerup::TripleShot,
            time_left: sat_add_i64(c.time_left, pickup.time_left),
        },
    }
}

/// Collect one pickup into the player's power-up slot.
pub fn apply_pickup(current: &mut Option<PowerupComponent>, pickup: &PowerupComponent)
    ensures
        *final(current) == Some(spec_apply_pickup(*old(current), *pickup)),
        tier_rank(*final(current)) >= tier_rank(*old(current)),
        tier_rank(*final(current)) <= 2,
{
    match current {
        Option::Some(c) => {
            c.powerup = Powerup::TripleShot;
            c.time_left = saturating_add_i64(c.time_left, pickup.time_left);
        },
        Option::None => {
            *current = Some(*pickup);
        },
    }
}

/// The power-up state after a whole sequence of pickups, first pickup
/// first.
pub open spec fn apply_pickups(
    current: Option<PowerupComponent>,
    pickups: Seq<PowerupComponent>,
) -> Option<PowerupComponent>
    decreases pickups.len(),
{
    if pickups.len() == 0 {
        current
    } else {
        apply_pickups(
            Some(spec_apply_pickup(current, pickups[0])),
            pickups.drop_first(),
        )
    }
}

/// Law: the upgrade chain is monotonic and capped.  Over any sequence of
/// pickups the tier never regresses and never exceeds TripleShot, and a
/// non-empty sequence leaves a power-up attached.
pub proof fn lemma_powerup_chain_monotonic(
    current: Option<PowerupComponent>,
    pickups: Seq<PowerupComponent>,
)
    ensures
        tier_rank(apply_pickups(current, pickups)) >= tier_rank(current),
        tier_rank(apply_pickups(current, pickups)) <= 2,
        pickups.len() > 0 ==> apply_pickups(current, pickups) is Some,
    decreases pickups.len(),
{
    if pickups.len() != 0 {
        lemma_powerup_chain_monotonic(
            Some(spec_apply_pickup(current, pickups[0])),
            pickups.drop_first(),
        );
    }
}

/// The total remaining time carried by a sequence of pickups.
pub open spec fn total_pickup_time(pickups: Seq<PowerupComponent>) -> int
    decreases pickups.len(),
{
    if pickups.len() == 0 {
        0
    } else {
        pickups[0].time_left + total_pickup_time(pickups.drop_first())
    }
}

/// Law: while a power-up is active, the remaining time is additive over
/// pickups.  As long as no addition saturates, collecting a sequence of
/// pickups adds exactly the sum of their durations.
pub proof fn lemma_pickup_time_additive(
    current: PowerupComponent,
    pickups: Seq<PowerupComponent>,
)
    requires
        forall|k: int| 0 <= k < pickups.len() ==> 0 <= #[trigger] pickups[k].time_left,
        0 <= current.time_left,
        current.time_left + total_pickup_time(pickups) <= i64::MAX,
    ensures
        apply_pickups(Some(current), pickups) matches Some(c)
            && c.time_left == current.time_left + total_pickup_time(pickups),
    decreases pickups.len(),
{
    if pickups.len() != 0 {
        lemma_total_pickup_time_nonneg(pickups.drop_first());
        lemma_pickup_time_additive(
            spec_apply_pickup(Some(current), pickups[0]),
            pickups.drop_first(),
        );
    }
}

pub proof fn lemma_total_pickup_time_nonneg(pickups: Seq<PowerupComponent>)
    requires
        forall|k: int| 0 <= k < pickups.len() ==> 0 <= #[trigger] pickups[k].time_left,
    ensures
        total_pickup_time(pickups) >= 0,
    decreases pickups.len(),
{
    if pickups.len() != 0 {
        lemma_total_pickup_time_nonneg(pickups.drop_first());
    }
}

/// The player's power-up slot after one tick of expiry: the remaining time
/// falls by `dt`, and the power-up is removed once it drops below zero.
pub open spec fn spec_expire_powerup(current: Option<PowerupComponent>, dt: i64) -> Option<
    PowerupComponent,
> {
    match current {
        Option::None => Option::None,
        Option::Some(c) => {
            if c.time_left - dt < 0 {
                Option::None
            } else {
                Option::Some(PowerupComponent { powerup: c.powerup, time_left: (c.time_left - dt) as i64 })
            }
        },
    }
}

/// One tick of power-up expiry on one power-up slot.
pub fn expire_powerup(current: &mut Option<PowerupComponent>, dt: i64)
    requires
        0 <= dt,
    ensures
        *final(current) == spec_expire_powerup(*old(current), dt),
{
    match current {
        Option::Some(c) => {
            if c.time_left < dt {
                *current = Option::None;
            } else {
                c.time_left = c.time_left - dt;
            }
        },
        Option::None => {},
    }
}

/// An actor after one tick of power-up expiry: only the player's attached
/// power-up winds down; everything else is untouched.
pub open spec fn spec_powerup_tick(a: Actor, dt: i64) -> Actor {
    if a.player is Some && a.powerup is Some {
        Actor { powerup: spec_expire_powerup(a.powerup, dt), ..a }
    } else {
        a
    }
}

/// One tick of power-up expiry over the player.
pub fn update_powerups(actors: &mut Vec<Actor>, dt: i64)
    requires
        0 <= dt,
    ensures
        final(actors)@.len() == old(actors)@.len(),
        forall|i: int| 0 <= i < old(actors)@.len() ==> final(actors)@[i] == spec_powerup_tick(
            old(actors)@[i],
            dt,
        ),
{
    let mut n: usize = 0;
    while n < actors.len()
        invariant
            n <= actors@.len(),
            0 <= dt,
            actors@.len() == old(actors)@.len(),
            forall|i: int| n <= i < actors@.len() ==> actors@[i] == old(actors)@[i],
            forall|i: int| 0 <= i < n ==> actors@[i] == spec_powerup_tick(old(actors)@[i], dt),
        decreases actors@.len() - n,
    {
        let a = actors[n];
        if a.player.is_some() && a.powerup.is_some() {
            let mut slot = a.powerup;
            expire_powerup(&mut slot, dt);
            actors[n] = Actor { powerup: slot, ..a };
        }
        n = n + 1;
    }
}

/// A drifting pickup entity in the arena.
#[derive(Clone, Copy, PartialEq, Eq, Structural, Debug)]
pub struct PickupEnt {
    pub id: u64,
    pub powerup: PowerupComponent,
    pub position: Vec3,
    pub velocity: Vec3,
}

pub open spec fn pickup_ids_unique(s: Seq<PickupEnt>) -> bool {
    forall|i: int, j: int| 0 <= i < j < s.len() ==> s[i].id != s[j].id
}

pub open spec fn pickups_fresh(s: Seq<PickupEnt>, next_id: u64) -> bool {
    forall|i: int| 0 <= i < s.len() ==> #[trigger] s[i].id < next_id
}

pub open spec fn has_pickup(s: Seq<PickupEnt>, id: u64) -> bool {
    exists|i: int| 0 <= i < s.len() && s[i].id == id
}

pub open spec fn pickup_index(s: Seq<PickupEnt>, id: u64) -> int {
    choose|i: int| 0 <= i < s.len() && s[i].id == id
}

pub proof fn lemma_pickup_index_of(s: Seq<PickupEnt>, id: u64, i: int)
    requires
        pickup_ids_unique(s),
        0 <= i < s.len(),
        s[i].id == id,
    ensures
        has_pickup(s, id),
        pickup_index(s, id) == i,
{
    assert(has_pickup(s, id));
    let j = pickup_index(s, id);
    assert(0 <= j < s.len() && s[j].id == id);
}

pub proof fn lemma_pickup_unique_remove(s: Seq<PickupEnt>, k: int)
    requires
        pickup_ids_unique(s),
        0 <= k < s.len(),
    ensures
        pickup_ids_unique(s.remove(k)),
{
    let t = s.remove(k);
    assert forall|i: int, j: int| 0 <= i < j < t.len() implies t[i].id != t[j].id by {
        let i0 = if i < k { i } else { i + 1 };
        let j0 = if j < k { j } else { j + 1 };
        assert(t[i] == s[i0]);
        assert(t[j] == s[j0]);
    }
}

/// The pickup one enemy death drops: default kind, fixed duration, fixed
/// drift, at the death position.
pub open spec fn spec_pickup(id: u64, position: Vec3) -> PickupEnt {
    PickupEnt {
        id,
        powerup: PowerupComponent { powerup: Powerup::DoubleShot, time_left: POWERUP_DURATION },
        position,
        velocity: Vec3 { x: 0, y: 0, z: 3000 },
    }
}

/// Whether one death notification drops a pickup: enemy faction, and a
/// drop roll below the drop chance.
pub open spec fn spec_death_drops(d: EntityDeath, roll: i64) -> bool {
    &&& d.faction is Enemy
    &&& roll < POWERUP_DROP_CHANCE
}

pub open spec fn valid_drop_rolls(rolls: Seq<i64>, n: int) -> bool {
    &&& rolls.len() >= n
    &&& forall|k: int| 0 <= k < rolls.len() ==> 0 <= #[trigger] rolls[k] < 1000
}

/// The pickups dropped by the first `n` death notifications, in order,
/// with consecutive fresh ids starting at `base`.
pub open spec fn spec_spawned_pickups(
    deaths: Seq<EntityDeath>,
    rolls: Seq<i64>,
    base: int,
    n: int,
) -> Seq<PickupEnt>
    decreases n,
{
    if n <= 0 {
        Seq::empty()
    } else {
        let pre = spec_spawned_pickups(deaths, rolls, base, n - 1);
        if spec_death_drops(deaths[n - 1], rolls[n - 1]) {
            pre.push(spec_pickup((base + pre.len()) as u64, deaths[n - 1].position))
        } else {
            pre
        }
    }
}

pub proof fn lemma_spawned_pickups_len(
    deaths: Seq<EntityDeath>,
    rolls: Seq<i64>,
    base: int,
    n: int,
)
    requires
        n >= 0,
    ensures
        spec_spawned_pickups(deaths, rolls, base, n).len() <= n,
    decreases n,
{
    if n > 0 {
        lemma_spawned_pickups_len(deaths, rolls, base, n - 1);
    }
}

/// The death notifications still pending after the first `n` were
/// processed: enemy deaths are consumed exactly once, the rest stay.
pub open spec fn retained_deaths(deaths: Seq<EntityDeath>, n: int) -> Seq<EntityDeath>
    decreases n,
{
    if n <= 0 {
        Seq::empty()
    } else {
        let pre = retained_deaths(deaths, n - 1);
        if deaths[n - 1].faction is Enemy {
            pre
        } else {
            pre.push(deaths[n - 1])
        }
    }
}

/// Consume this tick's death notifications with the drop rolls supplied
/// by the caller (one slot per notification): every enemy death is
/// processed exactly once and, on a winning roll, drops a pickup at the
/// death position.
pub fn spawn_powerups_with(
    pickups: &mut Vec<PickupEnt>,
    next_id: &mut u64,
    deaths: &mut Vec<EntityDeath>,
    rolls: &Vec<i64>,
)
    requires
        valid_drop_rolls(rolls@, old(deaths)@.len() as int),
        pickup_ids_unique(old(pickups)@),
        pickups_fresh(old(pickups)@, *old(next_id)),
        *old(next_id) + old(deaths)@.len() <= u64::MAX,
    ensures
        final(pickups)@ == old(pickups)@ + spec_spawned_pickups(
            old(deaths)@,
            rolls@,
            *old(next_id) as int,
            old(deaths)@.len() as int,
        ),
        final(deaths)@ == retained_deaths(old(deaths)@, old(deaths)@.len() as int),
        *final(next_id) == *old(next_id) + spec_spawned_pickups(
            old(deaths)@,
            rolls@,
            *old(next_id) as int,
            old(deaths)@.len() as int,
        ).len(),
        pickup_ids_unique(final(pickups)@),
        pickups_fresh(final(pickups)@, *final(next_id)),
{
    let ghost base = *next_id;
    let mut kept: Vec<EntityDeath> = Vec::new();
    let mut n: usize = 0;
    while n < deaths.len()
        invariant
            n <= deaths@.len(),
            deaths@ == old(deaths)@,
            valid_drop_rolls(rolls@, deaths@.len() as int),
            base + deaths@.len() <= u64::MAX,
            kept@ == retained_deaths(deaths@, n as int),
            pickups@ == old(pickups)@ + spec_spawned_pickups(deaths@, rolls@, base as int, n as int),
            *next_id == base + spec_spawned_pickups(deaths@, rolls@, base as int, n as int).len(),
            pickup_ids_unique(pickups@),
            pickups_fresh(pickups@, *next_id),
        decreases deaths@.len() - n,
    {
        proof {
            lemma_spawned_pickups_len(deaths@, rolls@, base as int, n as int);
        }
        let d = deaths[n];
        if let Faction::Enemy = d.faction {
            if rolls[n] < POWERUP_DROP_CHANCE {
                let p = PickupEnt {
                    id: *next_id,
                    powerup: PowerupComponent {
                        powerup: Powerup::DoubleShot,
                        time_left: POWERUP_DURATION,
                    },
                    position: d.position,
                    velocity: Vec3 { x: 0, y: 0, z: 3000 },
                };
                pickups.push(p);
                *next_id = *next_id + 1;
                proof {
                    let pre = spec_spawned_pickups(deaths@, rolls@, base as int, n as int);
                    assert(old(pickups)@ + pre.push(
                        spec_pickup((base + pre.len()) as u64, d.position),
                    ) =~= (old(pickups)@ + pre).push(
                        spec_pickup((base + pre.len()) as u64, d.position),
                    ));
                }
            }
        } else {
            kept.push(d);
        }
        n = n + 1;
    }
    *deaths = kept;
}

/// `post_*` is `pre_*` after one pickup-drop pass under `rolls`.
pub open spec fn powerups_spawned_with(
    pre_pickups: Seq<PickupEnt>,
    pre_id: u64,
    pre_deaths: Seq<EntityDeath>,
    post_pickups: Seq<PickupEnt>,
    post_id: u64,
    post_deaths: Seq<EntityDeath>,
    rolls: Seq<i64>,
) -> bool {
    &&& valid_drop_rolls(rolls, pre_deaths.len() as int)
    &&& post_pickups == pre_pickups + spec_spawned_pickups(
        pre_deaths,
        rolls,
        pre_id as int,
        pre_deaths.len() as int,
    )
    &&& post_deaths == retained_deaths(pre_deaths, pre_deaths.len() as int)
    &&& post_id == pre_id + spec_spawned_pickups(
        pre_deaths,
        rolls,
        pre_id as int,
        pre_deaths.len() as int,
    ).len()
}

/// Consume this tick's death notifications, drawing the drop rolls from
/// the random source.
pub fn spawn_powerups(pickups: &mut Vec<PickupEnt>, next_id: &mut u64, deaths: &mut Vec<EntityDeath>)
    requires
        pickup_ids_unique(old(pickups)@),
        pickups_fresh(old(pickups)@, *old(next_id)),
        *old(next_id) + old(deaths)@.len() <= u64::MAX,
    ensures
        exists|rolls: Seq<i64>| #[trigger] powerups_spawned_with(
            old(pickups)@,
            *old(next_id),
            old(deaths)@,
            final(pickups)@,
            *final(next_id),
            final(deaths)@,
            rolls,
        ),
        pickup_ids_unique(final(pickups)@),
        pickups_fresh(final(pickups)@, *final(next_id)),
{
    let mut rolls: Vec<i64> = Vec::new();
    let mut n: usize = 0;
    while n < deaths.len()
        invariant
            n <= deaths@.len(),
            deaths@ == old(deaths)@,
            pickups@ == old(pickups)@,
            *next_id == *old(next_id),
            rolls@.len() == n,
            forall|k: int| 0 <= k < n ==> 0 <= #[trigger] rolls@[k] < 1000,
        decreases deaths@.len() - n,
    {
        rolls.push(crate::rng::sample_range(0, 1000));
        n = n + 1;
    }
    spawn_powerups_with(pickups, next_id, deaths, &rolls);
    proof {
        assert(powerups_spawned_with(
            old(pickups)@,
            *old(next_id),
            old(deaths)@,
            pickups@,
            *next_id,
            deaths@,
            rolls@,
        ));
    }
}

fn find_pickup(pickups: &Vec<PickupEnt>, id: u64) -> (r: Option<usize>)
    ensures
        match r {
            Some(i) => 0 <= i < pickups@.len() && pickups@[i as int].id == id,
            None => !has_pickup(pickups@, id),
        },
{
    let mut n: usize = 0;
    while n < pickups.len()
        invariant
            n <= pickups@.len(),
            forall|k: int| 0 <= k < n ==> #[trigger] pickups@[k].id != id,
        decreases pickups@.len() - n,
    {
        if pickups[n].id == id {
            return Some(n);
        }
        n = n + 1;
    }
    None
}

/// The pickups and the player's power-up slot after collecting the first
/// `n` reported pickup-player overlaps, in order.  A hit naming a pickup
/// that is gone (already collected this tick, or never existed) is
/// skipped; a live pickup is applied to the slot and despawned.
pub open spec fn spec_collect_pickups(
    pickups: Seq<PickupEnt>,
    slot: Option<PowerupComponent>,
    hits: Seq<u64>,
    n: int,
) -> (Seq<PickupEnt>, Option<PowerupComponent>)
    decreases n,
{
    if n <= 0 {
        (pickups, slot)
    } else {
        let pre = spec_collect_pickups(pickups, slot, hits, n - 1);
        let id = hits[n - 1];
        if has_pickup(pre.0, id) {
            let j = pickup_index(pre.0, id);
            (pre.0.remove(j), Some(spec_apply_pickup(pre.1, pre.0[j].powerup)))
        } else {
            pre
        }
    }
}

/// Consume this tick's pickup-player overlaps: each live pickup named by
/// a hit is applied to the player's power-up slot (attach, upgrade, or
/// extend) and despawned.  Without a live player, nothing happens.
pub fn detect_powerup_collisions(
    actors: &mut Vec<Actor>,
    pickups: &mut Vec<PickupEnt>,
    hits: &Vec<u64>,
)
    requires
        crate::player::one_player(old(actors)@),
        actor_ids_unique(old(actors)@),
        pickup_ids_unique(old(pickups)@),
    ensures
        !crate::player::has_player_actor(old(actors)@) ==> final(actors)@ == old(actors)@
            && final(pickups)@ == old(pickups)@,
        crate::player::has_player_actor(old(actors)@) ==> ({
            let pidx = crate::player::player_actor_index(old(actors)@);
            let folded = spec_collect_pickups(
                old(pickups)@,
                old(actors)@[pidx].powerup,
                hits@,
                hits@.len() as int,
            );
            &&& final(pickups)@ == folded.0
            &&& final(actors)@ == old(actors)@.update(
                pidx,
                Actor { powerup: folded.1, ..old(actors)@[pidx] },
            )
        }),
        actor_ids_unique(final(actors)@),
        crate::player::one_player(final(actors)@),
        pickup_ids_unique(final(pickups)@),
{
    let found = crate::player::find_player_actor(actors);
    let pidx = match found {
        None => {
            return ;
        },
        Some(i) => i,
    };
    proof {
        crate::player::lemma_player_index_of(actors@, pidx as int);
    }
    let mut pa = actors.remove(pidx);
    let ghost slot0 = pa.powerup;
    let mut k: usize = 0;
    while k < hits.len()
        invariant
            k <= hits@.len(),
            actors@ == old(actors)@.remove(pidx as int),
            0 <= pidx < old(actors)@.len(),
            pidx as int == crate::player::player_actor_index(old(actors)@),
            slot0 == old(actors)@[pidx as int].powerup,
            ({
                let folded = spec_collect_pickups(old(pickups)@, slot0, hits@, k as int);
                pickups@ == folded.0 && pa == Actor {
                    powerup: folded.1,
                    ..old(actors)@[pidx as int]
                }
            }),
            pickup_ids_unique(pickups@),
        decreases hits@.len() - k,
    {
        let id = hits[k];
        if let Some(j) = find_pickup(pickups, id) {
            proof {
                lemma_pickup_index_of(pickups@, id, j as int);
            }
            let pk = pickups.remove(j);
            apply_pickup(&mut pa.powerup, &pk.powerup);
            proof {
                lemma_pickup_unique_remove(
                    spec_collect_pickups(old(pickups)@, slot0, hits@, k as int).0,
                    j as int,
                );
            }
        }
        k = k + 1;
    }
    actors.insert(pidx, pa);
    proof {
        assert forall|i: int| 0 <= i < old(actors)@.len() implies old(actors)@.remove(
            pidx as int,
        ).insert(pidx as int, pa)[i] == old(actors)@.update(pidx as int, pa)[i] by {}
        assert(old(actors)@.remove(pidx as int).insert(pidx as int, pa) =~= old(actors)@.update(
            pidx as int,
            pa,
        ));
        crate::combat::lemma_actor_unique_update(old(actors)@, pidx as int, pa);
    }
}

} // verus!
