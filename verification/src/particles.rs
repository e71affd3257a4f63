//! Routing of hit-effect notifications to the two particle spawners.
//! The spawners themselves are presentation-layer collaborators; this
//! module only decides which spawner plays where.

use vstd::prelude::*;
use crate::combat::ParticleHitEffect;
use crate::geom::Vec3;

verus! {

/// Marker for the spawner that plays the small explosion.
#[derive(Clone, Copy, PartialEq, Eq, Structural, Debug)]
pub struct SmallExplosion;

/// Marker for the spawner that plays the large explosion.
#[derive(Clone, Copy, PartialEq, Eq, Structural, Debug)]
pub struct LargeExplosion;

/// The positions at which the small and the large spawner fire, routed
/// from the first `n` hit-effect notifications in order.
pub open spec fn spec_effect_routing(effects: Seq<ParticleHitEffect>, n: int) -> (
    Seq<Vec3>,
    Seq<Vec3>,
)
    decreases n,
{
    if n <= 0 {
        (Seq::empty(), Seq::empty())
    } else {
        let pre = spec_effect_routing(effects, n - 1);
        if effects[n - 1].is_large {
            (pre.0, pre.1.push(effects[n - 1].position))
        } else {
            (pre.0.push(effects[n - 1].position), pre.1)
        }
    }
}

/// Consume this tick's hit-effect notifications: return where the small
/// and the large particle spawner fire, in order.
pub fn route_hit_effects(effects: &mut Vec<ParticleHitEffect>) -> (r: (Vec<Vec3>, Vec<Vec3>))
    ensures
        (r.0@, r.1@) == spec_effect_routing(old(effects)@, old(effects)@.len() as int),
        final(effects)@.len() == 0,
{
    let mut small: Vec<Vec3> = Vec::new();
    let mut large: Vec<Vec3> = Vec::new();
    let mut n: usize = 0;
    while n < effects.len()
        invariant
            n <= effects@.len(),
            effects@ == old(effects)@,
            (small@, large@) == spec_effect_routing(effects@, n as int),
        decreases effects@.len() - n,
    {
        let e = effects[n];
        if e.is_large {
            large.push(e.position);
        } else {
            small.push(e.position);
        }
        n = n + 1;
    }
    effects.clear();
    (small, large)
}

} // verus!
