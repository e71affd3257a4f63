//! Fixed-point geometry: three-component vectors in milli-units, and the
//! integer square root used to normalize approach vectors.

use vstd::prelude::*;

verus! {

/// A point or velocity in world space, in milli-units: 1000 milli-units
/// are one world unit.
#[derive(Clone, Copy, PartialEq, Eq, Structural, Debug)]
pub struct Vec3 {
    pub x: i64,
    pub y: i64,
    pub z: i64,
}

impl Vec3 {
    pub open spec fn spec_zero() -> Vec3 {
        Vec3 { x: 0, y: 0, z: 0 }
    }

    pub fn zero() -> (r: Vec3)
        ensures
            r == Vec3::spec_zero(),
    {
        Vec3 { x: 0, y: 0, z: 0 }
    }

    /// Every component lies in `[-bound, bound]`.
    pub open spec fn in_bounds(self, bound: i64) -> bool {
        &&& -bound <= self.x <= bound
        &&& -bound <= self.y <= bound
        &&& -bound <= self.z <= bound
    }
}

/// Component-wise vector addition (with machine-width truncation; callers
/// keep values far from the edges).
pub open spec fn spec_add(a: Vec3, b: Vec3) -> Vec3 {
    Vec3 { x: (a.x + b.x) as i64, y: (a.y + b.y) as i64, z: (a.z + b.z) as i64 }
}

/// The squared distance between two points, as a mathematical integer.
pub open spec fn dist_sq(a: Vec3, b: Vec3) -> int {
    (b.x - a.x) * (b.x - a.x) + (b.y - a.y) * (b.y - a.y) + (b.z - a.z) * (b.z - a.z)
}

/// Positions handled by the movement systems stay within this many
/// milli-units per component, so squared distances fit in a machine word.
pub const COORD_LIMIT: i64 = 1000000000;

/// The squared distance between two in-bounds points.
pub fn dist_sq_u64(a: Vec3, b: Vec3) -> (r: u64)
    requires
        a.in_bounds(COORD_LIMIT),
        b.in_bounds(COORD_LIMIT),
    ensures
        r == dist_sq(a, b),
{
    let dx = if b.x >= a.x { b.x - a.x } else { a.x - b.x };
    let dy = if b.y >= a.y { b.y - a.y } else { a.y - b.y };
    let dz = if b.z >= a.z { b.z - a.z } else { a.z - b.z };
    proof {
        assert((b.x - a.x) * (b.x - a.x) == dx * dx && dx * dx <= 4000000000000000000)
            by (nonlinear_arith)
            requires
                dx == if b.x >= a.x { b.x - a.x } else { a.x - b.x },
                0 <= dx <= 2000000000,
        ;
        assert((b.y - a.y) * (b.y - a.y) == dy * dy && dy * dy <= 4000000000000000000)
            by (nonlinear_arith)
            requires
                dy == if b.y >= a.y { b.y - a.y } else { a.y - b.y },
                0 <= dy <= 2000000000,
        ;
        assert((b.z - a.z) * (b.z - a.z) == dz * dz && dz * dz <= 4000000000000000000)
            by (nonlinear_arith)
            requires
                dz == if b.z >= a.z { b.z - a.z } else { a.z - b.z },
                0 <= dz <= 2000000000,
        ;
    }
    let sx = (dx as u64) * (dx as u64);
    let sy = (dy as u64) * (dy as u64);
    let sz = (dz as u64) * (dz as u64);
    sx + sy + sz
}

/// The greatest `r` with `r * r <= n`.
pub open spec fn sqrt_floor(n: nat) -> nat
    decreases n,
{
    if n == 0 {
        0
    } else {
        let p = sqrt_floor((n - 1) as nat);
        if (p + 1) * (p + 1) <= n {
            p + 1
        } else {
            p
        }
    }
}

pub proof fn lemma_sqrt_floor_bounds(n: nat)
    ensures
        sqrt_floor(n) * sqrt_floor(n) <= n,
        n < (sqrt_floor(n) + 1) * (sqrt_floor(n) + 1),
    decreases n,
{
    if n == 0 {
        assert(sqrt_floor(n) == 0);
        assert((sqrt_floor(n) + 1) * (sqrt_floor(n) + 1) == 1) by (nonlinear_arith)
            requires
                sqrt_floor(n) == 0,
        ;
    } else {
        lemma_sqrt_floor_bounds((n - 1) as nat);
        let p = sqrt_floor((n - 1) as nat);
        assert(p * p <= n - 1);
        assert(n - 1 < (p + 1) * (p + 1));
        if (p + 1) * (p + 1) <= n {
            assert(sqrt_floor(n) == p + 1);
            assert((p + 1) * (p + 1) < (p + 2) * (p + 2)) by (nonlinear_arith)
                requires
                    p >= 0,
            ;
            assert(n < (p + 2) * (p + 2));
            assert(sqrt_floor(n) * sqrt_floor(n) <= n);
            assert(n < (sqrt_floor(n) + 1) * (sqrt_floor(n) + 1));
        } else {
            assert(sqrt_floor(n) == p);
            assert(sqrt_floor(n) * sqrt_floor(n) <= n);
            assert(n < (sqrt_floor(n) + 1) * (sqrt_floor(n) + 1));
        }
    }
}

pub proof fn lemma_sqrt_floor_unique(n: nat, r: nat)
    requires
        r * r <= n,
        n < (r + 1) * (r + 1),
    ensures
        r == sqrt_floor(n),
{
    lemma_sqrt_floor_bounds(n);
    let s = sqrt_floor(n);
    if r < s {
        assert((r + 1) * (r + 1) <= s * s) by (nonlinear_arith)
            requires
                r + 1 <= s,
        ;
    }
    if s < r {
        assert((s + 1) * (s + 1) <= r * r) by (nonlinear_arith)
            requires
                s + 1 <= r,
        ;
    }
}

/// Integer square root by binary search.
pub fn isqrt(n: u64) -> (r: u64)
    ensures
        r == sqrt_floor(n as nat),
        r * r <= n < (r + 1) * (r + 1),
{
    let mut lo: u64 = 0;
    let mut hi: u64 = 4294967296;
    assert(n < hi * hi) by (nonlinear_arith)
        requires
            n <= u64::MAX,
            hi == 4294967296u64,
    ;
    while lo + 1 < hi
        invariant
            lo < hi,
            hi <= 4294967296,
            lo * lo <= n,
            n < hi * hi,
        decreases hi - lo,
    {
        let mid = lo + (hi - lo) / 2;
        proof {
            assert((mid as int) * (mid as int) <= 0x10000000000000000int) by (nonlinear_arith)
                requires
                    0 <= mid <= 4294967296u64,
            ;
        }
        if (mid as u128) * (mid as u128) <= n as u128 {
            lo = mid;
        } else {
            hi = mid;
        }
    }
    proof {
        lemma_sqrt_floor_unique(n as nat, lo as nat);
    }
    lo
}

} // verus!
