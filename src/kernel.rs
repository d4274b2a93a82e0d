use vstd::prelude::*;

use crate::geometry::{Vec2, COORD_LIMIT};

verus! {

/// The floor of the square root of `n`.
pub open spec fn floor_sqrt(n: nat) -> nat {
    choose|r: nat| #[trigger] (r * r) <= n && n < (r + 1) * (r + 1)
}

proof fn lemma_sqrt_unique(n: nat, r1: nat, r2: nat)
    requires
        r1 * r1 <= n < (r1 + 1) * (r1 + 1),
        r2 * r2 <= n < (r2 + 1) * (r2 + 1),
    ensures
        r1 == r2,
{
    if r1 < r2 {
        assert((r1 + 1) * (r1 + 1) <= r2 * r2) by (nonlinear_arith)
            requires
                r1 + 1 <= r2,
        ;
    } else if r2 < r1 {
        assert((r2 + 1) * (r2 + 1) <= r1 * r1) by (nonlinear_arith)
            requires
                r2 + 1 <= r1,
        ;
    }
}

/// `floor_sqrt` is characterised by its defining inequalities.
pub proof fn lemma_floor_sqrt(n: nat, r: nat)
    requires
        r * r <= n < (r + 1) * (r + 1),
    ensures
        floor_sqrt(n) == r,
{
    let s = floor_sqrt(n);
    assert(s * s <= n && n < (s + 1) * (s + 1));
    lemma_sqrt_unique(n, r, s);
}

/// Integer square root by bisection.
pub fn isqrt(n: u128) -> (r: u64)
    ensures
        r * r <= n < (r + 1) * (r + 1),
        r == floor_sqrt(n as nat),
{
    let mut lo: u128 = 0;
    let mut hi: u128 = 0x1_0000_0000_0000_0000;
    while hi - lo > 1
        invariant
            lo < hi <= 0x1_0000_0000_0000_0000,
            lo * lo <= n < hi * hi,
        decreases hi - lo,
    {
        let mid: u128 = lo + (hi - lo) / 2;
        assert(mid * mid <= 0xffff_ffff_ffff_ffff * 0xffff_ffff_ffff_ffff) by (nonlinear_arith)
            requires
                mid < 0x1_0000_0000_0000_0000,
        ;
        if mid * mid <= n {
            lo = mid;
        } else {
            hi = mid;
        }
    }
    assert(hi == lo + 1);
    proof {
        lemma_floor_sqrt(n as nat, lo as nat);
    }
    lo as u64
}

/// Squared Euclidean distance between two points.
pub open spec fn distance_sq(p1: Vec2, p2: Vec2) -> nat {
    ((p2.x - p1.x) * (p2.x - p1.x) + (p2.y - p1.y) * (p2.y - p1.y)) as nat
}

/// Euclidean distance between two points, rounded down to the length unit.
pub open spec fn distance(p1: Vec2, p2: Vec2) -> nat {
    floor_sqrt(distance_sq(p1, p2))
}

/// The true Euclidean norm of `p2 - p1`, rounded down.
pub fn distance_between(p1: Vec2, p2: Vec2) -> (r: u64)
    requires
        p1.in_range(),
        p2.in_range(),
    ensures
        r == distance(p1, p2),
        r * r <= distance_sq(p1, p2) < (r + 1) * (r + 1),
{
    let dx: i128 = p2.x as i128 - p1.x as i128;
    let dy: i128 = p2.y as i128 - p1.y as i128;
    assert(dx * dx <= 0x40_0000_0000_0000_0000_0000) by (nonlinear_arith)
        requires
            -0x200_0000_0000 <= dx <= 0x200_0000_0000,
    ;
    assert(dy * dy <= 0x40_0000_0000_0000_0000_0000) by (nonlinear_arith)
        requires
            -0x200_0000_0000 <= dy <= 0x200_0000_0000,
    ;
    assert(0 <= dx * dx && 0 <= dy * dy) by (nonlinear_arith);
    let sq: u128 = (dx * dx + dy * dy) as u128;
    isqrt(sq)
}

/// The kernel weight: `max(0, smoothing_radius - distance)` cubed.
pub open spec fn influence_of(distance: int, smoothing_radius: int) -> int {
    if distance >= smoothing_radius {
        0
    } else {
        (smoothing_radius - distance) * (smoothing_radius - distance) * (smoothing_radius
            - distance)
    }
}


/// Smoothing-kernel weight of a sample at `distance` for the given radius.
pub fn influence(distance: u64, smoothing_radius: u64) -> (r: u128)
    requires
        smoothing_radius <= crate::config::MAX_SMOOTHING_RADIUS,
    ensures
        r == influence_of(distance as int, smoothing_radius as int),
        distance >= smoothing_radius ==> r == 0,
{
    if distance >= smoothing_radius {
        0
    } else {
        let c: u128 = (smoothing_radius - distance) as u128;
        assert(c * c <= 0x1_0000_0000_0000_0000_0000) by (nonlinear_arith)
            requires
                c <= 0x100_0000_0000,
        ;
        assert(c * c * c <= 0x100_0000_0000_0000_0000_0000_0000_0000) by (nonlinear_arith)
            requires
                c <= 0x100_0000_0000,
                c * c <= 0x1_0000_0000_0000_0000_0000,
        ;
        c * c * c
    }
}

/// A sample at or beyond the smoothing radius contributes nothing.
pub proof fn lemma_influence_vanishes(distance: int, smoothing_radius: int)
    requires
        distance >= smoothing_radius,
    ensures
        influence_of(distance, smoothing_radius) == 0,
{
}

/// Inside the smoothing radius, a nearer sample never weighs less than a farther one.
pub proof fn lemma_influence_monotone(d1: int, d2: int, smoothing_radius: int)
    requires
        0 <= d1 < d2 < smoothing_radius,
    ensures
        influence_of(d1, smoothing_radius) >= influence_of(d2, smoothing_radius),
{
    let a = smoothing_radius - d1;
    let b = smoothing_radius - d2;
    assert(a * a * a >= b * b * b) by (nonlinear_arith)
        requires
            a > b > 0,
    ;
}

/// The kernel never weighs a sample negatively.
pub proof fn lemma_influence_nonnegative(distance: nat, smoothing_radius: nat)
    ensures
        influence_of(distance as int, smoothing_radius as int) >= 0,
{
    let c = smoothing_radius - distance;
    if c > 0 {
        assert(c * c * c > 0) by (nonlinear_arith)
            requires
                c > 0,
        ;
    }
}

} // verus!
