use vstd::prelude::*;

use crate::config::MAX_SMOOTHING_RADIUS;
use crate::geometry::Vec2;
use crate::kernel::{distance, distance_between, influence, influence_of, lemma_influence_nonnegative};
use crate::particle::Particle;

verus! {

/// Kernel-weighted mass of the particles around `point`:
/// the sum of `mass * influence(distance(p, point))` over all particles.
pub open spec fn weighted_mass(particles: Seq<Particle>, point: Vec2, mass: nat, smoothing_radius: nat) -> int
    decreases particles.len(),
{
    if particles.len() == 0 {
        0
    } else {
        weighted_mass(particles.drop_last(), point, mass, smoothing_radius) + mass * influence_of(
            distance(particles.last().position, point) as int,
            smoothing_radius as int,
        )
    }
}

proof fn lemma_weighted_mass_grows(particles: Seq<Particle>, point: Vec2, mass: nat, smoothing_radius: nat, i: int, j: int)
    requires
        0 <= i <= j <= particles.len(),
    ensures
        0 <= weighted_mass(particles.take(i), point, mass, smoothing_radius) <= weighted_mass(
            particles.take(j),
            point,
            mass,
            smoothing_radius,
        ),
    decreases j,
{
    if j > 0 {
        assert(particles.take(j).drop_last() =~= particles.take(j - 1));
        let p = particles.take(j).last();
        lemma_influence_nonnegative(distance(p.position, point), smoothing_radius);
        let w = influence_of(distance(p.position, point) as int, smoothing_radius as int);
        assert(mass * w >= 0) by (nonlinear_arith)
            requires
                w >= 0,
        ;
        if i < j {
            lemma_weighted_mass_grows(particles, point, mass, smoothing_radius, i, j - 1);
        } else {
            lemma_weighted_mass_grows(particles, point, mass, smoothing_radius, j - 1, j - 1);
        }
    } else {
        assert(particles.take(0) =~= Seq::<Particle>::empty());
    }
}

/// The kernel-weighted mass around `point`, the numerator of the density estimate.
///
/// The density is this value divided by the kernel's area `pi * smoothing_radius^2`.
/// Returns `None` exactly when the weighted mass does not fit in `u128`.
pub fn density_at(point: Vec2, particles: &Vec<Particle>, mass: u64, smoothing_radius: u64) -> (r: Option<u128>)
    requires
        point.in_range(),
        forall|i: int| 0 <= i < particles.len() ==> (#[trigger] particles@[i]).position.in_range(),
        smoothing_radius <= MAX_SMOOTHING_RADIUS,
    ensures
        r == (if weighted_mass(particles@, point, mass as nat, smoothing_radius as nat) <= u128::MAX {
            Some(weighted_mass(particles@, point, mass as nat, smoothing_radius as nat) as u128)
        } else {
            None::<u128>
        }),
{
    let ghost ps = particles@;
    let mut total: u128 = 0;
    let mut i: usize = 0;
    proof {
        assert(ps.take(0) =~= Seq::<Particle>::empty());
    }
    while i < particles.len()
        invariant
            ps == particles@,
            0 <= i <= ps.len(),
            point.in_range(),
            forall|k: int| 0 <= k < ps.len() ==> (#[trigger] ps[k]).position.in_range(),
            smoothing_radius <= MAX_SMOOTHING_RADIUS,
            total == weighted_mass(ps.take(i as int), point, mass as nat, smoothing_radius as nat),
        decreases ps.len() - i,
    {
        let p = particles[i];
        let d = distance_between(p.position, point);
        let w = influence(d, smoothing_radius);
        proof {
            assert(ps.take(i + 1).drop_last() =~= ps.take(i as int));
            assert(ps.take(i + 1).last() == p);
            lemma_weighted_mass_grows(ps, point, mass as nat, smoothing_radius as nat, i + 1, ps.len() as int);
            assert(ps.take(ps.len() as int) =~= ps);
        }
        match (mass as u128).checked_mul(w) {
            Some(term) => match total.checked_add(term) {
                Some(t) => {
                    total = t;
                },
                None => {
                    return None;
                },
            },
            None => {
                proof {
                    assert(0 <= total);
                }
                return None;
            },
        }
        i = i + 1;
    }
    proof {
        assert(ps.take(ps.len() as int) =~= ps);
    }
    Some(total)
}

/// With no particles the weighted mass, and so the density, is zero everywhere.
pub proof fn lemma_density_empty(point: Vec2, mass: nat, smoothing_radius: nat)
    ensures
        weighted_mass(Seq::<Particle>::empty(), point, mass, smoothing_radius) == 0,
{
}

/// A single particle at the query point contributes `mass * r^3`,
/// giving the density `mass * r^3 / (pi * r^2)`.
pub proof fn lemma_density_single_at_point(p: Particle, mass: nat, smoothing_radius: nat)
    requires
        smoothing_radius > 0,
    ensures
        weighted_mass(seq![p], p.position, mass, smoothing_radius) == mass * (smoothing_radius
            * smoothing_radius * smoothing_radius),
{
    assert(seq![p].drop_last() =~= Seq::<Particle>::empty());
    assert(crate::kernel::distance_sq(p.position, p.position) == 0);
    crate::kernel::lemma_floor_sqrt(0, 0);
    assert(distance(p.position, p.position) == 0);
    assert(weighted_mass(Seq::<Particle>::empty(), p.position, mass, smoothing_radius) == 0);
    assert(seq![p].last() == p);
}

} // verus!
