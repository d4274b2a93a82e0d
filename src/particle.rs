use vstd::prelude::*;

use crate::config::{SimError, SimulationConfig};
use crate::geometry::{scale_component, scale_toward_zero, Ratio, Vec2, COORD_LIMIT};

verus! {

/// A point mass: where it is and how fast it moves, in length units per second.
#[derive(Clone, Copy, Debug, PartialEq, Eq, Structural)]
pub struct Particle {
    pub position: Vec2,
    pub velocity: Vec2,
}

impl Particle {
    pub open spec fn in_range(self) -> bool {
        self.position.in_range() && self.velocity.in_range()
    }

    /// A particle at rest at `position`.
    pub fn new(position: Vec2) -> (r: Particle)
        ensures
            r.position == position,
            r.velocity == (Vec2 { x: 0, y: 0 }),
    {
        Particle { position, velocity: Vec2::zero() }
    }
}

/// Position component after moving at velocity `v` for `dt` seconds (rounded toward zero).
pub open spec fn moved(x: i64, v: i64, dt: Ratio) -> int {
    x + scale_toward_zero(v as int, dt)
}

/// Whether the particle, moved for `dt`, stays in the coordinate range.
pub open spec fn integration_fits(p: Particle, dt: Ratio) -> bool {
    -COORD_LIMIT <= moved(p.position.x, p.velocity.x, dt) <= COORD_LIMIT && -COORD_LIMIT <= moved(
        p.position.y,
        p.velocity.y,
        dt,
    ) <= COORD_LIMIT
}

/// The particle moved for `dt`, its velocity unchanged.
pub open spec fn integrated(p: Particle, dt: Ratio) -> Particle {
    Particle {
        position: Vec2 {
            x: moved(p.position.x, p.velocity.x, dt) as i64,
            y: moved(p.position.y, p.velocity.y, dt) as i64,
        },
        velocity: p.velocity,
    }
}

/// Advances a particle's position by its velocity over `dt` seconds.
///
/// A zero-denominator `dt` is refused, and so is a particle that is, or
/// would come to be, out of the coordinate range; a refused particle is left as it was.
pub fn apply_velocity(particle: &mut Particle, dt: Ratio) -> (r: Result<(), SimError>)
    ensures
        dt.den == 0 ==> r == Err::<(), SimError>(SimError::InvalidTimeStep),
        dt.den != 0 && !(old(particle).in_range() && integration_fits(*old(particle), dt)) ==> r
            == Err::<(), SimError>(SimError::OutOfRange),
        r.is_err() ==> *final(particle) == *old(particle),
        r.is_ok() ==> *final(particle) == integrated(*old(particle), dt),
        r.is_ok() <==> (dt.den != 0 && old(particle).in_range() && integration_fits(
            *old(particle),
            dt,
        )),
{
    if dt.den == 0 {
        return Err(SimError::InvalidTimeStep);
    }
    if !(particle.position.is_in_range() && particle.velocity.is_in_range()) {
        return Err(SimError::OutOfRange);
    }
    let nx: i128 = particle.position.x as i128 + scale_component(particle.velocity.x, dt);
    let ny: i128 = particle.position.y as i128 + scale_component(particle.velocity.y, dt);
    if nx < -(COORD_LIMIT as i128) || nx > COORD_LIMIT as i128 || ny < -(COORD_LIMIT as i128) || ny
        > COORD_LIMIT as i128 {
        return Err(SimError::OutOfRange);
    }
    particle.position.x = nx as i64;
    particle.position.y = ny as i64;
    Ok(())
}

/// The gravity hook of a tick: it applies no acceleration and leaves every particle as it was.
pub fn gravity(particles: &mut Vec<Particle>, config: &SimulationConfig, dt: Ratio)
    ensures
        final(particles)@ == old(particles)@,
{
}

} // verus!
