use vstd::prelude::*;

use crate::geometry::Ratio;

verus! {

/// Largest smoothing radius the kernel accepts; its cube fits in `u128`.
pub const MAX_SMOOTHING_RADIUS: u64 = 1099511627776;

/// Largest particle count a configuration may ask for.
pub const MAX_PARTICLES: u64 = 1048576;

/// Largest particle radius a configuration may ask for.
pub const MAX_PARTICLE_RADIUS: u32 = 65536;

/// Why a configuration, a wall set, a time step or a tick was refused.
#[derive(Clone, Copy, Debug, PartialEq, Eq, Structural)]
pub enum SimError {
    /// The time step has a zero denominator.
    InvalidTimeStep,
    /// A configuration value lies outside its documented range.
    InvalidConfiguration,
    /// A wall has a non-positive extent, or lies out of the coordinate range.
    DegenerateGeometry,
    /// A particle state lies, or would come to lie, outside the coordinate range.
    OutOfRange,
}


/// The tunable values of a simulation.
#[derive(Clone, Copy, Debug, PartialEq, Eq, Structural)]
pub struct SimulationConfig {
    pub particle_count: u64,
    pub particle_radius: u32,
    /// Extra gap between spawned particles, as a fraction of their spacing.
    pub spacing_factor: Ratio,
    /// Velocity kept, sign reversed, on a bounce.
    pub restitution: Ratio,
    pub smoothing_radius: u64,
    /// Reserved: the gravity hook applies no acceleration.
    pub gravity_strength: i64,
    pub particle_mass: u64,
}


impl SimulationConfig {
    /// Whether every value lies in its documented range: at least one and at most
    /// `MAX_PARTICLES` particles, a radius up to `MAX_PARTICLE_RADIUS`, spacing and
    /// restitution between zero and one, and a smoothing radius from one to
    /// `MAX_SMOOTHING_RADIUS`.
    pub open spec fn valid(self) -> bool {
        1 <= self.particle_count <= MAX_PARTICLES && self.particle_radius <= MAX_PARTICLE_RADIUS
            && self.spacing_factor.is_proper() && self.restitution.is_proper() && 1
            <= self.smoothing_radius <= MAX_SMOOTHING_RADIUS
    }

    /// Accepts a configuration whose values all lie in their documented ranges.
    pub fn validate(&self) -> (r: Result<(), SimError>)
        ensures
            r.is_ok() <==> self.valid(),
            r.is_err() ==> r == Err::<(), SimError>(SimError::InvalidConfiguration),
    {
        if 1 <= self.particle_count && self.particle_count <= MAX_PARTICLES && self.particle_radius
            <= MAX_PARTICLE_RADIUS && self.spacing_factor.den > 0 && self.spacing_factor.num
            <= self.spacing_factor.den && self.restitution.den > 0 && self.restitution.num
            <= self.restitution.den && 1 <= self.smoothing_radius && self.smoothing_radius
            <= MAX_SMOOTHING_RADIUS {
            Ok(())
        } else {
            Err(SimError::InvalidConfiguration)
        }
    }
}

impl Default for SimulationConfig {
    /// 36 particles of radius 5 and mass 1, spacing one half, restitution two fifths,
    /// smoothing radius 40, gravity strength 1.
    fn default() -> (r: SimulationConfig)
        ensures
            r.particle_count == 36,
            r.particle_radius == 5,
            r.spacing_factor == (Ratio { num: 1, den: 2 }),
            r.restitution == (Ratio { num: 2, den: 5 }),
            r.smoothing_radius == 40,
            r.gravity_strength == 1,
            r.particle_mass == 1,
            r.valid(),
    {
        SimulationConfig {
            particle_count: 36,
            particle_radius: 5,
            spacing_factor: Ratio { num: 1, den: 2 },
            restitution: Ratio { num: 2, den: 5 },
            smoothing_radius: 40,
            gravity_strength: 1,
            particle_mass: 1,
        }
    }
}

} // verus!
