//! A two-dimensional particle fluid approximation on exact integer arithmetic:
//! a smoothing-kernel density estimate, a per-tick integrator and wall
//! collisions with restitution, each with a proved contract.
pub mod config;
pub mod density;
pub mod geometry;
pub mod kernel;
pub mod particle;
pub mod simulation;
pub mod wall;

pub use config::{SimError, SimulationConfig, MAX_PARTICLES, MAX_PARTICLE_RADIUS, MAX_SMOOTHING_RADIUS};
pub use density::density_at;
pub use geometry::{Ratio, Vec2, COORD_LIMIT};
pub use kernel::{distance_between, influence, isqrt};
pub use particle::{apply_velocity, gravity, Particle};
pub use simulation::{spawn_grid, step};
pub use wall::{
    collide, reflect, resolve_collisions, resolve_wall, standard_walls, Collision, Wall,
    WallLocation, BOTTOM_WALL, RESOLVE_LIMIT, LEFT_WALL, RIGHT_WALL, TOP_WALL, WALL_THICKNESS,
};
