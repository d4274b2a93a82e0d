use vstd::prelude::*;

use crate::config::{SimError, SimulationConfig};
use crate::geometry::{Ratio, Vec2};
use crate::kernel::{floor_sqrt, isqrt};
use crate::particle::{apply_velocity, gravity, integrated, integration_fits, Particle};
use crate::wall::{bounce_all, magnitude, resolve_collisions, Wall, WALL_THICKNESS};

verus! {

/// The particle after one tick: moved for `dt`, then resolved against each wall in turn.
pub open spec fn advanced(p: Particle, walls: Seq<Wall>, config: SimulationConfig, dt: Ratio) -> Particle {
    bounce_all(
        integrated(p, dt),
        config.particle_radius as int,
        walls,
        WALL_THICKNESS as int,
        config.restitution,
    )
}

pub open spec fn walls_valid(walls: Seq<Wall>) -> bool {
    forall|i: int| 0 <= i < walls.len() ==> (#[trigger] walls[i]).valid()
}

/// Whether every particle is in range and stays in range when moved for `dt`.
pub open spec fn can_advance(particles: Seq<Particle>, dt: Ratio) -> bool {
    forall|i: int|
        0 <= i < particles.len() ==> (#[trigger] particles[i]).in_range() && integration_fits(
            particles[i],
            dt,
        )
}

/// Advances the simulation by one tick of `dt` seconds: every particle is moved by its
/// velocity, the gravity hook runs, then every particle is resolved against the walls.
///
/// A refused tick leaves the particles as they were. The checks come in this order:
/// the configuration, the time step, the walls, then the particles.
pub fn step(particles: &mut Vec<Particle>, walls: &Vec<Wall>, config: &SimulationConfig, dt: Ratio) -> (r: Result<(), SimError>)
    ensures
        !config.valid() ==> r == Err::<(), SimError>(SimError::InvalidConfiguration),
        config.valid() && dt.den == 0 ==> r == Err::<(), SimError>(SimError::InvalidTimeStep),
        config.valid() && dt.den != 0 && !walls_valid(walls@) ==> r == Err::<(), SimError>(
            SimError::DegenerateGeometry,
        ),
        config.valid() && dt.den != 0 && walls_valid(walls@) && !can_advance(old(particles)@, dt)
            ==> r == Err::<(), SimError>(SimError::OutOfRange),
        r.is_ok() <==> (config.valid() && dt.den != 0 && walls_valid(walls@) && can_advance(
            old(particles)@,
            dt,
        )),
        r.is_err() ==> final(particles)@ == old(particles)@,
        r.is_ok() ==> final(particles)@.len() == old(particles)@.len() && forall|i: int|
            0 <= i < old(particles)@.len() ==> #[trigger] final(particles)@[i] == advanced(
                old(particles)@[i],
                walls@,
                *config,
                dt,
            ),
{
    if config.validate().is_err() {
        return Err(SimError::InvalidConfiguration);
    }
    if dt.den == 0 {
        return Err(SimError::InvalidTimeStep);
    }
    let mut w: usize = 0;
    while w < walls.len()
        invariant
            config.valid(),
            dt.den != 0,
            0 <= w <= walls.len(),
            forall|k: int| 0 <= k < w ==> (#[trigger] walls@[k]).valid(),
        decreases walls.len() - w,
    {
        if !walls[w].is_valid() {
            return Err(SimError::DegenerateGeometry);
        }
        w = w + 1;
    }
    let ghost start = particles@;
    let mut moved: Vec<Particle> = Vec::new();
    let mut i: usize = 0;
    while i < particles.len()
        invariant
            start == particles@,
            config.valid(),
            dt.den != 0,
            walls_valid(walls@),
            0 <= i <= start.len(),
            moved@.len() == i,
            forall|k: int| 0 <= k < i ==> (#[trigger] start[k]).in_range() && integration_fits(start[k], dt),
            forall|k: int| 0 <= k < i ==> #[trigger] moved@[k] == integrated(start[k], dt),
        decreases start.len() - i,
    {
        let mut q = particles[i];
        if apply_velocity(&mut q, dt).is_err() {
            return Err(SimError::OutOfRange);
        }
        moved.push(q);
        i = i + 1;
    }
    gravity(&mut moved, config, dt);
    let mut out: Vec<Particle> = Vec::new();
    let mut j: usize = 0;
    while j < moved.len()
        invariant
            config.valid(),
            walls_valid(walls@),
            moved@.len() == start.len(),
            forall|k: int| 0 <= k < start.len() ==> (#[trigger] start[k]).in_range() && integration_fits(start[k], dt),
            forall|k: int| 0 <= k < start.len() ==> #[trigger] moved@[k] == integrated(start[k], dt),
            0 <= j <= moved@.len(),
            out@.len() == j,
            forall|k: int| 0 <= k < j ==> #[trigger] out@[k] == advanced(start[k], walls@, *config, dt),
        decreases moved@.len() - j,
    {
        let mut q = moved[j];
        assert(moved@[j as int] == integrated(start[j as int], dt));
        assert(start[j as int].in_range());
        resolve_collisions(&mut q, walls, config.particle_radius, WALL_THICKNESS, config.restitution);
        out.push(q);
        j = j + 1;
    }
    *particles = out;
    Ok(())
}


/// `v * (1 + spacing)`, rounded toward zero.
pub open spec fn stretched(v: int, spacing: Ratio) -> int {
    if v >= 0 {
        (v * (spacing.den + spacing.num)) / (spacing.den as int)
    } else {
        -(((-v) * (spacing.den + spacing.num)) / (spacing.den as int))
    }
}

/// Columns of the spawn grid: the floor of the square root of the particle count.
pub open spec fn grid_cols(config: SimulationConfig) -> nat {
    floor_sqrt(config.particle_count as nat)
}

/// Where the `i`-th particle (counted from one) is spawned: a grid of `grid_cols` columns,
/// centred on the origin along x, one diameter between neighbours before the spacing
/// factor stretches it.
pub open spec fn grid_position(config: SimulationConfig, i: nat) -> Vec2 {
    let cols = grid_cols(config) as int;
    let rows = config.particle_count as int / cols;
    let r = config.particle_radius as int;
    let x = -(r * cols) + ((i as int) % cols) * (2 * r);
    let y = r * rows - ((i + cols - 1) / cols) * (2 * r);
    Vec2 {
        x: stretched(x, config.spacing_factor) as i64,
        y: stretched(y, config.spacing_factor) as i64,
    }
}

fn stretch(v: i64, spacing: Ratio) -> (r: i64)
    requires
        -0x40_0000_0000 <= v <= 0x40_0000_0000,
        spacing.is_proper(),
    ensures
        r == stretched(v as int, spacing),
        -0x80_0000_0000 <= r <= 0x80_0000_0000,
{
    let m: u128 = if v >= 0 {
        v as u128
    } else {
        (-v) as u128
    };
    let f: u128 = spacing.den as u128 + spacing.num as u128;
    let d: u128 = spacing.den as u128;
    assert(m * f <= 0x40_0000_0000 * 0x2_0000_0000 && m * f <= m * (2 * d)) by (nonlinear_arith)
        requires
            m <= 0x40_0000_0000,
            f <= 2 * d,
            d <= 0xffff_ffff,
    ;
    let q: u128 = (m * f) / d;
    proof {
        vstd::arithmetic::div_mod::lemma_div_is_ordered((m * f) as int, (m * (2 * d)) as int, d as int);
        vstd::arithmetic::div_mod::lemma_div_by_multiple((2 * m) as int, d as int);
        assert(m * (2 * d) == (2 * m) * d) by (nonlinear_arith);
    }
    if v >= 0 {
        q as i64
    } else {
        -(q as i64)
    }
}

/// The particles of a fresh simulation, at rest on the spawn grid, in spawn order.
pub fn spawn_grid(config: &SimulationConfig) -> (r: Vec<Particle>)
    requires
        config.valid(),
    ensures
        r@.len() == config.particle_count,
        forall|k: int|
            0 <= k < r@.len() ==> #[trigger] r@[k] == (Particle {
                position: grid_position(*config, (k + 1) as nat),
                velocity: Vec2 { x: 0, y: 0 },
            }),
{
    let count: u64 = config.particle_count;
    let cols: u64 = isqrt(count as u128);
    proof {
        assert(cols >= 1) by (nonlinear_arith)
            requires
                count >= 1,
                count < (cols + 1) * (cols + 1),
        ;
        assert(cols <= 1024) by (nonlinear_arith)
            requires
                cols * cols <= count,
                count <= 1048576,
        ;
    }
    let rows: u64 = count / cols;
    let radius: i64 = config.particle_radius as i64;
    let diameter: i64 = 2 * radius;
    assert(rows <= count) by {
        vstd::arithmetic::div_mod::lemma_div_is_ordered_by_denominator(count as int, 1, cols as int);
    }
    assert(radius * cols <= 0x400_0000 && radius * rows <= 0x10_0000_0000) by (nonlinear_arith)
        requires
            0 <= radius <= 65536,
            cols <= 1024,
            rows <= 1048576,
    ;
    let x_start: i64 = radius * cols as i64;
    let y_start: i64 = radius * rows as i64;
    let mut out: Vec<Particle> = Vec::new();
    let mut i: u64 = 1;
    while i <= count
        invariant
            config.valid(),
            count == config.particle_count,
            cols == grid_cols(*config),
            1 <= cols <= 1024,
            rows == count / cols,
            radius == config.particle_radius,
            diameter == 2 * radius,
            x_start == radius * cols,
            y_start == radius * rows,
            0 <= x_start <= 0x400_0000,
            0 <= y_start <= 0x10_0000_0000,
            1 <= i <= count + 1,
            out@.len() == i - 1,
            forall|k: int|
                0 <= k < out@.len() ==> #[trigger] out@[k] == (Particle {
                    position: grid_position(*config, (k + 1) as nat),
                    velocity: Vec2 { x: 0, y: 0 },
                }),
        decreases count + 1 - i,
    {
        let col: u64 = i % cols;
        let band: u64 = (i + cols - 1) / cols;
        assert(band <= i + cols - 1) by {
            vstd::arithmetic::div_mod::lemma_div_is_ordered_by_denominator((i + cols - 1) as int, 1, cols as int);
        }
        assert(col < cols) by {
            vstd::arithmetic::div_mod::lemma_mod_bound(i as int, cols as int);
        }
        assert(band <= 1049600);
        assert(diameter <= 131072);
        assert(col * diameter <= 0x800_0000) by (nonlinear_arith)
            requires
                0 <= col < 1024,
                0 <= diameter <= 131072,
        ;
        assert(band * diameter <= 0x21_0000_0000) by (nonlinear_arith)
            requires
                0 <= band <= 1049600,
                0 <= diameter <= 131072,
        ;
        let x: i64 = -x_start + col as i64 * diameter;
        let y: i64 = y_start - band as i64 * diameter;
        let p = Particle::new(Vec2::new(stretch(x, config.spacing_factor), stretch(y, config.spacing_factor)));
        proof {
            assert(p.position == grid_position(*config, i as nat));
        }
        out.push(p);
        i = i + 1;
    }
    out
}


/// A tick never increases the magnitude of either velocity component of a particle:
/// moving keeps the velocity, and each bounce scales it by the restitution.
pub proof fn lemma_tick_never_speeds_up(p: Particle, walls: Seq<Wall>, config: SimulationConfig, dt: Ratio)
    requires
        config.valid(),
        p.velocity.in_range(),
    ensures
        magnitude(advanced(p, walls, config, dt).velocity.x as int) <= magnitude(p.velocity.x as int),
        magnitude(advanced(p, walls, config, dt).velocity.y as int) <= magnitude(p.velocity.y as int),
{
    crate::wall::lemma_bounce_never_speeds_up(
        integrated(p, dt),
        config.particle_radius as int,
        walls,
        WALL_THICKNESS as int,
        config.restitution,
    );
}

} // verus!
