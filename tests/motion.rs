use fluid_sim::{apply_velocity, gravity, Particle, Ratio, SimError, SimulationConfig, Vec2, COORD_LIMIT};

fn moving(x: i64, y: i64, vx: i64, vy: i64) -> Particle {
    Particle { position: Vec2::new(x, y), velocity: Vec2::new(vx, vy) }
}

#[test]
fn integration_advances_by_velocity_times_dt() {
    let mut p = moving(10, 20, 2, 0);
    assert_eq!(apply_velocity(&mut p, Ratio::new(1, 2)), Ok(()));
    assert_eq!(p.position, Vec2::new(11, 20));
    assert_eq!(p.velocity, Vec2::new(2, 0));
}

#[test]
fn integration_rounds_toward_zero() {
    let mut p = moving(0, 0, -3, 3);
    assert_eq!(apply_velocity(&mut p, Ratio::new(1, 2)), Ok(()));
    assert_eq!(p.position, Vec2::new(-1, 1));
    let mut q = moving(0, 0, 120, -60);
    assert_eq!(apply_velocity(&mut q, Ratio::new(1, 60)), Ok(()));
    assert_eq!(q.position, Vec2::new(2, -1));
}

#[test]
fn integration_refuses_zero_denominator() {
    let mut p = moving(1, 2, 3, 4);
    assert_eq!(apply_velocity(&mut p, Ratio::new(1, 0)), Err(SimError::InvalidTimeStep));
    assert_eq!(p, moving(1, 2, 3, 4));
}

#[test]
fn integration_refuses_leaving_range() {
    let mut p = moving(COORD_LIMIT, 0, 1, 0);
    assert_eq!(apply_velocity(&mut p, Ratio::new(1, 1)), Err(SimError::OutOfRange));
    assert_eq!(p, moving(COORD_LIMIT, 0, 1, 0));
    let mut q = moving(0, 0, COORD_LIMIT + 1, 0);
    assert_eq!(apply_velocity(&mut q, Ratio::new(0, 1)), Err(SimError::OutOfRange));
}

#[test]
fn gravity_hook_changes_nothing() {
    let mut ps = vec![moving(1, 2, 3, 4), moving(-5, 6, 0, -7)];
    let before = ps.clone();
    gravity(&mut ps, &SimulationConfig::default(), Ratio::new(1, 60));
    assert_eq!(ps, before);
}
