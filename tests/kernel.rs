use fluid_sim::{density_at, distance_between, influence, isqrt, Particle, Vec2};

#[test]
fn influence_is_zero_at_and_beyond_radius() {
    assert_eq!(influence(40, 40), 0);
    assert_eq!(influence(41, 40), 0);
    assert_eq!(influence(1000, 40), 0);
    assert_eq!(influence(0, 0), 0);
}

#[test]
fn influence_is_cube_of_remaining_distance() {
    assert_eq!(influence(0, 40), 64000);
    assert_eq!(influence(30, 40), 1000);
    assert_eq!(influence(39, 40), 1);
}

#[test]
fn influence_falls_off_monotonically() {
    let mut previous = influence(0, 40);
    for d in 1..40u64 {
        let w = influence(d, 40);
        assert!(w <= previous);
        previous = w;
    }
}

#[test]
fn isqrt_rounds_down() {
    assert_eq!(isqrt(0), 0);
    assert_eq!(isqrt(1), 1);
    assert_eq!(isqrt(35), 5);
    assert_eq!(isqrt(36), 6);
    assert_eq!(isqrt(37), 6);
    assert_eq!(isqrt(u128::MAX), u64::MAX);
}

#[test]
fn distance_is_euclidean_not_squared() {
    assert_eq!(distance_between(Vec2::new(0, 0), Vec2::new(3, 4)), 5);
    assert_eq!(distance_between(Vec2::new(-3, -4), Vec2::new(0, 0)), 5);
    assert_eq!(distance_between(Vec2::new(0, 0), Vec2::new(1, 1)), 1);
    assert_eq!(distance_between(Vec2::new(10, 10), Vec2::new(10, 10)), 0);
}

#[test]
fn density_of_no_particles_is_zero() {
    let none: Vec<Particle> = Vec::new();
    assert_eq!(density_at(Vec2::new(7, -3), &none, 1, 40), Some(0));
    assert_eq!(density_at(Vec2::new(0, 0), &none, 5, 1), Some(0));
}

#[test]
fn density_of_single_particle_at_point() {
    let one = vec![Particle::new(Vec2::new(12, -8))];
    let weighted = density_at(Vec2::new(12, -8), &one, 1, 40).unwrap();
    assert_eq!(weighted, 40 * 40 * 40);
    let density = weighted as f64 / (std::f64::consts::PI * 40.0 * 40.0);
    assert!((density - 40.0 / std::f64::consts::PI).abs() < 1e-9);
    assert_eq!(density_at(Vec2::new(12, -8), &one, 3, 40), Some(3 * 64000));
}

#[test]
fn density_sums_weighted_contributions() {
    let ps = vec![
        Particle::new(Vec2::new(0, 0)),
        Particle::new(Vec2::new(30, 0)),
        Particle::new(Vec2::new(0, 40)),
        Particle::new(Vec2::new(100, 100)),
    ];
    assert_eq!(density_at(Vec2::new(0, 0), &ps, 2, 40), Some(2 * (64000 + 1000)));
}

#[test]
fn density_reports_overflow() {
    let ps = vec![Particle::new(Vec2::new(0, 0)), Particle::new(Vec2::new(0, 0))];
    let r: u64 = 1 << 40;
    assert_eq!(density_at(Vec2::new(0, 0), &ps, u64::MAX, r), None);
    let single = vec![Particle::new(Vec2::new(0, 0))];
    assert_eq!(density_at(Vec2::new(0, 0), &single, 1, r), Some(1u128 << 120));
}
