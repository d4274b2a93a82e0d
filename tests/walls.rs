use fluid_sim::{
    collide, reflect, resolve_collisions, resolve_wall, standard_walls, Collision, Particle, Ratio,
    SimError, Vec2, Wall, WallLocation, WALL_THICKNESS,
};

fn moving(x: i64, y: i64, vx: i64, vy: i64) -> Particle {
    Particle { position: Vec2::new(x, y), velocity: Vec2::new(vx, vy) }
}

const BOUNCE: Ratio = Ratio { num: 2, den: 5 };

#[test]
fn wall_geometry_matches_box() {
    assert_eq!(WallLocation::Left.position(), Vec2::new(-300, 0));
    assert_eq!(WallLocation::Right.position(), Vec2::new(300, 0));
    assert_eq!(WallLocation::Top.position(), Vec2::new(0, 250));
    assert_eq!(WallLocation::Bottom.position(), Vec2::new(0, -250));
    assert_eq!(WallLocation::Left.size(), Vec2::new(5, 505));
    assert_eq!(WallLocation::Top.size(), Vec2::new(605, 5));
    let walls = standard_walls();
    assert_eq!(walls.len(), 4);
    assert_eq!(walls[0], Wall::at(WallLocation::Left));
    assert_eq!(walls[1], Wall::at(WallLocation::Right));
    assert_eq!(walls[2], Wall::at(WallLocation::Top));
    assert_eq!(walls[3], Wall::at(WallLocation::Bottom));
}

#[test]
fn degenerate_wall_is_refused() {
    assert_eq!(Wall::new(Vec2::new(0, 0), Vec2::new(0, 5)), Err(SimError::DegenerateGeometry));
    assert_eq!(Wall::new(Vec2::new(0, 0), Vec2::new(5, -1)), Err(SimError::DegenerateGeometry));
    assert_eq!(
        Wall::new(Vec2::new(1, 2), Vec2::new(3, 4)),
        Ok(Wall { center: Vec2::new(1, 2), size: Vec2::new(3, 4) })
    );
}

#[test]
fn collide_names_the_face_of_least_penetration() {
    let left = Wall::at(WallLocation::Left);
    let right = Wall::at(WallLocation::Right);
    let top = Wall::at(WallLocation::Top);
    let bottom = Wall::at(WallLocation::Bottom);
    assert_eq!(collide(Vec2::new(-295, 0), 5, &left), Some(Collision::Left));
    assert_eq!(collide(Vec2::new(295, 0), 5, &right), Some(Collision::Right));
    assert_eq!(collide(Vec2::new(0, 245), 5, &top), Some(Collision::Top));
    assert_eq!(collide(Vec2::new(0, -245), 5, &bottom), Some(Collision::Bottom));
    assert_eq!(collide(Vec2::new(0, 0), 5, &left), None);
    assert_eq!(collide(Vec2::new(-290, 0), 5, &left), None);
    assert_eq!(collide(Vec2::new(-300, 0), 1, &left), Some(Collision::Inside));
}

#[test]
fn collide_breaks_ties_toward_x() {
    let block = Wall { center: Vec2::new(0, 0), size: Vec2::new(10, 10) };
    assert_eq!(collide(Vec2::new(8, 8), 5, &block), Some(Collision::Left));
    assert_eq!(collide(Vec2::new(8, 9), 5, &block), Some(Collision::Bottom));
}

#[test]
fn reflect_reverses_and_scales() {
    assert_eq!(reflect(-10, BOUNCE), 4);
    assert_eq!(reflect(10, BOUNCE), -4);
    assert_eq!(reflect(7, BOUNCE), -2);
    assert_eq!(reflect(-7, BOUNCE), 2);
    assert_eq!(reflect(0, BOUNCE), 0);
    assert_eq!(reflect(9, Ratio::new(1, 1)), -9);
    assert_eq!(reflect(9, Ratio::new(0, 1)), 0);
}

#[test]
fn bounce_off_left_wall() {
    let mut p = moving(-295, 0, -10, 0);
    resolve_wall(&mut p, 5, &Wall::at(WallLocation::Left), WALL_THICKNESS, BOUNCE);
    assert_eq!(p.velocity.x, 4);
    assert_eq!(p.velocity.y, 0);
    assert_eq!(p.position.x, -295 + WALL_THICKNESS as i64);
    assert_eq!(p.position.y, 0);
}

#[test]
fn particle_far_from_walls_is_unchanged() {
    let walls = standard_walls();
    let mut p = moving(10, -20, 300, -400);
    resolve_collisions(&mut p, &walls, 5, WALL_THICKNESS, BOUNCE);
    assert_eq!(p, moving(10, -20, 300, -400));
}

#[test]
fn particle_moving_away_is_not_reflected() {
    let mut p = moving(-295, 0, 3, 0);
    resolve_wall(&mut p, 5, &Wall::at(WallLocation::Left), WALL_THICKNESS, BOUNCE);
    assert_eq!(p, moving(-295, 0, 3, 0));
    let mut q = moving(0, 245, 0, -2);
    resolve_wall(&mut q, 5, &Wall::at(WallLocation::Top), WALL_THICKNESS, BOUNCE);
    assert_eq!(q, moving(0, 245, 0, -2));
}

#[test]
fn bounce_off_each_face() {
    let mut r = moving(295, 0, 10, 0);
    resolve_wall(&mut r, 5, &Wall::at(WallLocation::Right), WALL_THICKNESS, BOUNCE);
    assert_eq!(r, moving(300, 0, -4, 0));
    let mut t = moving(0, 245, 0, 5);
    resolve_wall(&mut t, 5, &Wall::at(WallLocation::Top), WALL_THICKNESS, BOUNCE);
    assert_eq!(t, moving(0, 250, 0, -2));
    let mut b = moving(0, -245, 0, -5);
    resolve_wall(&mut b, 5, &Wall::at(WallLocation::Bottom), WALL_THICKNESS, BOUNCE);
    assert_eq!(b, moving(0, -240, 0, 2));
}

#[test]
fn corner_resolves_both_axes_over_walls() {
    let walls = standard_walls();
    let mut p = moving(-295, -245, -10, -10);
    resolve_collisions(&mut p, &walls, 5, WALL_THICKNESS, BOUNCE);
    assert_eq!(p, moving(-290, -240, 4, 4));
}
