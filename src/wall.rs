use vstd::prelude::*;

use crate::config::SimError;
use crate::geometry::{lemma_scale_proper, scale_toward_zero, Ratio, Vec2, COORD_LIMIT};
use crate::particle::Particle;

verus! {

pub const LEFT_WALL: i64 = -300;

pub const RIGHT_WALL: i64 = 300;

pub const BOTTOM_WALL: i64 = -250;

pub const TOP_WALL: i64 = 250;

pub const WALL_THICKNESS: u32 = 5;

/// Largest magnitude a particle position may have while walls are resolved.
pub const RESOLVE_LIMIT: i64 = 4398046511104;

/// The four sides of the box.
#[derive(Clone, Copy, Debug, PartialEq, Eq, Structural)]
pub enum WallLocation {
    Left,
    Right,
    Bottom,
    Top,
}

impl WallLocation {
    pub open spec fn position_spec(self) -> Vec2 {
        match self {
            WallLocation::Left => Vec2 { x: LEFT_WALL, y: 0 },
            WallLocation::Right => Vec2 { x: RIGHT_WALL, y: 0 },
            WallLocation::Top => Vec2 { x: 0, y: TOP_WALL },
            WallLocation::Bottom => Vec2 { x: 0, y: BOTTOM_WALL },
        }
    }

    pub open spec fn size_spec(self) -> Vec2 {
        match self {
            WallLocation::Left | WallLocation::Right => Vec2 {
                x: WALL_THICKNESS as i64,
                y: (TOP_WALL - BOTTOM_WALL + WALL_THICKNESS) as i64,
            },
            WallLocation::Top | WallLocation::Bottom => Vec2 {
                x: (RIGHT_WALL - LEFT_WALL + WALL_THICKNESS) as i64,
                y: WALL_THICKNESS as i64,
            },
        }
    }

    /// Centre of the wall on this side.
    pub fn position(&self) -> (r: Vec2)
        ensures
            r == self.position_spec(),
    {
        match self {
            WallLocation::Left => Vec2::new(LEFT_WALL, 0),
            WallLocation::Right => Vec2::new(RIGHT_WALL, 0),
            WallLocation::Top => Vec2::new(0, TOP_WALL),
            WallLocation::Bottom => Vec2::new(0, BOTTOM_WALL),
        }
    }

    /// Full extent of the wall on this side: thick across, spanning the box along.
    pub fn size(&self) -> (r: Vec2)
        ensures
            r == self.size_spec(),
    {
        let bounds_height: i64 = TOP_WALL - BOTTOM_WALL;
        let bounds_width: i64 = RIGHT_WALL - LEFT_WALL;
        match self {
            WallLocation::Right | WallLocation::Left => Vec2::new(
                WALL_THICKNESS as i64,
                bounds_height + WALL_THICKNESS as i64,
            ),
            WallLocation::Top | WallLocation::Bottom => Vec2::new(
                bounds_width + WALL_THICKNESS as i64,
                WALL_THICKNESS as i64,
            ),
        }
    }
}

/// An axis-aligned rectangle given by its centre and its full extent
/// (twice its half-extent) along each axis.
#[derive(Clone, Copy, Debug, PartialEq, Eq, Structural)]
pub struct Wall {
    pub center: Vec2,
    pub size: Vec2,
}

impl Wall {
    pub open spec fn valid(self) -> bool {
        self.center.in_range() && 0 < self.size.x <= COORD_LIMIT && 0 < self.size.y <= COORD_LIMIT
    }

    /// A wall, refused when an extent is not positive or a value is out of the coordinate range.
    pub fn new(center: Vec2, size: Vec2) -> (r: Result<Wall, SimError>)
        ensures
            r.is_ok() <==> (Wall { center, size }).valid(),
            r.is_ok() ==> r == Ok::<Wall, SimError>(Wall { center, size }),
            r.is_err() ==> r == Err::<Wall, SimError>(SimError::DegenerateGeometry),
    {
        let w = Wall { center, size };
        if w.is_valid() {
            Ok(w)
        } else {
            Err(SimError::DegenerateGeometry)
        }
    }

    pub fn is_valid(&self) -> (r: bool)
        ensures
            r == self.valid(),
    {
        self.center.is_in_range() && 0 < self.size.x && self.size.x <= COORD_LIMIT && 0
            < self.size.y && self.size.y <= COORD_LIMIT
    }

    /// The wall on the given side of the box.
    pub fn at(location: WallLocation) -> (r: Wall)
        ensures
            r.center == location.position_spec(),
            r.size == location.size_spec(),
            r.valid(),
    {
        Wall { center: location.position(), size: location.size() }
    }
}

/// The four walls of the box, in the order left, right, top, bottom.
pub fn standard_walls() -> (r: Vec<Wall>)
    ensures
        r@ == seq![
            Wall::at_spec(WallLocation::Left),
            Wall::at_spec(WallLocation::Right),
            Wall::at_spec(WallLocation::Top),
            Wall::at_spec(WallLocation::Bottom),
        ],
        forall|i: int| 0 <= i < r@.len() ==> (#[trigger] r@[i]).valid(),
{
    let mut walls: Vec<Wall> = Vec::new();
    walls.push(Wall::at(WallLocation::Left));
    walls.push(Wall::at(WallLocation::Right));
    walls.push(Wall::at(WallLocation::Top));
    walls.push(Wall::at(WallLocation::Bottom));
    assert(walls@ =~= seq![
        Wall::at_spec(WallLocation::Left),
        Wall::at_spec(WallLocation::Right),
        Wall::at_spec(WallLocation::Top),
        Wall::at_spec(WallLocation::Bottom),
    ]);
    walls
}

impl Wall {
    pub open spec fn at_spec(location: WallLocation) -> Wall {
        Wall { center: location.position_spec(), size: location.size_spec() }
    }
}

/// Where a wall lies relative to a particle that overlaps it:
/// `Left` when the particle's left edge is inside the wall and its right edge beyond it,
/// and so on; `Inside` when no single face can be told.
#[derive(Clone, Copy, Debug, PartialEq, Eq, Structural)]
pub enum Collision {
    Left,
    Right,
    Top,
    Bottom,
    Inside,
}

/// The face along one axis, from doubled coordinates: `a0..a1` the particle, `b0..b1` the wall.
/// `Some(true)` when the wall lies on the low side, `Some(false)` on the high side.
pub open spec fn axis_face(a0: int, a1: int, b0: int, b1: int) -> Option<bool> {
    if a0 < b0 && a1 > b0 && a1 < b1 {
        Some(false)
    } else if a0 > b0 && a0 < b1 && a1 > b1 {
        Some(true)
    } else {
        None
    }
}

/// Penetration depth along one axis, in doubled coordinates, for a face found by `axis_face`.
pub open spec fn axis_depth(a0: int, a1: int, b0: int, b1: int) -> int {
    if a0 < b0 && a1 > b0 && a1 < b1 {
        a1 - b0
    } else {
        b1 - a0
    }
}

pub open spec fn bounds_overlap(a0: int, a1: int, b0: int, b1: int) -> bool {
    a0 < b1 && a1 > b0
}

/// The contact between a particle's square (side `2 * radius`, centred at `pos`) and a wall:
/// `None` without overlap, else the face of least penetration (the x axis on a tie).
pub open spec fn collision_of(pos: Vec2, radius: int, wall: Wall) -> Option<Collision> {
    let ax0 = 2 * pos.x - 2 * radius;
    let ax1 = 2 * pos.x + 2 * radius;
    let bx0 = 2 * wall.center.x - wall.size.x;
    let bx1 = 2 * wall.center.x + wall.size.x;
    let ay0 = 2 * pos.y - 2 * radius;
    let ay1 = 2 * pos.y + 2 * radius;
    let by0 = 2 * wall.center.y - wall.size.y;
    let by1 = 2 * wall.center.y + wall.size.y;
    if !(bounds_overlap(ax0, ax1, bx0, bx1) && bounds_overlap(ay0, ay1, by0, by1)) {
        None
    } else {
        let fx = axis_face(ax0, ax1, bx0, bx1);
        let fy = axis_face(ay0, ay1, by0, by1);
        let cx = match fx {
            Some(low) => if low { Collision::Left } else { Collision::Right },
            None => Collision::Inside,
        };
        let cy = match fy {
            Some(low) => if low { Collision::Bottom } else { Collision::Top },
            None => Collision::Inside,
        };
        if fy.is_some() && (fx.is_none() || axis_depth(ay0, ay1, by0, by1) < axis_depth(ax0, ax1, bx0, bx1)) {
            Some(cy)
        } else {
            Some(cx)
        }
    }
}

/// Which face of `wall` the particle's square touches, if any.
pub fn collide(position: Vec2, radius: u32, wall: &Wall) -> (r: Option<Collision>)
    requires
        -RESOLVE_LIMIT <= position.x <= RESOLVE_LIMIT,
        -RESOLVE_LIMIT <= position.y <= RESOLVE_LIMIT,
        wall.valid(),
    ensures
        r == collision_of(position, radius as int, *wall),
{
    let r2: i64 = 2 * radius as i64;
    let ax0: i64 = 2 * position.x - r2;
    let ax1: i64 = 2 * position.x + r2;
    let bx0: i64 = 2 * wall.center.x - wall.size.x;
    let bx1: i64 = 2 * wall.center.x + wall.size.x;
    let ay0: i64 = 2 * position.y - r2;
    let ay1: i64 = 2 * position.y + r2;
    let by0: i64 = 2 * wall.center.y - wall.size.y;
    let by1: i64 = 2 * wall.center.y + wall.size.y;
    if !(ax0 < bx1 && ax1 > bx0 && ay0 < by1 && ay1 > by0) {
        return None;
    }
    let (cx, dx): (Collision, i64) = if ax0 < bx0 && ax1 > bx0 && ax1 < bx1 {
        (Collision::Right, ax1 - bx0)
    } else if ax0 > bx0 && ax0 < bx1 && ax1 > bx1 {
        (Collision::Left, bx1 - ax0)
    } else {
        (Collision::Inside, 0)
    };
    let (cy, dy): (Collision, i64) = if ay0 < by0 && ay1 > by0 && ay1 < by1 {
        (Collision::Top, ay1 - by0)
    } else if ay0 > by0 && ay0 < by1 && ay1 > by1 {
        (Collision::Bottom, by1 - ay0)
    } else {
        (Collision::Inside, 0)
    };
    let y_face = match cy {
        Collision::Inside => false,
        _ => true,
    };
    let x_face = match cx {
        Collision::Inside => false,
        _ => true,
    };
    if y_face && (!x_face || dy < dx) {
        Some(cy)
    } else {
        Some(cx)
    }
}

/// A velocity component after a bounce: scaled by `restitution` (toward zero) and reversed.
pub open spec fn reflected(v: int, restitution: Ratio) -> int {
    -scale_toward_zero(v, restitution)
}

/// Reverses a velocity component and scales it by `restitution`.
pub fn reflect(v: i64, restitution: Ratio) -> (r: i64)
    requires
        -COORD_LIMIT <= v <= COORD_LIMIT,
        restitution.is_proper(),
    ensures
        r == reflected(v as int, restitution),
        -COORD_LIMIT <= r <= COORD_LIMIT,
        v >= 0 ==> -v <= r <= 0,
        v < 0 ==> 0 <= r <= -v,
{
    let m: u64 = if v >= 0 {
        v as u64
    } else {
        (-v) as u64
    };
    proof {
        lemma_scale_proper(m as nat, restitution);
    }
    assert(m * restitution.num <= 1099511627776 * 4294967295) by (nonlinear_arith)
        requires
            m <= 1099511627776,
            restitution.num <= 4294967295,
    ;
    let q: u128 = (m as u128 * restitution.num as u128) / restitution.den as u128;
    let qi: i64 = q as i64;
    if v >= 0 {
        -qi
    } else {
        qi
    }
}

/// Whether a contact on face `c` reflects the x (resp. y) velocity: only when the
/// particle moves into the wall.
pub open spec fn reflects_x(c: Collision, v: Vec2) -> bool {
    (c == Collision::Left && v.x < 0) || (c == Collision::Right && v.x > 0)
}

pub open spec fn reflects_y(c: Collision, v: Vec2) -> bool {
    (c == Collision::Top && v.y > 0) || (c == Collision::Bottom && v.y < 0)
}

/// The particle after resolving its contact with one wall: each reflected axis has its
/// position pushed by `+thickness` and its velocity reflected.
pub open spec fn bounce(p: Particle, radius: int, wall: Wall, thickness: int, restitution: Ratio) -> Particle {
    match collision_of(p.position, radius, wall) {
        Some(c) => {
            let rx = reflects_x(c, p.velocity);
            let ry = reflects_y(c, p.velocity);
            Particle {
                position: Vec2 {
                    x: if rx { (p.position.x + thickness) as i64 } else { p.position.x },
                    y: if ry { (p.position.y + thickness) as i64 } else { p.position.y },
                },
                velocity: Vec2 {
                    x: if rx { reflected(p.velocity.x as int, restitution) as i64 } else { p.velocity.x },
                    y: if ry { reflected(p.velocity.y as int, restitution) as i64 } else { p.velocity.y },
                },
            }
        },
        None => p,
    }
}

/// The particle after resolving its contact with each wall of `walls` in turn.
pub open spec fn bounce_all(p: Particle, radius: int, walls: Seq<Wall>, thickness: int, restitution: Ratio) -> Particle
    decreases walls.len(),
{
    if walls.len() == 0 {
        p
    } else {
        bounce(bounce_all(p, radius, walls.drop_last(), thickness, restitution), radius, walls.last(), thickness, restitution)
    }
}

/// What a particle may hold while walls are resolved.
pub open spec fn resolvable(p: Particle) -> bool {
    -RESOLVE_LIMIT <= p.position.x <= RESOLVE_LIMIT && -RESOLVE_LIMIT <= p.position.y
        <= RESOLVE_LIMIT && p.velocity.in_range()
}


/// Resolves a particle's contact with one wall.
///
/// Without overlap nothing changes. On a contact whose face the particle moves into,
/// the position on that axis is pushed by `+wall_thickness` and the velocity on that
/// axis is reversed and scaled by `restitution`; a particle moving away is left untouched.
pub fn resolve_wall(particle: &mut Particle, radius: u32, wall: &Wall, wall_thickness: u32, restitution: Ratio)
    requires
        resolvable(*old(particle)),
        wall.valid(),
        restitution.is_proper(),
    ensures
        *final(particle) == bounce(*old(particle), radius as int, *wall, wall_thickness as int, restitution),
        resolvable(*final(particle)),
{
    let collision = collide(particle.position, radius, wall);
    if let Some(c) = collision {
        let (reflect_x, reflect_y): (bool, bool) = match c {
            Collision::Left => (particle.velocity.x < 0, false),
            Collision::Right => (particle.velocity.x > 0, false),
            Collision::Top => (false, particle.velocity.y > 0),
            Collision::Bottom => (false, particle.velocity.y < 0),
            Collision::Inside => (false, false),
        };
        if reflect_y {
            particle.position.y = particle.position.y + wall_thickness as i64;
            particle.velocity.y = reflect(particle.velocity.y, restitution);
        }
        if reflect_x {
            particle.position.x = particle.position.x + wall_thickness as i64;
            particle.velocity.x = reflect(particle.velocity.x, restitution);
        }
    }
}

/// Resolves a particle's contacts with each wall of `walls`, in order.
pub fn resolve_collisions(particle: &mut Particle, walls: &Vec<Wall>, radius: u32, wall_thickness: u32, restitution: Ratio)
    requires
        resolvable(*old(particle)),
        forall|i: int| 0 <= i < walls.len() ==> (#[trigger] walls@[i]).valid(),
        restitution.is_proper(),
    ensures
        *final(particle) == bounce_all(*old(particle), radius as int, walls@, wall_thickness as int, restitution),
        resolvable(*final(particle)),
{
    let ghost start = *particle;
    let mut i: usize = 0;
    proof {
        assert(walls@.take(0) =~= Seq::<Wall>::empty());
    }
    while i < walls.len()
        invariant
            0 <= i <= walls.len(),
            forall|k: int| 0 <= k < walls.len() ==> (#[trigger] walls@[k]).valid(),
            restitution.is_proper(),
            resolvable(*particle),
            *particle == bounce_all(start, radius as int, walls@.take(i as int), wall_thickness as int, restitution),
        decreases walls.len() - i,
    {
        resolve_wall(particle, radius, &walls[i], wall_thickness, restitution);
        proof {
            assert(walls@.take(i + 1).drop_last() =~= walls@.take(i as int));
        }
        i = i + 1;
    }
    proof {
        assert(walls@.take(walls.len() as int) =~= walls@);
    }
}

/// A particle that overlaps no wall is left unchanged by resolving all the walls.
pub proof fn lemma_clear_of_walls_unchanged(p: Particle, radius: int, walls: Seq<Wall>, thickness: int, restitution: Ratio)
    requires
        forall|i: int| 0 <= i < walls.len() ==> collision_of(p.position, radius, #[trigger] walls[i]).is_none(),
    ensures
        bounce_all(p, radius, walls, thickness, restitution) == p,
    decreases walls.len(),
{
    if walls.len() > 0 {
        lemma_clear_of_walls_unchanged(p, radius, walls.drop_last(), thickness, restitution);
        assert(collision_of(p.position, radius, walls[walls.len() - 1]).is_none());
    }
}

/// A particle that overlaps a wall on its left while moving right (or on its right while
/// moving left) keeps its x velocity; likewise on y for the top and bottom faces.
pub proof fn lemma_moving_away_keeps_velocity(p: Particle, radius: int, wall: Wall, thickness: int, restitution: Ratio)
    ensures
        collision_of(p.position, radius, wall) == Some(Collision::Left) && p.velocity.x >= 0
            ==> bounce(p, radius, wall, thickness, restitution) == p,
        collision_of(p.position, radius, wall) == Some(Collision::Right) && p.velocity.x <= 0
            ==> bounce(p, radius, wall, thickness, restitution) == p,
        collision_of(p.position, radius, wall) == Some(Collision::Bottom) && p.velocity.y >= 0
            ==> bounce(p, radius, wall, thickness, restitution) == p,
        collision_of(p.position, radius, wall) == Some(Collision::Top) && p.velocity.y <= 0
            ==> bounce(p, radius, wall, thickness, restitution) == p,
{
}


pub open spec fn magnitude(v: int) -> int {
    if v >= 0 {
        v
    } else {
        -v
    }
}

/// With a restitution of at most one, resolving walls never increases the magnitude of
/// either velocity component.
pub proof fn lemma_bounce_never_speeds_up(p: Particle, radius: int, walls: Seq<Wall>, thickness: int, restitution: Ratio)
    requires
        restitution.is_proper(),
        p.velocity.in_range(),
    ensures
        magnitude(bounce_all(p, radius, walls, thickness, restitution).velocity.x as int) <= magnitude(
            p.velocity.x as int,
        ),
        magnitude(bounce_all(p, radius, walls, thickness, restitution).velocity.y as int) <= magnitude(
            p.velocity.y as int,
        ),
    decreases walls.len(),
{
    if walls.len() > 0 {
        lemma_bounce_never_speeds_up(p, radius, walls.drop_last(), thickness, restitution);
        let q = bounce_all(p, radius, walls.drop_last(), thickness, restitution);
        lemma_scale_proper(magnitude(q.velocity.x as int) as nat, restitution);
        lemma_scale_proper(magnitude(q.velocity.y as int) as nat, restitution);
    }
}

/// After resolving a contact, the velocity no longer points into the face that was hit.
pub proof fn lemma_bounce_turns_away(p: Particle, radius: int, wall: Wall, thickness: int, restitution: Ratio)
    requires
        restitution.is_proper(),
        p.velocity.in_range(),
    ensures
        collision_of(p.position, radius, wall) == Some(Collision::Left) ==> bounce(p, radius, wall, thickness, restitution).velocity.x >= 0,
        collision_of(p.position, radius, wall) == Some(Collision::Right) ==> bounce(p, radius, wall, thickness, restitution).velocity.x <= 0,
        collision_of(p.position, radius, wall) == Some(Collision::Bottom) ==> bounce(p, radius, wall, thickness, restitution).velocity.y >= 0,
        collision_of(p.position, radius, wall) == Some(Collision::Top) ==> bounce(p, radius, wall, thickness, restitution).velocity.y <= 0,
{
    lemma_scale_proper(magnitude(p.velocity.x as int) as nat, restitution);
    lemma_scale_proper(magnitude(p.velocity.y as int) as nat, restitution);
}

} // verus!
