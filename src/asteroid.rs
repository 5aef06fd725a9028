use rand::Rng;
use vstd::prelude::*;

use crate::bounds::{Bounds, SUBPIXELS};
use crate::component::{Entity, HitMask, Spatial, STICK_MAX, WrapAround};

verus! {

/// Radius of an asteroid's hit circle.
pub const ASTEROID_RADIUS: u32 = 32 * (SUBPIXELS as u32);

/// Largest speed of an asteroid along each axis, in pixels per second.
pub const ASTEROID_MAX_SPEED: i32 = 100;

/// The random choices that place a new asteroid.
#[derive(Clone, Copy, Debug, PartialEq, Eq, Structural)]
pub struct AsteroidDraws {
    /// Appear on the left or right edge rather than the top or bottom one.
    pub vertical_edge: bool,
    /// Appear on the far edge (right or bottom) rather than the near one.
    pub far_edge: bool,
    /// Distance along the chosen edge from its near end.
    pub offset: i32,
    pub dx: i32,
    pub dy: i32,
    pub facing_x: i32,
    pub facing_y: i32,
}

impl AsteroidDraws {
    /// The draws lie in their ranges for the given play field.
    pub open spec fn wf(&self, bounds: Bounds) -> bool {
        &&& 0 <= self.offset <= (if self.vertical_edge {
            bounds.outer.height
        } else {
            bounds.outer.width
        })
        &&& -ASTEROID_MAX_SPEED <= self.dx <= ASTEROID_MAX_SPEED
        &&& -ASTEROID_MAX_SPEED <= self.dy <= ASTEROID_MAX_SPEED
        &&& -STICK_MAX <= self.facing_x <= STICK_MAX
        &&& -STICK_MAX <= self.facing_y <= STICK_MAX
    }
}

/// The point on the outer rectangle's edge that the draws choose.
pub open spec fn edge_point(bounds: Bounds, d: AsteroidDraws) -> (int, int) {
    let outer = bounds.outer;
    if d.vertical_edge {
        (if d.far_edge {
            outer.p1.x as int
        } else {
            outer.p0.x as int
        }, outer.p0.y + d.offset)
    } else {
        (outer.p0.x + d.offset, if d.far_edge {
            outer.p1.y as int
        } else {
            outer.p0.y as int
        })
    }
}

/// The asteroid that the draws describe.
pub open spec fn asteroid_of(bounds: Bounds, d: AsteroidDraws) -> Entity {
    Entity {
        spatial: Spatial {
            x: edge_point(bounds, d).0 as i32,
            y: edge_point(bounds, d).1 as i32,
            dx: d.dx,
            dy: d.dy,
            facing_x: d.facing_x,
            facing_y: d.facing_y,
            wrap: WrapAround::Wrap,
        },
        hitmask: HitMask::Circle { radius: ASTEROID_RADIUS },
        timeout: None,
    }
}

/// A freshly spawned asteroid: on the outer rectangle's edge, wrapping, with
/// the asteroid hit circle and a speed in range.
pub open spec fn is_new_asteroid(bounds: Bounds, e: Entity) -> bool {
    exists|d: AsteroidDraws| d.wf(bounds) && e == asteroid_of(bounds, d)
}

/// Picks the point on the edge of the outer rectangle where an asteroid
/// appears.
pub fn coords_on_edge(bounds: &Bounds, vertical_edge: bool, far_edge: bool, offset: i32) -> (r: (
    i32,
    i32,
))
    requires
        bounds.wf(),
        0 <= offset <= (if vertical_edge {
            bounds.outer.height
        } else {
            bounds.outer.width
        }),
    ensures
        r.0 == edge_point(
            *bounds,
            AsteroidDraws { vertical_edge, far_edge, offset, dx: 0, dy: 0, facing_x: 0, facing_y: 0 },
        ).0,
        r.1 == edge_point(
            *bounds,
            AsteroidDraws { vertical_edge, far_edge, offset, dx: 0, dy: 0, facing_x: 0, facing_y: 0 },
        ).1,
{
    let outer = &bounds.outer;
    if vertical_edge {
        let x = if far_edge {
            outer.p1.x
        } else {
            outer.p0.x
        };
        (x, outer.p0.y + offset)
    } else {
        let y = if far_edge {
            outer.p1.y
        } else {
            outer.p0.y
        };
        (outer.p0.x + offset, y)
    }
}

/// Builds the asteroid that the draws describe.
pub fn from_draws(bounds: &Bounds, d: &AsteroidDraws) -> (r: Entity)
    requires
        bounds.wf(),
        d.wf(*bounds),
    ensures
        r == asteroid_of(*bounds, *d),
        is_new_asteroid(*bounds, r),
{
    let (x, y) = coords_on_edge(bounds, d.vertical_edge, d.far_edge, d.offset);
    Entity {
        spatial: Spatial {
            x,
            y,
            dx: d.dx,
            dy: d.dy,
            facing_x: d.facing_x,
            facing_y: d.facing_y,
            wrap: WrapAround::Wrap,
        },
        hitmask: HitMask::Circle { radius: ASTEROID_RADIUS },
        timeout: None,
    }
}

/// Relies on rand's `thread_rng().gen_range(lo..=hi)`: a value drawn between
/// `lo` and `hi`, both included.
#[verifier::external_body]
fn random_between(lo: i32, hi: i32) -> (r: i32)
    requires
        lo <= hi,
    ensures
        lo <= r <= hi,
{
    rand::thread_rng().gen_range(lo..=hi)
}

/// A new asteroid at a random point of the outer rectangle's edge, with a
/// random velocity in range and a random facing.
pub fn new(bounds: &Bounds) -> (r: Entity)
    requires
        bounds.wf(),
    ensures
        is_new_asteroid(*bounds, r),
{
    let vertical_edge = random_between(0, 1) == 1;
    let far_edge = random_between(0, 1) == 1;
    let extent = if vertical_edge {
        bounds.outer.height
    } else {
        bounds.outer.width
    };
    let d = AsteroidDraws {
        vertical_edge,
        far_edge,
        offset: random_between(0, extent),
        dx: random_between(-ASTEROID_MAX_SPEED, ASTEROID_MAX_SPEED),
        dy: random_between(-ASTEROID_MAX_SPEED, ASTEROID_MAX_SPEED),
        facing_x: random_between(-STICK_MAX, STICK_MAX),
        facing_y: random_between(-STICK_MAX, STICK_MAX),
    };
    from_draws(bounds, &d)
}

} // verus!
