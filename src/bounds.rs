use vstd::prelude::*;

verus! {

/// Number of coordinate units in one pixel.
pub const SUBPIXELS: i32 = 1000;

/// Largest magnitude of a coordinate of the outer rectangle, which leaves
/// room around the play field within the range of `i32`.
pub const COORD_LIMIT: i32 = 1_000_000_000;

/// Distance by which the outer rectangle extends the inner one on each side.
pub const WRAP_PAD: i32 = 64 * SUBPIXELS;

#[derive(Clone, Copy, Debug, PartialEq, Eq, Structural)]
pub struct Point {
    pub x: i32,
    pub y: i32,
}

/// An axis-aligned rectangle from corner `p0` to corner `p1`.
#[derive(Clone, Copy, Debug, PartialEq, Eq, Structural)]
pub struct Bound {
    pub p0: Point,
    pub p1: Point,
    pub width: i32,
    pub height: i32,
}

/// The visible play field and the padded rectangle in which entities live.
#[derive(Clone, Copy, Debug, PartialEq, Eq, Structural)]
pub struct Bounds {
    pub inner: Bound,
    pub outer: Bound,
}

/// Single-step wraparound of one coordinate into `[lo, hi]`.
pub open spec fn wrap_spec(lo: int, hi: int, v: int) -> int {
    if v < lo {
        hi - (lo - v)
    } else if v > hi {
        lo + (v - hi)
    } else {
        v
    }
}

impl Bound {
    /// The corners agree with the width and height, which are not negative.
    pub open spec fn wf(&self) -> bool {
        &&& self.width >= 0
        &&& self.height >= 0
        &&& self.p1.x == self.p0.x + self.width
        &&& self.p1.y == self.p0.y + self.height
    }

    pub open spec fn contains_spec(&self, x: int, y: int) -> bool {
        self.p0.x <= x < self.p1.x && self.p0.y <= y < self.p1.y
    }

    pub open spec fn wrap_x_spec(&self, x: int) -> int {
        wrap_spec(self.p0.x as int, self.p1.x as int, x)
    }

    pub open spec fn wrap_y_spec(&self, y: int) -> int {
        wrap_spec(self.p0.y as int, self.p1.y as int, y)
    }

    /// Wraps `x` once around the horizontal extent of this rectangle: a value
    /// left of it re-enters from the right by as much as it overshot, and the
    /// other way round.
    pub fn wrap_x(&self, x: i64) -> (r: i64)
        requires
            self.wf(),
        ensures
            r == self.wrap_x_spec(x as int),
    {
        if x < self.p0.x as i64 {
            x + self.width as i64
        } else if x > self.p1.x as i64 {
            x - self.width as i64
        } else {
            x
        }
    }

    /// Wraps `y` once around the vertical extent of this rectangle.
    pub fn wrap_y(&self, y: i64) -> (r: i64)
        requires
            self.wf(),
        ensures
            r == self.wrap_y_spec(y as int),
    {
        if y < self.p0.y as i64 {
            y + self.height as i64
        } else if y > self.p1.y as i64 {
            y - self.height as i64
        } else {
            y
        }
    }

    /// Returns true if the given coordinate pair is within these bounds: the
    /// near edges are inside, the far edges are not.
    pub fn contains(&self, x: i64, y: i64) -> (r: bool)
        ensures
            r == self.contains_spec(x as int, y as int),
    {
        x >= self.p0.x as i64 && x < self.p1.x as i64 && y >= self.p0.y as i64 && y
            < self.p1.y as i64
    }
}

impl Bounds {
    /// The inner rectangle is the given one; the outer rectangle is the inner
    /// one grown by the pad on every side.
    pub open spec fn wf(&self) -> bool {
        &&& self.inner.wf()
        &&& self.outer.wf()
        &&& self.outer.p0.x == self.inner.p0.x - WRAP_PAD
        &&& self.outer.p0.y == self.inner.p0.y - WRAP_PAD
        &&& self.outer.p1.x == self.inner.p1.x + WRAP_PAD
        &&& self.outer.p1.y == self.inner.p1.y + WRAP_PAD
        &&& -COORD_LIMIT <= self.outer.p0.x
        &&& -COORD_LIMIT <= self.outer.p0.y
        &&& self.outer.p1.x <= COORD_LIMIT
        &&& self.outer.p1.y <= COORD_LIMIT
    }

    /// Builds the play field at `(x, y)` of the given size, with its padded
    /// outer rectangle.
    pub fn new(x: i32, y: i32, width: i32, height: i32) -> (r: Self)
        requires
            width >= 0,
            height >= 0,
            x - WRAP_PAD >= -COORD_LIMIT,
            y - WRAP_PAD >= -COORD_LIMIT,
            x + width + WRAP_PAD <= COORD_LIMIT,
            y + height + WRAP_PAD <= COORD_LIMIT,
        ensures
            r.wf(),
            r.inner.p0 == (Point { x, y }),
            r.inner.width == width,
            r.inner.height == height,
            r.outer.width == width + 2 * WRAP_PAD,
            r.outer.height == height + 2 * WRAP_PAD,
    {
        Self {
            inner: Bound {
                p0: Point { x, y },
                p1: Point { x: x + width, y: y + height },
                width,
                height,
            },
            outer: Bound {
                p0: Point { x: x - WRAP_PAD, y: y - WRAP_PAD },
                p1: Point { x: x + width + WRAP_PAD, y: y + height + WRAP_PAD },
                width: width + 2 * WRAP_PAD,
                height: height + 2 * WRAP_PAD,
            },
        }
    }
}

} // verus!
