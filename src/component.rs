use vstd::prelude::*;

verus! {

/// How an entity behaves when it leaves the outer play-field rectangle.
#[derive(Clone, Copy, Debug, PartialEq, Eq, Structural)]
pub enum WrapAround {
    /// The entity re-enters from the opposite edge.
    Wrap,
    /// The entity is removed from play.
    Destroy,
}

/// Position, velocity, facing and boundary policy of an entity.
///
/// The facing is held as a direction vector rather than an angle: the angle
/// in radians, measured from the +x axis, is `atan2(facing_y, facing_x)`.
#[derive(Clone, Copy, Debug, PartialEq, Eq, Structural)]
pub struct Spatial {
    pub x: i32,
    pub y: i32,
    pub dx: i32,
    pub dy: i32,
    pub facing_x: i32,
    pub facing_y: i32,
    pub wrap: WrapAround,
}

/// The shape an entity presents to the collision test.
#[derive(Clone, Copy, Debug, PartialEq, Eq, Structural)]
pub enum HitMask {
    Circle { radius: u32 },
    Point,
}

#[derive(Clone, Copy, Debug, PartialEq, Eq, Structural)]
pub struct Position {
    pub x: i32,
    pub y: i32,
}

#[derive(Clone, Copy, Debug, PartialEq, Eq, Structural)]
pub struct Velocity {
    pub dx: i32,
    pub dy: i32,
}

impl Position {
    /// This position moved by `v` and brought into `0 <= x < modx`,
    /// `0 <= y < mody` by modular arithmetic.
    pub fn translate(&self, v: &Velocity, modx: i32, mody: i32) -> (r: Self)
        requires
            modx > 0,
            mody > 0,
        ensures
            r.x == ((self.x + v.dx) as int) % (modx as int),
            r.y == ((self.y + v.dy) as int) % (mody as int),
    {
        Position { x: wrap_mod(self.x as i64 + v.dx as i64, modx), y: wrap_mod(self.y as i64 + v.dy as i64, mody) }
    }
}

fn wrap_mod(v: i64, m: i32) -> (r: i32)
    requires
        m > 0,
        -0x1_0000_0000 <= v <= 0x1_0000_0000,
    ensures
        r == (v as int) % (m as int),
{
    let mm = m as u64;
    if v >= 0 {
        ((v as u64) % mm) as i32
    } else {
        let a = (-v) as u64;
        let q = a % mm;
        proof {
            let k = (a as int) / (m as int);
            vstd::arithmetic::div_mod::lemma_fundamental_div_mod(a as int, m as int);
            assert(q == (a as int) % (m as int));
            assert(a == m * k + q);
            if q == 0 {
                assert(v == (-k) * m + 0) by (nonlinear_arith)
                    requires
                        a == m * k + q,
                        q == 0,
                        v == -a,
                ;
                vstd::arithmetic::div_mod::lemma_fundamental_div_mod_converse(v as int, m as int, -k, 0);
            } else {
                assert(v == (-k - 1) * m + (m - q)) by (nonlinear_arith)
                    requires
                        a == m * k + q,
                        v == -a,
                ;
                vstd::arithmetic::div_mod::lemma_fundamental_div_mod_converse(
                    v as int,
                    m as int,
                    -k - 1,
                    m - q,
                );
            }
        }
        if q == 0 {
            0
        } else {
            (mm - q) as i32
        }
    }
}

/// The moment after which an entity leaves play.
#[derive(Clone, Copy, Debug, PartialEq, Eq, Structural)]
pub enum Timeout {
    Expire { when: u64 },
}

/// A pending asteroid spawn, due at `when`.
#[derive(Clone, Copy, Debug, PartialEq, Eq, Structural)]
pub struct SpawnTimeout {
    pub when: u64,
}

/// What the renderer draws for an entity.
#[derive(Clone, Copy, Debug, PartialEq, Eq, Hash, Structural)]
pub enum SpriteKind {
    Asteroid,
    Bullet,
    Player,
    Title,
}

#[derive(Clone, Copy, Debug, PartialEq, Eq, Structural)]
pub struct Sprite {
    pub width: u32,
    pub height: u32,
    pub kind: SpriteKind,
}

impl Sprite {
    /// A sprite of the usual 64 by 64 pixel size.
    pub fn default(kind: SpriteKind) -> (r: Self)
        ensures
            r == (Sprite { width: 64, height: 64, kind }),
    {
        Self { width: 64, height: 64, kind }
    }
}

/// One tick's reading of the controls.
///
/// Stick readings are in thousandths, from -1000 to 1000 on each axis. An
/// aim of `(0, 0)` leaves the facing as it was.
#[derive(Clone, Copy, Debug, PartialEq, Eq, Structural)]
pub struct PlayerInput {
    pub thrust_x: i32,
    pub thrust_y: i32,
    pub aim_x: i32,
    pub aim_y: i32,
    pub fire: bool,
}

/// Largest magnitude of a stick reading on one axis.
pub const STICK_MAX: i32 = 1000;

impl PlayerInput {
    pub open spec fn wf(&self) -> bool {
        &&& -STICK_MAX <= self.thrust_x <= STICK_MAX
        &&& -STICK_MAX <= self.thrust_y <= STICK_MAX
        &&& -STICK_MAX <= self.aim_x <= STICK_MAX
        &&& -STICK_MAX <= self.aim_y <= STICK_MAX
    }
}

/// An entity of the play field: its spatial state, its collision shape, and
/// for bullets the time at which it expires.
#[derive(Clone, Copy, Debug, PartialEq, Eq, Structural)]
pub struct Entity {
    pub spatial: Spatial,
    pub hitmask: HitMask,
    pub timeout: Option<Timeout>,
}

} // verus!
