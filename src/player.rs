use vstd::prelude::*;

use crate::arith::{ceil_sqrt, ceil_sqrt_spec, lemma_rescaled_within, scale, trunc_div};
use crate::bounds::{COORD_LIMIT, SUBPIXELS};
use crate::component::{Entity, HitMask, PlayerInput, Spatial, STICK_MAX, Timeout, WrapAround};

verus! {

/// Top speed of the ship, in pixels per second; also its acceleration at full
/// thrust, in pixels per second per second.
pub const MAX_PLAYER_SPEED: i32 = 600;

/// Speed of a bullet, in pixels per second.
pub const BULLET_SPEED: i32 = 1000;

/// Shortest time between two shots, in milliseconds.
pub const FIRE_INTERVAL: u64 = 333;

/// How long a bullet stays in play, in milliseconds.
pub const BULLET_LIFETIME: u64 = 3000;

/// Distance from the ship's centre to its nose.
pub const SHIP_HALF_EXTENT: i32 = 32 * SUBPIXELS;

/// Stick readings closer than this to the centre read as zero.
pub const DEAD_ZONE: i32 = 50;

/// Longest tick, in milliseconds, for which one wrap step is enough.
pub const MAX_TICK: u32 = 200;

/// The firing state of the ship: the earliest time of its next shot.
#[derive(Clone, Copy, Debug, PartialEq, Eq, Structural)]
pub struct State {
    pub next_fire_time: u64,
}

pub open spec fn saturating(v: int) -> u64 {
    if v > u64::MAX {
        u64::MAX
    } else {
        v as u64
    }
}

/// A stick reading with the dead zone applied.
pub open spec fn dead_zone_spec(x: i32, y: i32) -> (i32, i32) {
    if x * x + y * y < DEAD_ZONE * DEAD_ZONE {
        (0, 0)
    } else {
        (x, y)
    }
}

/// Reads zero for any stick position within a small distance of the centre.
pub fn dead_zone(x: i32, y: i32) -> (r: (i32, i32))
    requires
        -STICK_MAX <= x <= STICK_MAX,
        -STICK_MAX <= y <= STICK_MAX,
    ensures
        r == dead_zone_spec(x, y),
{
    assert(0 <= x * x <= 1_000_000 && 0 <= y * y <= 1_000_000) by (nonlinear_arith)
        requires
            -1000 <= x <= 1000,
            -1000 <= y <= 1000,
    ;
    if x * x + y * y < DEAD_ZONE * DEAD_ZONE {
        (0, 0)
    } else {
        (x, y)
    }
}

/// One velocity component after `dt` milliseconds of thrust.
pub open spec fn accelerated(v: int, thrust: int, dt: u32) -> int {
    v + trunc_div(thrust * MAX_PLAYER_SPEED * dt, 1_000_000)
}

/// A velocity whose speed exceeds the top speed is rescaled to it, keeping
/// its direction; others are kept.
pub open spec fn clamped(dx: int, dy: int) -> (int, int) {
    if dx * dx + dy * dy > MAX_PLAYER_SPEED * MAX_PLAYER_SPEED {
        let s = ceil_sqrt_spec(dx * dx + dy * dy);
        (trunc_div(dx * MAX_PLAYER_SPEED, s), trunc_div(dy * MAX_PLAYER_SPEED, s))
    } else {
        (dx, dy)
    }
}

/// The ship after one tick of input: it faces where the aim points, unless
/// the aim is centred, and thrust changes its velocity up to the top speed.
pub open spec fn steered(s: Spatial, input: PlayerInput, dt: u32) -> Spatial {
    let aimed = input.aim_x != 0 || input.aim_y != 0;
    let v = clamped(accelerated(s.dx as int, input.thrust_x as int, dt), accelerated(s.dy as int, input.thrust_y as int, dt));
    Spatial {
        dx: v.0 as i32,
        dy: v.1 as i32,
        facing_x: if aimed { input.aim_x } else { s.facing_x },
        facing_y: if aimed { input.aim_y } else { s.facing_y },
        ..s
    }
}

/// The ship's spatial state is one the game can step: within the
/// coordinate limits, no faster than the top speed, and facing somewhere.
pub open spec fn ship_ok(s: Spatial) -> bool {
    &&& -COORD_LIMIT <= s.x <= COORD_LIMIT
    &&& -COORD_LIMIT <= s.y <= COORD_LIMIT
    &&& s.dx * s.dx + s.dy * s.dy <= MAX_PLAYER_SPEED * MAX_PLAYER_SPEED
    &&& -STICK_MAX <= s.facing_x <= STICK_MAX
    &&& -STICK_MAX <= s.facing_y <= STICK_MAX
    &&& (s.facing_x != 0 || s.facing_y != 0)
}

/// The ship fires when the trigger is held and the cooldown has passed.
pub open spec fn fires(state: State, input: PlayerInput, now: u64) -> bool {
    input.fire && now >= state.next_fire_time
}

/// Length of the ship's facing vector, rounded up.
pub open spec fn facing_length(s: Spatial) -> int {
    ceil_sqrt_spec(s.facing_x * s.facing_x + s.facing_y * s.facing_y)
}

/// The bullet fired by a ship in state `s` at `now`: at the ship's nose,
/// moving along the facing at bullet speed, destroyed at the boundary, and
/// expiring after the bullet lifetime.
pub open spec fn bullet_of(s: Spatial, now: u64) -> Entity {
    let len = facing_length(s);
    Entity {
        spatial: Spatial {
            x: (s.x + trunc_div(s.facing_x * SHIP_HALF_EXTENT, len)) as i32,
            y: (s.y + trunc_div(s.facing_y * SHIP_HALF_EXTENT, len)) as i32,
            dx: trunc_div(s.facing_x * BULLET_SPEED, len) as i32,
            dy: trunc_div(s.facing_y * BULLET_SPEED, len) as i32,
            facing_x: s.facing_x,
            facing_y: s.facing_y,
            wrap: WrapAround::Destroy,
        },
        hitmask: HitMask::Point,
        timeout: Some(Timeout::Expire { when: saturating(now + BULLET_LIFETIME) }),
    }
}

fn accelerate(v: i32, thrust: i32, dt: u32) -> (r: i32)
    requires
        -MAX_PLAYER_SPEED <= v <= MAX_PLAYER_SPEED,
        -STICK_MAX <= thrust <= STICK_MAX,
        dt <= MAX_TICK,
    ensures
        r == accelerated(v as int, thrust as int, dt),
        -2 * MAX_PLAYER_SPEED <= r <= 2 * MAX_PLAYER_SPEED,
{
    let k = MAX_PLAYER_SPEED as i64 * dt as i64;
    assert(-120_000_000 <= thrust * k <= 120_000_000) by (nonlinear_arith)
        requires
            -1000 <= thrust <= 1000,
            0 <= k <= 120_000,
    ;
    let d = scale(thrust as i64, k, 1_000_000);
    assert(thrust * k == thrust * MAX_PLAYER_SPEED * dt) by (nonlinear_arith)
        requires
            k == MAX_PLAYER_SPEED * dt,
    ;
    assert(-120 <= d <= 120);
    v + d as i32
}

/// Bounds a component squared by a sum of squares.
pub proof fn lemma_component_bound(a: int, b: int, m: int)
    requires
        m >= 0,
        a * a + b * b <= m * m,
    ensures
        -m <= a <= m,
{
    assert(b * b >= 0) by (nonlinear_arith);
    if a > m {
        assert(a * a > m * m) by (nonlinear_arith)
            requires
                a > m,
                m >= 0,
        ;
    } else if a < -m {
        assert(a * a > m * m) by (nonlinear_arith)
            requires
                a < -m,
                m >= 0,
        ;
    }
}

fn clamp_speed(dx: i32, dy: i32) -> (r: (i32, i32))
    requires
        -2 * MAX_PLAYER_SPEED <= dx <= 2 * MAX_PLAYER_SPEED,
        -2 * MAX_PLAYER_SPEED <= dy <= 2 * MAX_PLAYER_SPEED,
    ensures
        r.0 == clamped(dx as int, dy as int).0,
        r.1 == clamped(dx as int, dy as int).1,
        r.0 * r.0 + r.1 * r.1 <= MAX_PLAYER_SPEED * MAX_PLAYER_SPEED,
{
    assert(0 <= dx * dx <= 1_440_000 && 0 <= dy * dy <= 1_440_000) by (nonlinear_arith)
        requires
            -1200 <= dx <= 1200,
            -1200 <= dy <= 1200,
    ;
    let n = (dx as i64) * (dx as i64) + (dy as i64) * (dy as i64);
    if n > (MAX_PLAYER_SPEED as i64) * (MAX_PLAYER_SPEED as i64) {
        let s = ceil_sqrt(n as u64);
        assert(s > 0);
        proof {
            lemma_rescaled_within(dx as int, dy as int, s as int, MAX_PLAYER_SPEED as int);
        }
        let vx = scale(dx as i64, MAX_PLAYER_SPEED as i64, s as i64);
        let vy = scale(dy as i64, MAX_PLAYER_SPEED as i64, s as i64);
        proof {
            lemma_component_bound(vx as int, vy as int, MAX_PLAYER_SPEED as int);
            lemma_component_bound(vy as int, vx as int, MAX_PLAYER_SPEED as int);
        }
        (vx as i32, vy as i32)
    } else {
        (dx, dy)
    }
}

/// `m` along the facing of `s`, one component at a time.
fn along_facing(s: &Spatial, m: i32) -> (r: (i32, i32))
    requires
        ship_ok(*s),
        0 <= m <= SHIP_HALF_EXTENT + BULLET_SPEED,
    ensures
        r.0 == trunc_div(s.facing_x * m, facing_length(*s)),
        r.1 == trunc_div(s.facing_y * m, facing_length(*s)),
        -m <= r.0 <= m,
        -m <= r.1 <= m,
{
    let fx = s.facing_x;
    let fy = s.facing_y;
    assert(0 <= fx * fx <= 1_000_000 && 0 <= fy * fy <= 1_000_000) by (nonlinear_arith)
        requires
            -1000 <= fx <= 1000,
            -1000 <= fy <= 1000,
    ;
    assert(fx * fx + fy * fy > 0) by (nonlinear_arith)
        requires
            fx != 0 || fy != 0,
    ;
    let n = (fx as i64) * (fx as i64) + (fy as i64) * (fy as i64);
    let len = ceil_sqrt(n as u64);
    assert(len > 0);
    assert(-33_000_000 <= fx * m <= 33_000_000 && -33_000_000 <= fy * m <= 33_000_000)
        by (nonlinear_arith)
        requires
            -1000 <= fx <= 1000,
            -1000 <= fy <= 1000,
            0 <= m <= 33_000,
    ;
    let ax = scale(fx as i64, m as i64, len as i64);
    let ay = scale(fy as i64, m as i64, len as i64);
    proof {
        lemma_rescaled_within(fx as int, fy as int, len as int, m as int);
        lemma_component_bound(ax as int, ay as int, m as int);
        lemma_component_bound(ay as int, ax as int, m as int);
    }
    (ax as i32, ay as i32)
}

/// Applies one tick of input to the ship: aim, thrust with the speed limit,
/// and firing. Returns the bullet fired, if any.
pub fn player_input(
    player: &mut Entity,
    input: &PlayerInput,
    dt: u32,
    now: u64,
    state: &mut State,
) -> (r: Option<Entity>)
    requires
        ship_ok(old(player).spatial),
        input.wf(),
        dt <= MAX_TICK,
    ensures
        *final(player) == (Entity { spatial: steered(old(player).spatial, *input, dt), ..*old(player) }),
        ship_ok(final(player).spatial),
        fires(*old(state), *input, now) ==> r == Some(bullet_of(final(player).spatial, now))
            && final(state).next_fire_time == saturating(now + FIRE_INTERVAL),
        !fires(*old(state), *input, now) ==> r is None && *final(state) == *old(state),
{
    let s = player.spatial;
    let (facing_x, facing_y) = if input.aim_x != 0 || input.aim_y != 0 {
        (input.aim_x, input.aim_y)
    } else {
        (s.facing_x, s.facing_y)
    };
    proof {
        lemma_component_bound(s.dx as int, s.dy as int, MAX_PLAYER_SPEED as int);
        lemma_component_bound(s.dy as int, s.dx as int, MAX_PLAYER_SPEED as int);
    }
    let ax = accelerate(s.dx, input.thrust_x, dt);
    let ay = accelerate(s.dy, input.thrust_y, dt);
    let (dx, dy) = clamp_speed(ax, ay);
    let steered_s = Spatial { dx, dy, facing_x, facing_y, ..s };
    player.spatial = steered_s;
    if input.fire && now >= state.next_fire_time {
        state.next_fire_time = now.saturating_add(FIRE_INTERVAL);
        let (ox, oy) = along_facing(&steered_s, SHIP_HALF_EXTENT);
        let (vx, vy) = along_facing(&steered_s, BULLET_SPEED);
        Some(
            Entity {
                spatial: Spatial {
                    x: steered_s.x + ox,
                    y: steered_s.y + oy,
                    dx: vx,
                    dy: vy,
                    facing_x,
                    facing_y,
                    wrap: WrapAround::Destroy,
                },
                hitmask: HitMask::Point,
                timeout: Some(Timeout::Expire { when: now.saturating_add(BULLET_LIFETIME) }),
            },
        )
    } else {
        None
    }
}

} // verus!
