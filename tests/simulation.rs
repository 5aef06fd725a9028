use rust_rocks::arith::{ceil_sqrt, scale};
use rust_rocks::asteroid::{self, AsteroidDraws, ASTEROID_MAX_SPEED, ASTEROID_RADIUS};
use rust_rocks::bounds::{Bounds, Point, WRAP_PAD};
use rust_rocks::component::{Entity, HitMask, Position, SpawnTimeout, Spatial, Timeout, Velocity, WrapAround};
use rust_rocks::movement::{integrate, movement};
use rust_rocks::spawn::{create_spawn_timeout, spawn_asteroids, SPAWN_INTERVAL, TARGET_POPULATION};
use rust_rocks::timeout::timeout;

fn field() -> Bounds {
    Bounds::new(0, 0, 800_000, 600_000)
}

fn spatial(x: i32, y: i32, dx: i32, dy: i32, wrap: WrapAround) -> Spatial {
    Spatial { x, y, dx, dy, facing_x: 1000, facing_y: 0, wrap }
}

fn body(x: i32, y: i32, dx: i32, dy: i32, wrap: WrapAround) -> Entity {
    Entity { spatial: spatial(x, y, dx, dy, wrap), hitmask: HitMask::Point, timeout: None }
}

#[test]
fn bounds_pad_the_play_field() {
    let b = field();
    assert_eq!(Point { x: 0, y: 0 }, b.inner.p0);
    assert_eq!(Point { x: 800_000, y: 600_000 }, b.inner.p1);
    assert_eq!(Point { x: -WRAP_PAD, y: -WRAP_PAD }, b.outer.p0);
    assert_eq!(Point { x: 864_000, y: 664_000 }, b.outer.p1);
    assert_eq!(928_000, b.outer.width);
    assert_eq!(728_000, b.outer.height);
}

#[test]
fn wrap_moves_overshoot_to_the_other_side() {
    let outer = field().outer;
    assert_eq!(863_000, outer.wrap_x(-65_000));
    assert_eq!(-63_000, outer.wrap_x(865_000));
    assert_eq!(864_000, outer.wrap_x(864_000));
    assert_eq!(100, outer.wrap_x(100));
    assert_eq!(663_990, outer.wrap_y(-64_010));
    assert!(outer.contains(-64_000, -64_000));
    assert!(!outer.contains(864_000, 0));
}

#[test]
fn wrap_invariant_after_integration() {
    let outer = field().outer;
    // A full width of overshoot either way still lands inside.
    for (x, dx) in [(-64_000, -928), (863_999, 928), (0, -500), (100, 600)] {
        let s = spatial(x, 0, dx, 0, WrapAround::Wrap);
        let moved = integrate(&s, 1000, &outer).unwrap();
        assert!(outer.p0.x <= moved.x && moved.x < outer.p1.x, "x = {}", moved.x);
    }
    let s = spatial(0, 0, -1000, 2000, WrapAround::Wrap);
    let moved = integrate(&s, 100, &outer).unwrap();
    assert_eq!((-100_000 + 928_000, 200_000), (moved.x, moved.y));
}

#[test]
fn destroyed_entities_leave_at_the_boundary() {
    let b = field();
    let mut es = vec![
        body(863_000, 0, 1000, 0, WrapAround::Destroy),
        body(0, 0, 1000, 0, WrapAround::Destroy),
        body(863_000, 0, 1000, 0, WrapAround::Wrap),
        body(-63_000, 5, -1000, 0, WrapAround::Destroy),
    ];
    movement(&mut es, 16, &b);
    assert_eq!(2, es.len());
    assert_eq!((16_000, 0), (es[0].spatial.x, es[0].spatial.y));
    assert_eq!(863_000 + 16_000 - 928_000, es[1].spatial.x);
    assert_eq!(WrapAround::Wrap, es[1].spatial.wrap);
}

#[test]
fn translate_is_modular() {
    let p = Position { x: 5, y: 5 };
    assert_eq!(Position { x: 2, y: 9 }, p.translate(&Velocity { dx: -13, dy: 4 }, 10, 20));
    assert_eq!(Position { x: 0, y: 0 }, p.translate(&Velocity { dx: 5, dy: -5 }, 10, 20));
}

fn bullet(when: u64) -> Entity {
    Entity {
        spatial: spatial(0, 0, 0, 0, WrapAround::Destroy),
        hitmask: HitMask::Point,
        timeout: Some(Timeout::Expire { when }),
    }
}

#[test]
fn expiry_is_never_early() {
    let mut es = vec![bullet(1000), body(0, 0, 0, 0, WrapAround::Destroy), bullet(2000)];
    for now in [0, 500, 999] {
        timeout(&mut es, now);
        assert_eq!(3, es.len());
    }
    timeout(&mut es, 1000);
    assert_eq!(2, es.len());
    assert_eq!(None, es[0].timeout);
    timeout(&mut es, 5000);
    assert_eq!(1, es.len());
    assert_eq!(None, es[0].timeout);
}

#[test]
fn spawn_population_converges() {
    let b = field();
    let mut asteroids: Vec<Entity> = Vec::new();
    let mut timers: Vec<SpawnTimeout> = Vec::new();
    let start = 40u64;
    let mut created = 0;
    let mut now = start;
    while now <= start + SPAWN_INTERVAL {
        let before = timers.len();
        create_spawn_timeout(asteroids.len(), &mut timers, now);
        created += timers.len() - before;
        spawn_asteroids(&mut timers, &mut asteroids, &b, now);
        assert!(asteroids.len() + timers.len() <= TARGET_POPULATION);
        now += 50;
    }
    assert_eq!(TARGET_POPULATION, asteroids.len());
    assert!(timers.is_empty());
    assert_eq!(TARGET_POPULATION, created);
}

#[test]
fn timers_fall_due_at_their_time() {
    let b = field();
    let mut asteroids: Vec<Entity> = Vec::new();
    let mut timers = vec![SpawnTimeout { when: 100 }, SpawnTimeout { when: 300 }, SpawnTimeout { when: 200 }];
    spawn_asteroids(&mut timers, &mut asteroids, &b, 200);
    assert_eq!(vec![SpawnTimeout { when: 300 }], timers);
    assert_eq!(2, asteroids.len());
    create_spawn_timeout(asteroids.len(), &mut timers, 200);
    assert_eq!(3, timers.len());
    assert_eq!(SpawnTimeout { when: 1200 }, timers[2]);
    create_spawn_timeout(9, &mut timers, 200);
    assert_eq!(3, timers.len());
}

#[test]
fn asteroid_draws_place_on_the_edge() {
    let b = field();
    let d = AsteroidDraws { vertical_edge: true, far_edge: true, offset: 10, dx: 3, dy: -4, facing_x: 1, facing_y: 2 };
    let a = asteroid::from_draws(&b, &d);
    assert_eq!((864_000, -63_990), (a.spatial.x, a.spatial.y));
    assert_eq!((3, -4), (a.spatial.dx, a.spatial.dy));
    assert_eq!(HitMask::Circle { radius: ASTEROID_RADIUS }, a.hitmask);
    assert_eq!(WrapAround::Wrap, a.spatial.wrap);
    let d = AsteroidDraws { vertical_edge: false, far_edge: false, ..d };
    let a = asteroid::from_draws(&b, &d);
    assert_eq!((-63_990, -64_000), (a.spatial.x, a.spatial.y));
}

#[test]
fn random_asteroids_lie_on_the_edge() {
    let b = field();
    let o = b.outer;
    let mut speeds = std::collections::HashSet::new();
    for _ in 0..200 {
        let a = asteroid::new(&b);
        let (x, y) = (a.spatial.x, a.spatial.y);
        let on_side = (x == o.p0.x || x == o.p1.x) && o.p0.y <= y && y <= o.p1.y;
        let on_top = (y == o.p0.y || y == o.p1.y) && o.p0.x <= x && x <= o.p1.x;
        assert!(on_side || on_top);
        assert!(a.spatial.dx.abs() <= ASTEROID_MAX_SPEED);
        assert!(a.spatial.dy.abs() <= ASTEROID_MAX_SPEED);
        speeds.insert(a.spatial.dx);
    }
    assert!(speeds.len() > 1);
}

#[test]
fn integer_helpers() {
    assert_eq!(0, ceil_sqrt(0));
    assert_eq!(1, ceil_sqrt(1));
    assert_eq!(2, ceil_sqrt(2));
    assert_eq!(5, ceil_sqrt(25));
    assert_eq!(6, ceil_sqrt(26));
    assert_eq!(1415, ceil_sqrt(2_000_000));
    assert_eq!(3, scale(7, 3, 7));
    assert_eq!(-2, scale(-5, 3, 7));
    assert_eq!(2, scale(5, 3, 7));
}
