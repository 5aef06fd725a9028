use rust_rocks::asteroid::ASTEROID_RADIUS;
use rust_rocks::bounds::Bounds;
use rust_rocks::clock::{Clock, DeltaTime, FpsCounter};
use rust_rocks::component::{Entity, HitMask, PlayerInput, Spatial, Sprite, SpriteKind, Timeout, WrapAround};
use rust_rocks::game::{GameScene, SessionSignal};
use rust_rocks::input::{normalize_axis, ControllerState, Joystick};
use rust_rocks::player::{dead_zone, player_input, State, BULLET_LIFETIME, FIRE_INTERVAL};

fn still() -> PlayerInput {
    PlayerInput { thrust_x: 0, thrust_y: 0, aim_x: 0, aim_y: 0, fire: false }
}

fn asteroid_at(x: i32, y: i32) -> Entity {
    Entity {
        spatial: Spatial { x, y, dx: 0, dy: 0, facing_x: 0, facing_y: 0, wrap: WrapAround::Wrap },
        hitmask: HitMask::Circle { radius: ASTEROID_RADIUS },
        timeout: None,
    }
}

fn bullet_at(x: i32, y: i32) -> Entity {
    Entity {
        spatial: Spatial { x, y, dx: 0, dy: 0, facing_x: 1000, facing_y: 0, wrap: WrapAround::Destroy },
        hitmask: HitMask::Point,
        timeout: Some(Timeout::Expire { when: 10_000 }),
    }
}

fn quiet_scene() -> GameScene {
    let mut scene = GameScene::new(Bounds::new(0, 0, 800_000, 600_000));
    scene.asteroids.clear();
    scene
}

#[test]
fn new_session() {
    let scene = GameScene::new(Bounds::new(0, 0, 800_000, 600_000));
    assert_eq!(5, scene.asteroids.len());
    assert_eq!((400_000, 300_000), (scene.player.spatial.x, scene.player.spatial.y));
    assert_eq!(0, scene.score.value());
    assert_eq!(Clock { now: 0, dt: 0 }, scene.clock);
    assert_eq!(6, scene.drawables().len());
    assert_eq!(SpriteKind::Player, scene.drawables()[0].kind);
}

#[test]
fn score_counts_destroyed_asteroids() {
    let mut scene = quiet_scene();
    let r = ASTEROID_RADIUS as i32;
    let p = 200_000;
    scene.asteroids = vec![asteroid_at(p - 2 * r, p), asteroid_at(p, p), asteroid_at(p + 2 * r, p)];
    scene.bullets = vec![bullet_at(p - 2 * r, p), bullet_at(p - 2 * r, p), bullet_at(p + 2 * r, p), bullet_at(p + 2 * r, p)];
    let signal = scene.tick(0, &still());
    assert_eq!(SessionSignal::AsteroidDestroyed, signal);
    assert_eq!(2, scene.score.value());
    assert_eq!(1, scene.asteroids.len());
    assert_eq!((p, p), (scene.asteroids[0].spatial.x, scene.asteroids[0].spatial.y));
    assert!(scene.bullets.is_empty());
    assert_eq!(4, scene.timers.len());
    let signal = scene.tick(16, &still());
    assert_eq!(SessionSignal::Continue, signal);
    assert_eq!(2, scene.score.value());
}

#[test]
fn player_hit_ends_the_session() {
    let mut scene = quiet_scene();
    let (x, y) = (scene.player.spatial.x, scene.player.spatial.y);
    scene.asteroids = vec![asteroid_at(x + 10_000, y)];
    scene.score.add_points(7);
    let signal = scene.tick(16, &still());
    assert_eq!(SessionSignal::PlayerHit { final_score: rust_rocks::score::Score(7) }, signal);
    assert!(scene.is_over);
    let before = scene.clock;
    assert_eq!(SessionSignal::Continue, scene.tick(16, &still()));
    assert_eq!(before, scene.clock);
}

#[test]
fn paused_session_does_not_move() {
    let mut scene = quiet_scene();
    scene.toggle_pause();
    let thrust = PlayerInput { thrust_x: 1000, ..still() };
    assert_eq!(SessionSignal::Continue, scene.tick(100, &thrust));
    assert_eq!(0, scene.player.spatial.dx);
    assert_eq!(0, scene.clock.now);
    scene.toggle_pause();
    scene.tick(100, &thrust);
    assert_eq!(60, scene.player.spatial.dx);
    assert_eq!(100, scene.clock.now);
}

#[test]
fn firing_respects_the_cooldown() {
    let mut scene = quiet_scene();
    let fire = PlayerInput { aim_x: 1000, aim_y: 0, fire: true, ..still() };
    scene.tick(10, &fire);
    assert_eq!(1, scene.bullets.len());
    let b = scene.bullets[0];
    assert_eq!((1000, 0), (b.spatial.dx, b.spatial.dy));
    assert_eq!(WrapAround::Destroy, b.spatial.wrap);
    assert_eq!(Some(Timeout::Expire { when: 10 + BULLET_LIFETIME }), b.timeout);
    // the bullet starts at the nose and has moved for one tick
    assert_eq!(400_000 + 32_000 + 10 * 1000, b.spatial.x);
    scene.tick(10, &fire);
    assert_eq!(1, scene.bullets.len());
    scene.tick(FIRE_INTERVAL as u32, &fire);
    assert_eq!(2, scene.bullets.len());
}

#[test]
fn player_speed_is_clamped() {
    let mut ship = Entity {
        spatial: Spatial { x: 0, y: 0, dx: 600, dy: 0, facing_x: 1000, facing_y: 0, wrap: WrapAround::Wrap },
        hitmask: HitMask::Point,
        timeout: None,
    };
    let mut state = State { next_fire_time: 0 };
    let input = PlayerInput { thrust_x: 0, thrust_y: 1000, aim_x: -3, aim_y: 4, fire: false };
    let shot = player_input(&mut ship, &input, 100, 0, &mut state);
    assert!(shot.is_none());
    // (600, 60) is rescaled to 600 over ceil(sqrt(363600)) = 603
    assert_eq!((597, 59), (ship.spatial.dx, ship.spatial.dy));
    assert_eq!((-3, 4), (ship.spatial.facing_x, ship.spatial.facing_y));
    assert_eq!(State { next_fire_time: 0 }, state);
    let fire = PlayerInput { thrust_x: 0, thrust_y: 0, aim_x: 0, aim_y: 0, fire: true };
    let shot = player_input(&mut ship, &fire, 0, 50, &mut state).unwrap();
    assert_eq!((-600, 800), (shot.spatial.dx, shot.spatial.dy));
    assert_eq!((-19_200, 25_600), (shot.spatial.x, shot.spatial.y));
    assert_eq!(50 + FIRE_INTERVAL, state.next_fire_time);
}

#[test]
fn dead_zone_and_axes() {
    assert_eq!((0, 0), dead_zone(30, 39));
    assert_eq!((30, 40), dead_zone(30, 40));
    assert_eq!(1000, normalize_axis(32767));
    assert_eq!(-1000, normalize_axis(-32768));
    assert_eq!(500, normalize_axis(16384));
    assert_eq!(-500, normalize_axis(-16384));
    let j = Joystick::new(0, -32768);
    assert_eq!((0, -1000), (j.unit_x_axis(), j.unit_y_axis()));
}

#[test]
fn controller_state_feeds_input() {
    let mut c = ControllerState::new();
    c.update_axis(0, 500);
    c.update_axis(4, -20);
    c.update_axis(7, 900);
    c.press_right_bumper();
    let input = c.read_input_state();
    assert_eq!(PlayerInput { thrust_x: 500, thrust_y: 0, aim_x: 0, aim_y: 0, fire: true }, input);
    c.release_right_bumper();
    assert!(!c.read_input_state().fire);
}

#[test]
fn clocks_and_counters() {
    let mut clock = Clock::new();
    clock.update(16);
    clock.update(17);
    assert_eq!(Clock { now: 33, dt: 17 }, clock);
    let mut d = DeltaTime::new();
    d.update(40);
    d.update(55);
    assert_eq!((15, 55), (d.elapsed, d.since));
    let mut fps = FpsCounter::new();
    assert_eq!(None, fps.tick(500));
    assert_eq!(None, fps.tick(1000));
    assert_eq!(Some(3), fps.tick(1001));
    assert_eq!(None, fps.tick(1500));
    assert_eq!(Sprite { width: 64, height: 64, kind: SpriteKind::Bullet }, Sprite::default(SpriteKind::Bullet));
}

#[test]
fn update_reads_the_controller() {
    let mut scene = quiet_scene();
    scene.controller.update_axis(0, 1000);
    scene.controller.update_axis(3, 0);
    scene.controller.update_axis(4, -1000);
    let signal = scene.update(100);
    assert_eq!(SessionSignal::Continue, signal);
    assert_eq!((60, 0), (scene.player.spatial.dx, scene.player.spatial.dy));
    assert_eq!((0, -1000), (scene.player.spatial.facing_x, scene.player.spatial.facing_y));
    assert_eq!(400_000 + 60 * 100, scene.player.spatial.x);
    assert_eq!(5, scene.timers.len());
}

#[test]
fn drawables_list_ship_asteroids_bullets() {
    let mut scene = quiet_scene();
    scene.asteroids = vec![asteroid_at(1, 2)];
    scene.bullets = vec![bullet_at(3, 4), bullet_at(5, 6)];
    let d = scene.drawables();
    let kinds: Vec<SpriteKind> = d.iter().map(|x| x.kind).collect();
    assert_eq!(vec![SpriteKind::Player, SpriteKind::Asteroid, SpriteKind::Bullet, SpriteKind::Bullet], kinds);
    assert_eq!((1, 2), (d[1].x, d[1].y));
    assert_eq!((5, 6, 1000, 0), (d[3].x, d[3].y, d[3].facing_x, d[3].facing_y));
}
