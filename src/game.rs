use vstd::prelude::*;

use crate::asteroid::{self, ASTEROID_MAX_SPEED, ASTEROID_RADIUS, is_new_asteroid};
use crate::bounds::{Bound, Bounds, WRAP_PAD};
use crate::clock::Clock;
use crate::collision::{
    all_compatible, collides, hit_slots_left, hit_slots_right, lemma_without_slots_from,
    remove_collisions, without_slots, IntoCollidable,
};
use crate::component::{
    Entity, HitMask, PlayerInput, Spatial, SpawnTimeout, SpriteKind, STICK_MAX, WrapAround,
};
use crate::input::ControllerState;
use crate::movement::{
    integrate, lemma_moved_entities_from, lemma_wrap_stays_in_field, moved, moved_entities,
    movement, survives, within_reach,
};
use crate::player::{
    bullet_of, fires, lemma_component_bound, FIRE_INTERVAL, player_input, saturating, ship_ok, steered, State,
    MAX_PLAYER_SPEED, MAX_TICK,
};
use crate::score::Score;
use crate::spawn::{create_spawn_timeout, due_count, pending, scheduled, spawn_asteroids};
use crate::timeout::{lemma_unexpired_from, timeout, unexpired};

verus! {

/// What one tick reports to the session.
#[derive(Clone, Copy, Debug, PartialEq, Eq, Structural)]
pub enum SessionSignal {
    /// Play goes on.
    Continue,
    /// Play goes on; asteroids were destroyed and the score already counts
    /// them.
    AsteroidDestroyed,
    /// The ship was hit: the session is over with this score.
    PlayerHit { final_score: Score },
}

/// What the renderer needs of an entity.
#[derive(Clone, Copy, Debug, PartialEq, Eq, Structural)]
pub struct Drawable {
    pub x: i32,
    pub y: i32,
    pub facing_x: i32,
    pub facing_y: i32,
    pub kind: SpriteKind,
}

/// How an entity of the given kind is drawn.
pub open spec fn drawable_of(e: Entity, kind: SpriteKind) -> Drawable {
    Drawable {
        x: e.spatial.x,
        y: e.spatial.y,
        facing_x: e.spatial.facing_x,
        facing_y: e.spatial.facing_y,
        kind,
    }
}

/// The position lies in the outer rectangle, edges included.
pub open spec fn in_field(s: Spatial, outer: Bound) -> bool {
    outer.p0.x <= s.x <= outer.p1.x && outer.p0.y <= s.y <= outer.p1.y
}

/// An asteroid as the session keeps it: the asteroid hit circle, wrapping,
/// never expiring, within its speed range and inside the field.
pub open spec fn asteroid_ok(e: Entity, outer: Bound) -> bool {
    &&& e.hitmask == HitMask::Circle { radius: ASTEROID_RADIUS }
    &&& e.spatial.wrap is Wrap
    &&& e.timeout is None
    &&& -ASTEROID_MAX_SPEED <= e.spatial.dx <= ASTEROID_MAX_SPEED
    &&& -ASTEROID_MAX_SPEED <= e.spatial.dy <= ASTEROID_MAX_SPEED
    &&& in_field(e.spatial, outer)
}

/// A bullet as the session keeps it: a point that is destroyed at the
/// boundary.
pub open spec fn bullet_ok(e: Entity) -> bool {
    e.hitmask is Point && e.spatial.wrap is Destroy
}

/// The ship as the session keeps it: a wrapping point that never expires,
/// inside the field, in a state the game can step.
pub open spec fn player_ok(e: Entity, outer: Bound) -> bool {
    &&& e.hitmask is Point
    &&& e.spatial.wrap is Wrap
    &&& e.timeout is None
    &&& ship_ok(e.spatial)
    &&& in_field(e.spatial, outer)
}

/// Whether any asteroid hits the ship.
pub open spec fn ship_hit(player: Entity, asteroids: Seq<Entity>) -> bool {
    exists|j: int| 0 <= j < asteroids.len() && collides(asteroids[j].collider(), player.collider())
}

/// `v` saturated at the largest `u32`.
pub open spec fn sat_u32(v: int) -> u32 {
    if v > u32::MAX {
        u32::MAX
    } else {
        v as u32
    }
}

/// One game session: the ship, the asteroids, the bullets, the pending
/// spawns, the score and the clock.
pub struct GameScene {
    pub bounds: Bounds,
    pub player: Entity,
    pub asteroids: Vec<Entity>,
    pub bullets: Vec<Entity>,
    pub timers: Vec<SpawnTimeout>,
    pub score: Score,
    pub clock: Clock,
    pub fire: State,
    pub controller: ControllerState,
    pub is_paused: bool,
    pub is_over: bool,
}

/// Tests the ship against every asteroid.
pub fn player_hit(player: &Entity, asteroids: &Vec<Entity>) -> (r: bool)
    requires
        player.hitmask is Point,
        forall|j: int| 0 <= j < asteroids@.len() ==> (#[trigger] asteroids@[j]).hitmask is Circle,
    ensures
        r == ship_hit(*player, asteroids@),
{
    let p = player.into_collidable();
    let mut j: usize = 0;
    while j < asteroids.len()
        invariant
            p == player.collider(),
            p.hitmask is Point,
            j <= asteroids@.len(),
            forall|k: int| 0 <= k < asteroids@.len() ==> (#[trigger] asteroids@[k]).hitmask is Circle,
            forall|k: int|
                0 <= k < j ==> !collides(#[trigger] asteroids@[k].collider(), player.collider()),
        decreases asteroids@.len() - j,
    {
        let a = asteroids[j].into_collidable();
        assert(asteroids@[j as int].hitmask is Circle);
        if a.is_collision(&p) {
            return true;
        }
        j = j + 1;
    }
    false
}

proof fn lemma_step_within_reach(s: Spatial, dt: u32, outer: Bound, limit: int)
    requires
        outer.width >= 2 * WRAP_PAD,
        outer.height >= 2 * WRAP_PAD,
        0 <= limit <= MAX_PLAYER_SPEED,
        -limit <= s.dx <= limit,
        -limit <= s.dy <= limit,
        dt <= MAX_TICK,
        s.wrap is Wrap ==> in_field(s, outer),
    ensures
        within_reach(s, dt, outer),
{
    assert(-120_000 <= s.dx * dt <= 120_000) by (nonlinear_arith)
        requires
            -600 <= s.dx <= 600,
            0 <= dt <= 200,
    ;
    assert(-120_000 <= s.dy * dt <= 120_000) by (nonlinear_arith)
        requires
            -600 <= s.dy <= 600,
            0 <= dt <= 200,
    ;
}

/// The time of a tick of `dt` milliseconds.
pub open spec fn tick_time(pre: GameScene, dt: u32) -> u64 {
    saturating(pre.clock.now + dt)
}

/// The ship's spatial state after the input of a tick, before it moves.
pub open spec fn tick_ship(pre: GameScene, dt: u32, input: PlayerInput) -> Spatial {
    steered(pre.player.spatial, input, dt)
}

/// The bullets of a tick before they move: those of before, then the one
/// fired in the tick, if any.
pub open spec fn tick_armed(pre: GameScene, dt: u32, input: PlayerInput) -> Seq<Entity> {
    let now = tick_time(pre, dt);
    if fires(pre.fire, input, now) {
        pre.bullets@.push(bullet_of(tick_ship(pre, dt, input), now))
    } else {
        pre.bullets@
    }
}

/// Asteroids and bullets of a tick, moved and then cleared of collisions:
/// moved asteroids, moved bullets, asteroids left, bullets left.
pub open spec fn tick_collided(pre: GameScene, dt: u32, input: PlayerInput) -> (
    Seq<Entity>,
    Seq<Entity>,
    Seq<Entity>,
    Seq<Entity>,
) {
    let outer = pre.bounds.outer;
    let a1 = moved_entities(pre.asteroids@, dt, outer);
    let b1 = moved_entities(tick_armed(pre, dt, input), dt, outer);
    (
        a1,
        b1,
        without_slots(a1, hit_slots_left(a1, b1)),
        without_slots(b1, hit_slots_right(a1, b1)),
    )
}

/// How many asteroids bullets destroyed in a tick.
pub open spec fn tick_destroyed(pre: GameScene, dt: u32, input: PlayerInput) -> nat {
    (tick_collided(pre, dt, input).0.len() - tick_collided(pre, dt, input).2.len()) as nat
}

/// What one tick does to a session, from `pre` to `post`, reporting `r`.
pub open spec fn stepped(
    pre: GameScene,
    post: GameScene,
    dt: u32,
    input: PlayerInput,
    r: SessionSignal,
) -> bool {
    if pre.is_paused || pre.is_over {
        post.same_as(&pre) && r == SessionSignal::Continue
    } else {
        let outer = pre.bounds.outer;
        let now = tick_time(pre, dt);
        let (a1, b1, a2, b2) = tick_collided(pre, dt, input);
        let destroyed = tick_destroyed(pre, dt, input);
        let score = sat_u32(pre.score.0 + destroyed);
        let player = Entity { spatial: moved(tick_ship(pre, dt, input), dt, outer), ..pre.player };
        let t1 = scheduled(pre.timers@, a2.len(), now);
        &&& post.bounds == pre.bounds
        &&& post.clock == (Clock { now, dt })
        &&& post.fire == if fires(pre.fire, input, now) {
            State { next_fire_time: saturating(now + FIRE_INTERVAL) }
        } else {
            pre.fire
        }
        &&& post.controller == pre.controller
        &&& post.player == player
        &&& post.score.0 == score
        &&& !post.is_paused
        &&& ship_hit(player, a2) ==> {
            &&& post.is_over
            &&& r == SessionSignal::PlayerHit { final_score: Score(score) }
            &&& post.asteroids@ == a2
            &&& post.bullets@ == b2
            &&& post.timers@ == pre.timers@
        }
        &&& !ship_hit(player, a2) ==> {
            &&& !post.is_over
            &&& r == if destroyed > 0 {
                SessionSignal::AsteroidDestroyed
            } else {
                SessionSignal::Continue
            }
            &&& post.bullets@ == unexpired(b2, now)
            &&& post.timers@ == pending(t1, now)
            &&& post.asteroids@.len() == a2.len() + due_count(t1, now)
            &&& post.asteroids@.take(a2.len() as int) == a2
            &&& forall|k: int|
                a2.len() <= k < post.asteroids@.len() ==> is_new_asteroid(
                    pre.bounds,
                    #[trigger] post.asteroids@[k],
                )
        }
    }
}

/// Score monotonicity: within a session a tick never lowers the score, and
/// raises it by exactly the number of asteroids that bullets destroyed in
/// it, short of the largest `u32`.
pub proof fn lemma_score_monotonicity(
    pre: GameScene,
    post: GameScene,
    dt: u32,
    input: PlayerInput,
    r: SessionSignal,
)
    requires
        stepped(pre, post, dt, input, r),
    ensures
        post.score.0 >= pre.score.0,
        !(pre.is_paused || pre.is_over) && pre.score.0 + tick_destroyed(pre, dt, input)
            <= u32::MAX ==> post.score.0 == pre.score.0 + tick_destroyed(pre, dt, input),
{
}

impl GameScene {
    pub open spec fn wf(&self) -> bool {
        &&& self.bounds.wf()
        &&& player_ok(self.player, self.bounds.outer)
        &&& forall|i: int|
            0 <= i < self.asteroids@.len() ==> asteroid_ok(
                #[trigger] self.asteroids@[i],
                self.bounds.outer,
            )
        &&& forall|i: int| 0 <= i < self.bullets@.len() ==> bullet_ok(#[trigger] self.bullets@[i])
        &&& self.controller.wf()
    }

    /// A new session: the ship at the centre of the play field, facing
    /// right, five asteroids on the edge, no bullets, score zero.
    pub fn new(bounds: Bounds) -> (r: Self)
        requires
            bounds.wf(),
        ensures
            r.wf(),
            r.bounds == bounds,
            r.asteroids@.len() == 5,
            forall|k: int| 0 <= k < 5 ==> is_new_asteroid(bounds, #[trigger] r.asteroids@[k]),
            r.fire == (State { next_fire_time: 0 }),
            r.controller == ControllerState::new_spec(),
            r.bullets@.len() == 0,
            r.timers@.len() == 0,
            r.score.0 == 0,
            r.clock == (Clock { now: 0, dt: 0 }),
            !r.is_paused,
            !r.is_over,
            r.player.spatial == (Spatial {
                x: (bounds.inner.p0.x + bounds.inner.width / 2) as i32,
                y: (bounds.inner.p0.y + bounds.inner.height / 2) as i32,
                dx: 0,
                dy: 0,
                facing_x: STICK_MAX,
                facing_y: 0,
                wrap: WrapAround::Wrap,
            }),
    {
        let player = Entity {
            spatial: Spatial {
                x: bounds.inner.p0.x + bounds.inner.width / 2,
                y: bounds.inner.p0.y + bounds.inner.height / 2,
                dx: 0,
                dy: 0,
                facing_x: STICK_MAX,
                facing_y: 0,
                wrap: WrapAround::Wrap,
            },
            hitmask: HitMask::Point,
            timeout: None,
        };
        let mut asteroids: Vec<Entity> = Vec::new();
        let mut i: usize = 0;
        while i < 5
            invariant
                bounds.wf(),
                i <= 5,
                asteroids@.len() == i,
                forall|k: int|
                    0 <= k < asteroids@.len() ==> asteroid_ok(#[trigger] asteroids@[k], bounds.outer),
                forall|k: int| 0 <= k < asteroids@.len() ==> is_new_asteroid(bounds, #[trigger] asteroids@[k]),
            decreases 5 - i,
        {
            let a = asteroid::new(&bounds);
            proof {
                Self::lemma_new_asteroid_ok(bounds, a);
            }
            asteroids.push(a);
            i = i + 1;
        }
        GameScene {
            bounds,
            player,
            asteroids,
            bullets: Vec::new(),
            timers: Vec::new(),
            score: Score::new(),
            clock: Clock::new(),
            fire: State { next_fire_time: 0 },
            controller: ControllerState::new(),
            is_paused: false,
            is_over: false,
        }
    }

    proof fn lemma_new_asteroid_ok(bounds: Bounds, a: Entity)
        requires
            bounds.wf(),
            is_new_asteroid(bounds, a),
        ensures
            asteroid_ok(a, bounds.outer),
    {
    }

    /// The state of the session is as before, field by field.
    pub open spec fn same_as(&self, other: &GameScene) -> bool {
        &&& self.bounds == other.bounds
        &&& self.player == other.player
        &&& self.asteroids@ == other.asteroids@
        &&& self.bullets@ == other.bullets@
        &&& self.timers@ == other.timers@
        &&& self.score == other.score
        &&& self.clock == other.clock
        &&& self.fire == other.fire
        &&& self.controller == other.controller
        &&& self.is_paused == other.is_paused
        &&& self.is_over == other.is_over
    }

    /// Runs one tick of `dt` milliseconds with the given input.
    ///
    /// In order: the clock advances; the input steers the ship and may fire a
    /// bullet; every entity moves; bullets and asteroids that collide are
    /// removed and each destroyed asteroid scores a point; if an asteroid
    /// hits the ship the session ends; otherwise expired bullets are swept
    /// and the asteroid population is topped up. A paused or finished
    /// session does not change.
    #[verifier::rlimit(50)]
    pub fn tick(&mut self, dt: u32, input: &PlayerInput) -> (r: SessionSignal)
        requires
            old(self).wf(),
            dt <= MAX_TICK,
            input.wf(),
        ensures
            final(self).wf(),
            final(self).score.0 >= old(self).score.0,
            stepped(*old(self), *final(self), dt, *input, r),
    {
        if self.is_paused || self.is_over {
            return SessionSignal::Continue;
        }
        let ghost old_self = *old(self);
        let ghost outer = self.bounds.outer;
        self.clock.update(dt);
        let now = self.clock.now;
        let fired = player_input(&mut self.player, input, dt, now, &mut self.fire);
        match fired {
            Some(b) => {
                self.bullets.push(b);
            },
            None => {},
        }
        let ghost b0 = self.bullets@;
        proof {
            let v = self.player.spatial;
            lemma_component_bound(v.dx as int, v.dy as int, MAX_PLAYER_SPEED as int);
            lemma_component_bound(v.dy as int, v.dx as int, MAX_PLAYER_SPEED as int);
            lemma_step_within_reach(self.player.spatial, dt, outer, MAX_PLAYER_SPEED as int);
            assert forall|i: int| 0 <= i < self.asteroids@.len() implies within_reach(
                #[trigger] self.asteroids@[i].spatial,
                dt,
                outer,
            ) by {
                assert(asteroid_ok(self.asteroids@[i], outer));
                lemma_step_within_reach(
                    self.asteroids@[i].spatial,
                    dt,
                    outer,
                    ASTEROID_MAX_SPEED as int,
                );
            }
            assert forall|i: int| 0 <= i < b0.len() implies within_reach(
                #[trigger] b0[i].spatial,
                dt,
                outer,
            ) by {
                if i < old_self.bullets@.len() {
                    assert(bullet_ok(old_self.bullets@[i]));
                }
            }
        }
        match integrate(&self.player.spatial, dt, &self.bounds.outer) {
            Some(s) => {
                self.player.spatial = s;
            },
            None => {},
        }
        proof {
            lemma_wrap_stays_in_field(steered(old_self.player.spatial, *input, dt), dt, outer);
        }
        let ghost a0 = self.asteroids@;
        movement(&mut self.asteroids, dt, &self.bounds);
        movement(&mut self.bullets, dt, &self.bounds);
        let ghost a1 = self.asteroids@;
        let ghost b1 = self.bullets@;
        proof {
            lemma_moved_entities_from(a0, dt, outer);
            lemma_moved_entities_from(b0, dt, outer);
            assert forall|i: int| 0 <= i < a1.len() implies asteroid_ok(#[trigger] a1[i], outer) by {
                let j = choose|j: int|
                    0 <= j < a0.len() && survives(a0[j].spatial, dt, outer) && (Entity {
                        spatial: moved(a0[j].spatial, dt, outer),
                        ..a0[j]
                    }) == a1[i];
                assert(asteroid_ok(a0[j], outer));
                lemma_wrap_stays_in_field(a0[j].spatial, dt, outer);
            }
            assert forall|i: int| 0 <= i < b1.len() implies bullet_ok(#[trigger] b1[i]) by {
                let j = choose|j: int|
                    0 <= j < b0.len() && survives(b0[j].spatial, dt, outer) && (Entity {
                        spatial: moved(b0[j].spatial, dt, outer),
                        ..b0[j]
                    }) == b1[i];
                if j < old_self.bullets@.len() {
                    assert(bullet_ok(old_self.bullets@[j]));
                }
            }
            assert(all_compatible(a1, b1)) by {
                assert forall|i: int, j: int|
                    0 <= i < a1.len() && 0 <= j < b1.len() implies #[trigger] crate::collision::compatible(
                    a1[i].collider().hitmask,
                    #[trigger] b1[j].collider().hitmask,
                ) by {
                    assert(asteroid_ok(a1[i], outer));
                    assert(bullet_ok(b1[j]));
                }
            }
        }
        let (destroyed, _) = remove_collisions(&mut self.asteroids, &mut self.bullets);
        let ghost a2 = self.asteroids@;
        let ghost b2 = self.bullets@;
        proof {
            lemma_without_slots_from(a1, hit_slots_left(a1, b1));
            lemma_without_slots_from(b1, hit_slots_right(a1, b1));
            assert forall|i: int| 0 <= i < a2.len() implies asteroid_ok(#[trigger] a2[i], outer) by {
                let j = choose|j: int| 0 <= j < a1.len() && a1[j] == a2[i];
                assert(asteroid_ok(a1[j], outer));
            }
            assert forall|i: int| 0 <= i < b2.len() implies bullet_ok(#[trigger] b2[i]) by {
                let j = choose|j: int| 0 <= j < b1.len() && b1[j] == b2[i];
                assert(bullet_ok(b1[j]));
            }
        }
        let points: u32 = if destroyed > u32::MAX as usize {
            u32::MAX
        } else {
            destroyed as u32
        };
        self.score.add_points(points);
        let hit = player_hit(&self.player, &self.asteroids);
        if hit {
            self.is_over = true;
            return SessionSignal::PlayerHit { final_score: self.score };
        }
        timeout(&mut self.bullets, now);
        proof {
            lemma_unexpired_from(b2, now);
            assert forall|i: int| 0 <= i < self.bullets@.len() implies bullet_ok(
                #[trigger] self.bullets@[i],
            ) by {
                let j = choose|j: int| 0 <= j < b2.len() && b2[j] == self.bullets@[i];
                assert(bullet_ok(b2[j]));
            }
        }
        create_spawn_timeout(self.asteroids.len(), &mut self.timers, now);
        spawn_asteroids(&mut self.timers, &mut self.asteroids, &self.bounds, now);
        proof {
            assert forall|i: int| 0 <= i < self.asteroids@.len() implies asteroid_ok(
                #[trigger] self.asteroids@[i],
                outer,
            ) by {
                if i < a2.len() {
                    assert(self.asteroids@.take(a2.len() as int)[i] == self.asteroids@[i]);
                    assert(asteroid_ok(a2[i], outer));
                } else {
                    Self::lemma_new_asteroid_ok(self.bounds, self.asteroids@[i]);
                }
            }
        }
        if destroyed > 0 {
            SessionSignal::AsteroidDestroyed
        } else {
            SessionSignal::Continue
        }
    }

    /// Runs one tick of `dt` milliseconds with the input that the
    /// controller state gives.
    pub fn update(&mut self, dt: u32) -> (r: SessionSignal)
        requires
            old(self).wf(),
            dt <= MAX_TICK,
        ensures
            final(self).wf(),
            stepped(*old(self), *final(self), dt, old(self).controller.input_of(), r),
    {
        let input = self.controller.read_input_state();
        self.tick(dt, &input)
    }

    /// What the renderer draws: the ship, then the asteroids, then the
    /// bullets.
    pub fn drawables(&self) -> (r: Vec<Drawable>)
        ensures
            r@ == seq![drawable_of(self.player, SpriteKind::Player)] + self.asteroids@.map(
                |_i: int, e: Entity| drawable_of(e, SpriteKind::Asteroid),
            ) + self.bullets@.map(|_i: int, e: Entity| drawable_of(e, SpriteKind::Bullet)),
    {
        let mut r: Vec<Drawable> = Vec::new();
        r.push(Self::drawable(&self.player, SpriteKind::Player));
        let ghost head = seq![drawable_of(self.player, SpriteKind::Player)];
        let ghost am = self.asteroids@.map(|_i: int, e: Entity| drawable_of(e, SpriteKind::Asteroid));
        let ghost bm = self.bullets@.map(|_i: int, e: Entity| drawable_of(e, SpriteKind::Bullet));
        let mut i: usize = 0;
        while i < self.asteroids.len()
            invariant
                i <= self.asteroids@.len(),
                am == self.asteroids@.map(|_i: int, e: Entity| drawable_of(e, SpriteKind::Asteroid)),
                r@ == head + am.take(i as int),
            decreases self.asteroids@.len() - i,
        {
            r.push(Self::drawable(&self.asteroids[i], SpriteKind::Asteroid));
            assert(am.take(i + 1) =~= am.take(i as int).push(am[i as int]));
            i = i + 1;
        }
        assert(am.take(i as int) =~= am);
        let mut j: usize = 0;
        while j < self.bullets.len()
            invariant
                j <= self.bullets@.len(),
                bm == self.bullets@.map(|_i: int, e: Entity| drawable_of(e, SpriteKind::Bullet)),
                r@ == head + am + bm.take(j as int),
            decreases self.bullets@.len() - j,
        {
            r.push(Self::drawable(&self.bullets[j], SpriteKind::Bullet));
            assert(bm.take(j + 1) =~= bm.take(j as int).push(bm[j as int]));
            j = j + 1;
        }
        assert(bm.take(j as int) =~= bm);
        r
    }

    fn drawable(e: &Entity, kind: SpriteKind) -> (r: Drawable)
        ensures
            r == drawable_of(*e, kind),
    {
        Drawable {
            x: e.spatial.x,
            y: e.spatial.y,
            facing_x: e.spatial.facing_x,
            facing_y: e.spatial.facing_y,
            kind,
        }
    }

    /// Pauses a running session or resumes a paused one.
    pub fn toggle_pause(&mut self)
        requires
            old(self).wf(),
        ensures
            final(self).wf(),
            final(self).same_as(&GameScene { is_paused: !old(self).is_paused, ..*old(self) }),
    {
        self.is_paused = !self.is_paused;
    }
}

} // verus!
