use vstd::prelude::*;

use crate::asteroid::{self, is_new_asteroid};
use crate::bounds::Bounds;
use crate::component::{Entity, SpawnTimeout};

verus! {

/// Number of asteroids, live or pending, that the spawner maintains.
pub const TARGET_POPULATION: usize = 5;

/// Delay between scheduling an asteroid and its appearance, in milliseconds.
pub const SPAWN_INTERVAL: u64 = 1000;

/// When a spawn scheduled at `now` falls due; the clock saturates.
pub open spec fn due_time(now: u64) -> u64 {
    if now + SPAWN_INTERVAL > u64::MAX {
        u64::MAX
    } else {
        (now + SPAWN_INTERVAL) as u64
    }
}

/// How many spawns to schedule so that live and pending asteroids reach the
/// target.
pub open spec fn missing(asteroids: nat, timers: nat) -> nat {
    if asteroids + timers < TARGET_POPULATION {
        (TARGET_POPULATION - asteroids - timers) as nat
    } else {
        0
    }
}

/// `n` spawn timers, all due at `when`.
pub open spec fn uniform_timers(n: nat, when: u64) -> Seq<SpawnTimeout> {
    Seq::new(n, |_i: int| SpawnTimeout { when })
}

/// The timers after scheduling the missing spawns at `now`.
pub open spec fn scheduled(timers: Seq<SpawnTimeout>, asteroids: nat, now: u64) -> Seq<
    SpawnTimeout,
> {
    timers + uniform_timers(missing(asteroids, timers.len()), due_time(now))
}

/// The timers that are not yet due at `now`, in their order.
pub open spec fn pending(timers: Seq<SpawnTimeout>, now: u64) -> Seq<SpawnTimeout>
    decreases timers.len(),
{
    if timers.len() == 0 {
        Seq::empty()
    } else {
        let rest = pending(timers.drop_last(), now);
        if timers.last().when <= now {
            rest
        } else {
            rest.push(timers.last())
        }
    }
}

/// How many timers are due at `now`.
pub open spec fn due_count(timers: Seq<SpawnTimeout>, now: u64) -> nat
    decreases timers.len(),
{
    if timers.len() == 0 {
        0
    } else {
        due_count(timers.drop_last(), now) + if timers.last().when <= now {
            1nat
        } else {
            0nat
        }
    }
}

/// Timers that share one due time all fall due together.
pub proof fn lemma_uniform_timers(n: nat, when: u64, now: u64)
    ensures
        now >= when ==> due_count(uniform_timers(n, when), now) == n,
        now >= when ==> pending(uniform_timers(n, when), now) == Seq::<SpawnTimeout>::empty(),
        now < when ==> due_count(uniform_timers(n, when), now) == 0,
        now < when ==> pending(uniform_timers(n, when), now) == uniform_timers(n, when),
    decreases n,
{
    if n > 0 {
        lemma_uniform_timers((n - 1) as nat, when, now);
        assert(uniform_timers(n, when).drop_last() =~= uniform_timers((n - 1) as nat, when));
        assert(uniform_timers((n - 1) as nat, when).push(SpawnTimeout { when })
            =~= uniform_timers(n, when));
    } else {
        assert(uniform_timers(n, when) =~= Seq::<SpawnTimeout>::empty());
    }
}

/// Schedules the spawns that bring live and pending asteroids up to the
/// target population. Each new timer falls due one spawn interval from now.
pub fn create_spawn_timeout(asteroid_count: usize, timers: &mut Vec<SpawnTimeout>, now: u64)
    ensures
        final(timers)@ == scheduled(old(timers)@, asteroid_count as nat, now),
{
    let ghost s = old(timers)@;
    if asteroid_count < TARGET_POPULATION && timers.len() < TARGET_POPULATION - asteroid_count {
        let due = now.saturating_add(SPAWN_INTERVAL);
        let count = TARGET_POPULATION - asteroid_count - timers.len();
        let mut i: usize = 0;
        while i < count
            invariant
                i <= count,
                count == missing(asteroid_count as nat, s.len()),
                due == due_time(now),
                timers@ == s + uniform_timers(i as nat, due),
            decreases count - i,
        {
            timers.push(SpawnTimeout { when: due });
            assert(s + uniform_timers((i + 1) as nat, due) =~= (s + uniform_timers(
                i as nat,
                due,
            )).push(SpawnTimeout { when: due }));
            i = i + 1;
        }
    } else {
        assert(s + uniform_timers(0, due_time(now)) =~= s);
    }
}

/// Replaces every timer that is due at `now` with a new asteroid on the edge
/// of the play field. Timers that are not due stay, in their order.
pub fn spawn_asteroids(
    timers: &mut Vec<SpawnTimeout>,
    asteroids: &mut Vec<Entity>,
    bounds: &Bounds,
    now: u64,
)
    requires
        bounds.wf(),
    ensures
        final(timers)@ == pending(old(timers)@, now),
        final(asteroids)@.len() == old(asteroids)@.len() + due_count(old(timers)@, now),
        final(asteroids)@.take(old(asteroids)@.len() as int) == old(asteroids)@,
        forall|k: int|
            old(asteroids)@.len() <= k < final(asteroids)@.len() ==> is_new_asteroid(
                *bounds,
                #[trigger] final(asteroids)@[k],
            ),
{
    let ghost s = old(timers)@;
    let ghost a0 = old(asteroids)@;
    let mut rest: Vec<SpawnTimeout> = Vec::new();
    std::mem::swap(timers, &mut rest);
    let n = rest.len();
    let mut i: usize = 0;
    while i < n
        invariant
            bounds.wf(),
            n == s.len(),
            i <= n,
            rest@ == s.subrange(i as int, n as int),
            timers@ == pending(s.take(i as int), now),
            asteroids@.len() == a0.len() + due_count(s.take(i as int), now),
            asteroids@.take(a0.len() as int) == a0,
            forall|k: int|
                a0.len() <= k < asteroids@.len() ==> is_new_asteroid(
                    *bounds,
                    #[trigger] asteroids@[k],
                ),
        decreases n - i,
    {
        let t = rest.remove(0);
        assert(s.take(i + 1).drop_last() =~= s.take(i as int));
        if t.when <= now {
            let a = asteroid::new(bounds);
            let ghost before = asteroids@;
            asteroids.push(a);
            assert(asteroids@.take(a0.len() as int) =~= before.take(a0.len() as int));
        } else {
            timers.push(t);
        }
        assert(rest@ =~= s.subrange(i + 1, n as int));
        i = i + 1;
    }
    assert(s.take(n as int) =~= s);
}

/// What the spawner's two passes do to the number of live asteroids and to
/// the pending timers, counted over a run of ticks.
pub struct SpawnState {
    pub asteroids: nat,
    pub timers: Seq<SpawnTimeout>,
    /// Timers scheduled so far.
    pub created: nat,
    /// Timers turned into asteroids so far.
    pub consumed: nat,
}

/// One tick of the spawner: schedule what is missing, then turn due timers
/// into asteroids.
pub open spec fn spawn_tick(st: SpawnState, now: u64) -> SpawnState {
    let t = scheduled(st.timers, st.asteroids, now);
    SpawnState {
        asteroids: st.asteroids + due_count(t, now),
        timers: pending(t, now),
        created: st.created + missing(st.asteroids, st.timers.len()),
        consumed: st.consumed + due_count(t, now),
    }
}

/// The spawner run over ticks at the given times, from `st`.
pub open spec fn spawn_run(st: SpawnState, times: Seq<u64>) -> SpawnState
    decreases times.len(),
{
    if times.len() == 0 {
        st
    } else {
        spawn_tick(spawn_run(st, times.drop_last()), times.last())
    }
}

pub open spec fn empty_field() -> SpawnState {
    SpawnState { asteroids: 0, timers: Seq::empty(), created: 0, consumed: 0 }
}

pub open spec fn waiting_state(when: u64) -> SpawnState {
    SpawnState {
        asteroids: 0,
        timers: uniform_timers(TARGET_POPULATION as nat, when),
        created: TARGET_POPULATION as nat,
        consumed: 0,
    }
}

pub open spec fn full_state() -> SpawnState {
    SpawnState {
        asteroids: TARGET_POPULATION as nat,
        timers: Seq::empty(),
        created: TARGET_POPULATION as nat,
        consumed: TARGET_POPULATION as nat,
    }
}

proof fn lemma_spawn_run_states(times: Seq<u64>, k: nat)
    requires
        times.len() >= 1,
        1 <= k <= times.len(),
        forall|i: int, j: int| 0 <= i <= j < times.len() ==> times[i] <= times[j],
        times[0] + SPAWN_INTERVAL <= u64::MAX,
    ensures
        ({
            let st = spawn_run(empty_field(), times.take(k as int));
            let w = (times[0] + SPAWN_INTERVAL) as u64;
            (st == waiting_state(w) && times[k - 1] < w) || st == full_state()
        }),
    decreases k,
{
    let w = (times[0] + SPAWN_INTERVAL) as u64;
    let five = TARGET_POPULATION as nat;
    let prefix = times.take(k as int);
    assert(prefix.drop_last() =~= times.take(k - 1));
    assert(prefix.last() == times[k - 1]);
    let now = times[k - 1];
    if k == 1 {
        assert(times.take(0) =~= Seq::<u64>::empty());
        assert(spawn_run(empty_field(), times.take(0)) == empty_field());
        assert(scheduled(Seq::empty(), 0, now) =~= uniform_timers(five, w));
        lemma_uniform_timers(five, w, now);
        assert(now < w);
        let st = spawn_tick(empty_field(), now);
        assert(st.timers == uniform_timers(five, w));
        assert(st.asteroids == 0);
        assert(st.created == five);
        assert(st.consumed == 0);
        assert(st == waiting_state(w));
    } else {
        lemma_spawn_run_states(times, (k - 1) as nat);
        let prev = spawn_run(empty_field(), times.take(k - 1));
        if prev == full_state() {
            assert(scheduled(prev.timers, prev.asteroids, now) =~= Seq::<SpawnTimeout>::empty());
        } else {
            assert(scheduled(prev.timers, prev.asteroids, now) =~= uniform_timers(five, w));
            lemma_uniform_timers(five, w, now);
        }
    }
}

/// Spawn population convergence: starting from no asteroids and no timers,
/// and ticking at non-decreasing times, live plus pending asteroids never
/// exceed the target; once a spawn interval has passed since the first tick,
/// exactly the target number of asteroids exist, after exactly that many
/// timers were scheduled and consumed.
pub proof fn lemma_spawn_population_convergence(times: Seq<u64>)
    requires
        times.len() >= 1,
        forall|i: int, j: int| 0 <= i <= j < times.len() ==> times[i] <= times[j],
        times[0] + SPAWN_INTERVAL <= u64::MAX,
    ensures
        forall|k: int|
            0 <= k <= times.len() ==> #[trigger] spawn_run(empty_field(), times.take(k)).asteroids
                + spawn_run(empty_field(), times.take(k)).timers.len() <= TARGET_POPULATION,
        times.last() >= times[0] + SPAWN_INTERVAL ==> spawn_run(empty_field(), times)
            == full_state(),
{
    assert forall|k: int| 0 <= k <= times.len() implies #[trigger] spawn_run(
        empty_field(),
        times.take(k),
    ).asteroids + spawn_run(empty_field(), times.take(k)).timers.len()
        <= TARGET_POPULATION by {
        if k == 0 {
            assert(times.take(0) =~= Seq::<u64>::empty());
        } else {
            lemma_spawn_run_states(times, k as nat);
        }
    }
    lemma_spawn_run_states(times, times.len());
    assert(times.take(times.len() as int) =~= times);
}

} // verus!
