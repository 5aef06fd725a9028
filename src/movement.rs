use vstd::prelude::*;

use crate::bounds::{Bound, Bounds};
use crate::component::{Entity, Spatial, WrapAround};

verus! {

/// Horizontal position after moving for `dt` milliseconds, before the
/// boundary policy applies.
pub open spec fn advanced_x(s: Spatial, dt: u32) -> int {
    s.x + s.dx * dt
}

/// Vertical position after moving for `dt` milliseconds, before the boundary
/// policy applies.
pub open spec fn advanced_y(s: Spatial, dt: u32) -> int {
    s.y + s.dy * dt
}

/// An entity stays in play unless it is to be destroyed at the boundary and
/// ends up outside the outer rectangle.
pub open spec fn survives(s: Spatial, dt: u32, outer: Bound) -> bool {
    s.wrap is Wrap || outer.contains_spec(advanced_x(s, dt), advanced_y(s, dt))
}

pub open spec fn settled_x(s: Spatial, dt: u32, outer: Bound) -> int {
    if s.wrap is Wrap {
        outer.wrap_x_spec(advanced_x(s, dt))
    } else {
        advanced_x(s, dt)
    }
}

pub open spec fn settled_y(s: Spatial, dt: u32, outer: Bound) -> int {
    if s.wrap is Wrap {
        outer.wrap_y_spec(advanced_y(s, dt))
    } else {
        advanced_y(s, dt)
    }
}

/// The spatial state after one step: only the position changes.
pub open spec fn moved(s: Spatial, dt: u32, outer: Bound) -> Spatial {
    Spatial { x: settled_x(s, dt, outer) as i32, y: settled_y(s, dt, outer) as i32, ..s }
}

/// The single-step wrap suffices: an entity that wraps starts inside the
/// outer rectangle (edges included) and moves at most one width and one
/// height in the step.
pub open spec fn within_reach(s: Spatial, dt: u32, outer: Bound) -> bool {
    s.wrap is Wrap ==> {
        &&& outer.p0.x <= s.x <= outer.p1.x
        &&& outer.p0.y <= s.y <= outer.p1.y
        &&& -outer.width <= s.dx * dt <= outer.width
        &&& -outer.height <= s.dy * dt <= outer.height
    }
}

pub open spec fn all_within_reach(es: Seq<Entity>, dt: u32, outer: Bound) -> bool {
    forall|i: int| 0 <= i < es.len() ==> within_reach(#[trigger] es[i].spatial, dt, outer)
}

/// The entities that survive the step, each moved, in their order.
pub open spec fn moved_entities(es: Seq<Entity>, dt: u32, outer: Bound) -> Seq<Entity>
    decreases es.len(),
{
    if es.len() == 0 {
        Seq::empty()
    } else {
        let rest = moved_entities(es.drop_last(), dt, outer);
        let e = es.last();
        if survives(e.spatial, dt, outer) {
            rest.push(Entity { spatial: moved(e.spatial, dt, outer), ..e })
        } else {
            rest
        }
    }
}

/// After the step, an entity that wrapped lies inside the outer rectangle,
/// edges included.
pub proof fn lemma_wrap_stays_in_field(s: Spatial, dt: u32, outer: Bound)
    requires
        outer.wf(),
        s.wrap is Wrap,
        within_reach(s, dt, outer),
    ensures
        outer.p0.x <= settled_x(s, dt, outer) <= outer.p1.x,
        outer.p0.y <= settled_y(s, dt, outer) <= outer.p1.y,
{
}

/// Wrap invariant: a coordinate that overshot the outer rectangle by no more
/// than its width (height) comes back inside it, the far edge excluded. The
/// far edge itself is the one value that is not moved.
pub proof fn lemma_wrap_invariant(s: Spatial, dt: u32, outer: Bound)
    requires
        outer.wf(),
        s.wrap is Wrap,
        outer.p0.x - outer.width <= advanced_x(s, dt) < outer.p1.x + outer.width,
        outer.p0.y - outer.height <= advanced_y(s, dt) < outer.p1.y + outer.height,
        advanced_x(s, dt) != outer.p1.x,
        advanced_y(s, dt) != outer.p1.y,
    ensures
        outer.p0.x <= settled_x(s, dt, outer) < outer.p1.x,
        outer.p0.y <= settled_y(s, dt, outer) < outer.p1.y,
{
}

/// Destroy invariant: after the step, every entity that is destroyed at the
/// boundary lies inside the outer rectangle; the others were removed.
pub proof fn lemma_destroy_invariant(es: Seq<Entity>, dt: u32, outer: Bound)
    ensures
        forall|k: int|
            0 <= k < moved_entities(es, dt, outer).len() && (#[trigger] moved_entities(
                es,
                dt,
                outer,
            )[k]).spatial.wrap is Destroy ==> outer.contains_spec(
                moved_entities(es, dt, outer)[k].spatial.x as int,
                moved_entities(es, dt, outer)[k].spatial.y as int,
            ),
    decreases es.len(),
{
    if es.len() > 0 {
        lemma_destroy_invariant(es.drop_last(), dt, outer);
        let e = es.last();
        if survives(e.spatial, dt, outer) && e.spatial.wrap is Destroy {
            assert(outer.p0.x <= advanced_x(e.spatial, dt) < outer.p1.x);
            assert(outer.p0.y <= advanced_y(e.spatial, dt) < outer.p1.y);
        }
    }
}

/// Every entity left after the step is an entity of before, moved.
pub proof fn lemma_moved_entities_from(es: Seq<Entity>, dt: u32, outer: Bound)
    ensures
        forall|k: int|
            0 <= k < moved_entities(es, dt, outer).len() ==> exists|i: int|
                0 <= i < es.len() && survives(es[i].spatial, dt, outer) && (Entity {
                    spatial: moved(es[i].spatial, dt, outer),
                    ..es[i]
                }) == #[trigger] moved_entities(es, dt, outer)[k],
    decreases es.len(),
{
    if es.len() > 0 {
        lemma_moved_entities_from(es.drop_last(), dt, outer);
        let rest = moved_entities(es.drop_last(), dt, outer);
        let r = moved_entities(es, dt, outer);
        assert forall|k: int| 0 <= k < r.len() implies exists|i: int|
            0 <= i < es.len() && survives(es[i].spatial, dt, outer) && (Entity {
                spatial: moved(es[i].spatial, dt, outer),
                ..es[i]
            }) == #[trigger] r[k] by {
            if k < rest.len() {
                let d = es.drop_last();
                let i = choose|i: int|
                    0 <= i < d.len() && survives(d[i].spatial, dt, outer) && (Entity {
                        spatial: moved(d[i].spatial, dt, outer),
                        ..d[i]
                    }) == rest[k];
                assert(es[i] == d[i]);
            } else {
                assert(r[k] == (Entity {
                    spatial: moved(es[es.len() - 1].spatial, dt, outer),
                    ..es[es.len() - 1]
                }));
            }
        }
    }
}

fn advance(p: i32, v: i32, dt: u32) -> (r: i64)
    ensures
        r == p + v * dt,
{
    assert(-0x8000_0000 * 0xffff_ffff <= v * dt <= 0x7fff_ffff * 0xffff_ffff) by (nonlinear_arith)
        requires
            -0x8000_0000 <= v <= 0x7fff_ffff,
            0 <= dt <= 0xffff_ffff,
    ;
    p as i64 + (v as i64) * (dt as i64)
}

/// Moves one entity's spatial state by `dt` milliseconds and applies its
/// boundary policy. Returns `None` when the entity is to be removed.
pub fn integrate(s: &Spatial, dt: u32, outer: &Bound) -> (r: Option<Spatial>)
    requires
        outer.wf(),
        within_reach(*s, dt, *outer),
    ensures
        survives(*s, dt, *outer) ==> r == Some(moved(*s, dt, *outer)),
        !survives(*s, dt, *outer) ==> r is None,
        survives(*s, dt, *outer) ==> i32::MIN <= settled_x(*s, dt, *outer) <= i32::MAX,
        survives(*s, dt, *outer) ==> i32::MIN <= settled_y(*s, dt, *outer) <= i32::MAX,
{
    let x = advance(s.x, s.dx, dt);
    let y = advance(s.y, s.dy, dt);
    match s.wrap {
        WrapAround::Destroy => {
            if outer.contains(x, y) {
                Some(Spatial { x: x as i32, y: y as i32, ..*s })
            } else {
                None
            }
        },
        WrapAround::Wrap => {
            let wx = outer.wrap_x(x);
            let wy = outer.wrap_y(y);
            proof {
                lemma_wrap_stays_in_field(*s, dt, *outer);
            }
            Some(Spatial { x: wx as i32, y: wy as i32, ..*s })
        },
    }
}

/// Advances every entity by `dt` milliseconds. Entities that wrap re-enter
/// from the opposite edge; entities that are destroyed at the boundary and
/// leave the outer rectangle are removed.
pub fn movement(entities: &mut Vec<Entity>, dt: u32, bounds: &Bounds)
    requires
        bounds.wf(),
        all_within_reach(old(entities)@, dt, bounds.outer),
    ensures
        final(entities)@ == moved_entities(old(entities)@, dt, bounds.outer),
        forall|k: int|
            0 <= k < final(entities)@.len() && (#[trigger] final(entities)@[k]).spatial.wrap is Destroy
                ==> bounds.outer.contains_spec(
                final(entities)@[k].spatial.x as int,
                final(entities)@[k].spatial.y as int,
            ),
{
    let ghost s = old(entities)@;
    let outer = &bounds.outer;
    let mut rest: Vec<Entity> = Vec::new();
    std::mem::swap(entities, &mut rest);
    let n = rest.len();
    let mut i: usize = 0;
    while i < n
        invariant
            n == s.len(),
            i <= n,
            outer.wf(),
            *outer == bounds.outer,
            all_within_reach(s, dt, *outer),
            rest@ == s.subrange(i as int, n as int),
            entities@ == moved_entities(s.take(i as int), dt, *outer),
        decreases n - i,
    {
        let e = rest.remove(0);
        assert(s.take(i + 1).drop_last() =~= s.take(i as int));
        assert(within_reach(s[i as int].spatial, dt, *outer));
        match integrate(&e.spatial, dt, outer) {
            Some(spatial) => {
                entities.push(Entity { spatial, ..e });
            },
            None => {},
        }
        assert(rest@ =~= s.subrange(i + 1, n as int));
        i = i + 1;
    }
    assert(s.take(n as int) =~= s);
    proof {
        lemma_destroy_invariant(s, dt, *outer);
    }
}

} // verus!
