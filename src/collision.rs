use std::collections::HashSet;
use vstd::prelude::*;

use crate::component::{Entity, HitMask, Position};

verus! {

broadcast use vstd::std_specs::hash::group_hash_axioms;

/// What the collision test sees of an entity.
#[derive(Clone, Copy, Debug, PartialEq, Eq, Structural)]
pub struct Collidable {
    pub position: Position,
    pub hitmask: HitMask,
}

/// Anything that can be tested for collisions.
pub trait IntoCollidable {
    spec fn collider(&self) -> Collidable;

    fn into_collidable(&self) -> (c: Collidable)
        ensures
            c == self.collider(),
    ;
}

impl IntoCollidable for Collidable {
    open spec fn collider(&self) -> Collidable {
        *self
    }

    fn into_collidable(&self) -> (c: Collidable) {
        *self
    }
}

impl IntoCollidable for Entity {
    open spec fn collider(&self) -> Collidable {
        Collidable {
            position: Position { x: self.spatial.x, y: self.spatial.y },
            hitmask: self.hitmask,
        }
    }

    fn into_collidable(&self) -> (c: Collidable) {
        Collidable {
            position: Position { x: self.spatial.x, y: self.spatial.y },
            hitmask: self.hitmask,
        }
    }
}

/// Squared Euclidean distance between two positions.
pub open spec fn distance_squared(a: Position, b: Position) -> int {
    (a.x - b.x) * (a.x - b.x) + (a.y - b.y) * (a.y - b.y)
}

/// The shape pairs the game tests: a circle against a point, either way round.
pub open spec fn compatible(a: HitMask, b: HitMask) -> bool {
    (a is Circle && b is Point) || (a is Point && b is Circle)
}

/// A point collides with a circle when it lies inside the circle or on its
/// edge.
pub open spec fn collides(a: Collidable, b: Collidable) -> bool {
    match (a.hitmask, b.hitmask) {
        (HitMask::Circle { radius }, HitMask::Point) => distance_squared(a.position, b.position)
            <= radius * radius,
        (HitMask::Point, HitMask::Circle { radius }) => distance_squared(a.position, b.position)
            <= radius * radius,
        _ => false,
    }
}

fn square(d: i64) -> (r: i128)
    requires
        -0x1_0000_0000 <= d <= 0x1_0000_0000,
    ensures
        r == d * d,
        0 <= r <= 0x1_0000_0000_0000_0000,
{
    assert(0 <= d * d <= 0x1_0000_0000_0000_0000) by (nonlinear_arith)
        requires
            -0x1_0000_0000 <= d <= 0x1_0000_0000,
    ;
    (d as i128) * (d as i128)
}

fn distance_squared_exec(a: &Position, b: &Position) -> (r: i128)
    ensures
        r == distance_squared(*a, *b),
{
    let ddx = a.x as i64 - b.x as i64;
    let ddy = a.y as i64 - b.y as i64;
    square(ddx) + square(ddy)
}

impl Collidable {
    /// Tests this shape against `c`. Only a circle and a point can be tested.
    pub fn is_collision(&self, c: &Collidable) -> (r: bool)
        requires
            compatible(self.hitmask, c.hitmask),
        ensures
            r == collides(*self, *c),
    {
        let d2 = distance_squared_exec(&self.position, &c.position);
        match (self.hitmask, c.hitmask) {
            (HitMask::Circle { radius }, HitMask::Point) => d2 <= square(radius as i64),
            (HitMask::Point, HitMask::Circle { radius }) => d2 <= square(radius as i64),
            _ => false,
        }
    }
}

/// The collision test does not depend on the order of its arguments: a
/// circle hits a point exactly when the point hits the circle.
pub proof fn lemma_collision_symmetry(circle: Collidable, point: Collidable)
    requires
        circle.hitmask is Circle,
        point.hitmask is Point,
    ensures
        collides(circle, point) == collides(point, circle),
{
    let (a, b) = (circle.position, point.position);
    assert((a.x - b.x) * (a.x - b.x) == (b.x - a.x) * (b.x - a.x)) by (nonlinear_arith);
    assert((a.y - b.y) * (a.y - b.y) == (b.y - a.y) * (b.y - a.y)) by (nonlinear_arith);
}

/// The edge of a circle belongs to it: a point at exactly the radius from the
/// centre collides, and a point any farther away does not.
pub proof fn lemma_collision_boundary(circle: Collidable, point: Collidable)
    requires
        circle.hitmask is Circle,
        point.hitmask is Point,
    ensures
        distance_squared(circle.position, point.position) == circle.hitmask->radius
            * circle.hitmask->radius ==> collides(circle, point),
        distance_squared(circle.position, point.position) > circle.hitmask->radius
            * circle.hitmask->radius ==> !collides(circle, point),
{
}

/// Whether slot `i` of `l` and slot `j` of `r` are in collision.
pub open spec fn hit<T: IntoCollidable, U: IntoCollidable>(
    l: Seq<T>,
    r: Seq<U>,
    i: int,
    j: int,
) -> bool {
    &&& 0 <= i < l.len()
    &&& 0 <= j < r.len()
    &&& collides(l[i].collider(), r[j].collider())
}

/// Every cross pair of the two groups is a circle against a point.
pub open spec fn all_compatible<T: IntoCollidable, U: IntoCollidable>(
    l: Seq<T>,
    r: Seq<U>,
) -> bool {
    forall|i: int, j: int|
        0 <= i < l.len() && 0 <= j < r.len() ==> #[trigger] compatible(
            l[i].collider().hitmask,
            #[trigger] r[j].collider().hitmask,
        )
}

/// Slots of `l` that collide with at least one entity of `r`.
pub open spec fn hit_slots_left<T: IntoCollidable, U: IntoCollidable>(
    l: Seq<T>,
    r: Seq<U>,
) -> Set<usize> {
    Set::new(|i: usize| exists|j: int| hit(l, r, i as int, j))
}

/// Slots of `r` that collide with at least one entity of `l`.
pub open spec fn hit_slots_right<T: IntoCollidable, U: IntoCollidable>(
    l: Seq<T>,
    r: Seq<U>,
) -> Set<usize> {
    Set::new(|j: usize| exists|i: int| hit(l, r, i, j as int))
}

/// The elements of `s` whose slots are not in `marks`, in their order.
pub open spec fn without_slots<T>(s: Seq<T>, marks: Set<usize>) -> Seq<T>
    decreases s.len(),
{
    if s.len() == 0 {
        Seq::empty()
    } else {
        let rest = without_slots(s.drop_last(), marks);
        if marks.contains((s.len() - 1) as usize) {
            rest
        } else {
            rest.push(s.last())
        }
    }
}

/// Removing slots never lengthens a sequence.
pub proof fn lemma_without_slots_len<T>(s: Seq<T>, marks: Set<usize>)
    ensures
        without_slots(s, marks).len() <= s.len(),
    decreases s.len(),
{
    if s.len() > 0 {
        lemma_without_slots_len(s.drop_last(), marks);
    }
}

/// How many of the slots below `n` are marked.
pub open spec fn marked_count(n: nat, marks: Set<usize>) -> nat
    decreases n,
{
    if n == 0 {
        0
    } else {
        marked_count((n - 1) as nat, marks) + if marks.contains((n - 1) as usize) {
            1nat
        } else {
            0nat
        }
    }
}

/// Removal is by slot, whatever the values: exactly the marked slots go, and
/// the element of each unmarked slot `i` stays, moved down by the number of
/// marked slots before it.
pub proof fn lemma_removal_by_slot<T>(s: Seq<T>, marks: Set<usize>)
    ensures
        without_slots(s, marks).len() == s.len() - marked_count(s.len(), marks),
        forall|i: int|
            0 <= i < s.len() && !marks.contains(i as usize) ==> without_slots(s, marks)[i
                - marked_count(i as nat, marks)] == s[i],
    decreases s.len(),
{
    if s.len() > 0 {
        let d = s.drop_last();
        lemma_removal_by_slot(d, marks);
        let rest = without_slots(d, marks);
        let n = (s.len() - 1) as nat;
        let r = without_slots(s, marks);
        if marks.contains(n as usize) {
            assert(r == rest);
        } else {
            assert(r == rest.push(s.last()));
        }
        assert forall|i: int| 0 <= i < s.len() && !marks.contains(i as usize) implies r[i
            - marked_count(i as nat, marks)] == s[i] by {
            lemma_marked_count_growth(i as nat, n, marks);
            if i < n {
                lemma_marked_count_growth((i + 1) as nat, n, marks);
                lemma_marked_count_growth(0, i as nat, marks);
                assert(marked_count((i + 1) as nat, marks) == marked_count(i as nat, marks));
                assert(rest.len() == n - marked_count(n, marks));
                assert(d[i] == s[i]);
                let j = i - marked_count(i as nat, marks);
                assert(0 <= j < rest.len());
                assert(rest[j] == s[i]);
                assert(r[j] == rest[j]);
            } else {
                assert(i - marked_count(i as nat, marks) == rest.len());
            }
        }
    }
}

proof fn lemma_marked_count_growth(i: nat, n: nat, marks: Set<usize>)
    requires
        i <= n,
    ensures
        marked_count(i, marks) <= marked_count(n, marks) <= marked_count(i, marks) + (n - i),
    decreases n,
{
    if n > i {
        lemma_marked_count_growth(i, (n - 1) as nat, marks);
    }
}

/// Every element left after removing slots was an element before.
pub proof fn lemma_without_slots_from<T>(s: Seq<T>, marks: Set<usize>)
    ensures
        forall|k: int|
            0 <= k < without_slots(s, marks).len() ==> exists|i: int|
                0 <= i < s.len() && s[i] == #[trigger] without_slots(s, marks)[k],
    decreases s.len(),
{
    if s.len() > 0 {
        lemma_without_slots_from(s.drop_last(), marks);
        let rest = without_slots(s.drop_last(), marks);
        assert forall|k: int| 0 <= k < without_slots(s, marks).len() implies exists|i: int|
            0 <= i < s.len() && s[i] == #[trigger] without_slots(s, marks)[k] by {
            if k < rest.len() {
                let i = choose|i: int| 0 <= i < s.drop_last().len() && s.drop_last()[i] == rest[k];
                assert(s[i] == without_slots(s, marks)[k]);
            } else {
                assert(s[s.len() - 1] == without_slots(s, marks)[k]);
            }
        }
    }
}

/// Identifies colliding entities by their slots.
///
/// The first set holds slots of `left_source`, the second slots of
/// `right_source`.
pub fn collisions<T: IntoCollidable, U: IntoCollidable>(
    left_source: &Vec<T>,
    right_source: &Vec<U>,
) -> (r: (HashSet<usize>, HashSet<usize>))
    requires
        all_compatible(left_source@, right_source@),
    ensures
        r.0@ == hit_slots_left(left_source@, right_source@),
        r.1@ == hit_slots_right(left_source@, right_source@),
{
    let ghost l = left_source@;
    let ghost rs = right_source@;
    let mut left_hits: HashSet<usize> = HashSet::new();
    let mut right_hits: HashSet<usize> = HashSet::new();
    let n = left_source.len();
    let m = right_source.len();
    let mut i: usize = 0;
    while i < n
        invariant
            l == left_source@,
            rs == right_source@,
            n == l.len(),
            m == rs.len(),
            i <= n,
            all_compatible(l, rs),
            left_hits@ == Set::new(|a: usize| a < i && exists|j: int| hit(l, rs, a as int, j)),
            right_hits@ == Set::new(|b: usize| exists|a: int| a < i && hit(l, rs, a, b as int)),
        decreases n - i,
    {
        let left_c = left_source[i].into_collidable();
        let mut j: usize = 0;
        while j < m
            invariant
                l == left_source@,
                rs == right_source@,
                n == l.len(),
                m == rs.len(),
                i < n,
                j <= m,
                all_compatible(l, rs),
                left_c == l[i as int].collider(),
                left_hits@ == Set::new(
                    |a: usize|
                        (a < i && exists|jj: int| hit(l, rs, a as int, jj)) || (a == i && exists|
                            jj: int,
                        |
                            jj < j && hit(l, rs, i as int, jj)),
                ),
                right_hits@ == Set::new(
                    |b: usize|
                        (exists|a: int| a < i && hit(l, rs, a, b as int)) || (b < j && hit(
                            l,
                            rs,
                            i as int,
                            b as int,
                        )),
                ),
            decreases m - j,
        {
            let right_c = right_source[j].into_collidable();
            assert(compatible(l[i as int].collider().hitmask, rs[j as int].collider().hitmask));
            if left_c.is_collision(&right_c) {
                left_hits.insert(i);
                right_hits.insert(j);
            }
            let ghost hits_now = collides(left_c, right_c);
            assert(left_hits@ =~= Set::new(
                |a: usize|
                    (a < i && exists|jj: int| hit(l, rs, a as int, jj)) || (a == i && exists|
                        jj: int,
                    |
                        jj < j + 1 && hit(l, rs, i as int, jj)),
            )) by {
                if hits_now {
                    assert(hit(l, rs, i as int, j as int));
                }
            }
            assert(right_hits@ =~= Set::new(
                |b: usize|
                    (exists|a: int| a < i && hit(l, rs, a, b as int)) || (b < j + 1 && hit(
                        l,
                        rs,
                        i as int,
                        b as int,
                    )),
            ));
            j = j + 1;
        }
        assert(left_hits@ =~= Set::new(
            |a: usize| a < i + 1 && exists|j: int| hit(l, rs, a as int, j),
        ));
        assert(right_hits@ =~= Set::new(
            |b: usize| exists|a: int| a < i + 1 && hit(l, rs, a, b as int),
        ));
        i = i + 1;
    }
    assert(left_hits@ =~= hit_slots_left(l, rs));
    assert(right_hits@ =~= hit_slots_right(l, rs));
    (left_hits, right_hits)
}

/// Removes from `from` every element whose slot is in `indices`, keeping the
/// order of the others. Elements are told apart by slot, never by value.
pub fn remove_all<T>(from: &mut Vec<T>, indices: &HashSet<usize>)
    ensures
        final(from)@ == without_slots(old(from)@, indices@),
{
    let ghost s = old(from)@;
    let mut rest: Vec<T> = Vec::new();
    std::mem::swap(from, &mut rest);
    let n = rest.len();
    let mut i: usize = 0;
    while i < n
        invariant
            n == s.len(),
            i <= n,
            rest@ == s.subrange(i as int, n as int),
            from@ == without_slots(s.take(i as int), indices@),
        decreases n - i,
    {
        let item = rest.remove(0);
        assert(s.take(i + 1).drop_last() =~= s.take(i as int));
        if !indices.contains(&i) {
            from.push(item);
        }
        assert(rest@ =~= s.subrange(i + 1, n as int));
        i = i + 1;
    }
    assert(s.take(n as int) =~= s);
}

/// For each vector, removes the entities that collide with entities of the
/// other vector, and returns how many were removed from each.
///
/// Entities that collide with entities of their own vector are ignored.
pub fn remove_collisions<T: IntoCollidable, U: IntoCollidable>(
    a: &mut Vec<T>,
    b: &mut Vec<U>,
) -> (r: (usize, usize))
    requires
        all_compatible(old(a)@, old(b)@),
    ensures
        final(a)@ == without_slots(old(a)@, hit_slots_left(old(a)@, old(b)@)),
        final(b)@ == without_slots(old(b)@, hit_slots_right(old(a)@, old(b)@)),
        r.0 == old(a)@.len() - final(a)@.len(),
        r.1 == old(b)@.len() - final(b)@.len(),
{
    let (collided_a, collided_b) = collisions(a, b);
    let before_a = a.len();
    let before_b = b.len();
    remove_all(a, &collided_a);
    remove_all(b, &collided_b);
    proof {
        lemma_without_slots_len(old(a)@, collided_a@);
        lemma_without_slots_len(old(b)@, collided_b@);
    }
    (before_a - a.len(), before_b - b.len())
}

} // verus!
