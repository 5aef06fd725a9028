use vstd::prelude::*;

use crate::component::{Entity, Timeout};

verus! {

/// An entity expires once the clock has reached its expiry time. Entities
/// without one never expire.
pub open spec fn expired(e: Entity, now: u64) -> bool {
    match e.timeout {
        Some(Timeout::Expire { when }) => now >= when,
        None => false,
    }
}

/// The entities that have not expired at `now`, in their order.
pub open spec fn unexpired(es: Seq<Entity>, now: u64) -> Seq<Entity>
    decreases es.len(),
{
    if es.len() == 0 {
        Seq::empty()
    } else {
        let rest = unexpired(es.drop_last(), now);
        if expired(es.last(), now) {
            rest
        } else {
            rest.push(es.last())
        }
    }
}

/// Expiry: an entity due at `when` is kept by every sweep before `when` and
/// removed by the first sweep at or after it.
pub proof fn lemma_expiry(e: Entity, when: u64, now: u64)
    requires
        e.timeout == Some(Timeout::Expire { when }),
    ensures
        now < when ==> unexpired(seq![e], now) == seq![e],
        now >= when ==> unexpired(seq![e], now) == Seq::<Entity>::empty(),
{
    let single = seq![e];
    assert(single.drop_last() =~= Seq::<Entity>::empty());
    assert(single.last() == e);
    assert(unexpired(single.drop_last(), now) == Seq::<Entity>::empty());
    assert(Seq::<Entity>::empty().push(e) =~= single);
}

/// Every entity kept by the sweep was there before.
pub proof fn lemma_unexpired_from(es: Seq<Entity>, now: u64)
    ensures
        forall|k: int|
            0 <= k < unexpired(es, now).len() ==> exists|i: int|
                0 <= i < es.len() && es[i] == #[trigger] unexpired(es, now)[k],
    decreases es.len(),
{
    if es.len() > 0 {
        lemma_unexpired_from(es.drop_last(), now);
        let rest = unexpired(es.drop_last(), now);
        assert forall|k: int| 0 <= k < unexpired(es, now).len() implies exists|i: int|
            0 <= i < es.len() && es[i] == #[trigger] unexpired(es, now)[k] by {
            if k < rest.len() {
                let i = choose|i: int| 0 <= i < es.drop_last().len() && es.drop_last()[i] == rest[k];
                assert(es[i] == unexpired(es, now)[k]);
            } else {
                assert(es[es.len() - 1] == unexpired(es, now)[k]);
            }
        }
    }
}

/// Removes every entity that has expired at `now`, keeping the order of the
/// others.
pub fn timeout(entities: &mut Vec<Entity>, now: u64)
    ensures
        final(entities)@ == unexpired(old(entities)@, now),
{
    let ghost s = old(entities)@;
    let mut rest: Vec<Entity> = Vec::new();
    std::mem::swap(entities, &mut rest);
    let n = rest.len();
    let mut i: usize = 0;
    while i < n
        invariant
            n == s.len(),
            i <= n,
            rest@ == s.subrange(i as int, n as int),
            entities@ == unexpired(s.take(i as int), now),
        decreases n - i,
    {
        let e = rest.remove(0);
        assert(s.take(i + 1).drop_last() =~= s.take(i as int));
        let keep = match e.timeout {
            Some(Timeout::Expire { when }) => now < when,
            None => true,
        };
        if keep {
            entities.push(e);
        }
        assert(rest@ =~= s.subrange(i + 1, n as int));
        i = i + 1;
    }
    assert(s.take(n as int) =~= s);
}

} // verus!
