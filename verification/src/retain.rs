//! Taking items out of a list.

use vstd::prelude::*;

verus! {

/// Takes the items that a test singles out from a list, and returns them; both lists keep the
/// order.
pub(crate) fn drain_where<T, F: Fn(&T) -> bool>(
    items: &mut Vec<T>,
    test: F,
    Ghost(out): Ghost<spec_fn(T) -> bool>,
) -> (taken: Vec<T>)
    requires
        forall|i: int|
            0 <= i < old(items).len() ==> call_requires(test, (&#[trigger] old(items)@[i],)),
        forall|i: int, r: bool|
            0 <= i < old(items).len() && #[trigger] call_ensures(test, (&old(items)@[i],), r) ==> r
                == out(old(items)@[i]),
    ensures
        final(items)@ == old(items)@.filter(|item: T| !out(item)),
        taken@ == old(items)@.filter(out),
{
    let ghost all = items@;
    let ghost stay = |item: T| !out(item);
    let mut taken: Vec<T> = Vec::new();
    let n: usize = items.len();
    let mut kept: usize = 0;
    let mut seen: usize = 0;
    proof {
        assert(all.take(0) =~= Seq::empty());
        assert(all.skip(0) =~= all);
        reveal(Seq::filter);
        assert(Seq::<T>::empty().filter(stay) =~= Seq::empty());
        assert(Seq::<T>::empty().filter(out) =~= Seq::empty());
        assert(items@ =~= all.take(0).filter(stay) + all.skip(0));
        assert(taken@ =~= all.take(0).filter(out));
    }
    while seen < n
        invariant
            n == all.len(),
            seen <= n,
            stay == (|item: T| !out(item)),
            forall|i: int| 0 <= i < n ==> call_requires(test, (&#[trigger] all[i],)),
            forall|i: int, r: bool|
                0 <= i < n && #[trigger] call_ensures(test, (&all[i],), r) ==> r == out(all[i]),
            items@ == all.take(seen as int).filter(stay) + all.skip(seen as int),
            kept == all.take(seen as int).filter(stay).len(),
            taken@ == all.take(seen as int).filter(out),
        decreases n - seen,
    {
        proof {
            let next = all.take(seen + 1);
            assert(next.drop_last() =~= all.take(seen as int));
            assert(next.last() == all[seen as int]);
            reveal(Seq::filter);
            assert(items@[kept as int] == all[seen as int]);
        }
        if test(&items[kept]) {
            let item = items.remove(kept);
            taken.push(item);
        } else {
            kept = kept + 1;
        }
        seen = seen + 1;
        proof {
            assert(items@ =~= all.take(seen as int).filter(stay) + all.skip(seen as int));
            assert(taken@ =~= all.take(seen as int).filter(out));
        }
    }
    proof {
        assert(all.take(n as int) =~= all);
        assert(all.skip(n as int) =~= Seq::empty());
        assert(items@ =~= all.filter(stay));
    }
    taken
}

} // verus!
