//! What holds of the registry of primaries over several calls.

use super::manager::{
    is_registered, live, no_longer_followed, reached, reached_both, registered, still_followed,
    taken_in, timeline_under, timelines_of, Primary, SignalsHandler, SubtimelinePrimaryManager,
};
use super::replica::Replica;
use vstd::prelude::*;

verus! {

/// A registered timeline is found under its ID, and the other IDs stand for what they stood for.
pub proof fn law_registered_timeline_is_found(
    before: SubtimelinePrimaryManager,
    after: SubtimelinePrimaryManager,
    id: Seq<char>,
    timeline: u64,
)
    requires
        registered(before, after, id, timeline),
    ensures
        timeline_under(after, id) == Some(timeline),
        is_registered(after, timeline),
        forall|other: Seq<char>|
            other != id ==> #[trigger] timeline_under(after, other) == timeline_under(
                before,
                other,
            ),
{
    assert(after.primaries@.dom().contains(id));
}

/// Unregistering undoes registering: the registry is what it was, and the ID is free again.
pub proof fn law_unregistering_undoes_registering(
    before: SubtimelinePrimaryManager,
    between: SubtimelinePrimaryManager,
    after: SubtimelinePrimaryManager,
    id: Seq<char>,
    timeline: u64,
)
    requires
        !before.primaries@.dom().contains(id),
        registered(before, between, id, timeline),
        after.primaries@ == between.primaries@.remove(id),
    ensures
        after.primaries@ == before.primaries@,
        timeline_under(after, id) is None,
{
    assert(after.primaries@ =~= before.primaries@);
}

/// Whether the replicas of a primary have different numbers, and the next one will have another.
pub open spec fn numbered(primary: Primary) -> bool {
    &&& forall|i: int|
        0 <= i < primary.replicas@.len() ==> (#[trigger] primary.replicas@[i]).id
            < primary.n_replicas
    &&& forall|i: int, j: int|
        0 <= i < j < primary.replicas@.len() ==> (#[trigger] primary.replicas@[i]).id != (
        #[trigger] primary.replicas@[j]).id
}

/// `place` tells where the items of `few` stand in `many`, in the same order.
spec fn is_part(many: Seq<Replica>, few: Seq<Replica>, place: spec_fn(int) -> int) -> bool {
    &&& forall|k: int|
        0 <= k < few.len() ==> 0 <= #[trigger] place(k) < many.len() && few[k] == many[place(k)]
    &&& forall|a: int, b: int| 0 <= a < b < few.len() ==> #[trigger] place(a) < #[trigger] place(b)
}

proof fn lemma_live_is_part(replicas: Seq<Replica>, gone: Seq<u64>)
    ensures
        exists|place: spec_fn(int) -> int| is_part(replicas, live(replicas, gone), place),
    decreases replicas.len(),
{
    reveal(Seq::filter);
    if replicas.len() == 0 {
        assert(is_part(replicas, live(replicas, gone), |k: int| k));
    } else {
        let shorter = replicas.drop_last();
        lemma_live_is_part(shorter, gone);
        let place = choose|place: spec_fn(int) -> int| is_part(shorter, live(shorter, gone), place);
        let n = live(shorter, gone).len() as int;
        let longer = |k: int|
            if k < n {
                place(k)
            } else {
                replicas.len() - 1
            };
        assert(is_part(replicas, live(replicas, gone), longer));
    }
}

/// Forgetting replicas whose timelines are gone keeps the numbers of the others apart, and a
/// primary without replicas has them apart.
pub proof fn law_forgetting_keeps_numbers_apart(before: Primary, after: Primary, gone: Seq<u64>)
    requires
        before.replicas@.len() == 0 || numbered(before),
        after.replicas@ == live(before.replicas@, gone),
        after.n_replicas == before.n_replicas,
    ensures
        numbered(after),
{
    let all = before.replicas@;
    lemma_live_is_part(all, gone);
    let place = choose|place: spec_fn(int) -> int| is_part(all, live(all, gone), place);
    assert forall|i: int| 0 <= i < after.replicas@.len() implies (
    #[trigger] after.replicas@[i]).id < after.n_replicas by {
        assert(after.replicas@[i] == all[place(i)]);
    }
    assert forall|i: int, j: int| 0 <= i < j < after.replicas@.len() implies (
    #[trigger] after.replicas@[i]).id != (#[trigger] after.replicas@[j]).id by {
        assert(place(i) < place(j));
        assert(after.replicas@[i] == all[place(i)]);
        assert(after.replicas@[j] == all[place(j)]);
    }
}

/// No two replicas of a primary have the same number: one that is taken in under the next number
/// differs from all others, though earlier ones may have been forgotten.
pub proof fn law_replicas_have_different_numbers(
    before: Primary,
    after: Primary,
    replica: Replica,
    gone: Seq<u64>,
)
    requires
        numbered(before),
        replica.id == before.n_replicas,
        taken_in(before, after, replica, gone),
    ensures
        numbered(after),
{
    let more = before.replicas@.push(replica);
    lemma_live_is_part(more, gone);
    let place = choose|place: spec_fn(int) -> int| is_part(more, live(more, gone), place);
    assert forall|i: int| 0 <= i < after.replicas@.len() implies (
    #[trigger] after.replicas@[i]).id < after.n_replicas by {
        assert(after.replicas@[i] == more[place(i)]);
    }
    assert forall|i: int, j: int| 0 <= i < j < after.replicas@.len() implies (
    #[trigger] after.replicas@[i]).id != (#[trigger] after.replicas@[j]).id by {
        assert(place(i) < place(j));
        assert(after.replicas@[i] == more[place(i)]);
        assert(after.replicas@[j] == more[place(j)]);
        assert(more[place(i)] == before.replicas@[place(i)]);
    }
}

/// The replicas that are left are those whose timelines are not gone, all of them and no others.
pub proof fn law_only_gone_replicas_are_forgotten(
    replicas: Seq<Replica>,
    gone: Seq<u64>,
    replica: Replica,
)
    ensures
        live(replicas, gone).contains(replica) <==> replicas.contains(replica) && !gone.contains(
            replica.timeline,
        ),
        live(replicas, gone).len() <= replicas.len(),
        (forall|i: int|
            0 <= i < replicas.len() ==> !gone.contains((#[trigger] replicas[i]).timeline)) ==> live(
            replicas,
            gone,
        ) == replicas,
    decreases replicas.len(),
{
    reveal(Seq::filter);
    if replicas.len() > 0 {
        let rest = replicas.drop_last();
        let last = replicas.last();
        law_only_gone_replicas_are_forgotten(rest, gone, replica);
        let kept = live(rest, gone);
        let n = replicas.len() - 1;
        if gone.contains(last.timeline) {
            assert(live(replicas, gone) == kept);
            assert(!(forall|i: int|
                0 <= i < replicas.len() ==> !gone.contains((#[trigger] replicas[i]).timeline))) by {
                assert(replicas[n] == last);
            }
        } else {
            assert(live(replicas, gone) == kept.push(last));
            assert(kept.push(last)[kept.len() as int] == last);
            if kept.contains(replica) {
                let k = choose|k: int| 0 <= k < kept.len() && kept[k] == replica;
                assert(kept.push(last)[k] == replica);
            }
            if kept.push(last).contains(replica) && replica != last {
                let k = choose|k: int| 0 <= k < kept.len() + 1 && kept.push(last)[k] == replica;
                assert(kept[k] == replica);
            }
            if forall|i: int|
                0 <= i < replicas.len() ==> !gone.contains((#[trigger] replicas[i]).timeline) {
                assert forall|i: int| 0 <= i < rest.len() implies !gone.contains(
                    (#[trigger] rest[i]).timeline,
                ) by {
                    assert(rest[i] == replicas[i]);
                }
                assert(replicas =~= rest.push(last));
            }
        }
        if replicas.contains(replica) && replica != last {
            let k = choose|k: int| 0 <= k < replicas.len() && replicas[k] == replica;
            assert(rest[k] == replica);
        }
        if rest.contains(replica) {
            let k = choose|k: int| 0 <= k < rest.len() && rest[k] == replica;
            assert(replicas[k] == replica);
        }
        assert(replicas[n] == last);
    } else {
        assert(live(replicas, gone) =~= replicas);
    }
}

/// A change of an object reaches every replica in which something stands for the object, once, and
/// what stands for it there; and it reaches no other.
pub proof fn law_changes_reach_every_replica(
    replicas: Seq<Replica>,
    object: u64,
    place: usize,
    copy: u64,
)
    requires
        replicas.len() <= usize::MAX,
    ensures
        reached(replicas, object).contains((place, copy)) <==> place < replicas.len()
            && replicas[place as int].element_mappings@.dom().contains(object)
            && replicas[place as int].element_mappings@[object] == copy,
        forall|i: int, j: int|
            0 <= i < j < reached(replicas, object).len() ==> (#[trigger] reached(
                replicas,
                object,
            )[i]).0 < (#[trigger] reached(replicas, object)[j]).0,
        forall|i: int|
            0 <= i < reached(replicas, object).len() ==> (#[trigger] reached(replicas, object)[i]).0
                < replicas.len(),
    decreases replicas.len(),
{
    let all = reached(replicas, object);
    if replicas.len() > 0 {
        let n = replicas.len() - 1;
        let rest = replicas.drop_last();
        law_changes_reach_every_replica(rest, object, place, copy);
        let before = reached(rest, object);
        if place < n {
            assert(rest[place as int] == replicas[place as int]);
        }
        match super::replica::mapped(replicas.last(), object) {
            Some(own) => {
                assert(all == before.push((n as usize, own)));
                assert(all[before.len() as int] == (n as usize, own));
                if before.contains((place, copy)) {
                    let k = choose|k: int| 0 <= k < before.len() && before[k] == (place, copy);
                    assert(all[k] == (place, copy));
                }
                if all.contains((place, copy)) && (place, copy) != (n as usize, own) {
                    let k = choose|k: int| 0 <= k < all.len() && all[k] == (place, copy);
                    assert(before[k] == (place, copy));
                }
                assert forall|i: int, j: int| 0 <= i < j < all.len() implies (
                #[trigger] all[i]).0 < (#[trigger] all[j]).0 by {
                    assert(all[i] == before[i]);
                    if j < before.len() {
                        assert(all[j] == before[j]);
                    }
                }
            },
            None => {
                assert(all == before);
            },
        }
    }
}

/// A change of two objects together, such as a clip and its layer, reaches every replica in which
/// something stands for each of them, with both, and no other.
pub proof fn law_changes_of_two_reach_where_both_are(
    replicas: Seq<Replica>,
    first: u64,
    second: u64,
    place: usize,
    copies: (u64, u64),
)
    requires
        replicas.len() <= usize::MAX,
    ensures
        reached_both(replicas, first, second).contains((place, copies.0, copies.1)) <==> place
            < replicas.len() && replicas[place as int].element_mappings@.dom().contains(first)
            && replicas[place as int].element_mappings@[first] == copies.0
            && replicas[place as int].element_mappings@.dom().contains(second)
            && replicas[place as int].element_mappings@[second] == copies.1,
        forall|i: int, j: int|
            0 <= i < j < reached_both(replicas, first, second).len() ==> (#[trigger] reached_both(
                replicas,
                first,
                second,
            )[i]).0 < (#[trigger] reached_both(replicas, first, second)[j]).0,
        forall|i: int|
            0 <= i < reached_both(replicas, first, second).len() ==> (#[trigger] reached_both(
                replicas,
                first,
                second,
            )[i]).0 < replicas.len(),
    decreases replicas.len(),
{
    let all = reached_both(replicas, first, second);
    let wanted = (place, copies.0, copies.1);
    if replicas.len() > 0 {
        let n = replicas.len() - 1;
        let rest = replicas.drop_last();
        law_changes_of_two_reach_where_both_are(rest, first, second, place, copies);
        let before = reached_both(rest, first, second);
        if place < n {
            assert(rest[place as int] == replicas[place as int]);
        }
        match (
            super::replica::mapped(replicas.last(), first),
            super::replica::mapped(replicas.last(), second),
        ) {
            (Some(a), Some(b)) => {
                assert(all == before.push((n as usize, a, b)));
                assert(all[before.len() as int] == (n as usize, a, b));
                if before.contains(wanted) {
                    let k = choose|k: int| 0 <= k < before.len() && before[k] == wanted;
                    assert(all[k] == wanted);
                }
                if all.contains(wanted) && wanted != (n as usize, a, b) {
                    let k = choose|k: int| 0 <= k < all.len() && all[k] == wanted;
                    assert(before[k] == wanted);
                }
                assert forall|i: int, j: int| 0 <= i < j < all.len() implies (
                #[trigger] all[i]).0 < (#[trigger] all[j]).0 by {
                    assert(all[i] == before[i]);
                    if j < before.len() {
                        assert(all[j] == before[j]);
                    }
                }
            },
            _ => {
                assert(all == before);
            },
        }
    }
}

/// A primary that takes a replica in keeps the ones that it had, as long as their timelines are
/// there, and has the new one among them; its timeline and what follows it stay.
pub proof fn law_taken_in_replicas_are_there(
    before: Primary,
    after: Primary,
    replica: Replica,
    gone: Seq<u64>,
    other: Replica,
)
    requires
        taken_in(before, after, replica, gone),
    ensures
        !gone.contains(replica.timeline) ==> after.replicas@.contains(replica),
        before.replicas@.contains(other) && !gone.contains(other.timeline)
            ==> after.replicas@.contains(other),
        after.replicas@.contains(other) ==> other == replica || before.replicas@.contains(other),
        after.timeline == before.timeline,
        after.signal_handlers == before.signal_handlers,
        after.n_replicas > before.n_replicas,
{
    let more = before.replicas@.push(replica);
    law_only_gone_replicas_are_forgotten(more, gone, replica);
    law_only_gone_replicas_are_forgotten(more, gone, other);
    assert(more[before.replicas@.len() as int] == replica);
    if before.replicas@.contains(other) {
        let k = choose|k: int| 0 <= k < before.replicas@.len() && before.replicas@[k] == other;
        assert(more[k] == other);
    }
    if more.contains(other) && other != replica {
        let k = choose|k: int| 0 <= k < more.len() && more[k] == other;
        assert(before.replicas@[k] == other);
    }
}

/// A timeline that was just registered has no replicas, its first one will have the number zero, and
/// nothing follows it yet.
pub proof fn law_registered_primaries_start_empty(
    before: SubtimelinePrimaryManager,
    after: SubtimelinePrimaryManager,
    id: Seq<char>,
    timeline: u64,
    object: u64,
)
    requires
        registered(before, after, id, timeline),
    ensures
        after.primaries@.dom().contains(id),
        after.primaries@[id].timeline == timeline,
        after.primaries@[id].n_replicas == 0,
        after.primaries@[id].signal_handlers@.len() == 0,
        reached(after.primaries@[id].replicas@, object).len() == 0,
        numbered(after.primaries@[id]),
{
}

/// Looking a primary up changes nothing but that replicas are forgotten whose timelines are gone: all
/// others are there as before, and other primaries are as they were.
pub proof fn law_lookups_forget_only_what_is_gone(
    before: SubtimelinePrimaryManager,
    after: SubtimelinePrimaryManager,
    id: Seq<char>,
    gone: Seq<u64>,
    replica: Replica,
    other: Seq<char>,
)
    requires
        before.primaries@.dom().contains(id),
        super::manager::refreshed(before, after, id, gone),
        other != id,
    ensures
        after.primaries@[id].replicas@.contains(replica) <==> before.primaries@[id].replicas@.contains(
            replica,
        ) && !gone.contains(replica.timeline),
        after.primaries@[id].n_replicas == before.primaries@[id].n_replicas,
        timeline_under(after, id) == timeline_under(before, id),
        before.primaries@.dom().contains(other) ==> after.primaries@.dom().contains(other)
            && after.primaries@[other] == before.primaries@[other],
{
    law_only_gone_replicas_are_forgotten(before.primaries@[id].replicas@, gone, replica);
}

/// An object that was removed, and objects that are gone, are followed no more, and their handlers are
/// handed out to be disconnected; every other handler stays. None is lost and none is in both.
pub proof fn law_removed_objects_are_followed_no_more(
    handlers: Seq<SignalsHandler>,
    removed: u64,
    gone: Seq<u64>,
    handler: SignalsHandler,
)
    ensures
        still_followed(handlers, removed, gone).contains(handler) <==> handlers.contains(handler)
            && handler.object != removed && !gone.contains(handler.object),
        no_longer_followed(handlers, removed, gone).contains(handler) <==> handlers.contains(handler)
            && (handler.object == removed || gone.contains(handler.object)),
        still_followed(handlers, removed, gone).len() + no_longer_followed(
            handlers,
            removed,
            gone,
        ).len() == handlers.len(),
    decreases handlers.len(),
{
    reveal(Seq::filter);
    if handlers.len() > 0 {
        let rest = handlers.drop_last();
        let last = handlers.last();
        law_removed_objects_are_followed_no_more(rest, removed, gone, handler);
        let kept = still_followed(rest, removed, gone);
        let dropped = no_longer_followed(rest, removed, gone);
        lemma_contains_pushed(rest, last, handler);
        lemma_contains_pushed(kept, last, handler);
        lemma_contains_pushed(dropped, last, handler);
        assert(handlers =~= rest.push(last));
    }
}

proof fn lemma_contains_pushed(
    handlers: Seq<SignalsHandler>,
    last: SignalsHandler,
    handler: SignalsHandler,
)
    ensures
        handlers.push(last).contains(handler) <==> handlers.contains(handler) || handler == last,
{
    let more = handlers.push(last);
    assert(more[handlers.len() as int] == last);
    if handlers.contains(handler) {
        let k = choose|k: int| 0 <= k < handlers.len() && handlers[k] == handler;
        assert(more[k] == handler);
    }
    if more.contains(handler) && handler != last {
        let k = choose|k: int| 0 <= k < more.len() && more[k] == handler;
        assert(handlers[k] == handler);
    }
}

/// When a primary is committed every one of its replicas is, once each.
pub proof fn law_every_replica_is_committed(replicas: Seq<Replica>, i: int)
    requires
        0 <= i < replicas.len(),
    ensures
        timelines_of(replicas).len() == replicas.len(),
        timelines_of(replicas)[i] == replicas[i].timeline,
        timelines_of(replicas).contains(replicas[i].timeline),
{
    assert(timelines_of(replicas)[i] == replicas[i].timeline);
}

} // verus!
