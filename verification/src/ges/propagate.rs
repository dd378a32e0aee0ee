//! How removals from a primary reach its replicas.

use super::manager::{Primary, SignalsHandler};
use super::replica::Replica;
use vstd::prelude::*;

verus! {

/// A replica that has forgotten an object, and is as it was otherwise.
pub open spec fn forgot(before: Replica, after: Replica, primary: u64) -> bool {
    &&& after.element_mappings@ == before.element_mappings@.remove(primary)
    &&& super::replica::same_but_mappings(before, after)
}

/// A replica that has forgotten a clip with its core elements, and is as it was otherwise.
pub open spec fn forgot_clip(before: Replica, after: Replica, clip: u64) -> bool {
    &&& after.element_mappings@ == before.element_mappings@.remove(clip)
    &&& after.core_track_elements@ == match super::replica::mapped(before, clip) {
        Some(replica) => before.core_track_elements@.remove(replica),
        None => before.core_track_elements@,
    }
    &&& after.property_bindings == before.property_bindings
    &&& after.id == before.id
    &&& after.timeline == before.timeline
}

/// Two primaries that agree in everything but their replicas, of which they have as many.
pub open spec fn same_but_replicas(before: Primary, after: Primary) -> bool {
    &&& after.timeline == before.timeline
    &&& after.n_replicas == before.n_replicas
    &&& after.signal_handlers == before.signal_handlers
    &&& after.replicas.len() == before.replicas.len()
}

impl Primary {
    /// Forgets an object in every replica: what is to be removed, and where.
    pub fn forget_everywhere(&mut self, object: u64) -> (r: Vec<(usize, u64)>)
        ensures
            r@ == super::manager::reached(old(self).replicas@, object),
            same_but_replicas(*old(self), *final(self)),
            forall|i: int|
                0 <= i < old(self).replicas.len() ==> forgot(
                    #[trigger] old(self).replicas@[i],
                    final(self).replicas@[i],
                    object,
                ),
    {
        let ghost before = *self;
        let mut r: Vec<(usize, u64)> = Vec::new();
        let n: usize = self.replicas.len();
        let mut i: usize = 0;
        while i < n
            invariant
                n == before.replicas.len(),
                i <= n,
                same_but_replicas(before, *self),
                r@ == super::manager::reached(before.replicas@.take(i as int), object),
                forall|k: int|
                    0 <= k < i ==> forgot(
                        #[trigger] before.replicas@[k],
                        self.replicas@[k],
                        object,
                    ),
                forall|k: int| i <= k < n ==> self.replicas@[k] == before.replicas@[k],
            decreases n - i,
        {
            proof {
                let next = before.replicas@.take(i + 1);
                assert(next.drop_last() =~= before.replicas@.take(i as int));
                assert(next.last() == before.replicas@[i as int]);
            }
            if let Some(replica) = self.replicas[i].take_mapping(object) {
                r.push((i, replica));
            }
            i = i + 1;
        }
        proof {
            assert(before.replicas@.take(n as int) =~= before.replicas@);
        }
        r
    }

    /// A layer was removed: it is followed no more, and each of its replicas is to be removed.
    pub fn propagate_layer_removed(&mut self, layer: u64, gone: &Vec<u64>) -> (r: (
        Vec<SignalsHandler>,
        Vec<(usize, u64)>,
    ))
        ensures
            r.1@ == super::manager::reached(old(self).replicas@, layer),
            r.0@ == super::manager::no_longer_followed(old(self).signal_handlers@, layer, gone@),
            final(self).signal_handlers@ == super::manager::still_followed(
                old(self).signal_handlers@,
                layer,
                gone@,
            ),
            r.0@ == old(self).signal_handlers@.filter(
                |handler: SignalsHandler|
                    handler.object == layer || gone@.contains(handler.object),
            ),
            final(self).signal_handlers@ == old(self).signal_handlers@.filter(
                |handler: SignalsHandler|
                    !(handler.object == layer || gone@.contains(handler.object)),
            ),
            final(self).timeline == old(self).timeline,
            final(self).n_replicas == old(self).n_replicas,
            final(self).replicas.len() == old(self).replicas.len(),
            forall|i: int|
                0 <= i < old(self).replicas.len() ==> forgot(
                    #[trigger] old(self).replicas@[i],
                    final(self).replicas@[i],
                    layer,
                ),
    {
        let dropped = self.disconnect_signals_for(layer, gone);
        let removed = self.forget_everywhere(layer);
        (dropped, removed)
    }

    /// A track was removed: each of its replicas is to be removed, and it is followed no more.
    pub fn propagate_track_removed(&mut self, track: u64, gone: &Vec<u64>) -> (r: (
        Vec<SignalsHandler>,
        Vec<(usize, u64)>,
    ))
        ensures
            r.1@ == super::manager::reached(old(self).replicas@, track),
            r.0@ == super::manager::no_longer_followed(old(self).signal_handlers@, track, gone@),
            final(self).signal_handlers@ == super::manager::still_followed(
                old(self).signal_handlers@,
                track,
                gone@,
            ),
            r.0@ == old(self).signal_handlers@.filter(
                |handler: SignalsHandler|
                    handler.object == track || gone@.contains(handler.object),
            ),
            final(self).signal_handlers@ == old(self).signal_handlers@.filter(
                |handler: SignalsHandler|
                    !(handler.object == track || gone@.contains(handler.object)),
            ),
            final(self).timeline == old(self).timeline,
            final(self).n_replicas == old(self).n_replicas,
            final(self).replicas.len() == old(self).replicas.len(),
            forall|i: int|
                0 <= i < old(self).replicas.len() ==> forgot(
                    #[trigger] old(self).replicas@[i],
                    final(self).replicas@[i],
                    track,
                ),
    {
        let removed = self.forget_everywhere(track);
        let dropped = self.disconnect_signals_for(track, gone);
        (dropped, removed)
    }

    /// A clip was removed from a layer: its replicas are to be removed, where the layer has one
    /// too.
    pub fn propagate_clip_removed(&mut self, layer: u64, clip: u64) -> (r: Vec<(usize, u64)>)
        ensures
            r@.len() == super::manager::reached_both(old(self).replicas@, layer, clip).len(),
            forall|k: int|
                0 <= k < r.len() ==> {
                    let both = super::manager::reached_both(old(self).replicas@, layer, clip);
                    #[trigger] r@[k] == (both[k].0, both[k].2)
                },
            same_but_replicas(*old(self), *final(self)),
            forall|i: int|
                0 <= i < old(self).replicas.len() ==> if super::replica::mapped(
                    #[trigger] old(self).replicas@[i],
                    layer,
                ) is Some {
                    forgot_clip(old(self).replicas@[i], final(self).replicas@[i], clip)
                } else {
                    final(self).replicas@[i] == old(self).replicas@[i]
                },
    {
        let ghost before = *self;
        let mut r: Vec<(usize, u64)> = Vec::new();
        let n: usize = self.replicas.len();
        let mut i: usize = 0;
        while i < n
            invariant
                n == before.replicas.len(),
                i <= n,
                same_but_replicas(before, *self),
                r@.len() == super::manager::reached_both(
                    before.replicas@.take(i as int),
                    layer,
                    clip,
                ).len(),
                forall|k: int|
                    0 <= k < r.len() ==> {
                        let both = super::manager::reached_both(
                            before.replicas@.take(i as int),
                            layer,
                            clip,
                        );
                        #[trigger] r@[k] == (both[k].0, both[k].2)
                    },
                forall|k: int|
                    0 <= k < i ==> if super::replica::mapped(
                        #[trigger] before.replicas@[k],
                        layer,
                    ) is Some {
                        forgot_clip(before.replicas@[k], self.replicas@[k], clip)
                    } else {
                        self.replicas@[k] == before.replicas@[k]
                    },
                forall|k: int| i <= k < n ==> self.replicas@[k] == before.replicas@[k],
            decreases n - i,
        {
            proof {
                let next = before.replicas@.take(i + 1);
                assert(next.drop_last() =~= before.replicas@.take(i as int));
                assert(next.last() == before.replicas@[i as int]);
            }
            if self.replicas[i].get_replica(layer).is_some() {
                if let Ok(replica_clip) = self.replicas[i].remove_clip(clip) {
                    r.push((i, replica_clip));
                }
            }
            i = i + 1;
        }
        proof {
            assert(before.replicas@.take(n as int) =~= before.replicas@);
        }
        r
    }

    /// A track element was removed from a clip: where it is to be taken out, of which clip.
    pub fn propagate_clip_child_removed(&mut self, clip: u64, child: u64, gone: &Vec<u64>) -> (r: (
        Vec<SignalsHandler>,
        Vec<(usize, u64, u64)>,
    ))
        ensures
            r.1@ == super::manager::reached_both(old(self).replicas@, clip, child),
            r.0@ == super::manager::no_longer_followed(old(self).signal_handlers@, child, gone@),
            final(self).signal_handlers@ == super::manager::still_followed(
                old(self).signal_handlers@,
                child,
                gone@,
            ),
            r.0@ == old(self).signal_handlers@.filter(
                |handler: SignalsHandler|
                    handler.object == child || gone@.contains(handler.object),
            ),
            final(self).signal_handlers@ == old(self).signal_handlers@.filter(
                |handler: SignalsHandler|
                    !(handler.object == child || gone@.contains(handler.object)),
            ),
            final(self).timeline == old(self).timeline,
            final(self).n_replicas == old(self).n_replicas,
            final(self).replicas.len() == old(self).replicas.len(),
            forall|i: int|
                0 <= i < old(self).replicas.len() ==> if super::replica::mapped(
                    #[trigger] old(self).replicas@[i],
                    clip,
                ) is Some && super::replica::mapped(old(self).replicas@[i], child) is Some {
                    forgot(old(self).replicas@[i], final(self).replicas@[i], child)
                } else {
                    &&& final(self).replicas@[i].element_mappings@
                        == old(self).replicas@[i].element_mappings@
                    &&& super::replica::same_but_mappings(
                        old(self).replicas@[i],
                        final(self).replicas@[i],
                    )
                },
    {
        let ghost before = *self;
        let mut removed: Vec<(usize, u64, u64)> = Vec::new();
        let n: usize = self.replicas.len();
        let mut i: usize = 0;
        while i < n
            invariant
                n == before.replicas.len(),
                i <= n,
                same_but_replicas(before, *self),
                removed@ == super::manager::reached_both(
                    before.replicas@.take(i as int),
                    clip,
                    child,
                ),
                forall|k: int|
                    0 <= k < i ==> if super::replica::mapped(
                        #[trigger] before.replicas@[k],
                        clip,
                    ) is Some && super::replica::mapped(before.replicas@[k], child) is Some {
                        forgot(before.replicas@[k], self.replicas@[k], child)
                    } else {
                        &&& self.replicas@[k].element_mappings@
                            == before.replicas@[k].element_mappings@
                        &&& super::replica::same_but_mappings(
                            before.replicas@[k],
                            self.replicas@[k],
                        )
                    },
                forall|k: int| i <= k < n ==> self.replicas@[k] == before.replicas@[k],
            decreases n - i,
        {
            proof {
                let next = before.replicas@.take(i + 1);
                assert(next.drop_last() =~= before.replicas@.take(i as int));
                assert(next.last() == before.replicas@[i as int]);
            }
            if let Ok((replica_clip, element)) = self.replicas[i].clip_remove_track_element(
                clip,
                child,
            ) {
                removed.push((i, replica_clip, element));
            }
            i = i + 1;
        }
        proof {
            assert(before.replicas@.take(n as int) =~= before.replicas@);
        }
        let dropped = self.disconnect_signals_for(child, gone);
        (dropped, removed)
    }
}

/// What was forgotten in every replica is nowhere to be reached any more.
pub proof fn law_forgotten_objects_are_not_reached(
    before: Seq<Replica>,
    after: Seq<Replica>,
    object: u64,
)
    requires
        after.len() == before.len(),
        forall|i: int|
            0 <= i < before.len() ==> forgot(#[trigger] before[i], after[i], object),
    ensures
        super::manager::reached(after, object) == Seq::<(usize, u64)>::empty(),
    decreases before.len(),
{
    if before.len() > 0 {
        let n = before.len() - 1;
        assert forall|i: int| 0 <= i < n implies forgot(
            #[trigger] before.drop_last()[i],
            after.drop_last()[i],
            object,
        ) by {
            assert(forgot(before[i], after[i], object));
        }
        law_forgotten_objects_are_not_reached(before.drop_last(), after.drop_last(), object);
        assert(forgot(before[n], after[n], object));
        assert(super::replica::mapped(after[n], object) is None);
    }
}

/// Forgetting an object touches nothing but it: it stands for nothing any more, and every other object
/// stands for what it did. With a clip its core elements go, and those of no other clip.
pub proof fn law_forgetting_touches_one_object(
    before: Replica,
    after: Replica,
    object: u64,
    other: u64,
    clip: u64,
)
    requires
        other != object,
    ensures
        forgot(before, after, object) || forgot_clip(before, after, object) ==> {
            &&& super::replica::mapped(after, object) is None
            &&& super::replica::mapped(after, other) == super::replica::mapped(before, other)
            &&& after.id == before.id && after.timeline == before.timeline
            &&& after.property_bindings == before.property_bindings
        },
        forgot(before, after, object) ==> after.core_track_elements == before.core_track_elements,
        forgot_clip(before, after, object) ==> {
            &&& super::replica::mapped(before, object) == Some(clip)
                ==> !after.core_track_elements@.dom().contains(clip)
            &&& super::replica::mapped(before, object) != Some(clip)
                ==> after.core_track_elements@.dom().contains(clip)
                == before.core_track_elements@.dom().contains(clip)
                && after.core_track_elements@[clip] == before.core_track_elements@[clip]
        },
{
}

/// A removal leaves the primary itself, and the numbers of its replicas, as they are.
pub proof fn law_removals_leave_the_primary(before: Primary, after: Primary)
    requires
        same_but_replicas(before, after),
    ensures
        after.timeline == before.timeline,
        after.n_replicas == before.n_replicas,
        after.signal_handlers == before.signal_handlers,
        after.replicas@.len() == before.replicas@.len(),
{
}

} // verus!
