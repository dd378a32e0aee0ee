//! The registry of primary timelines, and how their changes reach their replicas.

use super::replica::{CoreElement, Replica};
use crate::retain::drain_where;
use crate::textmap::TextMap;
use vstd::prelude::*;

verus! {

/// The handlers that follow one object.
#[derive(Debug)]
pub struct SignalsHandler {
    pub object: u64,
    pub ids: Vec<u64>,
}

/// A primary timeline with its replicas. Timelines are known by numbers.
#[derive(Debug)]
pub struct Primary {
    pub timeline: u64,
    pub replicas: Vec<Replica>,
    pub n_replicas: u64,
    pub signal_handlers: Vec<SignalsHandler>,
}

/// The primary timelines, by their IDs.
#[derive(Debug)]
pub struct SubtimelinePrimaryManager {
    pub primaries: TextMap<Primary>,
}

/// Why the registry refuses.
#[derive(Debug)]
pub enum ManagerError {
    /// The timeline is in use already.
    TimelineInUse,
    AlreadyExists(String),
    /// There is nothing to unregister under this ID.
    NotRegistered(String),
    /// There is nothing to replicate under this ID.
    PrimaryNotFound(String),
}

impl ManagerError {
    /// What is said of the error.
    pub open spec fn text(self) -> Seq<char> {
        match self {
            ManagerError::TimelineInUse =>
                "Timeline is already in use (has parent) and cannot be registered as primary"@,
            ManagerError::AlreadyExists(id) => "Primary with id '"@ + id@ + "' already exists"@,
            ManagerError::NotRegistered(id) => "Primary with id '"@ + id@ + "' not found"@,
            ManagerError::PrimaryNotFound(id) => "Primary '"@ + id@ + "' not found"@,
        }
    }

    /// What is said of the error.
    pub fn message(&self) -> (message: String)
        ensures
            message@ == self.text(),
    {
        match self {
            ManagerError::TimelineInUse =>
                "Timeline is already in use (has parent) and cannot be registered as primary".to_owned(),
            ManagerError::AlreadyExists(id) => {
                let mut message = "Primary with id '".to_owned();
                message.append(id.as_str());
                message.append("' already exists");
                message
            },
            ManagerError::NotRegistered(id) => {
                let mut message = "Primary with id '".to_owned();
                message.append(id.as_str());
                message.append("' not found");
                message
            },
            ManagerError::PrimaryNotFound(id) => {
                let mut message = "Primary '".to_owned();
                message.append(id.as_str());
                message.append("' not found");
                message
            },
        }
    }
}

/// Whether a number is in a list.
fn contains(list: &Vec<u64>, number: u64) -> (r: bool)
    ensures
        r == list@.contains(number),
{
    let mut i: usize = 0;
    while i < list.len()
        invariant
            i <= list.len(),
            forall|k: int| 0 <= k < i ==> list@[k] != number,
        decreases list.len() - i,
    {
        if list[i] == number {
            return true;
        }
        i = i + 1;
    }
    false
}

/// The replicas whose timelines are still there.
pub open spec fn live(replicas: Seq<Replica>, gone: Seq<u64>) -> Seq<Replica> {
    replicas.filter(|replica: Replica| !gone.contains(replica.timeline))
}

/// The replicas in which an object of the primary has a replica: their places, and it.
pub open spec fn reached(replicas: Seq<Replica>, primary: u64) -> Seq<(usize, u64)>
    decreases replicas.len(),
{
    if replicas.len() == 0 {
        Seq::empty()
    } else {
        let before = reached(replicas.drop_last(), primary);
        match super::replica::mapped(replicas.last(), primary) {
            Some(object) => before.push(((replicas.len() - 1) as usize, object)),
            None => before,
        }
    }
}

/// The replicas in which two objects of the primary have replicas: their places, and those.
pub open spec fn reached_both(
    replicas: Seq<Replica>,
    first: u64,
    second: u64,
) -> Seq<(usize, u64, u64)>
    decreases replicas.len(),
{
    if replicas.len() == 0 {
        Seq::empty()
    } else {
        let before = reached_both(replicas.drop_last(), first, second);
        match (
            super::replica::mapped(replicas.last(), first),
            super::replica::mapped(replicas.last(), second),
        ) {
            (Some(a), Some(b)) => before.push(((replicas.len() - 1) as usize, a, b)),
            _ => before,
        }
    }
}

/// What registering a timeline under an ID changes: it is a primary without replicas.
pub open spec fn registered(
    before: SubtimelinePrimaryManager,
    after: SubtimelinePrimaryManager,
    id: Seq<char>,
    timeline: u64,
) -> bool {
    let primary = after.primaries@[id];
    &&& after.primaries@ == before.primaries@.insert(id, primary)
    &&& primary.timeline == timeline
    &&& primary.replicas@ == Seq::<Replica>::empty()
    &&& primary.n_replicas == 0
    &&& primary.signal_handlers@ == Seq::<SignalsHandler>::empty()
}

/// The timeline that is registered under an ID.
pub open spec fn timeline_under(manager: SubtimelinePrimaryManager, id: Seq<char>) -> Option<u64> {
    if manager.primaries@.dom().contains(id) {
        Some(manager.primaries@[id].timeline)
    } else {
        None
    }
}

/// Whether a timeline is registered under some ID.
pub open spec fn is_registered(manager: SubtimelinePrimaryManager, timeline: u64) -> bool {
    exists|k: Seq<char>|
        #[trigger] manager.primaries@.dom().contains(k) && manager.primaries@[k].timeline
            == timeline
}

/// What taking a replica in changes: it is the last one, and the next one gets another number.
pub open spec fn taken_in(before: Primary, after: Primary, replica: Replica, gone: Seq<u64>) -> bool {
    &&& after.replicas@ == live(before.replicas@.push(replica), gone)
    &&& after.n_replicas == before.n_replicas + 1
    &&& after.timeline == before.timeline
    &&& after.signal_handlers == before.signal_handlers
}

/// The handlers that are still needed when an object was removed and others are gone.
pub open spec fn still_followed(
    handlers: Seq<SignalsHandler>,
    removed: u64,
    gone: Seq<u64>,
) -> Seq<SignalsHandler> {
    handlers.filter(
        |handler: SignalsHandler| !(handler.object == removed || gone.contains(handler.object)),
    )
}

/// The handlers that are needed no more.
pub open spec fn no_longer_followed(
    handlers: Seq<SignalsHandler>,
    removed: u64,
    gone: Seq<u64>,
) -> Seq<SignalsHandler> {
    handlers.filter(
        |handler: SignalsHandler| handler.object == removed || gone.contains(handler.object),
    )
}

/// The timelines of some replicas.
pub open spec fn timelines_of(replicas: Seq<Replica>) -> Seq<u64> {
    Seq::new(replicas.len(), |i: int| replicas[i].timeline)
}

impl Primary {
    /// A primary without replicas.
    pub fn new(timeline: u64) -> (primary: Primary)
        ensures
            primary.timeline == timeline,
            primary.replicas@ == Seq::<Replica>::empty(),
            primary.n_replicas == 0,
            primary.signal_handlers@ == Seq::<SignalsHandler>::empty(),
    {
        Primary { timeline, replicas: Vec::new(), n_replicas: 0, signal_handlers: Vec::new() }
    }

    /// Forgets the replicas whose timelines are gone.
    pub fn cleanup(&mut self, gone: &Vec<u64>)
        ensures
            final(self).replicas@ == live(old(self).replicas@, gone@),
            final(self).timeline == old(self).timeline,
            final(self).n_replicas == old(self).n_replicas,
            final(self).signal_handlers == old(self).signal_handlers,
    {
        let ghost is_gone = |replica: Replica| gone@.contains(replica.timeline);
        let test = |replica: &Replica| -> (r: bool)
            ensures
                r == gone@.contains(replica.timeline),
        {
            contains(gone, replica.timeline)
        };
        let dropped = drain_where(&mut self.replicas, test, Ghost(is_gone));
        proof {
            assert((|replica: Replica| !is_gone(replica)) =~= (|replica: Replica|
                !gone@.contains(replica.timeline)));
        }
    }

    /// Takes a replica in, and forgets those that are gone. The next replica gets another number.
    pub fn add(&mut self, replica: Replica, gone: &Vec<u64>)
        requires
            old(self).n_replicas < u64::MAX,
        ensures
            taken_in(*old(self), *final(self), replica, gone@),
    {
        self.replicas.push(replica);
        self.cleanup(gone);
        self.n_replicas = self.n_replicas + 1;
    }

    pub fn push_signals_handler(&mut self, handler: SignalsHandler)
        ensures
            final(self).signal_handlers@ == old(self).signal_handlers@.push(handler),
            final(self).replicas == old(self).replicas,
            final(self).n_replicas == old(self).n_replicas,
            final(self).timeline == old(self).timeline,
    {
        self.signal_handlers.push(handler);
    }

    /// Stops following an object that was removed, and objects that are gone; returns the handlers
    /// that are no longer needed.
    pub fn disconnect_signals_for(&mut self, removed: u64, gone: &Vec<u64>) -> (dropped: Vec<
        SignalsHandler,
    >)
        ensures
            final(self).signal_handlers@ == still_followed(
                old(self).signal_handlers@,
                removed,
                gone@,
            ),
            dropped@ == no_longer_followed(old(self).signal_handlers@, removed, gone@),
            final(self).signal_handlers@ == old(self).signal_handlers@.filter(
                |handler: SignalsHandler|
                    !(handler.object == removed || gone@.contains(handler.object)),
            ),
            dropped@ == old(self).signal_handlers@.filter(
                |handler: SignalsHandler|
                    handler.object == removed || gone@.contains(handler.object),
            ),
            final(self).replicas == old(self).replicas,
            final(self).n_replicas == old(self).n_replicas,
            final(self).timeline == old(self).timeline,
    {
        let ghost ended = |handler: SignalsHandler|
            handler.object == removed || gone@.contains(handler.object);
        let test = |handler: &SignalsHandler| -> (r: bool)
            ensures
                r == (handler.object == removed || gone@.contains(handler.object)),
        {
            handler.object == removed || contains(gone, handler.object)
        };
        let dropped = drain_where(&mut self.signal_handlers, test, Ghost(ended));
        proof {
            assert((|handler: SignalsHandler| !ended(handler)) =~= (|handler: SignalsHandler|
                !(handler.object == removed || gone@.contains(handler.object))));
        }
        dropped
    }

    /// The replicas in which an object has a replica: those that a clip that was added to the
    /// layer goes to, or in which a property of the clip has changed.
    pub fn replicas_of(&self, primary: u64) -> (r: Vec<(usize, u64)>)
        ensures
            r@ == reached(self.replicas@, primary),
    {
        let mut r: Vec<(usize, u64)> = Vec::new();
        let mut i: usize = 0;
        while i < self.replicas.len()
            invariant
                i <= self.replicas.len(),
                r@ == reached(self.replicas@.take(i as int), primary),
            decreases self.replicas.len() - i,
        {
            proof {
                let next = self.replicas@.take(i + 1);
                assert(next.drop_last() =~= self.replicas@.take(i as int));
                assert(next.last() == self.replicas@[i as int]);
            }
            if let Some(object) = self.replicas[i].get_replica(primary) {
                r.push((i, object));
            }
            i = i + 1;
        }
        proof {
            assert(self.replicas@.take(i as int) =~= self.replicas@);
        }
        r
    }

    /// A clip is in another layer: where it is to be moved, and to which layer. Nowhere, where it
    /// is in no layer any more.
    pub fn propagate_clip_moved_layer(&self, clip: u64, layer: Option<u64>) -> (r: Vec<
        (usize, u64, u64),
    >)
        ensures
            r@ == match layer {
                Some(layer) => reached_both(self.replicas@, clip, layer),
                None => Seq::empty(),
            },
    {
        let mut r: Vec<(usize, u64, u64)> = Vec::new();
        let layer = match layer {
            Some(layer) => layer,
            None => return r,
        };
        let mut i: usize = 0;
        while i < self.replicas.len()
            invariant
                i <= self.replicas.len(),
                r@ == reached_both(self.replicas@.take(i as int), clip, layer),
            decreases self.replicas.len() - i,
        {
            proof {
                let next = self.replicas@.take(i + 1);
                assert(next.drop_last() =~= self.replicas@.take(i as int));
                assert(next.last() == self.replicas@[i as int]);
            }
            if let Some(replica_clip) = self.replicas[i].get_replica(clip) {
                if let Some(replica_layer) = self.replicas[i].get_replica(layer) {
                    r.push((i, replica_clip, replica_layer));
                }
            }
            i = i + 1;
        }
        proof {
            assert(self.replicas@.take(i as int) =~= self.replicas@);
        }
        r
    }

    /// The timelines to commit when the primary is committed: all of them.
    pub fn propagate_timeline_commit(&self) -> (timelines: Vec<u64>)
        ensures
            timelines@ == timelines_of(self.replicas@),
            timelines@ == Seq::new(self.replicas@.len(), |i: int| self.replicas@[i].timeline),
    {
        let mut timelines: Vec<u64> = Vec::new();
        let mut i: usize = 0;
        while i < self.replicas.len()
            invariant
                i <= self.replicas.len(),
                timelines@ == Seq::new(i as nat, |k: int| self.replicas@[k].timeline),
            decreases self.replicas.len() - i,
        {
            timelines.push(self.replicas[i].timeline);
            i = i + 1;
            proof {
                assert(timelines@ =~= Seq::new(i as nat, |k: int| self.replicas@[k].timeline));
            }
        }
        timelines
    }
}

impl SubtimelinePrimaryManager {
    pub open spec fn wf(self) -> bool {
        self.primaries.wf()
    }

    /// No primaries.
    pub fn new() -> (manager: SubtimelinePrimaryManager)
        ensures
            manager.wf(),
            manager.primaries@ == Map::<Seq<char>, Primary>::empty(),
    {
        SubtimelinePrimaryManager { primaries: TextMap::new() }
    }

    /// Registers a timeline under an ID that is free. A timeline with a parent is in use.
    pub fn register_primary_internal(
        &mut self,
        primary_id: &str,
        timeline: u64,
        has_parent: bool,
    ) -> (r: Result<(), ManagerError>)
        requires
            old(self).wf(),
        ensures
            final(self).wf(),
            r is Ok <==> !has_parent && !old(self).primaries@.dom().contains(primary_id@),
            has_parent ==> r matches Err(ManagerError::TimelineInUse),
            !has_parent && r is Err ==> (r matches Err(ManagerError::AlreadyExists(id)) && id@
                == primary_id@),
            r is Err ==> final(self).primaries@ == old(self).primaries@,
            r is Ok ==> registered(*old(self), *final(self), primary_id@, timeline),
    {
        if has_parent {
            return Err(ManagerError::TimelineInUse);
        }
        if self.primaries.contains_key(primary_id) {
            return Err(ManagerError::AlreadyExists(primary_id.to_owned()));
        }
        self.primaries.insert(primary_id.to_owned(), Primary::new(timeline));
        Ok(())
    }

    /// The same, as callers from outside ask for it.
    pub fn register_primary(&mut self, primary_id: &str, timeline: u64, has_parent: bool) -> (r:
        Result<(), ManagerError>)
        requires
            old(self).wf(),
        ensures
            final(self).wf(),
            r is Ok <==> !has_parent && !old(self).primaries@.dom().contains(primary_id@),
            has_parent ==> r matches Err(ManagerError::TimelineInUse),
            !has_parent && r is Err ==> (r matches Err(ManagerError::AlreadyExists(id)) && id@
                == primary_id@),
            r is Err ==> final(self).primaries@ == old(self).primaries@,
            r is Ok ==> registered(*old(self), *final(self), primary_id@, timeline),
    {
        self.register_primary_internal(primary_id, timeline, has_parent)
    }

    /// Unregisters a primary, and returns its timeline.
    pub fn unregister_primary(&mut self, primary_id: &str) -> (r: Result<u64, ManagerError>)
        requires
            old(self).wf(),
        ensures
            final(self).wf(),
            final(self).primaries@ == old(self).primaries@.remove(primary_id@),
            match r {
                Ok(timeline) => old(self).primaries@.dom().contains(primary_id@) && timeline
                    == old(self).primaries@[primary_id@].timeline,
                Err(e) => {
                    &&& !old(self).primaries@.dom().contains(primary_id@)
                    &&& e matches ManagerError::NotRegistered(id) && id@ == primary_id@
                },
            },
    {
        match self.primaries.remove(primary_id) {
            Some(primary) => Ok(primary.timeline),
            None => Err(ManagerError::NotRegistered(primary_id.to_owned())),
        }
    }

    /// The timeline that is registered under an ID.
    pub fn primary_timeline(&self, primary_id: &str) -> (timeline: Option<u64>)
        requires
            self.wf(),
        ensures
            timeline == timeline_under(*self, primary_id@),
    {
        match self.primaries.get(primary_id) {
            Some(primary) => Some(primary.timeline),
            None => None,
        }
    }

    /// The same.
    pub fn get_primary(&self, primary_id: &str) -> (timeline: Option<u64>)
        requires
            self.wf(),
        ensures
            timeline == timeline_under(*self, primary_id@),
    {
        self.primary_timeline(primary_id)
    }

    /// The ID under which a timeline is registered; one of them, where there are several.
    pub fn get_primary_id(&self, timeline: u64) -> (id: Option<String>)
        requires
            self.wf(),
        ensures
            match id {
                Some(id) => self.primaries@.dom().contains(id@) && self.primaries@[id@].timeline
                    == timeline,
                None => forall|k: Seq<char>| #[trigger]
                    self.primaries@.dom().contains(k) ==> self.primaries@[k].timeline != timeline,
            },
    {
        let mut i: usize = 0;
        while i < self.primaries.entries.len()
            invariant
                self.wf(),
                i <= self.primaries.entries.len(),
                forall|k: int|
                    0 <= k < i ==> (#[trigger] self.primaries.entries@[k]).value.timeline
                        != timeline,
            decreases self.primaries.entries.len() - i,
        {
            if self.primaries.entries[i].value.timeline == timeline {
                proof {
                    self.primaries.lemma_view_at(i as int);
                }
                return Some(self.primaries.entries[i].key.clone());
            }
            i = i + 1;
        }
        proof {
            assert forall|k: Seq<char>| #[trigger]
                self.primaries@.dom().contains(k) implies self.primaries@[k].timeline
                != timeline by {
                let at = choose|at: int|
                    crate::textmap::stands_at(self.primaries.entries@, k, at);
                assert(crate::textmap::stands_at(self.primaries.entries@, k, at));
                self.primaries.lemma_view_at(at);
            }
        }
        None
    }

    /// Whether a timeline is registered.
    pub fn is_primary(&self, timeline: u64) -> (r: bool)
        requires
            self.wf(),
        ensures
            r == is_registered(*self, timeline),
    {
        match self.get_primary_id(timeline) {
            Some(id) => {
                assert(self.primaries@.dom().contains(id@));
                true
            },
            None => false,
        }
    }

    /// Starts a replica of a primary in a timeline: it has the next number, and nothing in it yet.
    /// Replicas whose timelines are gone are forgotten.
    pub fn make_replica(&mut self, primary_id: &str, timeline: u64, gone: &Vec<u64>) -> (r: Result<
        Replica,
        ManagerError,
    >)
        requires
            old(self).wf(),
        ensures
            final(self).wf(),
            match r {
                Ok(replica) => {
                    &&& old(self).primaries@.dom().contains(primary_id@)
                    &&& replica.id == old(self).primaries@[primary_id@].n_replicas
                    &&& replica.timeline == timeline
                    &&& replica.element_mappings@ == Map::<u64, u64>::empty()
                    &&& replica.core_track_elements@ == Map::<u64, Vec<CoreElement>>::empty()
                    &&& replica.property_bindings.wf()
                    &&& replica.property_bindings@ == Map::<(u64, Seq<char>), u64>::empty()
                    &&& refreshed(*old(self), *final(self), primary_id@, gone@)
                },
                Err(e) => {
                    &&& !old(self).primaries@.dom().contains(primary_id@)
                    &&& e matches ManagerError::PrimaryNotFound(id) && id@ == primary_id@
                    &&& final(self).primaries@ == old(self).primaries@
                },
            },
    {
        match self.refresh(primary_id, gone) {
            Some(i) => Ok(Replica::new(self.primaries.entries[i].value.n_replicas, timeline)),
            None => Err(ManagerError::PrimaryNotFound(primary_id.to_owned())),
        }
    }

    /// Takes a replica in whose content was copied.
    pub fn replica_made(&mut self, primary_id: &str, replica: Replica, gone: &Vec<u64>)
        requires
            old(self).wf(),
            old(self).primaries@.dom().contains(primary_id@),
            old(self).primaries@[primary_id@].n_replicas < u64::MAX,
        ensures
            final(self).wf(),
            ({
                let before = old(self).primaries@[primary_id@];
                let after = final(self).primaries@[primary_id@];
                &&& final(self).primaries@ == old(self).primaries@.insert(primary_id@, after)
                &&& taken_in(before, after, replica, gone@)
            }),
    {
        let ghost before = self.primaries;
        if let Some(i) = self.primaries.position(primary_id) {
            self.primaries.entries[i].value.add(replica, gone);
            proof {
                before.lemma_replaced_at(self.primaries, i as int);
            }
        }
    }

    /// The place of a primary, with the replicas forgotten whose timelines are gone.
    pub fn refresh(&mut self, primary_id: &str, gone: &Vec<u64>) -> (place: Option<usize>)
        requires
            old(self).wf(),
        ensures
            final(self).wf(),
            match place {
                Some(i) => {
                    &&& old(self).primaries@.dom().contains(primary_id@)
                    &&& crate::textmap::stands_at(
                        final(self).primaries.entries@,
                        primary_id@,
                        i as int,
                    )
                    &&& final(self).primaries@[primary_id@]
                        == final(self).primaries.entries@[i as int].value
                    &&& refreshed(*old(self), *final(self), primary_id@, gone@)
                },
                None => {
                    &&& !old(self).primaries@.dom().contains(primary_id@)
                    &&& final(self).primaries@ == old(self).primaries@
                },
            },
    {
        let ghost before = self.primaries;
        match self.primaries.position(primary_id) {
            Some(i) => {
                self.primaries.entries[i].value.cleanup(gone);
                proof {
                    before.lemma_replaced_at(self.primaries, i as int);
                    self.primaries.lemma_view_at(i as int);
                }
                Some(i)
            },
            None => None,
        }
    }
}

/// What looking a primary up changes: its replicas whose timelines are gone are forgotten.
pub open spec fn refreshed(
    before: SubtimelinePrimaryManager,
    after: SubtimelinePrimaryManager,
    id: Seq<char>,
    gone: Seq<u64>,
) -> bool {
    let old_primary = before.primaries@[id];
    let new_primary = after.primaries@[id];
    &&& after.primaries@ == before.primaries@.insert(id, new_primary)
    &&& new_primary.timeline == old_primary.timeline
    &&& new_primary.n_replicas == old_primary.n_replicas
    &&& new_primary.signal_handlers == old_primary.signal_handlers
    &&& new_primary.replicas@ == live(old_primary.replicas@, gone)
}

/// What a notification of a clip's property asks for.
#[derive(Debug, Clone, Copy, PartialEq, Eq, Structural)]
pub enum ClipNotification {
    /// Move the clip's replicas to the layer.
    MovedLayer,
    /// Set the property on the clip's replicas.
    PropertyChanged,
    Ignore,
}

/// What a notification of a clip's property asks for. A layer that has changed is a move; other
/// properties count where they can be set and are set at construction only, as the rest is bound.
pub fn clip_notification(name: &str, writable: bool, construct_only: bool) -> (r: ClipNotification)
    ensures
        r == notification_of(name@, writable, construct_only),
        r == if name@ == "layer"@ {
            ClipNotification::MovedLayer
        } else if writable && construct_only {
            ClipNotification::PropertyChanged
        } else {
            ClipNotification::Ignore
        },
{
    if crate::text::str_eq(name, "layer") {
        return ClipNotification::MovedLayer;
    }
    if !(writable && construct_only) {
        return ClipNotification::Ignore;
    }
    ClipNotification::PropertyChanged
}

/// Whether a clip that is added to or removed from a layer is really new or gone: not while it
/// moves between layers.
pub fn clip_membership_counts(moving_between_layers: bool) -> (r: bool)
    ensures
        r == !moving_between_layers,
{
    !moving_between_layers
}

/// What a notification of a clip's property asks for.
pub open spec fn notification_of(name: Seq<char>, writable: bool, construct_only: bool) -> ClipNotification {
    if name == "layer"@ {
        ClipNotification::MovedLayer
    } else if writable && construct_only {
        ClipNotification::PropertyChanged
    } else {
        ClipNotification::Ignore
    }
}

/// A property reaches a clip's replica in one way at most: what is bound is not set once more when it
/// changes. A change of the layer, which is never bound, moves the clip.
pub proof fn law_bound_properties_are_not_set_again(property: super::properties::Property)
    ensures
        ({
            let asked = notification_of(
                property.name@,
                property.writable,
                property.construct_only,
            );
            let bound = super::properties::taken(super::properties::ReplicaKind::Clip, property);
            &&& bound ==> asked == ClipNotification::Ignore
            &&& asked == ClipNotification::MovedLayer <==> property.name@ == "layer"@
            &&& asked == ClipNotification::PropertyChanged ==> property.writable && !bound
            &&& property.name@ != "layer"@ && property.writable && property.construct_only ==> asked
                == ClipNotification::PropertyChanged
        }),
{
}

} // verus!
