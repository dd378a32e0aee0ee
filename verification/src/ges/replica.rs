//! One replica of a primary timeline: which of its objects stands for which of the primary's, and
//! what a change of the primary asks of it.

use super::bindings::PropertyBindings;
use super::names::full_property_name;
use itertools::Itertools;
use std::collections::HashMap;
use vstd::prelude::*;

verus! {

broadcast use vstd::std_specs::hash::group_hash_axioms;

/// A core element of a clip of the replica, and the asset that it was made from.
#[derive(Debug, Clone, Copy, PartialEq, Eq)]
pub struct CoreElement {
    pub element: u64,
    pub asset: Option<u64>,
}

/// A track element of the primary.
#[derive(Debug, Clone, Copy, PartialEq, Eq)]
pub struct TrackElement {
    pub id: u64,
    pub is_core: bool,
    pub asset: Option<u64>,
}

/// A replica. Objects, of the primary and of the replica, are known by numbers.
#[derive(Debug)]
pub struct Replica {
    pub id: u64,
    pub timeline: u64,
    /// From objects of the primary to those of the replica.
    pub element_mappings: HashMap<u64, u64>,
    /// The core elements of each clip of the replica.
    pub core_track_elements: HashMap<u64, Vec<CoreElement>>,
    pub property_bindings: PropertyBindings,
}

/// Why a change of the primary does not reach the replica.
#[derive(Debug, Clone, Copy, PartialEq, Eq, Structural)]
pub enum ReplicaError {
    ClipNotFound,
    ElementNotFound,
    CoreElementNotFound,
    TrackNotFound,
    LayerNotFound,
    /// The asset of the element could not be extracted.
    ExtractionFailed,
}

/// Where the replica of a track element comes from.
#[derive(Debug, Clone, Copy, PartialEq, Eq, Structural)]
pub enum ElementSource {
    /// It is there already.
    Existing(u64),
    /// It is one of the core elements of the clip's replica.
    Core(u64),
    /// It is to be extracted from the element's asset.
    Extract,
}

/// A track element to add to a clip, both of the replica, and whether it has to be named first.
#[derive(Debug, Clone, Copy, PartialEq, Eq, Structural)]
pub struct AddedElement {
    pub clip: u64,
    pub element: u64,
    pub name_it: bool,
}

/// A property of a child of a track element.
#[derive(Debug)]
pub struct ChildProperty {
    pub owner: String,
    pub name: String,
    pub readable: bool,
    pub writable: bool,
}

/// What becomes of a property of a child of a track element.
#[derive(Debug)]
pub enum ChildPropertyAction {
    Skip,
    /// Replicate the control binding under this name.
    ReplicateControl(String),
    /// Bind the property, which is looked up under this name.
    Bind(String),
}

/// Sorts by the flag, false first, with `itertools::Itertools::sorted_by_key`.
///
/// Claimed of it: the sort is stable, so the items without the flag come first and those with it
/// after them, each in the order that they had.
#[verifier::external_body]
fn sorted_by_flag(items: Vec<(u64, bool)>) -> (sorted: Vec<(u64, bool)>)
    ensures
        sorted@ == items@.filter(|item: (u64, bool)| !item.1) + items@.filter(
            |item: (u64, bool)| item.1,
        ),
{
    items.into_iter().sorted_by_key(|item| item.1).collect()
}

/// The numbers of some track elements, core ones or others.
pub open spec fn ids_of(elements: Seq<TrackElement>, core: bool) -> Seq<u64>
    decreases elements.len(),
{
    if elements.len() == 0 {
        Seq::empty()
    } else if elements.last().is_core == core {
        ids_of(elements.drop_last(), core).push(elements.last().id)
    } else {
        ids_of(elements.drop_last(), core)
    }
}

/// The track elements of a clip with the core ones first, each group in its order: what is added
/// on top of the core elements finds them in place.
pub open spec fn core_first(elements: Seq<TrackElement>) -> Seq<u64> {
    ids_of(elements, true) + ids_of(elements, false)
}

spec fn flagged(elements: Seq<TrackElement>) -> Seq<(u64, bool)> {
    Seq::new(elements.len(), |i: int| (elements[i].id, !elements[i].is_core))
}

spec fn firsts(items: Seq<(u64, bool)>) -> Seq<u64> {
    Seq::new(items.len(), |i: int| items[i].0)
}

proof fn lemma_filtered_ids(elements: Seq<TrackElement>)
    ensures
        firsts(flagged(elements).filter(|item: (u64, bool)| !item.1)) == ids_of(elements, true),
        firsts(flagged(elements).filter(|item: (u64, bool)| item.1)) == ids_of(elements, false),
    decreases elements.len(),
{
    let first = |item: (u64, bool)| !item.1;
    let second = |item: (u64, bool)| item.1;
    reveal(Seq::filter);
    if elements.len() == 0 {
        assert(flagged(elements) =~= Seq::empty());
        assert(firsts(flagged(elements).filter(first)) =~= Seq::empty());
        assert(firsts(flagged(elements).filter(second)) =~= Seq::empty());
    } else {
        let shorter = elements.drop_last();
        lemma_filtered_ids(shorter);
        assert(flagged(elements).drop_last() =~= flagged(shorter));
        assert(flagged(elements).last() == (elements.last().id, !elements.last().is_core));
        assert(firsts(flagged(elements).filter(first)) =~= ids_of(elements, true));
        assert(firsts(flagged(elements).filter(second)) =~= ids_of(elements, false));
    }
}

/// The order in which the track elements of a clip are added to its replica.
pub fn addition_order(elements: &Vec<TrackElement>) -> (order: Vec<u64>)
    ensures
        order@ == core_first(elements@),
{
    let mut items: Vec<(u64, bool)> = Vec::new();
    let mut i: usize = 0;
    while i < elements.len()
        invariant
            i <= elements.len(),
            items@ == flagged(elements@.take(i as int)),
        decreases elements.len() - i,
    {
        items.push((elements[i].id, !elements[i].is_core));
        i = i + 1;
        proof {
            assert(items@ =~= flagged(elements@.take(i as int)));
        }
    }
    proof {
        assert(elements@.take(elements@.len() as int) =~= elements@);
        lemma_filtered_ids(elements@);
    }
    let sorted = sorted_by_flag(items);
    let mut order: Vec<u64> = Vec::new();
    let mut k: usize = 0;
    while k < sorted.len()
        invariant
            k <= sorted.len(),
            order@ == firsts(sorted@.take(k as int)),
        decreases sorted.len() - k,
    {
        order.push(sorted[k].0);
        k = k + 1;
        proof {
            assert(order@ =~= firsts(sorted@.take(k as int)));
        }
    }
    proof {
        assert(sorted@.take(sorted@.len() as int) =~= sorted@);
        let all = flagged(elements@);
        assert(order@ =~= firsts(all.filter(|item: (u64, bool)| !item.1)) + firsts(
            all.filter(|item: (u64, bool)| item.1),
        ));
    }
    order
}

/// The first core element that was made from an asset.
pub open spec fn core_of_asset(cores: Seq<CoreElement>, asset: Option<u64>) -> Option<u64>
    decreases cores.len(),
{
    if cores.len() == 0 {
        None
    } else if cores[0].asset == asset {
        Some(cores[0].element)
    } else {
        core_of_asset(cores.skip(1), asset)
    }
}

/// Whether the core elements of a clip's replica are known.
pub open spec fn knows_cores(replica: Replica, primary_clip: u64) -> bool {
    replica.element_mappings@.dom().contains(primary_clip)
        ==> replica.core_track_elements@.dom().contains(replica.element_mappings@[primary_clip])
}

/// Where the replica of a track element comes from, and the replica of its clip.
pub open spec fn element_source_spec(
    replica: Replica,
    primary_clip: u64,
    element: TrackElement,
) -> Result<(u64, ElementSource), ReplicaError> {
    let mappings = replica.element_mappings@;
    if !mappings.dom().contains(primary_clip) {
        Err(ReplicaError::ClipNotFound)
    } else {
        let clip = mappings[primary_clip];
        if mappings.dom().contains(element.id) {
            Ok((clip, ElementSource::Existing(mappings[element.id])))
        } else if element.is_core {
            match core_of_asset(replica.core_track_elements@[clip]@, element.asset) {
                Some(core) => Ok((clip, ElementSource::Core(core))),
                None => Err(ReplicaError::CoreElementNotFound),
            }
        } else {
            Ok((clip, ElementSource::Extract))
        }
    }
}

/// What adding a track element comes to, and the mappings then. `extracted` is what extracting its
/// asset brings, where that is what has to be done.
pub open spec fn add_element_spec(
    replica: Replica,
    primary_clip: u64,
    element: TrackElement,
    extracted: Option<u64>,
) -> (Map<u64, u64>, Result<AddedElement, ReplicaError>) {
    let mappings = replica.element_mappings@;
    match element_source_spec(replica, primary_clip, element) {
        Err(e) => (mappings, Err(e)),
        Ok((clip, ElementSource::Existing(existing))) => (
            mappings,
            Ok(AddedElement { clip, element: existing, name_it: false }),
        ),
        Ok((clip, ElementSource::Core(core))) => (
            mappings.insert(element.id, core),
            Ok(AddedElement { clip, element: core, name_it: true }),
        ),
        Ok((clip, ElementSource::Extract)) => match extracted {
            Some(new) => (
                mappings.insert(element.id, new),
                Ok(AddedElement { clip, element: new, name_it: true }),
            ),
            None => (mappings, Err(ReplicaError::ExtractionFailed)),
        },
    }
}

/// What becomes of a property of a child of a track element.
pub open spec fn property_action_is(
    property: ChildProperty,
    full_is_controlled: bool,
    bare_is_controlled: bool,
    action: ChildPropertyAction,
) -> bool {
    let full_name = super::names::full_name_of(property.owner@, property.name@);
    if !property.readable || !property.writable {
        action is Skip
    } else if full_is_controlled {
        action matches ChildPropertyAction::ReplicateControl(name) && name@ == full_name
    } else if bare_is_controlled {
        action matches ChildPropertyAction::ReplicateControl(name) && name@ == property.name@
    } else {
        action matches ChildPropertyAction::Bind(name) && name@ == full_name
    }
}

impl Replica {
    /// Nothing of the primary is in the replica yet.
    pub fn new(id: u64, timeline: u64) -> (replica: Replica)
        ensures
            replica.id == id,
            replica.timeline == timeline,
            replica.element_mappings@ == Map::<u64, u64>::empty(),
            replica.core_track_elements@ == Map::<u64, Vec<CoreElement>>::empty(),
            replica.property_bindings.wf(),
            replica.property_bindings@ == Map::<(u64, Seq<char>), u64>::empty(),
    {
        Replica {
            id,
            timeline,
            element_mappings: HashMap::new(),
            core_track_elements: HashMap::new(),
            property_bindings: PropertyBindings::new(),
        }
    }

    /// Remembers which object stands for one of the primary.
    pub fn add_mapping(&mut self, primary: u64, replica: u64)
        ensures
            final(self).element_mappings@ == old(self).element_mappings@.insert(primary, replica),
            same_but_mappings(*old(self), *final(self)),
    {
        self.element_mappings.insert(primary, replica);
    }

    /// Forgets which object stands for one of the primary, and returns it.
    pub fn take_mapping(&mut self, primary: u64) -> (replica: Option<u64>)
        ensures
            replica == mapped(*old(self), primary),
            final(self).element_mappings@ == old(self).element_mappings@.remove(primary),
            same_but_mappings(*old(self), *final(self)),
    {
        let replica = self.element_mappings.remove(&primary);
        proof {
            if replica is None {
                assert(self.element_mappings@ =~= old(self).element_mappings@.remove(primary));
            }
        }
        replica
    }

    /// The object that stands for one of the primary.
    pub fn get_replica(&self, primary: u64) -> (replica: Option<u64>)
        ensures
            replica == mapped(*self, primary),
    {
        match self.element_mappings.get(&primary) {
            Some(replica) => Some(*replica),
            None => None,
        }
    }

    fn get_clip_core_element(&self, clip: u64, asset: Option<u64>) -> (element: Option<u64>)
        requires
            self.core_track_elements@.dom().contains(clip),
        ensures
            element == core_of_asset(self.core_track_elements@[clip]@, asset),
    {
        match self.core_track_elements.get(&clip) {
            Some(cores) => {
                let mut i: usize = 0;
                proof {
                    assert(cores@.skip(0) =~= cores@);
                }
                while i < cores.len()
                    invariant
                        i <= cores.len(),
                        *cores == self.core_track_elements@[clip],
                        core_of_asset(cores@, asset) == core_of_asset(cores@.skip(i as int), asset),
                    decreases cores.len() - i,
                {
                    let same = match (cores[i].asset, asset) {
                        (Some(a), Some(b)) => a == b,
                        (None, None) => true,
                        _ => false,
                    };
                    if same {
                        return Some(cores[i].element);
                    }
                    proof {
                        assert(cores@.skip(i as int).skip(1) =~= cores@.skip(i + 1));
                    }
                    i = i + 1;
                }
                None
            },
            None => None,
        }
    }

    /// A clip of the replica is in its layer: its core elements are known from then on, and it
    /// stands for the clip of the primary.
    pub fn layer_add_clip(&mut self, primary_clip: u64, clip: u64, cores: Vec<CoreElement>)
        ensures
            final(self).element_mappings@ == old(self).element_mappings@.insert(primary_clip, clip),
            final(self).core_track_elements@ == old(self).core_track_elements@.insert(clip, cores),
            final(self).property_bindings == old(self).property_bindings,
            final(self).id == old(self).id,
            final(self).timeline == old(self).timeline,
            knows_cores(*final(self), primary_clip),
    {
        self.core_track_elements.insert(clip, cores);
        self.add_mapping(primary_clip, clip);
    }

    /// Where the replica of a track element comes from.
    pub fn element_source(&self, primary_clip: u64, element: &TrackElement) -> (r: Result<
        (u64, ElementSource),
        ReplicaError,
    >)
        requires
            knows_cores(*self, primary_clip),
        ensures
            r == element_source_spec(*self, primary_clip, *element),
    {
        let clip = match self.get_replica(primary_clip) {
            Some(clip) => clip,
            None => return Err(ReplicaError::ClipNotFound),
        };
        if let Some(existing) = self.get_replica(element.id) {
            return Ok((clip, ElementSource::Existing(existing)));
        }
        if element.is_core {
            match self.get_clip_core_element(clip, element.asset) {
                Some(core) => Ok((clip, ElementSource::Core(core))),
                None => Err(ReplicaError::CoreElementNotFound),
            }
        } else {
            Ok((clip, ElementSource::Extract))
        }
    }

    /// Finds or takes in the replica of a track element that is to be added to the replica of a
    /// clip. `extracted` is what extracting the element's asset brought, where `element_source`
    /// asks for that.
    pub fn clip_add_track_element(
        &mut self,
        primary_clip: u64,
        element: &TrackElement,
        extracted: Option<u64>,
    ) -> (r: Result<AddedElement, ReplicaError>)
        requires
            knows_cores(*old(self), primary_clip),
        ensures
            (final(self).element_mappings@, r) == add_element_spec(
                *old(self),
                primary_clip,
                *element,
                extracted,
            ),
            same_but_mappings(*old(self), *final(self)),
    {
        match self.element_source(primary_clip, element) {
            Err(e) => Err(e),
            Ok((clip, source)) => match source {
                ElementSource::Existing(existing) => Ok(
                    AddedElement { clip, element: existing, name_it: false },
                ),
                ElementSource::Core(core) => {
                    self.add_mapping(element.id, core);
                    Ok(AddedElement { clip, element: core, name_it: true })
                },
                ElementSource::Extract => match extracted {
                    Some(new) => {
                        self.add_mapping(element.id, new);
                        Ok(AddedElement { clip, element: new, name_it: true })
                    },
                    None => Err(ReplicaError::ExtractionFailed),
                },
            },
        }
    }

    /// What becomes of a property of a child of a track element: a control binding, under its full
    /// or else under its bare name, is replicated; without one the property itself is bound.
    pub fn child_property_action(
        property: &ChildProperty,
        full_is_controlled: bool,
        bare_is_controlled: bool,
    ) -> (action: ChildPropertyAction)
        ensures
            property_action_is(*property, full_is_controlled, bare_is_controlled, action),
    {
        if !property.writable || !property.readable {
            return ChildPropertyAction::Skip;
        }
        let full_name = full_property_name(property.owner.as_str(), property.name.as_str());
        if full_is_controlled {
            ChildPropertyAction::ReplicateControl(full_name)
        } else if bare_is_controlled {
            ChildPropertyAction::ReplicateControl(property.name.clone())
        } else {
            ChildPropertyAction::Bind(full_name)
        }
    }

    /// Remembers a binding of a property of a child of the replica, under its full name.
    pub fn property_bound(&mut self, child: u64, owner: &str, name: &str, binding: u64)
        requires
            old(self).property_bindings.wf(),
        ensures
            final(self).property_bindings.wf(),
            final(self).property_bindings@ == old(self).property_bindings@.insert(
                (child, super::names::full_name_of(owner@, name@)),
                binding,
            ),
            same_but_bindings(*old(self), *final(self)),
    {
        self.property_bindings.insert(child, full_property_name(owner, name), binding);
    }

    /// The element to take out of a clip, both of the replica. The element stands for nothing from
    /// then on.
    pub fn clip_remove_track_element(&mut self, primary_clip: u64, element: u64) -> (r: Result<
        (u64, u64),
        ReplicaError,
    >)
        ensures
            r == match (mapped(*old(self), primary_clip), mapped(*old(self), element)) {
                (None, _) => Err::<(u64, u64), ReplicaError>(ReplicaError::ClipNotFound),
                (Some(_), None) => Err(ReplicaError::ElementNotFound),
                (Some(clip), Some(child)) => Ok((clip, child)),
            },
            final(self).element_mappings@ == if r is Ok {
                old(self).element_mappings@.remove(element)
            } else {
                old(self).element_mappings@
            },
            same_but_mappings(*old(self), *final(self)),
    {
        let clip = match self.get_replica(primary_clip) {
            Some(clip) => clip,
            None => return Err(ReplicaError::ClipNotFound),
        };
        match self.take_mapping(element) {
            Some(child) => Ok((clip, child)),
            None => {
                proof {
                    assert(self.element_mappings@ =~= old(self).element_mappings@);
                }
                Err(ReplicaError::ElementNotFound)
            },
        }
    }

    /// The track to remove, which stands for nothing from then on.
    pub fn remove_track(&mut self, primary_track: u64) -> (r: Result<u64, ReplicaError>)
        ensures
            r == match mapped(*old(self), primary_track) {
                Some(track) => Ok::<u64, ReplicaError>(track),
                None => Err(ReplicaError::TrackNotFound),
            },
            mapped(*final(self), primary_track) is None,
            final(self).element_mappings@ == old(self).element_mappings@.remove(primary_track),
            same_but_mappings(*old(self), *final(self)),
    {
        match self.take_mapping(primary_track) {
            Some(track) => Ok(track),
            None => Err(ReplicaError::TrackNotFound),
        }
    }

    /// The layer to remove, which stands for nothing from then on.
    pub fn remove_layer(&mut self, primary_layer: u64) -> (r: Result<u64, ReplicaError>)
        ensures
            r == match mapped(*old(self), primary_layer) {
                Some(layer) => Ok::<u64, ReplicaError>(layer),
                None => Err(ReplicaError::LayerNotFound),
            },
            mapped(*final(self), primary_layer) is None,
            final(self).element_mappings@ == old(self).element_mappings@.remove(primary_layer),
            same_but_mappings(*old(self), *final(self)),
    {
        match self.take_mapping(primary_layer) {
            Some(layer) => Ok(layer),
            None => Err(ReplicaError::LayerNotFound),
        }
    }

    /// The clip to remove from its layer. It stands for nothing from then on, and its core elements
    /// are forgotten.
    pub fn remove_clip(&mut self, primary_clip: u64) -> (r: Result<u64, ReplicaError>)
        ensures
            r == match mapped(*old(self), primary_clip) {
                Some(clip) => Ok::<u64, ReplicaError>(clip),
                None => Err(ReplicaError::ClipNotFound),
            },
            mapped(*final(self), primary_clip) is None,
            r matches Ok(clip) ==> !final(self).core_track_elements@.dom().contains(clip),
            final(self).element_mappings@ == old(self).element_mappings@.remove(primary_clip),
            final(self).core_track_elements@ == match r {
                Ok(clip) => old(self).core_track_elements@.remove(clip),
                Err(_) => old(self).core_track_elements@,
            },
            final(self).property_bindings == old(self).property_bindings,
            final(self).id == old(self).id,
            final(self).timeline == old(self).timeline,
    {
        match self.take_mapping(primary_clip) {
            Some(clip) => {
                let ghost before = self.core_track_elements@;
                let removed = self.core_track_elements.remove(&clip);
                proof {
                    if removed is None {
                        assert(self.core_track_elements@ =~= before.remove(clip));
                    }
                }
                Ok(clip)
            },
            None => Err(ReplicaError::ClipNotFound),
        }
    }
}

/// The object that stands for one of the primary, where there is one.
pub open spec fn mapped(replica: Replica, primary: u64) -> Option<u64> {
    if replica.element_mappings@.dom().contains(primary) {
        Some(replica.element_mappings@[primary])
    } else {
        None
    }
}

/// Two replicas that agree in everything but their mappings.
pub open spec fn same_but_mappings(a: Replica, b: Replica) -> bool {
    &&& a.id == b.id
    &&& a.timeline == b.timeline
    &&& a.core_track_elements == b.core_track_elements
    &&& a.property_bindings == b.property_bindings
}

/// Two replicas that agree in everything but their bindings.
pub open spec fn same_but_bindings(a: Replica, b: Replica) -> bool {
    &&& a.id == b.id
    &&& a.timeline == b.timeline
    &&& a.core_track_elements == b.core_track_elements
    &&& a.element_mappings == b.element_mappings
}

/// The numbers of all track elements of a clip, in their order.
pub open spec fn all_ids(elements: Seq<TrackElement>) -> Seq<u64> {
    Seq::new(elements.len(), |i: int| elements[i].id)
}

/// Every track element of a clip is added to the replica, and as often as it is in the clip.
pub proof fn law_every_element_is_added(elements: Seq<TrackElement>)
    ensures
        core_first(elements).to_multiset() == all_ids(elements).to_multiset(),
    decreases elements.len(),
{
    broadcast use vstd::seq_lib::group_to_multiset_ensures;

    if elements.len() == 0 {
        assert(core_first(elements) =~= all_ids(elements));
    } else {
        let shorter = elements.drop_last();
        let id = elements.last().id;
        law_every_element_is_added(shorter);
        assert(all_ids(elements) =~= all_ids(shorter).push(id));
        let (a, b) = (ids_of(shorter, true), ids_of(shorter, false));
        if elements.last().is_core {
            vstd::seq_lib::lemma_multiset_commutative(a.push(id), b);
            vstd::seq_lib::lemma_multiset_commutative(a, b);
            assert(core_first(elements) =~= a.push(id) + b);
        } else {
            vstd::seq_lib::lemma_multiset_commutative(a, b.push(id));
            vstd::seq_lib::lemma_multiset_commutative(a, b);
            assert(core_first(elements) =~= a + b.push(id));
        }
        assert(core_first(elements).to_multiset() =~= all_ids(elements).to_multiset());
    }
}

/// Core elements are added before all others, and within each group the elements stay in the order
/// that they have in the clip.
pub proof fn law_core_elements_come_first(elements: Seq<TrackElement>)
    ensures
        ({
            let id = |element: TrackElement| element.id;
            let cores = elements.filter(|element: TrackElement| element.is_core);
            let others = elements.filter(|element: TrackElement| !element.is_core);
            core_first(elements) == cores.map_values(id) + others.map_values(id)
        }),
    decreases elements.len(),
{
    reveal(Seq::filter);
    let id = |element: TrackElement| element.id;
    let cores = elements.filter(|element: TrackElement| element.is_core).map_values(id);
    let others = elements.filter(|element: TrackElement| !element.is_core).map_values(id);
    lemma_ids_are_filtered(elements);
    assert(core_first(elements) =~= cores + others);
}

proof fn lemma_ids_are_filtered(elements: Seq<TrackElement>)
    ensures
        ids_of(elements, true) == elements.filter(
            |element: TrackElement| element.is_core,
        ).map_values(|element: TrackElement| element.id),
        ids_of(elements, false) == elements.filter(
            |element: TrackElement| !element.is_core,
        ).map_values(|element: TrackElement| element.id),
    decreases elements.len(),
{
    reveal(Seq::filter);
    let id = |element: TrackElement| element.id;
    let core = |element: TrackElement| element.is_core;
    let other = |element: TrackElement| !element.is_core;
    if elements.len() > 0 {
        lemma_ids_are_filtered(elements.drop_last());
        assert(ids_of(elements, true) =~= elements.filter(core).map_values(id));
        assert(ids_of(elements, false) =~= elements.filter(other).map_values(id));
    } else {
        assert(ids_of(elements, true) =~= elements.filter(core).map_values(id));
        assert(ids_of(elements, false) =~= elements.filter(other).map_values(id));
    }
}

/// The core element for an asset is the first one that was made from it, and there is one wherever
/// one was made from it.
pub proof fn law_first_core_of_an_asset(cores: Seq<CoreElement>, asset: Option<u64>)
    ensures
        match core_of_asset(cores, asset) {
            Some(element) => exists|i: int|
                #![trigger cores[i]]
                0 <= i < cores.len() && cores[i].asset == asset && cores[i].element == element
                    && forall|k: int| 0 <= k < i ==> (#[trigger] cores[k]).asset != asset,
            None => forall|k: int| 0 <= k < cores.len() ==> (#[trigger] cores[k]).asset != asset,
        },
    decreases cores.len(),
{
    if cores.len() > 0 {
        let rest = cores.skip(1);
        if cores[0].asset != asset {
            law_first_core_of_an_asset(rest, asset);
            match core_of_asset(rest, asset) {
                Some(element) => {
                    let i = choose|i: int|
                        #![trigger rest[i]]
                        0 <= i < rest.len() && rest[i].asset == asset && rest[i].element == element
                            && forall|k: int| 0 <= k < i ==> (#[trigger] rest[k]).asset != asset;
                    assert(cores[i + 1] == rest[i]);
                    assert forall|k: int| 0 <= k < i + 1 implies (#[trigger] cores[k]).asset
                        != asset by {
                        if k > 0 {
                            assert(cores[k] == rest[k - 1]);
                        }
                    }
                },
                None => {
                    assert forall|k: int| 0 <= k < cores.len() implies (#[trigger] cores[k]).asset
                        != asset by {
                        if k > 0 {
                            assert(cores[k] == rest[k - 1]);
                        }
                    }
                },
            }
        } else {
            assert(cores[0].element == core_of_asset(cores, asset)->0);
        }
    }
}

/// What adding a track element comes to: it goes into the replica of its own clip, stands for the
/// element of the primary from then on, and every other object keeps what stands for it. An element
/// that is there is used again, under the name that it has; a core element comes from those of the
/// clip, by its asset; any other is what was extracted. Where the clip, the core element or the
/// extraction is missing, nothing changes.
pub proof fn law_elements_go_into_their_clip(
    replica: Replica,
    clip: u64,
    element: TrackElement,
    extracted: Option<u64>,
    other: u64,
)
    ensures
        ({
            let before = replica.element_mappings@;
            let (after, r) = add_element_spec(replica, clip, element, extracted);
            let known = before.dom().contains(element.id);
            let cores = replica.core_track_elements@[before[clip]]@;
            &&& r is Err ==> after == before
            &&& !before.dom().contains(clip) ==> r == Err::<AddedElement, ReplicaError>(
                ReplicaError::ClipNotFound,
            )
            &&& r matches Ok(added) ==> {
                &&& before.dom().contains(clip) && added.clip == before[clip]
                &&& after.dom().contains(element.id) && after[element.id] == added.element
                &&& added.name_it == !known
                &&& known ==> after == before
                &&& !known && element.is_core ==> core_of_asset(cores, element.asset) == Some(
                    added.element,
                )
                &&& !known && !element.is_core ==> extracted == Some(added.element)
                &&& other != element.id ==> after.dom().contains(other) == before.dom().contains(
                    other,
                ) && after[other] == before[other]
            }
            &&& before.dom().contains(clip) && known ==> r is Ok
            &&& before.dom().contains(clip) && !known && element.is_core ==> (r is Ok <==> core_of_asset(
                cores,
                element.asset,
            ) is Some)
            &&& before.dom().contains(clip) && !known && !element.is_core ==> (r is Ok
                <==> extracted is Some)
        }),
{
}

/// Adding an element again changes nothing and finds the same one.
pub proof fn law_adding_again_finds_the_same(
    before: Replica,
    after: Replica,
    clip: u64,
    element: TrackElement,
    extracted: Option<u64>,
    again: Option<u64>,
)
    requires
        add_element_spec(before, clip, element, extracted).1 is Ok,
        after.element_mappings@ == add_element_spec(before, clip, element, extracted).0,
        element.id != clip,
    ensures
        add_element_spec(after, clip, element, again).0 == after.element_mappings@,
        add_element_spec(after, clip, element, again).1 matches Ok(added) && {
            let first = add_element_spec(before, clip, element, extracted).1->Ok_0;
            added.clip == first.clip && added.element == first.element && !added.name_it
        },
{
}

/// A property that can be read and set is never passed over: it is bound under its full name, unless
/// it is controlled, and then the control is replicated under the name that it stands under, the full
/// one before the bare one. Any other property is left alone, whatever controls it.
pub proof fn law_child_properties_are_bound_or_controlled(
    property: ChildProperty,
    full: bool,
    bare: bool,
    action: ChildPropertyAction,
)
    requires
        property_action_is(property, full, bare, action),
    ensures
        (action is Skip) <==> !(property.readable && property.writable),
        (action is Bind) ==> !full && !bare,
        (action is ReplicateControl) ==> full || bare,
        action matches ChildPropertyAction::Bind(name) ==> name@ == property.owner@ + "::"@
            + property.name@,
        action matches ChildPropertyAction::ReplicateControl(name) ==> name@ == if full {
            property.owner@ + "::"@ + property.name@
        } else {
            property.name@
        },
{
}

} // verus!
