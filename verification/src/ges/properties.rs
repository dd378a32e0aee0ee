//! Which properties of a primary its replica takes over, and how.

use super::names::{copied_replica_name, timeline_replica_name};
use crate::text::str_eq;
use vstd::prelude::*;

verus! {

/// The kinds of objects that are replicated.
#[derive(Debug, Clone, Copy, PartialEq, Eq, Structural)]
pub enum ReplicaKind {
    /// Extracted from its asset, and bound to the primary from then on.
    Clip,
    /// The same.
    TrackElement,
    /// Made property by property.
    Layer,
    /// The same.
    Track,
    /// The same.
    ControlSource,
    /// There already; it takes the properties over.
    Timeline,
}

/// A property of a primary, with its value where that is text.
#[derive(Debug)]
pub struct Property {
    pub name: String,
    pub readable: bool,
    pub writable: bool,
    pub construct_only: bool,
    pub text: Option<String>,
}

/// A property to take over: its place among the primary's, and its value where that is another
/// one on the replica.
#[derive(Debug)]
pub struct TakenProperty {
    pub position: usize,
    pub renamed: Option<String>,
}

/// The properties that a replica of a kind never takes over: where it is and what is in it, and,
/// of a timeline, what belongs to editing.
pub open spec fn skipped(kind: ReplicaKind, name: Seq<char>) -> bool {
    match kind {
        ReplicaKind::Clip => name == "layer"@ || name == "tracks"@ || name == "children"@ || name
            == "timeline"@ || name == "parent"@,
        ReplicaKind::TrackElement => name == "tracks"@ || name == "children"@ || name
            == "timeline"@ || name == "parent"@ || name == "inpoint"@ || name == "start"@ || name
            == "duration"@,
        ReplicaKind::Layer => false,
        ReplicaKind::Track => name == "parent"@ || name == "duration"@,
        ReplicaKind::ControlSource => name == "parent"@,
        ReplicaKind::Timeline => name == "auto-transition"@ || name == "snapping-distance"@ || name
            == "parent"@,
    }
}

/// Whether a replica of a kind never takes a property over.
pub fn is_skipped(kind: ReplicaKind, name: &str) -> (r: bool)
    ensures
        r == skipped(kind, name@),
{
    match kind {
        ReplicaKind::Clip => str_eq(name, "layer") || str_eq(name, "tracks") || str_eq(
            name,
            "children",
        ) || str_eq(name, "timeline") || str_eq(name, "parent"),
        ReplicaKind::TrackElement => str_eq(name, "tracks") || str_eq(name, "children") || str_eq(
            name,
            "timeline",
        ) || str_eq(name, "parent") || str_eq(name, "inpoint") || str_eq(name, "start") || str_eq(
            name,
            "duration",
        ),
        ReplicaKind::Layer => false,
        ReplicaKind::Track => str_eq(name, "parent") || str_eq(name, "duration"),
        ReplicaKind::ControlSource => str_eq(name, "parent"),
        ReplicaKind::Timeline => str_eq(name, "auto-transition") || str_eq(
            name,
            "snapping-distance",
        ) || str_eq(name, "parent"),
    }
}

/// Whether a kind is extracted from its asset.
pub open spec fn from_asset(kind: ReplicaKind) -> bool {
    kind == ReplicaKind::Clip || kind == ReplicaKind::TrackElement
}

/// Whether a replica of a kind takes a property over. One from an asset is bound to what can be
/// set later on, but for its name; any other takes what can be read and set.
pub open spec fn taken(kind: ReplicaKind, property: Property) -> bool {
    &&& property.writable
    &&& !skipped(kind, property.name@)
    &&& if from_asset(kind) {
        !property.construct_only && property.name@ != "name"@
    } else {
        property.readable
    }
}

/// Whether a replica of a kind takes a property over.
pub fn is_taken(kind: ReplicaKind, property: &Property) -> (r: bool)
    ensures
        r == taken(kind, *property),
{
    if !property.writable || is_skipped(kind, property.name.as_str()) {
        return false;
    }
    match kind {
        ReplicaKind::Clip | ReplicaKind::TrackElement => !property.construct_only && !str_eq(
            property.name.as_str(),
            "name",
        ),
        _ => property.readable,
    }
}

/// The value of a property on a replica, where it is not the primary's: names are made to differ.
pub open spec fn renamed_value(kind: ReplicaKind, replica: u64, property: Property) -> Option<
    Seq<char>,
> {
    if property.name@ != "name"@ || from_asset(kind) {
        None
    } else if kind == ReplicaKind::Timeline {
        Some(
            super::names::timeline_name(
                replica,
                match property.text {
                    Some(text) => Some(text@),
                    None => None,
                },
            ),
        )
    } else {
        Some(super::names::copied_name(replica, property.text->0@))
    }
}

/// Whether every property that has to be renamed has a name to start from. Timelines need none.
pub open spec fn nameable(kind: ReplicaKind, properties: Seq<Property>) -> bool {
    !from_asset(kind) && kind != ReplicaKind::Timeline ==> forall|i: int|
        0 <= i < properties.len() && taken(kind, #[trigger] properties[i]) && properties[i].name@
            == "name"@ ==> properties[i].text is Some
}

/// The properties that a replica of a kind takes over from its primary, in their order.
pub fn taken_properties(kind: ReplicaKind, replica: u64, properties: &Vec<Property>) -> (r: Vec<
    TakenProperty,
>)
    requires
        nameable(kind, properties@),
    ensures
        forall|k: int|
            0 <= k < r.len() ==> {
                &&& (#[trigger] r[k]).position < properties.len()
                &&& taken(kind, properties[r[k].position as int])
                &&& match r[k].renamed {
                    Some(text) => Some(text@),
                    None => None,
                } == renamed_value(kind, replica, properties[r[k].position as int])
            },
        forall|i: int, j: int|
            0 <= i < j < r.len() ==> (#[trigger] r[i]).position < (#[trigger] r[j]).position,
        forall|p: int|
            0 <= p < properties.len() && taken(kind, #[trigger] properties[p]) ==> exists|k: int|
                0 <= k < r.len() && (#[trigger] r[k]).position == p,
{
    let mut r: Vec<TakenProperty> = Vec::new();
    let mut i: usize = 0;
    while i < properties.len()
        invariant
            nameable(kind, properties@),
            i <= properties.len(),
            forall|k: int|
                0 <= k < r.len() ==> {
                    &&& (#[trigger] r[k]).position < i
                    &&& taken(kind, properties[r[k].position as int])
                    &&& match r[k].renamed {
                        Some(text) => Some(text@),
                        None => None,
                    } == renamed_value(kind, replica, properties[r[k].position as int])
                },
            forall|a: int, b: int|
                0 <= a < b < r.len() ==> (#[trigger] r[a]).position < (#[trigger] r[b]).position,
            forall|p: int|
                0 <= p < i && taken(kind, #[trigger] properties[p]) ==> exists|k: int|
                    0 <= k < r.len() && (#[trigger] r[k]).position == p,
        decreases properties.len() - i,
    {
        let property = &properties[i];
        let ghost before = r@;
        if is_taken(kind, property) {
            let renamed = if str_eq(property.name.as_str(), "name") {
                match kind {
                    ReplicaKind::Clip | ReplicaKind::TrackElement => None,
                    ReplicaKind::Timeline => {
                        let text = match &property.text {
                            Some(text) => Some(text.as_str()),
                            None => None,
                        };
                        Some(timeline_replica_name(replica, text))
                    },
                    _ => match &property.text {
                        Some(text) => Some(copied_replica_name(replica, text.as_str())),
                        None => None,
                    },
                }
            } else {
                None
            };
            r.push(TakenProperty { position: i, renamed });
            proof {
                let last = r@.len() - 1;
                assert(r@[last].position == i);
                assert forall|p: int|
                    0 <= p < i + 1 && taken(kind, #[trigger] properties[p]) implies exists|k: int|
                    0 <= k < r.len() && (#[trigger] r[k]).position == p by {
                    if p < i {
                        let k = choose|k: int|
                            0 <= k < before.len() && (#[trigger] before[k]).position == p;
                        assert(r@[k] == before[k]);
                        assert(r[k].position == p);
                    } else {
                        assert(r[last].position == p);
                    }
                }
            }
        }
        i = i + 1;
    }
    r
}

/// A replica of a timeline cannot be edited: what belongs to editing is not taken over, whatever
/// the primary has.
pub proof fn law_editing_is_not_replicated(property: Property)
    requires
        property.name@ == "auto-transition"@ || property.name@ == "snapping-distance"@,
    ensures
        !taken(ReplicaKind::Timeline, property),
{
}

/// A clip of a replica follows its primary in everything that can be set later on, but for its name
/// and for what says where it is: layer, tracks, children, timeline and parent, and these alone. So
/// it follows when the primary's clip is moved, trimmed or made longer.
pub proof fn law_clips_follow_in_all_but_their_place(property: Property)
    ensures
        ({
            let name = property.name@;
            let placed = name == "layer"@ || name == "tracks"@ || name == "children"@ || name
                == "timeline"@ || name == "parent"@;
            taken(ReplicaKind::Clip, property) <==> property.writable && !property.construct_only
                && name != "name"@ && !placed
        }),
        property.writable && !property.construct_only && (property.name@ == "start"@
            || property.name@ == "in-point"@ || property.name@ == "duration"@ || property.name@
            == "priority"@ || property.name@ == "max-duration"@) ==> taken(
            ReplicaKind::Clip,
            property,
        ),
{
    reveal_strlit("layer");
    reveal_strlit("tracks");
    reveal_strlit("children");
    reveal_strlit("timeline");
    reveal_strlit("parent");
    reveal_strlit("name");
    reveal_strlit("start");
    reveal_strlit("in-point");
    reveal_strlit("duration");
    reveal_strlit("priority");
    reveal_strlit("max-duration");
    let s = "start"@;
    let d = "duration"@;
    let i = "in-point"@;
    let p = "priority"@;
    assert(s[0] == 's' && d[0] == 'd' && i[0] == 'i' && p[0] == 'p');
    assert("layer"@[0] == 'l' && "children"@[0] == 'c' && "timeline"@[0] == 't');
    assert("layer"@.len() == 5 && "tracks"@.len() == 6 && "parent"@.len() == 6 && "name"@.len() == 4);
    assert("children"@.len() == 8 && "timeline"@.len() == 8);
    assert(s.len() == 5 && d.len() == 8 && i.len() == 8 && p.len() == 8);
    assert("max-duration"@.len() == 12);
    assert(s != "layer"@);
    assert(d != "children"@ && d != "timeline"@);
    assert(i != "children"@ && i != "timeline"@);
    assert(p != "children"@ && p != "timeline"@);
}

/// A track element follows its primary in everything that can be set later on, but for its name,
/// for what says where it is, and for its times, which are those of its clip.
pub proof fn law_track_elements_leave_their_times_to_the_clip(property: Property)
    ensures
        ({
            let name = property.name@;
            let placed = name == "tracks"@ || name == "children"@ || name == "timeline"@ || name
                == "parent"@;
            let timed = name == "inpoint"@ || name == "start"@ || name == "duration"@;
            taken(ReplicaKind::TrackElement, property) <==> property.writable
                && !property.construct_only && name != "name"@ && !placed && !timed
        }),
{
}

/// Layers, tracks, sources and timelines take over what can be read and set, their names too. A
/// layer takes all of it; a track leaves out its parent and its duration, a source its parent, and a
/// timeline its parent and the two properties for editing.
pub proof fn law_copies_take_what_can_be_read_and_set(property: Property)
    ensures
        ({
            let name = property.name@;
            let both = property.readable && property.writable;
            &&& taken(ReplicaKind::Layer, property) <==> both
            &&& taken(ReplicaKind::Track, property) <==> both && name != "parent"@ && name
                != "duration"@
            &&& taken(ReplicaKind::ControlSource, property) <==> both && name != "parent"@
            &&& taken(ReplicaKind::Timeline, property) <==> both && name != "parent"@ && name
                != "auto-transition"@ && name != "snapping-distance"@
        }),
{
}

/// A replica never takes over what cannot be set, nor the primary's parent, but for a layer; and
/// whether it takes a property over does not depend on the property's value.
pub proof fn law_values_do_not_matter(kind: ReplicaKind, property: Property, text: Option<String>)
    ensures
        !property.writable ==> !taken(kind, property),
        property.name@ == "parent"@ && kind != ReplicaKind::Layer ==> !taken(kind, property),
        taken(kind, property) == taken(kind, Property { text, ..property }),
{
}

/// Values are taken over as they are, but for names: these are made to differ from one replica to
/// the next, and, but for objects from assets, none stays what it was.
pub proof fn law_only_names_are_changed(kind: ReplicaKind, a: u64, b: u64, property: Property)
    requires
        a != b,
        kind == ReplicaKind::Timeline || property.text is Some,
    ensures
        property.name@ != "name"@ ==> renamed_value(kind, a, property) is None,
        kind == ReplicaKind::Clip || kind == ReplicaKind::TrackElement ==> renamed_value(
            kind,
            a,
            property,
        ) is None,
        property.name@ == "name"@ && kind != ReplicaKind::Clip && kind != ReplicaKind::TrackElement
            ==> {
            &&& renamed_value(kind, a, property) is Some
            &&& renamed_value(kind, a, property) != renamed_value(kind, b, property)
            &&& property.text matches Some(text) ==> renamed_value(kind, a, property)->0 != text@
        },
{
    let old_name = match property.text {
        Some(text) => text@,
        None => Seq::empty(),
    };
    super::names::law_names_tell_replicas_apart(a, b, old_name);
}

} // verus!
