use media_plugins::ges::control::{
    binding_mode, keyframe_action, replicate_control_binding, BindingAdded, BindingRemoved,
    ControlBinding, ControlError, ControlSource, KeyframeAction, KeyframeChange,
};
use media_plugins::ges::copy::{copy_timeline, Clip, CopyStep, Layer, TimelineContent};
use media_plugins::ges::formatter::{FormatterError, SubTimelineFormatter};
use media_plugins::ges::manager::{
    clip_membership_counts, clip_notification, ClipNotification, ManagerError, SignalsHandler,
    SubtimelinePrimaryManager,
};
use media_plugins::ges::names::{
    bare_property_name, copied_replica_name, extracted_replica_name, full_property_name,
    timeline_replica_name,
};
use media_plugins::ges::properties::{is_taken, taken_properties, Property, ReplicaKind};
use media_plugins::ges::replica::{
    addition_order, ChildProperty, ChildPropertyAction, CoreElement, ElementSource, Replica,
    ReplicaError, TrackElement,
};
use media_plugins::ges::validate::{
    load_failure, register_failure, register_validate_actions, timeline_source, unregister_failure,
    TimelineSource,
};

#[test]
fn test_is_subtimeline_uri() {
    assert!(SubTimelineFormatter::is_subtimeline_uri("gessubtimeline:primary1"));
    assert!(SubTimelineFormatter::is_subtimeline_uri("gessubtimeline:my_primary"));
    assert!(!SubTimelineFormatter::is_subtimeline_uri("file:///tmp/test.xges"));
    assert!(!SubTimelineFormatter::is_subtimeline_uri("http://example.com"));
    assert!(!SubTimelineFormatter::is_subtimeline_uri(""));
}

#[test]
fn test_parse_primary_id_from_uri() {
    let result = SubTimelineFormatter::parse_primary_id_from_uri("gessubtimeline:primary1");
    assert!(result.is_ok());
    assert_eq!(result.unwrap(), "primary1");

    let result = SubTimelineFormatter::parse_primary_id_from_uri("gessubtimeline:my_primary_123");
    assert!(result.is_ok());
    assert_eq!(result.unwrap(), "my_primary_123");

    let result = SubTimelineFormatter::parse_primary_id_from_uri("gessubtimeline:");
    assert!(result.is_err(), "Should fail for empty primary ID");

    let result = SubTimelineFormatter::parse_primary_id_from_uri("file:///tmp/test.xges");
    assert!(result.is_err(), "Should fail for non-subtimeline URI");
}

#[test]
fn test_formatter_can_load_uri() {
    let formatter = SubTimelineFormatter;

    let result = formatter.can_load_uri("gessubtimeline:primary1");
    assert!(result.is_ok(), "Should accept subtimeline URI");

    let result = formatter.can_load_uri("file:///tmp/test.xges");
    assert!(result.is_err(), "Should reject non-subtimeline URI");

    let result = formatter.can_load_uri("");
    assert!(result.is_err(), "Should reject empty URI");
}

#[test]
fn test_formatter_load_from_uri() {
    let mut manager = SubtimelinePrimaryManager::new();
    let formatter = SubTimelineFormatter;
    let timeline = 1;

    let result =
        formatter.load_from_uri(&mut manager, timeline, "gessubtimeline:nonexistent", &vec![]);
    assert!(result.is_err(), "Should fail for nonexistent primary");

    let result = formatter.load_from_uri(&mut manager, timeline, "file:///tmp/test.xges", &vec![]);
    assert!(result.is_err(), "Should fail for non-subtimeline URI");

    let primary_timeline = 2;
    manager
        .register_primary("test_primary", primary_timeline, false)
        .expect("Failed to register primary");

    let replica_timeline = 3;
    let result = formatter.load_from_uri(
        &mut manager,
        replica_timeline,
        "gessubtimeline:test_primary",
        &vec![],
    );
    assert!(result.is_ok(), "Should succeed loading from registered primary");

    manager.unregister_primary("test_primary").expect("Failed to unregister primary");
}

#[test]
fn test_formatter_save_to_uri() {
    let formatter = SubTimelineFormatter;
    let timeline = 1;
    let result = formatter.save_to_uri(timeline, "gessubtimeline:primary1", false);
    assert!(result.is_ok(), "Save should succeed (no-op for subtimeline replicas)");
}

#[test]
fn formatter_says_what_is_wrong() {
    let text = |r: Result<String, FormatterError>| r.unwrap_err().message();
    assert_eq!(
        text(SubTimelineFormatter::parse_primary_id_from_uri("gessubtimeline:")),
        "Primary ID cannot be empty in gessubtimeline: URI"
    );
    assert_eq!(
        text(SubTimelineFormatter::parse_primary_id_from_uri("http://x")),
        "Invalid subtimeline URI format: http://x"
    );
    assert_eq!(
        SubTimelineFormatter.can_load_uri("http://x").unwrap_err().message(),
        "URI 'http://x' is not a subtimeline reference"
    );
    let mut manager = SubtimelinePrimaryManager::new();
    let load = |manager: &mut SubtimelinePrimaryManager, uri: &str| {
        SubTimelineFormatter.load_from_uri(manager, 1, uri, &vec![]).unwrap_err().message()
    };
    assert_eq!(load(&mut manager, "http://x"), "Not a subtimeline URI");
    assert_eq!(load(&mut manager, "gessubtimeline:x"), "Primary 'x' not found");
}

#[test]
fn test_primary_registration() {
    let mut manager = SubtimelinePrimaryManager::new();
    let timeline = 7;

    let result = manager.register_primary("test_primary", timeline, false);
    assert!(result.is_ok(), "Should successfully register primary");

    let result = manager.register_primary("test_primary", timeline, false);
    assert!(result.is_err(), "Should fail to register duplicate primary");

    let retrieved = manager.primary_timeline("test_primary");
    assert!(retrieved.is_some(), "Should retrieve registered primary");

    let result = manager.unregister_primary("test_primary");
    assert!(result.is_ok(), "Should successfully unregister primary");

    let retrieved = manager.primary_timeline("test_primary");
    assert!(retrieved.is_none(), "Should not retrieve unregistered primary");
}

#[test]
fn registry_refuses_and_says_why() {
    let mut manager = SubtimelinePrimaryManager::new();
    let e = manager.register_primary("a", 1, true).unwrap_err();
    assert!(matches!(e, ManagerError::TimelineInUse));
    assert_eq!(
        e.message(),
        "Timeline is already in use (has parent) and cannot be registered as primary"
    );
    manager.register_primary("a", 1, false).unwrap();
    let e = manager.register_primary_internal("a", 2, false).unwrap_err();
    assert_eq!(e.message(), "Primary with id 'a' already exists");
    assert_eq!(manager.get_primary("a"), Some(1));
    assert_eq!(manager.get_primary_id(1).as_deref(), Some("a"));
    assert_eq!(manager.get_primary_id(2), None);
    assert!(manager.is_primary(1));
    assert!(!manager.is_primary(2));
    let e = manager.unregister_primary("b").unwrap_err();
    assert_eq!(e.message(), "Primary with id 'b' not found");
    assert_eq!(manager.unregister_primary("a").unwrap(), 1);
}

fn element(id: u64, is_core: bool, asset: u64) -> TrackElement {
    TrackElement { id, is_core, asset: Some(asset) }
}

// A replica timeline that follows the steps of a copy: objects of the primary keep their number
// plus a thousand.
struct ReplicaTimeline {
    tracks: Vec<u64>,
    layers: Vec<(u64, Vec<u64>)>,
}

fn copied(manager: &mut SubtimelinePrimaryManager, id: &str, content: &TimelineContent) -> ReplicaTimeline {
    let mut replica = manager.make_replica(id, 99, &vec![]).unwrap();
    let mut timeline = ReplicaTimeline { tracks: vec![], layers: vec![] };
    for step in copy_timeline(content) {
        match step {
            CopyStep::AddTrack { track } => {
                timeline.tracks.push(track + 1000);
                replica.add_mapping(track, track + 1000);
            }
            CopyStep::AddLayer { layer } => {
                timeline.layers.push((layer + 1000, vec![]));
                replica.add_mapping(layer, layer + 1000);
            }
            CopyStep::AddClip { layer, clip } => {
                let layer = replica.get_replica(layer).unwrap();
                timeline.layers.iter_mut().find(|l| l.0 == layer).unwrap().1.push(clip + 1000);
                replica.layer_add_clip(clip, clip + 1000, vec![]);
            }
            CopyStep::AddElement { clip, element } => {
                assert_eq!(replica.get_replica(clip), Some(clip + 1000));
                replica.add_mapping(element, element + 1000);
            }
        }
    }
    manager.replica_made(id, replica, &vec![]);
    timeline
}

#[test]
fn test_replica_creation() {
    let mut manager = SubtimelinePrimaryManager::new();
    let primary = 1;
    let content = TimelineContent { tracks: vec![10], layers: vec![Layer { id: 20, clips: vec![] }] };
    manager.register_primary("test_primary", primary, false).unwrap();

    let result = manager.make_replica("test_primary", 2, &vec![]);
    assert!(result.is_ok(), "Should successfully make replica from primary");

    let replica = copied(&mut manager, "test_primary", &content);
    assert_eq!(
        replica.tracks.len(),
        content.tracks.len(),
        "Instance should have same number of tracks"
    );
    assert_eq!(
        replica.layers.len(),
        content.layers.len(),
        "Instance should have same number of layers"
    );
    manager.unregister_primary("test_primary").unwrap();
}

fn property(name: &str, text: Option<&str>) -> Property {
    Property {
        name: name.to_string(),
        readable: true,
        writable: true,
        construct_only: false,
        text: text.map(|t| t.to_string()),
    }
}

// A timeline with the properties that matter for editing.
#[derive(Debug, Clone, PartialEq)]
struct EditedTimeline {
    auto_transition: bool,
    snapping_distance: u64,
    auto_commit: bool,
    name: String,
}

impl EditedTimeline {
    fn properties(&self) -> Vec<Property> {
        vec![
            property("auto-transition", None),
            property("snapping-distance", None),
            property("auto-commit", None),
            property("name", Some(self.name.as_str())),
        ]
    }

    // Takes the properties of a primary that a replica takes.
    fn follow(&mut self, primary: &EditedTimeline, replica: u64) {
        for taken in taken_properties(ReplicaKind::Timeline, replica, &primary.properties()) {
            match taken.position {
                0 => self.auto_transition = primary.auto_transition,
                1 => self.snapping_distance = primary.snapping_distance,
                2 => self.auto_commit = primary.auto_commit,
                _ => self.name = taken.renamed.unwrap(),
            }
        }
    }
}

#[test]
fn test_replica_editing_disabled() {
    let mut manager = SubtimelinePrimaryManager::new();
    let primary = EditedTimeline {
        auto_transition: true,
        snapping_distance: 10_000_000,
        auto_commit: true,
        name: "timeline0".to_string(),
    };
    manager.register_primary("test_primary", 1, false).unwrap();

    let replica = manager.make_replica("test_primary", 2, &vec![]).unwrap();
    assert_eq!(replica.timeline, 2);
    let mut timeline = EditedTimeline {
        auto_transition: false,
        snapping_distance: 0,
        auto_commit: false,
        name: "timeline1".to_string(),
    };
    timeline.follow(&primary, replica.id);
    assert_eq!(timeline.auto_transition, false, "Auto-transition should be disabled on replica");
    assert_eq!(timeline.snapping_distance, 0);
    assert_eq!(timeline.auto_commit, true);
    assert_eq!(timeline.name, "timeline0_replica_0");

    manager.replica_made("test_primary", replica, &vec![]);
    manager.unregister_primary("test_primary").unwrap();
}

#[test]
fn timelines_take_all_but_what_edits() {
    let timeline = EditedTimeline {
        auto_transition: true,
        snapping_distance: 1,
        auto_commit: true,
        name: "timeline0".to_string(),
    };
    let taken = taken_properties(ReplicaKind::Timeline, 3, &timeline.properties());
    assert_eq!(taken.len(), 2);
    assert_eq!(taken[0].position, 2);
    assert_eq!(taken[0].renamed, None);
    assert_eq!(taken[1].renamed.as_deref(), Some("timeline0_replica_3"));
}

#[test]
fn test_layer_with_clips() {
    let mut manager = SubtimelinePrimaryManager::new();
    manager.register_primary("test_primary", 1, false).unwrap();
    let content = TimelineContent {
        tracks: vec![10],
        layers: vec![Layer {
            id: 20,
            clips: vec![Clip { id: 30, children: vec![element(40, true, 5)] }],
        }],
    };
    let replica = copied(&mut manager, "test_primary", &content);
    assert_eq!(replica.layers.len(), 1, "Should have one layer");
    assert_eq!(replica.layers[0].1, vec![1030]);
    // The duration is one of the properties that a clip takes over.
    assert!(
        is_taken(ReplicaKind::Clip, &property("duration", None)),
        "Clip duration should be preserved"
    );
    manager.unregister_primary("test_primary").unwrap();
}

fn child_property(owner: &str, name: &str) -> ChildProperty {
    ChildProperty {
        owner: owner.to_string(),
        name: name.to_string(),
        readable: true,
        writable: true,
    }
}

// Follows a property of the primary on a child of the replica: the number of the binding is that
// of the child plus seventy.
fn bind_child_property(replica: &mut Replica, child: u64, property: &ChildProperty) {
    match Replica::child_property_action(property, false, false) {
        ChildPropertyAction::Bind(name) => {
            assert_eq!(name, format!("{}::{}", property.owner, property.name));
            replica.property_bound(child, &property.owner, &property.name, child + 70);
        }
        action => panic!("{action:?}"),
    }
}

// What a property of the replica is: that of the primary where it is bound, its default elsewhere.
fn check_child_property(replica: &mut Replica, child: u64, owner: &str, primary: f64, expected: f64) {
    let full_name = full_property_name(owner, "alpha");
    let value = match replica.property_bindings.remove(child, &full_name) {
        Some(binding) => {
            assert_eq!(binding, child + 70);
            replica.property_bound(child, owner, "alpha", binding);
            primary
        }
        None => 1.5,
    };
    assert_eq!(value, expected, "Child property 'alpha' should be {}", expected);
}

#[test]
fn test_child_property_synchronization() {
    let mut manager = SubtimelinePrimaryManager::new();
    manager.register_primary("test_child_props", 1, false).unwrap();

    let mut replica = manager.make_replica("test_child_props", 2, &vec![]).unwrap();
    replica.add_mapping(10, 1010);
    replica.add_mapping(20, 1020);
    replica.layer_add_clip(30, 1030, vec![CoreElement { element: 1040, asset: Some(5) }]);
    let added = replica.clip_add_track_element(30, &element(40, true, 5), None).unwrap();
    assert_eq!((added.clip, added.element, added.name_it), (1030, 1040, true));
    assert_eq!(replica.get_replica(30), Some(1030));
    assert_eq!(replica.get_replica(40), Some(1040));

    let owner = "GstFramePositioner";
    let alpha = child_property(owner, "alpha");
    check_child_property(&mut replica, 1041, owner, 0.5, 1.5);
    bind_child_property(&mut replica, 1041, &alpha);
    manager.replica_made("test_child_props", replica, &vec![]);

    let primary = &mut manager.primaries.entries[0].value;
    assert_eq!(primary.replicas_of(40), vec![(0, 1040)]);
    let replica = &mut primary.replicas[0];
    check_child_property(replica, 1041, owner, 0.5, 0.5);
    check_child_property(replica, 1041, owner, 1.0, 1.0);

    manager.unregister_primary("test_child_props").unwrap();
}

#[test]
fn unwritable_child_properties_are_left_alone() {
    let mut readonly = child_property("GstFramePositioner", "alpha");
    readonly.writable = false;
    assert!(matches!(
        Replica::child_property_action(&readonly, true, true),
        ChildPropertyAction::Skip
    ));
}

#[test]
fn test_dynamically_added_clip_child_properties() {
    // A clip that is added after replication reaches the replica of its layer, and its elements
    // are then added there.
    let mut manager = SubtimelinePrimaryManager::new();
    manager.register_primary("test_dynamic", 1, false).unwrap();
    let content = TimelineContent { tracks: vec![10], layers: vec![Layer { id: 20, clips: vec![] }] };
    copied(&mut manager, "test_dynamic", &content);
    let primary = &mut manager.primaries.entries[0].value;
    assert_eq!(primary.replicas_of(20), vec![(0, 1020)]);
    let replica = &mut primary.replicas[0];
    replica.layer_add_clip(30, 1030, vec![CoreElement { element: 1040, asset: Some(5) }]);
    let added = replica.clip_add_track_element(30, &element(40, true, 5), None).unwrap();
    assert_eq!((added.clip, added.element, added.name_it), (1030, 1040, true));
    bind_child_property(replica, 1041, &child_property("o", "alpha"));
    // Dynamically added clip's child properties should sync
    check_child_property(replica, 1041, "o", 0.3, 0.3);
    manager.unregister_primary("test_dynamic").unwrap();
}

fn interpolation(keyframes: Vec<(u64, f64)>) -> ControlBinding {
    ControlBinding::Direct {
        absolute: false,
        source: Some(ControlSource::Interpolation(
            keyframes.into_iter().map(|(time, value)| (time, value.to_bits())).collect(),
        )),
    }
}

const SECOND: u64 = 1_000_000_000;

#[test]
fn test_control_binding_synchronization() {
    let binding = interpolation(vec![(0, 0.0), (2 * SECOND, 0.5), (4 * SECOND, 1.0)]);
    // The binding stands under the bare name.
    match Replica::child_property_action(&child_property("o", "alpha"), false, true) {
        ChildPropertyAction::ReplicateControl(name) => assert_eq!(name, "alpha"),
        action => panic!("{action:?}"),
    }
    let plan = replicate_control_binding(&binding);
    assert!(plan.is_ok(), "Control binding should be replicated to replica track element");
    let plan = plan.unwrap();
    assert_eq!(plan.keyframes.len(), 3, "Replica should have the same number of keyframes");
    assert_eq!(plan.keyframes[1], (2 * SECOND, 0.5f64.to_bits()));
    assert_eq!(binding_mode(plan.absolute), "direct");
    assert_eq!(binding_mode(true), "direct-absolute");
}

#[test]
fn test_dynamic_keyframe_synchronization() {
    let binding = interpolation(vec![(0, 0.0), (5 * SECOND, 0.5)]);
    let plan = replicate_control_binding(&binding).unwrap();
    assert_eq!(plan.keyframes.len(), 2, "Replica should initially have 2 keyframes");

    let one = 1.0f64.to_bits();
    assert_eq!(
        keyframe_action(KeyframeChange::Added((10 * SECOND, one))),
        KeyframeAction::Put(10 * SECOND, one)
    );
    assert_eq!(
        keyframe_action(KeyframeChange::Changed((5 * SECOND, one))),
        KeyframeAction::Put(5 * SECOND, one)
    );
    assert_eq!(
        keyframe_action(KeyframeChange::Removed((5 * SECOND, one))),
        KeyframeAction::Drop(5 * SECOND)
    );
}

#[test]
fn test_dynamic_control_binding_changes() {
    let mut replica = Replica::new(0, 99);
    replica.add_mapping(40, 1040);
    replica.property_bound(7, "GstFramePositioner", "alpha", 70);

    let binding = interpolation(vec![(0, 0.0), (5 * SECOND, 1.0)]);
    match replica.control_binding_added(40, "GstFramePositioner::alpha", Some(7), &binding) {
        BindingAdded::Apply { element, unbind, name, control } => {
            assert_eq!(element, 1040);
            assert_eq!(unbind, Some(70), "Property binding should be syncing alpha value");
            assert_eq!(name, "alpha");
            assert!(
                control.is_some(),
                "Control binding should be added to replica when added to primary"
            );
            assert_eq!(
                control.unwrap().keyframes.len(),
                2,
                "Replica control source should have 2 keyframes"
            );
        }
        other => panic!("{other:?}"),
    }
    match replica.control_binding_removed(40, "GstFramePositioner::alpha", true, Some(7), 71) {
        BindingRemoved::RemoveAndRebind { element, name } => {
            assert_eq!(element, 1040);
            assert_eq!(
                name, "alpha",
                "Control binding should be removed from replica when removed from primary"
            );
        }
        other => panic!("{other:?}"),
    }
    // The new binding is the one that is undone next.
    match replica.control_binding_added(40, "GstFramePositioner::alpha", Some(7), &binding) {
        BindingAdded::Apply { unbind, .. } => assert_eq!(unbind, Some(71)),
        other => panic!("{other:?}"),
    }
}

#[test]
fn control_bindings_that_do_not_reach_the_replica() {
    let mut replica = Replica::new(0, 99);
    let binding = interpolation(vec![]);
    assert!(matches!(
        replica.control_binding_added(40, "alpha", Some(7), &binding),
        BindingAdded::NoElement
    ));
    assert!(matches!(
        replica.control_binding_removed(40, "alpha", true, Some(7), 1),
        BindingRemoved::NoElement
    ));
    replica.add_mapping(40, 1040);
    assert!(matches!(
        replica.control_binding_added(40, "alpha", None, &binding),
        BindingAdded::NoChild
    ));
    assert!(matches!(
        replica.control_binding_removed(40, "alpha", false, Some(7), 1),
        BindingRemoved::Remove { element: 1040, .. }
    ));
    match replica.control_binding_added(40, "alpha", Some(7), &ControlBinding::Other) {
        BindingAdded::Apply { unbind, control, .. } => {
            assert_eq!(unbind, None);
            assert!(control.is_none());
        }
        other => panic!("{other:?}"),
    }
    assert_eq!(
        replicate_control_binding(&ControlBinding::Other).unwrap_err(),
        ControlError::UnsupportedBinding
    );
    assert_eq!(
        replicate_control_binding(&ControlBinding::Direct { absolute: true, source: None })
            .unwrap_err(),
        ControlError::NoControlSource
    );
    let other = ControlBinding::Direct { absolute: true, source: Some(ControlSource::Other) };
    assert_eq!(replicate_control_binding(&other).unwrap_err(), ControlError::NotInterpolation);
}

#[test]
fn test_clip_move_between_layers() {
    let mut manager = SubtimelinePrimaryManager::new();
    manager.register_primary("test_clip_layer_move", 1, false).unwrap();
    let content = TimelineContent {
        tracks: vec![10],
        layers: vec![
            Layer { id: 20, clips: vec![Clip { id: 30, children: vec![] }] },
            Layer { id: 21, clips: vec![] },
        ],
    };
    assert_eq!(content.layers.len(), 2, "Primary should have 2 layers");
    let mut replica = copied(&mut manager, "test_clip_layer_move", &content);
    assert_eq!(replica.layers.len(), 2, "Replica should have 2 layers");
    assert_eq!(replica.layers[0].1, vec![1030], "Replica clip should be on layer 0");

    assert_eq!(clip_notification("layer", true, false), ClipNotification::MovedLayer);
    assert!(!clip_membership_counts(true));
    let primary = &manager.primaries.entries[0].value;
    let moves = primary.propagate_clip_moved_layer(30, Some(21));
    assert_eq!(moves, vec![(0, 1030, 1021)], "Replica clip should also have moved to layer 1");
    for (_, clip, layer) in moves {
        for l in replica.layers.iter_mut() {
            l.1.retain(|c| *c != clip);
            if l.0 == layer {
                l.1.push(clip);
            }
        }
    }
    assert_eq!(replica.layers[0].1.len(), 0, "First replica layer should have no clips");
    assert_eq!(replica.layers[1].1.len(), 1, "Second replica layer should have the clip");
    assert_eq!(primary.propagate_clip_moved_layer(30, None), vec![]);
}

#[test]
fn notifications_of_clips() {
    assert_eq!(clip_notification("start", true, true), ClipNotification::PropertyChanged);
    assert_eq!(clip_notification("start", true, false), ClipNotification::Ignore);
    assert_eq!(clip_notification("start", false, true), ClipNotification::Ignore);
    assert!(clip_membership_counts(false));
}

#[test]
fn core_elements_are_added_first() {
    let elements = vec![
        element(1, false, 0),
        element(2, true, 0),
        element(3, false, 0),
        element(4, true, 0),
    ];
    assert_eq!(addition_order(&elements), vec![2, 4, 1, 3]);
    assert_eq!(addition_order(&vec![]), Vec::<u64>::new());
}

#[test]
fn elements_come_from_where_they_can() {
    let mut replica = Replica::new(0, 99);
    let core = element(40, true, 5);
    assert_eq!(replica.element_source(30, &core).unwrap_err(), ReplicaError::ClipNotFound);
    replica.layer_add_clip(30, 1030, vec![CoreElement { element: 1040, asset: Some(5) }]);
    assert_eq!(replica.element_source(30, &core).unwrap(), (1030, ElementSource::Core(1040)));
    assert_eq!(
        replica.element_source(30, &element(41, true, 6)).unwrap_err(),
        ReplicaError::CoreElementNotFound
    );
    let effect = element(42, false, 6);
    assert_eq!(replica.element_source(30, &effect).unwrap(), (1030, ElementSource::Extract));
    assert_eq!(
        replica.clip_add_track_element(30, &effect, None).unwrap_err(),
        ReplicaError::ExtractionFailed
    );
    assert!(replica.clip_add_track_element(30, &effect, Some(1042)).unwrap().name_it);
    let again = replica.clip_add_track_element(30, &effect, None).unwrap();
    assert_eq!((again.element, again.name_it), (1042, false));

    assert_eq!(replica.clip_remove_track_element(30, 42).unwrap(), (1030, 1042));
    assert_eq!(
        replica.clip_remove_track_element(30, 42).unwrap_err(),
        ReplicaError::ElementNotFound
    );
    assert_eq!(
        replica.clip_remove_track_element(31, 42).unwrap_err(),
        ReplicaError::ClipNotFound
    );
    assert_eq!(replica.remove_track(5).unwrap_err(), ReplicaError::TrackNotFound);
    assert_eq!(replica.remove_layer(5).unwrap_err(), ReplicaError::LayerNotFound);
    assert_eq!(replica.remove_clip(30).unwrap(), 1030);
    assert_eq!(replica.remove_clip(30).unwrap_err(), ReplicaError::ClipNotFound);
    assert_eq!(replica.take_mapping(30), None);
}

#[test]
fn removals_reach_every_replica() {
    let mut manager = SubtimelinePrimaryManager::new();
    manager.register_primary("p", 1, false).unwrap();
    let content = TimelineContent {
        tracks: vec![10],
        layers: vec![Layer {
            id: 20,
            clips: vec![Clip { id: 30, children: vec![element(40, false, 5)] }],
        }],
    };
    copied(&mut manager, "p", &content);
    copied(&mut manager, "p", &content);
    let primary = &mut manager.primaries.entries[0].value;
    assert_eq!(primary.n_replicas, 2);
    assert_eq!(primary.replicas[1].id, 1);
    assert_eq!(primary.propagate_timeline_commit(), vec![99, 99]);
    primary.push_signals_handler(SignalsHandler { object: 40, ids: vec![1, 2] });
    primary.push_signals_handler(SignalsHandler { object: 20, ids: vec![3] });
    primary.push_signals_handler(SignalsHandler { object: 21, ids: vec![4] });

    let (dropped, removed) = primary.propagate_clip_child_removed(30, 40, &vec![]);
    assert_eq!(dropped.len(), 1);
    assert_eq!(dropped[0].ids, vec![1, 2]);
    assert_eq!(removed, vec![(0, 1030, 1040), (1, 1030, 1040)]);
    assert_eq!(primary.replicas_of(40), vec![]);

    assert_eq!(primary.propagate_clip_removed(20, 30), vec![(0, 1030), (1, 1030)]);
    assert_eq!(primary.replicas_of(30), vec![]);

    let (dropped, removed) = primary.propagate_layer_removed(20, &vec![21]);
    assert_eq!(dropped.len(), 2);
    assert_eq!(removed, vec![(0, 1020), (1, 1020)]);
    assert!(primary.signal_handlers.is_empty());

    let (_, removed) = primary.propagate_track_removed(10, &vec![]);
    assert_eq!(removed, vec![(0, 1010), (1, 1010)]);
    assert_eq!(primary.propagate_track_removed(10, &vec![]).1, vec![]);
}

#[test]
fn gone_replicas_are_forgotten() {
    let mut manager = SubtimelinePrimaryManager::new();
    manager.register_primary("p", 1, false).unwrap();
    manager.replica_made("p", Replica::new(0, 50), &vec![]);
    manager.replica_made("p", Replica::new(1, 51), &vec![]);
    let replica = manager.make_replica("p", 52, &vec![50]).unwrap();
    assert_eq!(replica.id, 2);
    let primary = &manager.primaries.entries[0].value;
    assert_eq!(primary.replicas.len(), 1);
    assert_eq!(primary.replicas[0].timeline, 51);
}

#[test]
fn names_of_properties_and_replicas() {
    assert_eq!(bare_property_name("GstFramePositioner::alpha"), "alpha");
    assert_eq!(bare_property_name("alpha"), "alpha");
    assert_eq!(bare_property_name("a::b::c"), "c");
    assert_eq!(full_property_name("Owner", "alpha"), "Owner::alpha");
    assert_eq!(extracted_replica_name(2, "clip0"), "replica2_clip0");
    assert_eq!(copied_replica_name(2, "layer0"), "replica_2_layer0");
    assert_eq!(timeline_replica_name(2, None), "timeline_replica_2");
    assert_eq!(timeline_replica_name(2, Some("t")), "t_replica_2");
}

#[test]
fn properties_that_replicas_take_over() {
    assert!(!is_taken(ReplicaKind::Clip, &property("layer", None)));
    assert!(!is_taken(ReplicaKind::Clip, &property("name", None)));
    assert!(!is_taken(ReplicaKind::TrackElement, &property("start", None)));
    assert!(is_taken(ReplicaKind::Layer, &property("parent", None)));
    assert!(!is_taken(ReplicaKind::Track, &property("duration", None)));
    assert!(!is_taken(ReplicaKind::ControlSource, &property("parent", None)));
    let taken = taken_properties(ReplicaKind::Layer, 4, &vec![property("name", Some("l"))]);
    assert_eq!(taken[0].renamed.as_deref(), Some("replica_4_l"));
}

#[test]
fn actions_of_primaries() {
    let actions = register_validate_actions();
    assert_eq!(actions[0].name, "register-subtimeline-primary");
    assert_eq!(actions[1].name, "unregister-subtimeline-primary");
    assert!(matches!(timeline_source(None), TimelineSource::Blank));
    assert!(matches!(timeline_source(Some("u".to_string())), TimelineSource::Uri(u) if u == "u"));
    assert_eq!(load_failure("u", "e"), "Failed to load timeline from 'u': e");
    assert_eq!(register_failure("i", "e"), "Failed to register timeline as primary 'i': e");
    assert_eq!(unregister_failure("i", "e"), "Failed to unregister primary 'i': e");
}
