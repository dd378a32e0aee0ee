//! Control bindings: how those of a primary are replicated, and how a replica follows their
//! keyframes.

use super::names::bare_property_name;
use super::replica::Replica;
use vstd::prelude::*;

verus! {

broadcast use vstd::std_specs::hash::group_hash_axioms;

/// A keyframe: its time, and its value as the bits of a floating-point number.
pub type Keyframe = (u64, u64);

/// A source of control values.
#[derive(Debug)]
pub enum ControlSource {
    /// It interpolates between keyframes.
    Interpolation(Vec<Keyframe>),
    Other,
}

/// A control binding of a property.
#[derive(Debug)]
pub enum ControlBinding {
    Direct { absolute: bool, source: Option<ControlSource> },
    Other,
}

/// Why a control binding is not replicated.
#[derive(Debug, Clone, Copy, PartialEq, Eq, Structural)]
pub enum ControlError {
    UnsupportedBinding,
    NoControlSource,
    NotInterpolation,
}

/// A control source to set on the replica, and how it is bound.
#[derive(Debug)]
pub struct ControlPlan {
    pub keyframes: Vec<Keyframe>,
    pub absolute: bool,
}

/// Why a binding cannot be replicated, if it cannot.
pub open spec fn control_error(binding: ControlBinding) -> Option<ControlError> {
    match binding {
        ControlBinding::Other => Some(ControlError::UnsupportedBinding),
        ControlBinding::Direct { source: None, .. } => Some(ControlError::NoControlSource),
        ControlBinding::Direct { source: Some(ControlSource::Other), .. } => Some(
            ControlError::NotInterpolation,
        ),
        ControlBinding::Direct { source: Some(ControlSource::Interpolation(_)), .. } => None,
    }
}

/// Whether a plan has the keyframes and the mode of a binding.
pub open spec fn follows_binding(plan: ControlPlan, binding: ControlBinding) -> bool {
    binding matches ControlBinding::Direct { absolute, source: Some(source) } && source matches
        ControlSource::Interpolation(keyframes) && plan.keyframes@ == keyframes@ && plan.absolute
        == absolute
}

fn copy_keyframes(keyframes: &Vec<Keyframe>) -> (copy: Vec<Keyframe>)
    ensures
        copy@ == keyframes@,
{
    let mut copy: Vec<Keyframe> = Vec::new();
    let mut i: usize = 0;
    while i < keyframes.len()
        invariant
            i <= keyframes.len(),
            copy@ == keyframes@.take(i as int),
        decreases keyframes.len() - i,
    {
        copy.push(keyframes[i]);
        i = i + 1;
        proof {
            assert(copy@ =~= keyframes@.take(i as int));
        }
    }
    proof {
        assert(keyframes@.take(i as int) =~= keyframes@);
    }
    copy
}

/// Plans the replica of a control binding: a source with the same keyframes, bound in the same
/// mode. Only direct bindings to interpolating sources can be replicated.
pub fn replicate_control_binding(binding: &ControlBinding) -> (r: Result<
    ControlPlan,
    ControlError,
>)
    ensures
        match control_error(*binding) {
            Some(e) => r == Err::<ControlPlan, ControlError>(e),
            None => r is Ok && follows_binding(r->Ok_0, *binding),
        },
{
    match binding {
        ControlBinding::Other => Err(ControlError::UnsupportedBinding),
        ControlBinding::Direct { absolute, source } => match source {
            None => Err(ControlError::NoControlSource),
            Some(source) => match source {
                ControlSource::Other => Err(ControlError::NotInterpolation),
                ControlSource::Interpolation(keyframes) => Ok(
                    ControlPlan { keyframes: copy_keyframes(keyframes), absolute: *absolute },
                ),
            },
        },
    }
}

/// The name of the mode in which a control source is bound.
pub fn binding_mode(absolute: bool) -> (mode: &'static str)
    ensures
        mode@ == if absolute {
            "direct-absolute"@
        } else {
            "direct"@
        },
{
    if absolute {
        "direct-absolute"
    } else {
        "direct"
    }
}

/// A change of the keyframes of a primary.
#[derive(Debug, Clone, Copy, PartialEq, Eq)]
pub enum KeyframeChange {
    Added(Keyframe),
    Changed(Keyframe),
    Removed(Keyframe),
}

/// What a replica does to its keyframes.
#[derive(Debug, Clone, Copy, PartialEq, Eq)]
pub enum KeyframeAction {
    /// Set the value at a time.
    Put(u64, u64),
    /// Unset what is at a time.
    Drop(u64),
}

/// What a change of the primary's keyframes asks of the replica.
pub open spec fn action_for(change: KeyframeChange) -> KeyframeAction {
    match change {
        KeyframeChange::Added(keyframe) => KeyframeAction::Put(keyframe.0, keyframe.1),
        KeyframeChange::Changed(keyframe) => KeyframeAction::Put(keyframe.0, keyframe.1),
        KeyframeChange::Removed(keyframe) => KeyframeAction::Drop(keyframe.0),
    }
}

/// Follows a change of the primary's keyframes.
pub fn keyframe_action(change: KeyframeChange) -> (action: KeyframeAction)
    ensures
        action == action_for(change),
{
    match change {
        KeyframeChange::Added((time, value)) => KeyframeAction::Put(time, value),
        KeyframeChange::Changed((time, value)) => KeyframeAction::Put(time, value),
        KeyframeChange::Removed((time, _)) => KeyframeAction::Drop(time),
    }
}

/// The keyframes of a source, by their times, after some actions.
pub open spec fn after_actions(
    keyframes: Map<u64, u64>,
    actions: Seq<KeyframeAction>,
) -> Map<u64, u64>
    decreases actions.len(),
{
    if actions.len() == 0 {
        keyframes
    } else {
        let before = after_actions(keyframes, actions.drop_last());
        match actions.last() {
            KeyframeAction::Put(time, value) => before.insert(time, value),
            KeyframeAction::Drop(time) => before.remove(time),
        }
    }
}

/// The keyframes of a source, by their times, after it has told of some changes.
pub open spec fn after_changes(
    keyframes: Map<u64, u64>,
    changes: Seq<KeyframeChange>,
) -> Map<u64, u64>
    decreases changes.len(),
{
    if changes.len() == 0 {
        keyframes
    } else {
        let before = after_changes(keyframes, changes.drop_last());
        match changes.last() {
            KeyframeChange::Added(keyframe) => before.insert(keyframe.0, keyframe.1),
            KeyframeChange::Changed(keyframe) => before.insert(keyframe.0, keyframe.1),
            KeyframeChange::Removed(keyframe) => before.remove(keyframe.0),
        }
    }
}

/// The actions for some changes, one by one.
pub open spec fn actions_for(changes: Seq<KeyframeChange>) -> Seq<KeyframeAction> {
    Seq::new(changes.len(), |i: int| action_for(changes[i]))
}

/// A replica that starts with the keyframes of its primary has them after any changes: those that
/// are added, changed and removed, in any number and order.
pub proof fn law_keyframes_stay_the_same(keyframes: Map<u64, u64>, changes: Seq<KeyframeChange>)
    ensures
        after_actions(keyframes, actions_for(changes)) == after_changes(keyframes, changes),
    decreases changes.len(),
{
    if changes.len() > 0 {
        law_keyframes_stay_the_same(keyframes, changes.drop_last());
        assert(actions_for(changes).drop_last() =~= actions_for(changes.drop_last()));
        assert(actions_for(changes).last() == action_for(changes.last()));
    }
}

/// What a control binding that the primary got asks of a replica.
#[derive(Debug)]
pub enum BindingAdded {
    /// The element has no replica.
    NoElement,
    /// The element's replica has no such property.
    NoChild,
    /// Undo the binding of the property, where there was one, and set the control source under
    /// the bare name, where it can be replicated.
    Apply { element: u64, unbind: Option<u64>, name: String, control: Option<ControlPlan> },
}

/// What a control binding that the primary lost asks of a replica.
#[derive(Debug)]
pub enum BindingRemoved {
    /// The element has no replica.
    NoElement,
    /// Remove the control binding under the bare name.
    Remove { element: u64, name: String },
    /// Remove it, and bind the property again.
    RemoveAndRebind { element: u64, name: String },
}

/// The binding of a property under its full name, or else under its bare one.
pub open spec fn stored_binding(
    bindings: Map<(u64, Seq<char>), u64>,
    child: u64,
    full_name: Seq<char>,
) -> Option<u64> {
    let bare = super::names::last_segment(full_name);
    if bindings.dom().contains((child, full_name)) {
        Some(bindings[(child, full_name)])
    } else if bindings.dom().contains((child, bare)) {
        Some(bindings[(child, bare)])
    } else {
        None
    }
}

/// The bindings without that one.
pub open spec fn without_binding(
    bindings: Map<(u64, Seq<char>), u64>,
    child: u64,
    full_name: Seq<char>,
) -> Map<(u64, Seq<char>), u64> {
    if bindings.dom().contains((child, full_name)) {
        bindings.remove((child, full_name))
    } else {
        bindings.remove((child, super::names::last_segment(full_name)))
    }
}

impl Replica {
    /// Follows a control binding that was added to an element of the primary. `child` is the
    /// object that has the property on the element's replica, as it is looked up under the bare
    /// name.
    pub fn control_binding_added(
        &mut self,
        primary_element: u64,
        full_name: &str,
        child: Option<u64>,
        binding: &ControlBinding,
    ) -> (r: BindingAdded)
        requires
            old(self).property_bindings.wf(),
        ensures
            final(self).property_bindings.wf(),
            super::replica::same_but_bindings(*old(self), *final(self)),
            match (super::replica::mapped(*old(self), primary_element), child) {
                (None, _) => r is NoElement && final(self).property_bindings@
                    == old(self).property_bindings@,
                (Some(_), None) => r is NoChild && final(self).property_bindings@
                    == old(self).property_bindings@,
                (Some(replica_element), Some(child)) => {
                    &&& final(self).property_bindings@ == without_binding(
                        old(self).property_bindings@,
                        child,
                        full_name@,
                    )
                    &&& r matches BindingAdded::Apply { element, unbind, name, control } && {
                        &&& element == replica_element
                        &&& unbind == stored_binding(
                            old(self).property_bindings@,
                            child,
                            full_name@,
                        )
                        &&& name@ == super::names::last_segment(full_name@)
                        &&& (control is None <==> control_error(*binding) is Some)
                        &&& control is Some ==> follows_binding(control->0, *binding)
                    }
                },
            },
    {
        let element = match self.get_replica(primary_element) {
            Some(element) => element,
            None => return BindingAdded::NoElement,
        };
        let name = bare_property_name(full_name);
        let child = match child {
            Some(child) => child,
            None => return BindingAdded::NoChild,
        };
        let ghost before = self.property_bindings@;
        let mut unbind = self.property_bindings.remove(child, full_name);
        if unbind.is_none() {
            proof {
                assert(self.property_bindings@ =~= before);
            }
            unbind = self.property_bindings.remove(child, name.as_str());
        }
        let control = match replicate_control_binding(binding) {
            Ok(plan) => Some(plan),
            Err(_) => None,
        };
        BindingAdded::Apply { element, unbind, name, control }
    }

    /// Follows a control binding that was removed from an element of the primary. The property is
    /// bound again, as `binding`, where the objects that have it are found on both sides under the
    /// bare name.
    pub fn control_binding_removed(
        &mut self,
        primary_element: u64,
        full_name: &str,
        primary_child_found: bool,
        child: Option<u64>,
        binding: u64,
    ) -> (r: BindingRemoved)
        requires
            old(self).property_bindings.wf(),
        ensures
            final(self).property_bindings.wf(),
            super::replica::same_but_bindings(*old(self), *final(self)),
            match super::replica::mapped(*old(self), primary_element) {
                None => r is NoElement && final(self).property_bindings@
                    == old(self).property_bindings@,
                Some(replica_element) => if primary_child_found && child is Some {
                    &&& r matches BindingRemoved::RemoveAndRebind { element, name } && element
                        == replica_element && name@ == super::names::last_segment(full_name@)
                    &&& final(self).property_bindings@ == old(self).property_bindings@.insert(
                        (child->0, full_name@),
                        binding,
                    )
                } else {
                    &&& r matches BindingRemoved::Remove { element, name } && element
                        == replica_element && name@ == super::names::last_segment(full_name@)
                    &&& final(self).property_bindings@ == old(self).property_bindings@
                },
            },
    {
        let element = match self.get_replica(primary_element) {
            Some(element) => element,
            None => return BindingRemoved::NoElement,
        };
        let name = bare_property_name(full_name);
        match child {
            Some(child) => {
                if primary_child_found {
                    self.property_bindings.insert(child, full_name.to_owned(), binding);
                    return BindingRemoved::RemoveAndRebind { element, name };
                }
                BindingRemoved::Remove { element, name }
            },
            None => BindingRemoved::Remove { element, name },
        }
    }
}

/// A property that is controlled and then no longer so ends up bound: whatever was bound before,
/// it has the new binding, and no other property of any object is touched.
pub proof fn law_binding_is_restored(
    bindings: Map<(u64, Seq<char>), u64>,
    child: u64,
    full_name: Seq<char>,
    binding: u64,
    other: (u64, Seq<char>),
)
    requires
        other != (child, full_name),
        other != (child, super::names::last_segment(full_name)),
    ensures
        ({
            let after = without_binding(bindings, child, full_name).insert(
                (child, full_name),
                binding,
            );
            &&& after.dom().contains((child, full_name))
            &&& after[(child, full_name)] == binding
            &&& after.dom().contains(other) == bindings.dom().contains(other)
            &&& bindings.dom().contains(other) ==> after[other] == bindings[other]
        }),
{
}

/// Exactly the direct bindings to interpolating sources are replicated, and what is replicated has
/// every keyframe and the mode of its primary.
pub proof fn law_interpolated_controls_are_replicated(
    absolute: bool,
    keyframes: Vec<Keyframe>,
    binding: ControlBinding,
    plan: ControlPlan,
)
    ensures
        ({
            let source = Some(ControlSource::Interpolation(keyframes));
            let own = ControlBinding::Direct { absolute, source };
            &&& control_error(own) is None
            &&& follows_binding(plan, own) <==> plan.keyframes@ == keyframes@ && plan.absolute
                == absolute
        }),
        control_error(binding) is None ==> (binding matches ControlBinding::Direct {
            source: Some(ControlSource::Interpolation(_)),
            ..
        }),
        control_error(binding) == Some(ControlError::UnsupportedBinding) <==> !(binding is Direct),
        binding is Direct ==> (control_error(binding) == Some(ControlError::NoControlSource)
            <==> binding->source is None),
{
}

/// A binding that was stored for a property is found for it under its full name, and under its bare
/// one where there is none under the full one; and it is gone once it was taken away.
pub proof fn law_bindings_are_found_and_taken(
    bindings: Map<(u64, Seq<char>), u64>,
    child: u64,
    full_name: Seq<char>,
    binding: u64,
)
    ensures
        stored_binding(bindings.insert((child, full_name), binding), child, full_name) == Some(
            binding,
        ),
        !bindings.dom().contains((child, full_name)) ==> stored_binding(
            bindings.insert((child, super::names::last_segment(full_name)), binding),
            child,
            full_name,
        ) == Some(binding),
        stored_binding(bindings, child, full_name) is None ==> without_binding(
            bindings,
            child,
            full_name,
        ) == bindings,
        bindings.dom().contains((child, full_name)) ==> !without_binding(
            bindings,
            child,
            full_name,
        ).dom().contains((child, full_name)),
{
    let bare = super::names::last_segment(full_name);
    if stored_binding(bindings, child, full_name) is None {
        assert(without_binding(bindings, child, full_name) =~= bindings);
    }
}

} // verus!
