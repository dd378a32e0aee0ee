//! Descriptions of the actions that test scenarios can use.

use vstd::prelude::*;

verus! {

/// One parameter of an action.
#[derive(Debug)]
pub struct ActionParameter {
    pub name: &'static str,
    pub description: &'static str,
    /// The type of its value, where it is named.
    pub value_type: Option<&'static str>,
    /// What it is when it is left out, where that is said.
    pub default_value: Option<&'static str>,
    pub mandatory: bool,
}

/// An action.
#[derive(Debug)]
pub struct ActionType {
    pub name: &'static str,
    /// The namespace of its implementer, where it is not the common one.
    pub implementer: Option<&'static str>,
    pub description: Option<&'static str>,
    pub parameters: Vec<ActionParameter>,
    /// Whether it only checks something.
    pub is_check: bool,
}

/// Whether a parameter is described like this.
pub open spec fn parameter_is(
    parameter: ActionParameter,
    name: Seq<char>,
    description: Seq<char>,
    value_type: Option<Seq<char>>,
    default_value: Option<Seq<char>>,
    mandatory: bool,
) -> bool {
    &&& parameter.name@ == name
    &&& parameter.description@ == description
    &&& text_of(parameter.value_type) == value_type
    &&& text_of(parameter.default_value) == default_value
    &&& parameter.mandatory == mandatory
}

/// Whether an action, but for its parameters, is described like this.
pub open spec fn action_is(
    action: ActionType,
    name: Seq<char>,
    implementer: Option<Seq<char>>,
    description: Option<Seq<char>>,
    is_check: bool,
) -> bool {
    &&& action.name@ == name
    &&& text_of(action.implementer) == implementer
    &&& text_of(action.description) == description
    &&& action.is_check == is_check
}

pub open spec fn text_of(s: Option<&'static str>) -> Option<Seq<char>> {
    match s {
        Some(s) => Some(s@),
        None => None,
    }
}

} // verus!
