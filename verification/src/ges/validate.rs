//! The actions that register and unregister primary timelines.

use crate::actions::{ActionParameter, ActionType};
use vstd::prelude::*;

verus! {

/// Where the timeline of the action `register-subtimeline-primary` comes from.
#[derive(Debug)]
pub enum TimelineSource {
    /// It is loaded from this URI.
    Uri(String),
    /// It is a new one.
    Blank,
}

/// Where a timeline to register comes from: from a URI, where one is given.
pub fn timeline_source(uri: Option<String>) -> (source: TimelineSource)
    ensures
        match uri {
            Some(uri) => source == TimelineSource::Uri(uri),
            None => source is Blank,
        },
{
    match uri {
        Some(uri) => TimelineSource::Uri(uri),
        None => TimelineSource::Blank,
    }
}

fn failure(before: &str, subject: &str, error: &str) -> (text: String)
    ensures
        text@ == before@ + " '"@ + subject@ + "': "@ + error@,
{
    let mut text = before.to_owned();
    text.append(" '");
    text.append(subject);
    text.append("': ");
    text.append(error);
    text
}

/// What is said when a timeline cannot be loaded.
pub fn load_failure(uri: &str, error: &str) -> (text: String)
    ensures
        text@ == "Failed to load timeline from"@ + " '"@ + uri@ + "': "@ + error@,
{
    failure("Failed to load timeline from", uri, error)
}

/// What is said when a timeline cannot be registered.
pub fn register_failure(primary_id: &str, error: &str) -> (text: String)
    ensures
        text@ == "Failed to register timeline as primary"@ + " '"@ + primary_id@ + "': "@ + error@,
{
    failure("Failed to register timeline as primary", primary_id, error)
}

/// What is said when a primary cannot be unregistered.
pub fn unregister_failure(primary_id: &str, error: &str) -> (text: String)
    ensures
        text@ == "Failed to unregister primary"@ + " '"@ + primary_id@ + "': "@ + error@,
{
    failure("Failed to unregister primary", primary_id, error)
}

/// The two actions, as they are registered.
pub fn register_validate_actions() -> (actions: Vec<ActionType>)
    ensures
        actions.len() == 2,
        crate::actions::action_is(actions[0], "register-subtimeline-primary"@, None, None, false),
        actions[0].parameters.len() == 2,
        crate::actions::parameter_is(
            actions[0].parameters[0],
            "primary-id"@,
            "Unique identifier for this primary timeline"@,
            Some("string"@),
            None,
            true,
        ),
        crate::actions::parameter_is(
            actions[0].parameters[1],
            "uri"@,
            "Optional URI to load the timeline from. If not specified, a blank timeline is created."@,
            Some("string"@),
            None,
            false,
        ),
        crate::actions::action_is(actions[1], "unregister-subtimeline-primary"@, None, None, false),
        actions[1].parameters.len() == 1,
        crate::actions::parameter_is(
            actions[1].parameters[0],
            "primary-id"@,
            "The ID of the primary timeline to unregister"@,
            Some("string"@),
            None,
            true,
        ),
{
    let mut registered: Vec<ActionParameter> = Vec::new();
    registered.push(
        ActionParameter {
            name: "primary-id",
            description: "Unique identifier for this primary timeline",
            value_type: Some("string"),
            default_value: None,
            mandatory: true,
        },
    );
    registered.push(
        ActionParameter {
            name: "uri",
            description:
                "Optional URI to load the timeline from. If not specified, a blank timeline is created.",
            value_type: Some("string"),
            default_value: None,
            mandatory: false,
        },
    );
    let mut unregistered: Vec<ActionParameter> = Vec::new();
    unregistered.push(
        ActionParameter {
            name: "primary-id",
            description: "The ID of the primary timeline to unregister",
            value_type: Some("string"),
            default_value: None,
            mandatory: true,
        },
    );
    let mut actions: Vec<ActionType> = Vec::new();
    actions.push(
        ActionType {
            name: "register-subtimeline-primary",
            implementer: None,
            description: None,
            parameters: registered,
            is_check: false,
        },
    );
    actions.push(
        ActionType {
            name: "unregister-subtimeline-primary",
            implementer: None,
            description: None,
            parameters: unregistered,
            is_check: false,
        },
    );
    actions
}

} // verus!
