//! Actions of test scenarios that look at the last frame of a sink.

pub mod check_last_frame_qrcode;
pub mod compare_last_frame;
pub mod utils;

use crate::actions::ActionType;
use vstd::prelude::*;

verus! {

/// The actions, as they are registered: the one that reads a QR code, and the one that compares
/// images.
pub fn register_actions() -> (actions: Vec<ActionType>)
    ensures
        actions.len() == 2,
        check_last_frame_qrcode::is_qrcode_action(actions[0], "rsvalidate"@),
        compare_last_frame::is_compare_action(actions[1], "rsvalidate"@),
{
    let mut actions: Vec<ActionType> = Vec::new();
    actions.push(check_last_frame_qrcode::register_validate_actions("rsvalidate"));
    actions.push(compare_last_frame::register_validate_actions("rsvalidate"));
    actions
}

} // verus!
