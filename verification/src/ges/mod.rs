//! Timelines that are used inside others: primaries, and replicas that follow them.

pub mod bindings;
pub mod control;
pub mod copy;
pub mod formatter;
pub mod laws;
pub mod manager;
pub mod names;
pub mod propagate;
pub mod properties;
pub mod replica;
pub mod validate;
