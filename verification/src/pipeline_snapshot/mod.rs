//! Snapshots of running pipelines as DOT graphs.

pub mod emscripten;
pub mod settings;
pub mod snapshot;
