//! A source that plays a URI through a pooled decoding pipeline.

pub mod decoderpipeline;
pub mod element;
pub mod laws;
pub mod source;
pub mod validate;
