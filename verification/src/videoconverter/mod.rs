//! Conversion between raw video formats.

pub mod convert;
pub mod converter;
pub mod convertible;
pub mod detect;
pub mod error;
pub mod format_laws;
pub mod function_laws;
pub mod laws;
pub mod params;
