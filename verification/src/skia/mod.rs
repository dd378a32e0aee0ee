//! Drawing video frames: what is decided before anything is drawn.

pub mod compositor;
pub mod reshape;
