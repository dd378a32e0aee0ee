//! Media elements: the rules behind a set of video, editing and inspection plugins.

pub mod actions;
pub mod ges;
pub mod pipeline_snapshot;
pub mod playbinpool;
mod retain;
pub mod rsvideoconvert;
pub mod segmentclipper;
pub mod skia;
pub mod text;
pub mod textmap;
pub mod tonemap;
pub mod uridecodepool;
pub mod validate;
pub mod video;
pub mod videoconverter;
pub mod yuvops;
