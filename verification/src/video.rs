//! What the elements read of a raw video format, and frames of plain bytes.

use vstd::prelude::*;

verus! {

/// The raw video formats that some rule tells apart by name; every other one by its number.
#[derive(Debug, Clone, Copy, PartialEq, Eq, Structural)]
pub enum VideoFormat {
    Rgb,
    Rgba,
    Rgbx,
    Bgr,
    Bgra,
    Bgrx,
    Rgb16,
    Gray8,
    Yuy2,
    Uyvy,
    Yvyu,
    Vyuy,
    Other(u32),
}

/// The colour ranges of a raw video format.
#[derive(Debug, Clone, Copy, PartialEq, Eq, Structural)]
pub enum VideoColorRange {
    Unknown,
    Range0_255,
    Range16_235,
}

/// The colour matrices of a raw video format.
#[derive(Debug, Clone, Copy, PartialEq, Eq, Structural)]
pub enum VideoColorMatrix {
    Unknown,
    Rgb,
    Fcc,
    Bt709,
    Bt601,
    Smpte240m,
    Bt2020,
}

/// Range and matrix of a raw video format.
#[derive(Debug, Clone, Copy, PartialEq, Eq, Structural)]
pub struct VideoColorimetry {
    pub range: VideoColorRange,
    pub matrix: VideoColorMatrix,
}

/// One component of a raw video format: its depth in bits, the plane that holds it, where it
/// stands in a pixel of that plane, how many bytes it is from one pixel to the next, and how many
/// samples of it the frame has.
#[derive(Debug, Clone, Copy, PartialEq, Eq, Structural)]
pub struct VideoComponent {
    pub depth: u32,
    pub plane: u32,
    pub poffset: u32,
    pub pstride: u32,
    pub width: u32,
    pub height: u32,
}

/// A raw video format with its dimensions.
#[derive(Debug)]
pub struct VideoInfo {
    pub valid: bool,
    pub format: VideoFormat,
    pub width: u32,
    pub height: u32,
    pub is_rgb: bool,
    pub is_yuv: bool,
    pub is_gray: bool,
    pub n_planes: u32,
    pub components: Vec<VideoComponent>,
    pub colorimetry: VideoColorimetry,
}

/// One plane of a frame: rows of bytes, `stride` bytes apart.
#[derive(Debug)]
pub struct VideoPlane {
    pub data: Vec<u8>,
    pub stride: u32,
}

/// A frame in memory.
#[derive(Debug)]
pub struct VideoFrame {
    pub info: VideoInfo,
    pub planes: Vec<VideoPlane>,
}

/// Two frames that differ at most in the bytes of their planes.
pub open spec fn same_shape(a: VideoFrame, b: VideoFrame) -> bool {
    &&& a.info == b.info
    &&& a.planes.len() == b.planes.len()
    &&& forall|i: int| #![trigger a.planes[i]] #![trigger b.planes[i]]
        0 <= i < a.planes.len() ==> a.planes[i].stride == b.planes[i].stride
            && a.planes[i].data.len() == b.planes[i].data.len()
}

/// Two frames of one shape whose planes agree, but for those that `written` names.
pub open spec fn same_but(a: VideoFrame, b: VideoFrame, written: Set<int>) -> bool {
    &&& same_shape(a, b)
    &&& forall|i: int| #![trigger a.planes[i]] #![trigger b.planes[i]]
        0 <= i < a.planes.len() && !written.contains(i) ==> a.planes[i].data@
            == b.planes[i].data@
}

/// What the bytes of a pixel hold, one letter for each, in the formats with a byte for each colour;
/// an `x` only pads.
pub open spec fn pixel_letters(format: VideoFormat) -> Seq<char> {
    match format {
        VideoFormat::Rgb => seq!['R', 'G', 'B'],
        VideoFormat::Bgr => seq!['B', 'G', 'R'],
        VideoFormat::Rgba => seq!['R', 'G', 'B', 'A'],
        VideoFormat::Bgra => seq!['B', 'G', 'R', 'A'],
        VideoFormat::Rgbx => seq!['R', 'G', 'B', 'x'],
        VideoFormat::Bgrx => seq!['B', 'G', 'R', 'x'],
        _ => Seq::empty(),
    }
}

} // verus!
