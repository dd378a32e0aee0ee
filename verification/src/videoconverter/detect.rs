//! What a pair of raw video formats asks of a conversion, read off their descriptions.

use crate::video::{VideoColorMatrix, VideoColorRange, VideoColorimetry, VideoFormat, VideoInfo};
use crate::yuvops::{
    PackedOrder, RgbFormat, UvOrder, YuvRange, YuvStandardMatrix, YuvSubsampling,
};
use vstd::prelude::*;

verus! {

/// The memory layouts of YUV formats.
#[derive(Debug, Clone, Copy, PartialEq, Eq, Structural)]
pub enum YuvLayout {
    /// Y, U, V in separate planes (I420, YV12, Y42B, Y444).
    Planar,
    /// Y, U, V, A in separate planes (A420, A422, A444).
    PlanarAlpha,
    /// Y in one plane, UV interleaved in another (NV12, NV21, NV16, NV61, NV24).
    SemiPlanar,
    /// YUV interleaved in a single plane (YUY2, UYVY, VYUY, YVYU).
    Packed,
    /// A single Y plane (GRAY8).
    Grayscale,
}

/// The offset of a component in its pixel, or `missing` where the format has no such component.
pub open spec fn offset_of(info: VideoInfo, component: int, missing: u32) -> u32 {
    if component < info.components.len() {
        info.components[component].poffset
    } else {
        missing
    }
}

/// The plane of a component, or its own number where the format has no such component.
pub open spec fn plane_of(info: VideoInfo, component: int) -> int {
    if component < info.components.len() {
        info.components[component].plane as int
    } else {
        component
    }
}

fn poffset(info: &VideoInfo, component: usize, missing: u32) -> (offset: u32)
    ensures
        offset == offset_of(*info, component as int, missing),
{
    if component < info.components.len() {
        info.components[component].poffset
    } else {
        missing
    }
}

fn component_plane(info: &VideoInfo, component: usize) -> (plane: usize)
    ensures
        plane == plane_of(*info, component as int),
{
    if component < info.components.len() {
        info.components[component].plane as usize
    } else {
        component
    }
}

/// Whether blue comes before red.
pub fn is_bgr_format(info: &VideoInfo) -> (bgr: bool)
    ensures
        bgr == (offset_of(*info, 2, 2) < offset_of(*info, 0, 0)),
{
    poffset(info, 2, 2) < poffset(info, 0, 0)
}

/// Whether the bytes of a pixel stand in one of the orders RGB, BGR, RGBA and BGRA, with nothing
/// between one pixel and the next: RGBx and BGRx are none of them.
pub open spec fn known_byte_order(info: VideoInfo) -> bool {
    let red = offset_of(info, 0, 0);
    let green = offset_of(info, 1, 1);
    let blue = offset_of(info, 2, 2);
    let alpha = offset_of(info, 3, 3);
    &&& info.components.len() == 3 || info.components.len() == 4
    &&& info.components[0].pstride == info.components.len()
    &&& green == 1
    &&& (red == 0 && blue == 2) || (red == 2 && blue == 0)
    &&& info.components.len() == 4 ==> alpha == 3
}

/// Whether the byte order of an RGB format is one that can be converted: RGB, RGBA, BGR or BGRA,
/// with alpha last where there is alpha, and without bytes that only pad a pixel.
pub fn is_rgb_format_supported_by_yuv(info: &VideoInfo) -> (supported: bool)
    ensures
        supported == known_byte_order(*info),
{
    let n_components: usize = info.components.len();
    if n_components == 0 || info.components[0].pstride as usize != n_components {
        return false;
    }
    let red_offset: u32 = poffset(info, 0, 0);
    let green_offset: u32 = poffset(info, 1, 1);
    let blue_offset: u32 = poffset(info, 2, 2);
    if n_components == 3 {
        let is_rgb_order = red_offset == 0 && green_offset == 1 && blue_offset == 2;
        let is_bgr_order = blue_offset == 0 && green_offset == 1 && red_offset == 2;
        is_rgb_order || is_bgr_order
    } else if n_components == 4 {
        let alpha_offset: u32 = poffset(info, 3, 3);
        let is_rgba_order = red_offset == 0 && green_offset == 1 && blue_offset == 2
            && alpha_offset == 3;
        let is_bgra_order = blue_offset == 0 && green_offset == 1 && red_offset == 2
            && alpha_offset == 3;
        is_rgba_order || is_bgra_order
    } else {
        false
    }
}

/// The planes of the luma and of the two chroma components: tells YV12 from I420.
pub fn get_plane_order_introspected(info: &VideoInfo) -> (order: (usize, usize, usize))
    ensures
        order.0 == plane_of(*info, 0),
        order.1 == plane_of(*info, 1),
        order.2 == plane_of(*info, 2),
{
    (component_plane(info, 0), component_plane(info, 1), component_plane(info, 2))
}

/// The pixel layout of an RGB format.
pub open spec fn rgb_format_of(info: VideoInfo) -> RgbFormat {
    let bgr = offset_of(info, 2, 2) < offset_of(info, 0, 0);
    if info.components.len() == 4 {
        if bgr {
            RgbFormat::Bgra
        } else {
            RgbFormat::Rgba
        }
    } else if bgr {
        RgbFormat::Bgr
    } else {
        RgbFormat::Rgb
    }
}

/// The pixel layout of an RGB format.
pub fn detect_rgb_format(info: &VideoInfo) -> (format: RgbFormat)
    ensures
        format == rgb_format_of(*info),
{
    let has_alpha = info.components.len() == 4;
    let is_bgr = is_bgr_format(info);
    match (is_bgr, has_alpha) {
        (false, false) => RgbFormat::Rgb,
        (false, true) => RgbFormat::Rgba,
        (true, false) => RgbFormat::Bgr,
        (true, true) => RgbFormat::Bgra,
    }
}

/// A YUV or gray format whose layout is defined: gray, or one to four planes.
pub open spec fn has_yuv_layout(info: VideoInfo) -> bool {
    info.is_gray || 1 <= info.n_planes <= 4
}

/// The memory layout of a YUV or gray format.
pub open spec fn yuv_layout_of(info: VideoInfo) -> YuvLayout {
    if info.is_gray {
        YuvLayout::Grayscale
    } else if info.n_planes == 4 {
        YuvLayout::PlanarAlpha
    } else if info.n_planes == 3 {
        YuvLayout::Planar
    } else if info.n_planes == 2 {
        YuvLayout::SemiPlanar
    } else {
        YuvLayout::Packed
    }
}

/// The memory layout of a YUV or gray format, by its number of planes.
pub fn detect_yuv_layout(info: &VideoInfo) -> (layout: YuvLayout)
    requires
        has_yuv_layout(*info),
    ensures
        layout == yuv_layout_of(*info),
{
    if info.is_gray {
        return YuvLayout::Grayscale;
    }
    match info.n_planes {
        4 => YuvLayout::PlanarAlpha,
        3 => YuvLayout::Planar,
        2 => YuvLayout::SemiPlanar,
        _ => YuvLayout::Packed,
    }
}

/// Whether `chroma` samples stand for about twice as many `luma` samples.
pub open spec fn halved(chroma: u32, luma: u32) -> bool {
    0 < chroma < luma <= 2 * chroma
}

/// A YUV or gray format whose subsampling is defined: gray, or with a chroma component that is
/// not halved in height alone, and whose doubled dimensions are representable.
pub open spec fn has_yuv_subsampling(info: VideoInfo) -> bool {
    info.is_gray || {
        &&& 2 <= info.components.len()
        &&& 2 * info.components[1].width <= u32::MAX
        &&& 2 * info.components[1].height <= u32::MAX
        &&& halved(info.components[1].height, info.components[0].height) ==> halved(
            info.components[1].width,
            info.components[0].width,
        )
    }
}

/// The subsampling of a YUV or gray format.
pub open spec fn yuv_subsampling_of(info: VideoInfo) -> YuvSubsampling {
    if info.is_gray {
        YuvSubsampling::S400
    } else if halved(info.components[1].height, info.components[0].height) {
        YuvSubsampling::S420
    } else if halved(info.components[1].width, info.components[0].width) {
        YuvSubsampling::S422
    } else {
        YuvSubsampling::S444
    }
}

/// The subsampling of a YUV or gray format, by the dimensions of its first chroma component.
pub fn detect_yuv_subsampling(info: &VideoInfo) -> (subsampling: YuvSubsampling)
    requires
        has_yuv_subsampling(*info),
    ensures
        subsampling == yuv_subsampling_of(*info),
{
    if info.is_gray {
        return YuvSubsampling::S400;
    }
    let luma_width: u32 = info.components[0].width;
    let chroma_width: u32 = info.components[1].width;
    let luma_height: u32 = info.components[0].height;
    let chroma_height: u32 = info.components[1].height;
    let h_subsampled = chroma_width > 0 && chroma_width * 2 >= luma_width && chroma_width
        < luma_width;
    let v_subsampled = chroma_height > 0 && chroma_height * 2 >= luma_height && chroma_height
        < luma_height;
    match (h_subsampled, v_subsampled) {
        (false, false) => YuvSubsampling::S444,
        (true, false) => YuvSubsampling::S422,
        _ => YuvSubsampling::S420,
    }
}

/// The order of the chroma samples of a semi-planar format.
pub open spec fn uv_order_of(info: VideoInfo) -> UvOrder {
    if offset_of(info, 1, 0) < offset_of(info, 2, 1) {
        UvOrder::Uv
    } else {
        UvOrder::Vu
    }
}

/// The order of the chroma samples of a semi-planar format.
pub fn detect_uv_order(info: &VideoInfo) -> (order: UvOrder)
    ensures
        order == uv_order_of(*info),
{
    if poffset(info, 1, 0) < poffset(info, 2, 1) {
        UvOrder::Uv
    } else {
        UvOrder::Vu
    }
}

/// The order of the samples of a packed format. The offsets do not tell VYUY from UYVY, so it
/// goes by the format's name; a packed format of another name is taken as YUYV.
pub open spec fn packed_order_of(info: VideoInfo) -> PackedOrder {
    match info.format {
        VideoFormat::Uyvy => PackedOrder::Uyvy,
        VideoFormat::Yvyu => PackedOrder::Yvyu,
        VideoFormat::Vyuy => PackedOrder::Vyuy,
        _ => PackedOrder::Yuyv,
    }
}

/// The order of the samples of a packed format.
pub fn detect_packed_order(info: &VideoInfo) -> (order: PackedOrder)
    ensures
        order == packed_order_of(*info),
{
    match info.format {
        VideoFormat::Yuy2 => PackedOrder::Yuyv,
        VideoFormat::Uyvy => PackedOrder::Uyvy,
        VideoFormat::Yvyu => PackedOrder::Yvyu,
        VideoFormat::Vyuy => PackedOrder::Vyuy,
        _ => PackedOrder::Yuyv,
    }
}

/// The range to convert by: limited unless the format says full.
pub open spec fn yuv_range_of(range: VideoColorRange) -> YuvRange {
    if range == VideoColorRange::Range0_255 {
        YuvRange::Full
    } else {
        YuvRange::Limited
    }
}

/// The range to convert by: limited unless the format says full.
pub fn gst_to_yuv_range(range: VideoColorRange) -> (yuv_range: YuvRange)
    ensures
        yuv_range == yuv_range_of(range),
{
    match range {
        VideoColorRange::Range0_255 => YuvRange::Full,
        VideoColorRange::Range16_235 => YuvRange::Limited,
        _ => YuvRange::Limited,
    }
}

/// The matrix to convert by, where there is one.
pub open spec fn yuv_matrix_of(matrix: VideoColorMatrix) -> Option<YuvStandardMatrix> {
    match matrix {
        VideoColorMatrix::Bt709 => Some(YuvStandardMatrix::Bt709),
        VideoColorMatrix::Bt601 => Some(YuvStandardMatrix::Bt601),
        VideoColorMatrix::Bt2020 => Some(YuvStandardMatrix::Bt2020),
        VideoColorMatrix::Smpte240m => Some(YuvStandardMatrix::Smpte240),
        VideoColorMatrix::Fcc => Some(YuvStandardMatrix::Fcc),
        _ => None,
    }
}

/// A colour matrix that no conversion is known for.
#[derive(Debug, Clone, Copy, PartialEq, Eq, Structural)]
pub struct UnsupportedMatrix(pub VideoColorMatrix);

/// The matrix to convert by. An unknown one, and the identity of RGB, are unsupported.
pub fn gst_to_yuv_matrix(matrix: VideoColorMatrix) -> (r: Result<
    YuvStandardMatrix,
    UnsupportedMatrix,
>)
    ensures
        match yuv_matrix_of(matrix) {
            Some(m) => r == Ok::<YuvStandardMatrix, UnsupportedMatrix>(m),
            None => r == Err::<YuvStandardMatrix, UnsupportedMatrix>(UnsupportedMatrix(matrix)),
        },
{
    match matrix {
        VideoColorMatrix::Bt709 => Ok(YuvStandardMatrix::Bt709),
        VideoColorMatrix::Bt601 => Ok(YuvStandardMatrix::Bt601),
        VideoColorMatrix::Bt2020 => Ok(YuvStandardMatrix::Bt2020),
        VideoColorMatrix::Smpte240m => Ok(YuvStandardMatrix::Smpte240),
        VideoColorMatrix::Fcc => Ok(YuvStandardMatrix::Fcc),
        _ => Err(UnsupportedMatrix(matrix)),
    }
}

/// Range and matrix to convert by; none where the matrix is unsupported.
pub fn extract_yuv_colorimetry(colorimetry: VideoColorimetry) -> (r: Option<
    (YuvRange, YuvStandardMatrix),
>)
    ensures
        r == match yuv_matrix_of(colorimetry.matrix) {
            Some(matrix) => Some((yuv_range_of(colorimetry.range), matrix)),
            None => None,
        },
{
    let range = gst_to_yuv_range(colorimetry.range);
    match gst_to_yuv_matrix(colorimetry.matrix) {
        Ok(matrix) => Some((range, matrix)),
        Err(_) => None,
    }
}

} // verus!
