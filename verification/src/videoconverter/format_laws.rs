//! What holds of the way formats are told apart: what a conversion is given is what the descriptions
//! of the two formats say.

use super::detect::YuvLayout;
use super::params::{ConversionParams, RgbToYuvParams, YuvToRgbParams};
use crate::video::{VideoColorMatrix, VideoColorRange, VideoFormat, VideoFrame, VideoInfo};
use crate::yuvops::{RgbFormat, UvOrder, YuvRange, YuvStandardMatrix, YuvSubsampling};
use vstd::prelude::*;

verus! {

/// The chroma of a semi-planar format is read where its components stand: the one that comes first
/// in a pair is the one with the lower offset. So in samples of one byte, and in samples of two, what
/// is read as U is what stands at the offset of U, and what is read as V at that of V, in every pair
/// of every row.
pub proof fn law_chroma_is_read_at_its_offset(
    info: VideoInfo,
    plane: Seq<u8>,
    stride: int,
    row: int,
    pair: int,
)
    requires
        info.components.len() >= 3,
        info.components[1].poffset != info.components[2].poffset,
    ensures
        ({
            let letters = crate::yuvops::chroma_letters(super::detect::uv_order_of(info));
            let u = info.components[1];
            let v = info.components[2];
            let bytes = u.pstride as int / 2;
            let at = row * stride + pair * (2 * bytes);
            let place = |letter: char| if letters[0] == letter { 0int } else { 1int };
            &&& super::detect::uv_order_of(info) == UvOrder::Vu <==> v.poffset < u.poffset
            &&& letters[0] == 'U' <==> u.poffset < v.poffset
            &&& u.pstride % 2 == 0 && u.poffset + v.poffset == bytes && (u.poffset == 0 || v.poffset
                == 0) ==> {
                &&& plane[at + bytes * place('U')] == plane[row * stride + pair * u.pstride + u.poffset]
                &&& plane[at + bytes * place('V')] == plane[row * stride + pair * u.pstride + v.poffset]
            }
        }),
{
    let u = info.components[1];
    let v = info.components[2];
    let bytes = u.pstride as int / 2;
    assert(bytes * 0 == 0 && bytes * 1 == bytes);
    if u.pstride % 2 == 0 {
        assert(u.pstride == 2 * bytes);
    }
}

/// The letters of a pixel stand at the offsets of the components, for every format that counts as one
/// of the four layouts, and there are as many bytes as components.
pub proof fn law_pixels_are_read_at_their_offsets(info: VideoInfo)
    requires
        super::detect::known_byte_order(info),
    ensures
        ({
            let letters = crate::yuvops::rgb_letters(super::detect::rgb_format_of(info));
            let at = |component: int| letters[info.components[component].poffset as int];
            &&& letters.len() == info.components.len()
            &&& letters.len() == info.components[0].pstride
            &&& at(0) == 'R' && at(1) == 'G' && at(2) == 'B'
            &&& info.components.len() == 4 ==> at(3) == 'A'
        }),
{
}

/// Every format whose components stand where the letters of one of the four layouts do, and whose
/// pixels are no longer than these, counts as this layout.
pub proof fn law_layouts_are_recognised(info: VideoInfo, format: RgbFormat)
    requires
        info.components.len() == crate::yuvops::rgb_letters(format).len(),
        info.components[0].pstride == info.components.len(),
        forall|i: int|
            0 <= i < info.components.len() ==> (#[trigger] info.components[i]).poffset
                < info.components.len(),
        ({
            let letters = crate::yuvops::rgb_letters(format);
            let at = |component: int| letters[info.components[component].poffset as int];
            &&& at(0) == 'R' && at(1) == 'G' && at(2) == 'B'
            &&& info.components.len() == 4 ==> at(3) == 'A'
        }),
    ensures
        super::detect::known_byte_order(info),
        super::detect::rgb_format_of(info) == format,
{
    let letters = crate::yuvops::rgb_letters(format);
    let a = info.components[0].poffset as int;
    let b = info.components[1].poffset as int;
    let c = info.components[2].poffset as int;
    assert(0 <= a < letters.len() && 0 <= b < letters.len() && 0 <= c < letters.len());
    assert(letters[a] == 'R' && letters[b] == 'G' && letters[c] == 'B');
    if info.components.len() == 4 {
        let d = info.components[3].poffset as int;
        assert(0 <= d < 4 && letters[d] == 'A');
    }
}

/// The samples of a packed format stand in the order that its name spells.
pub proof fn law_packed_formats_are_named_by_their_order(info: VideoInfo)
    ensures
        ({
            let letters = crate::yuvops::packed_letters(super::detect::packed_order_of(info));
            &&& info.format == VideoFormat::Uyvy ==> letters == seq!['U', 'Y', 'V', 'Y']
            &&& info.format == VideoFormat::Yvyu ==> letters == seq!['Y', 'V', 'Y', 'U']
            &&& info.format == VideoFormat::Vyuy ==> letters == seq!['V', 'Y', 'U', 'Y']
            &&& info.format == VideoFormat::Yuy2 ==> letters == seq!['Y', 'U', 'Y', 'V']
            &&& !(info.format is Uyvy || info.format is Yvyu || info.format is Vyuy) ==> letters
                == seq!['Y', 'U', 'Y', 'V']
        }),
{
}

/// The subsampling is what the sizes of the components say. Chroma of half the width and half the
/// height, rounded up, is 4:2:0; of half the width alone 4:2:2; of all of both 4:4:4; and gray has no
/// chroma. Said of frames with two rows and two columns at least, for in smaller ones halves are
/// wholes.
pub proof fn law_subsampling_is_the_share_of_chroma(info: VideoInfo)
    requires
        info.components.len() >= 2,
        info.components[0].width >= 2,
        info.components[0].height >= 2,
    ensures
        ({
            let luma = info.components[0];
            let chroma = info.components[1];
            let subsampling = super::detect::yuv_subsampling_of(info);
            let half_width = chroma.width == (luma.width + 1) / 2;
            let half_height = chroma.height == (luma.height + 1) / 2;
            &&& info.is_gray <==> subsampling == YuvSubsampling::S400
            &&& !info.is_gray && half_width && half_height ==> subsampling == YuvSubsampling::S420
            &&& !info.is_gray && half_width && chroma.height == luma.height ==> subsampling
                == YuvSubsampling::S422
            &&& !info.is_gray && chroma.width == luma.width && chroma.height == luma.height
                ==> subsampling == YuvSubsampling::S444
        }),
{
}

/// The planes that a layout needs.
pub open spec fn planes_of(layout: YuvLayout) -> int {
    match layout {
        YuvLayout::Packed | YuvLayout::Grayscale => 1,
        YuvLayout::SemiPlanar => 2,
        YuvLayout::Planar => 3,
        YuvLayout::PlanarAlpha => 4,
    }
}

/// The layout of a format has as many planes as the format; and gray formats alone have no chroma.
pub proof fn law_layouts_have_the_planes_of_the_format(info: VideoInfo)
    requires
        super::detect::has_yuv_layout(info),
    ensures
        info.is_gray <==> super::detect::yuv_layout_of(info) == YuvLayout::Grayscale,
        !info.is_gray ==> planes_of(super::detect::yuv_layout_of(info)) == info.n_planes,
{
}

/// Luma and chroma are looked for in the planes of their components, in this order.
pub proof fn law_planes_are_those_of_the_components(info: VideoInfo)
    requires
        info.components.len() >= 3,
    ensures
        ({
            let order = super::params::plane_order_of(info);
            &&& order.0 == info.components[0].plane
            &&& order.1 == info.components[1].plane
            &&& order.2 == info.components[2].plane
        }),
{
}

/// Only a format that says so uses the full range; and each matrix that a format can name, but for
/// that of RGB, is converted by as itself: no two are taken for one another.
pub proof fn law_colorimetry_is_taken_at_its_word(
    range: VideoColorRange,
    a: VideoColorMatrix,
    b: VideoColorMatrix,
)
    ensures
        super::detect::yuv_range_of(range) == YuvRange::Full <==> range
            == VideoColorRange::Range0_255,
        super::detect::yuv_matrix_of(a) is None <==> a == VideoColorMatrix::Unknown || a
            == VideoColorMatrix::Rgb,
        super::detect::yuv_matrix_of(a) is Some && super::detect::yuv_matrix_of(a)
            == super::detect::yuv_matrix_of(b) ==> a == b,
        super::detect::yuv_matrix_of(VideoColorMatrix::Bt709) == Some(YuvStandardMatrix::Bt709),
        super::detect::yuv_matrix_of(VideoColorMatrix::Bt601) == Some(YuvStandardMatrix::Bt601),
        super::detect::yuv_matrix_of(VideoColorMatrix::Bt2020) == Some(YuvStandardMatrix::Bt2020),
        super::detect::yuv_matrix_of(VideoColorMatrix::Fcc) == Some(YuvStandardMatrix::Fcc),
{
}

/// What pixels can be turned into can be turned back into pixels, and by the same things: whatever
/// layout, subsampling, order, range, matrix and pixel layout the way there has, the way back has.
pub proof fn law_conversions_can_be_reversed(rgb: VideoInfo, yuv: VideoInfo)
    requires
        super::params::rgb_to_yuv_spec(rgb, yuv) is Some,
    ensures
        super::params::yuv_to_rgb_spec(yuv, rgb) is Some,
        match (
            super::params::rgb_to_yuv_spec(rgb, yuv)->0,
            super::params::yuv_to_rgb_spec(yuv, rgb)->0,
        ) {
            (
                RgbToYuvParams::SemiPlanar { rgb_format, subsampling, uv_order, range, matrix },
                back,
            ) => back == (YuvToRgbParams::SemiPlanar {
                subsampling,
                uv_order,
                rgb_format,
                bit_depth: 8,
                range,
                matrix,
            }),
            (
                RgbToYuvParams::Planar { rgb_format, subsampling, plane_order, range, matrix },
                back,
            ) => back == (YuvToRgbParams::Planar {
                subsampling,
                plane_order,
                rgb_format,
                bit_depth: 8,
                range,
                matrix,
            }),
            (RgbToYuvParams::Grayscale { rgb_format, range, matrix }, back) => back == (
            YuvToRgbParams::Grayscale { rgb_format, range, matrix }),
        },
{
}

/// A conversion between two pixel layouts is supported exactly where the conversion back is, with the
/// two layouts swapped; and never between a layout and itself.
pub proof fn law_pixel_layouts_are_converted_both_ways(a: VideoInfo, b: VideoInfo)
    ensures
        match (super::params::rgb_to_rgb_spec(a, b), super::params::rgb_to_rgb_spec(b, a)) {
            (Some(there), Some(back)) => there.src_format == back.dst_format && there.dst_format
                == back.src_format && there.src_format != there.dst_format,
            (None, None) => true,
            _ => false,
        },
        super::params::rgb_to_rgb_spec(a, a) is None,
{
}

/// Whether an 8-bit RGB format in a known layout stands on one side, and a format with a known matrix
/// on the other.
pub open spec fn convertible_sides(rgb: VideoInfo, yuv: VideoInfo) -> bool {
    &&& rgb.is_rgb
    &&& rgb.components[0].depth == 8
    &&& super::detect::known_byte_order(rgb)
    &&& yuv.is_yuv || yuv.is_gray
    &&& yuv.colorimetry.matrix != VideoColorMatrix::Unknown
    &&& yuv.colorimetry.matrix != VideoColorMatrix::Rgb
}

/// What is supported towards pixels. Two and three planes of 8 bits with halved chroma go to every
/// layout of pixels, as gray does; of 10 bits they do too, in two planes where U comes first. Without
/// halved chroma two planes go where U comes first, and three of 10 bits go to RGBA alone. Four planes
/// go to RGBA alone, and packed samples to RGB alone; and no other depth goes anywhere, nor anything
/// that is no YUV, has no known matrix, or is to become pixels of another depth.
pub proof fn law_what_becomes_pixels(yuv: VideoInfo, rgb: VideoInfo)
    ensures
        ({
            let params = super::params::yuv_to_rgb_spec(yuv, rgb);
            let depth = yuv.components[0].depth;
            let layout = super::detect::rgb_format_of(rgb);
            let subsampling = super::detect::yuv_subsampling_of(yuv);
            let halved = subsampling == YuvSubsampling::S420 || subsampling == YuvSubsampling::S422;
            &&& params is Some ==> convertible_sides(rgb, yuv) && (depth == 8 || depth == 10)
            &&& convertible_sides(rgb, yuv) ==> {
                &&& yuv.is_gray ==> (params is Some <==> depth == 8)
                &&& !yuv.is_gray && yuv.n_planes == 2 && halved ==> (params is Some <==> depth == 8
                    || (depth == 10 && super::detect::uv_order_of(yuv) == UvOrder::Uv))
                &&& !yuv.is_gray && yuv.n_planes == 3 && halved ==> (params is Some <==> depth == 8
                    || depth == 10)
                &&& !yuv.is_gray && yuv.n_planes == 2 && !halved ==> (params is Some <==> (depth == 8
                    || depth == 10) && super::detect::uv_order_of(yuv) == UvOrder::Uv)
                &&& !yuv.is_gray && yuv.n_planes == 3 && !halved ==> (params is Some <==> depth == 8
                    || (depth == 10 && layout == RgbFormat::Rgba))
                &&& !yuv.is_gray && yuv.n_planes == 4 ==> (params is Some <==> depth == 8 && layout
                    == RgbFormat::Rgba)
                &&& !yuv.is_gray && yuv.n_planes == 1 ==> (params is Some <==> depth == 8 && layout
                    == RgbFormat::Rgb)
            }
        }),
{
}

/// What pixels can become: gray, and two or three planes of 8 bits; in two planes without halved
/// chroma where U comes first. Never packed samples, four planes, or another depth.
pub proof fn law_what_pixels_become(rgb: VideoInfo, yuv: VideoInfo)
    ensures
        ({
            let params = super::params::rgb_to_yuv_spec(rgb, yuv);
            let subsampling = super::detect::yuv_subsampling_of(yuv);
            let halved = subsampling == YuvSubsampling::S420 || subsampling == YuvSubsampling::S422;
            &&& params is Some ==> convertible_sides(rgb, yuv) && yuv.components[0].depth == 8
            &&& convertible_sides(rgb, yuv) && yuv.components[0].depth == 8 ==> {
                &&& yuv.is_gray || yuv.n_planes == 3 ==> params is Some
                &&& !yuv.is_gray && yuv.n_planes == 2 ==> (params is Some <==> halved
                    || super::detect::uv_order_of(yuv) == UvOrder::Uv)
                &&& !yuv.is_gray && (yuv.n_planes == 1 || yuv.n_planes == 4) ==> params is None
            }
        }),
{
}

/// What a conversion goes by is what the two descriptions say, whatever the direction: the range and
/// matrix of the YUV side, the pixel layout of the RGB side, and the depth of the source.
pub proof fn law_parameters_are_those_of_the_formats(in_info: VideoInfo, out_info: VideoInfo)
    requires
        super::params::conversion_spec(in_info, out_info) is Some,
    ensures
        match super::params::conversion_spec(in_info, out_info)->0 {
            ConversionParams::YuvToRgb(params) => {
                let (range, matrix) = match params {
                    YuvToRgbParams::SemiPlanar { range, matrix, .. } => (range, matrix),
                    YuvToRgbParams::Planar { range, matrix, .. } => (range, matrix),
                    YuvToRgbParams::PlanarAlpha { range, matrix, .. } => (range, matrix),
                    YuvToRgbParams::Packed { range, matrix, .. } => (range, matrix),
                    YuvToRgbParams::Grayscale { range, matrix, .. } => (range, matrix),
                };
                let depth = match params {
                    YuvToRgbParams::SemiPlanar { bit_depth, .. } => bit_depth,
                    YuvToRgbParams::Planar { bit_depth, .. } => bit_depth,
                    YuvToRgbParams::PlanarAlpha { bit_depth, .. } => bit_depth,
                    _ => 8,
                };
                let layout = match params {
                    YuvToRgbParams::SemiPlanar { rgb_format, .. } => rgb_format,
                    YuvToRgbParams::Planar { rgb_format, .. } => rgb_format,
                    YuvToRgbParams::PlanarAlpha { rgb_format, .. } => rgb_format,
                    YuvToRgbParams::Packed { .. } => RgbFormat::Rgb,
                    YuvToRgbParams::Grayscale { rgb_format, .. } => rgb_format,
                };
                &&& out_info.is_rgb
                &&& range == YuvRange::Full <==> in_info.colorimetry.range
                    == VideoColorRange::Range0_255
                &&& super::detect::yuv_matrix_of(in_info.colorimetry.matrix) == Some(matrix)
                &&& depth == in_info.components[0].depth
                &&& layout == super::detect::rgb_format_of(out_info)
                &&& params matches YuvToRgbParams::SemiPlanar { uv_order, subsampling, .. }
                    ==> uv_order == super::detect::uv_order_of(in_info) && subsampling
                    == super::detect::yuv_subsampling_of(in_info) && in_info.n_planes == 2
                &&& params matches YuvToRgbParams::Planar { plane_order, subsampling, .. }
                    ==> plane_order == super::params::plane_order_of(in_info) && subsampling
                    == super::detect::yuv_subsampling_of(in_info) && in_info.n_planes == 3
                &&& params matches YuvToRgbParams::PlanarAlpha { plane_order, subsampling, .. }
                    ==> plane_order == super::params::plane_order_of(in_info) && subsampling
                    == super::detect::yuv_subsampling_of(in_info) && in_info.n_planes == 4
                &&& params matches YuvToRgbParams::Packed { packed_order, .. } ==> packed_order
                    == super::detect::packed_order_of(in_info)
            },
            ConversionParams::RgbToYuv(_) => in_info.is_rgb && (out_info.is_yuv
                || out_info.is_gray),
            ConversionParams::RgbToRgb(params) => {
                &&& in_info.is_rgb && out_info.is_rgb
                &&& params.src_format == super::detect::rgb_format_of(in_info)
                &&& params.dst_format == super::detect::rgb_format_of(out_info)
            },
        },
{
}

/// Frames in I420 and in YV12 that hold the same planes in their own order are turned into pixels
/// alike: both can be converted or not, succeed or fail alike, and what the one may become the other
/// may, and nothing else.
pub proof fn law_chroma_order_does_not_show_in_pixels(
    subsampling: YuvSubsampling,
    rgb_format: RgbFormat,
    bit_depth: u32,
    range: YuvRange,
    matrix: YuvStandardMatrix,
    i420: VideoFrame,
    yv12: VideoFrame,
    before: VideoFrame,
    after: VideoFrame,
)
    requires
        super::laws::chroma_swapped(i420, yv12),
    ensures
        ({
            let straight = ConversionParams::YuvToRgb(
                YuvToRgbParams::Planar {
                    subsampling,
                    plane_order: (0, 1, 2),
                    rgb_format,
                    bit_depth,
                    range,
                    matrix,
                },
            );
            let swapped = ConversionParams::YuvToRgb(
                YuvToRgbParams::Planar {
                    subsampling,
                    plane_order: (0, 2, 1),
                    rgb_format,
                    bit_depth,
                    range,
                    matrix,
                },
            );
            &&& super::converter::convertible(straight, i420, before)
                == super::converter::convertible(swapped, yv12, before)
            &&& super::converter::conversion_verdict(straight, i420, before)
                == super::converter::conversion_verdict(swapped, yv12, before)
            &&& super::converter::conversion_outcome(straight, i420, before, after)
                == super::converter::conversion_outcome(swapped, yv12, before, after)
        }),
{
    let w = before.info.width;
    let h = before.info.height;
    assert(super::convert::planar_image(i420, (0, 1, 2), w, h) == super::convert::planar_image(
        yv12,
        (0, 2, 1),
        w,
        h,
    ));
    assert(super::convert::planar_image_10bit(i420, (0, 1, 2), w, h)
        == super::convert::planar_image_10bit(yv12, (0, 2, 1), w, h));
}

/// A conversion to pixels writes the first plane alone, and one to YUV the planes of luma and chroma;
/// in a frame with as many planes as the format has, none is left out.
pub proof fn law_conversions_write_their_planes(in_info: VideoInfo, out_info: VideoInfo, plane: int)
    requires
        super::params::conversion_spec(in_info, out_info) is Some,
    ensures
        ({
            let written = super::converter::written_planes(
                super::params::conversion_spec(in_info, out_info)->0,
            );
            let order = super::params::plane_order_of(out_info);
            &&& out_info.is_rgb && (in_info.is_rgb || in_info.is_yuv || in_info.is_gray) && !(
            in_info.is_rgb && (out_info.is_yuv || out_info.is_gray)) ==> (written.contains(plane)
                <==> plane == 0)
            &&& !out_info.is_rgb && out_info.is_gray ==> (written.contains(plane) <==> plane == 0)
            &&& !out_info.is_rgb && !out_info.is_gray && out_info.n_planes == 2 ==> (written.contains(
                plane,
            ) <==> plane == 0 || plane == 1)
            &&& !out_info.is_rgb && !out_info.is_gray && out_info.n_planes == 3 ==> (written.contains(
                plane,
            ) <==> plane == order.0 || plane == order.1 || plane == order.2)
        }),
{
}

} // verus!
