//! Which conversions are supported, and all that is needed to carry one out.

use super::detect::{
    detect_packed_order, detect_rgb_format, detect_uv_order, detect_yuv_layout,
    detect_yuv_subsampling, extract_yuv_colorimetry, get_plane_order_introspected,
    is_rgb_format_supported_by_yuv, YuvLayout,
};
use crate::video::VideoInfo;
use crate::yuvops::{
    PackedOrder, RgbFormat, UvOrder, YuvRange, YuvStandardMatrix, YuvSubsampling,
};
use vstd::prelude::*;

verus! {

/// A supported conversion from YUV to RGB.
#[derive(Debug, Clone, Copy, PartialEq, Eq)]
pub enum YuvToRgbParams {
    SemiPlanar {
        subsampling: YuvSubsampling,
        uv_order: UvOrder,
        rgb_format: RgbFormat,
        bit_depth: u32,
        range: YuvRange,
        matrix: YuvStandardMatrix,
    },
    Planar {
        subsampling: YuvSubsampling,
        plane_order: (usize, usize, usize),
        rgb_format: RgbFormat,
        bit_depth: u32,
        range: YuvRange,
        matrix: YuvStandardMatrix,
    },
    /// Always to RGBA.
    PlanarAlpha {
        subsampling: YuvSubsampling,
        plane_order: (usize, usize, usize),
        rgb_format: RgbFormat,
        bit_depth: u32,
        range: YuvRange,
        matrix: YuvStandardMatrix,
    },
    /// Always to RGB.
    Packed { packed_order: PackedOrder, range: YuvRange, matrix: YuvStandardMatrix },
    Grayscale { rgb_format: RgbFormat, range: YuvRange, matrix: YuvStandardMatrix },
}

/// A supported conversion from RGB to YUV. There is none to a packed format.
#[derive(Debug, Clone, Copy, PartialEq, Eq)]
pub enum RgbToYuvParams {
    SemiPlanar {
        rgb_format: RgbFormat,
        subsampling: YuvSubsampling,
        uv_order: UvOrder,
        range: YuvRange,
        matrix: YuvStandardMatrix,
    },
    Planar {
        rgb_format: RgbFormat,
        subsampling: YuvSubsampling,
        plane_order: (usize, usize, usize),
        range: YuvRange,
        matrix: YuvStandardMatrix,
    },
    Grayscale { rgb_format: RgbFormat, range: YuvRange, matrix: YuvStandardMatrix },
}

/// A supported conversion between pixel layouts.
#[derive(Debug, Clone, Copy, PartialEq, Eq)]
pub struct RgbToRgbParams {
    pub src_format: RgbFormat,
    pub dst_format: RgbFormat,
}

/// A supported conversion.
#[derive(Debug, Clone, Copy, PartialEq, Eq)]
pub enum ConversionParams {
    YuvToRgb(YuvToRgbParams),
    RgbToYuv(RgbToYuvParams),
    RgbToRgb(RgbToRgbParams),
}

/// Whether a YUV or gray format can be looked at: its layout is defined and, where chroma has
/// planes of its own, so is its subsampling.
pub open spec fn describable(info: VideoInfo) -> bool {
    &&& super::detect::has_yuv_layout(info)
    &&& super::detect::yuv_layout_of(info) != YuvLayout::Packed
        ==> super::detect::has_yuv_subsampling(info)
}

/// Where a conversion from YUV to RGB is not ruled out by the kinds, depths and byte order, the
/// YUV side has to be describable. Formats of these kinds have components.
pub open spec fn yuv_to_rgb_defined(in_info: VideoInfo, out_info: VideoInfo) -> bool {
    (in_info.is_yuv || in_info.is_gray) && out_info.is_rgb ==> {
        &&& 1 <= in_info.components.len()
        &&& 1 <= out_info.components.len()
        &&& out_info.components[0].depth == 8 && super::detect::known_byte_order(out_info)
            && super::detect::yuv_matrix_of(in_info.colorimetry.matrix) is Some ==> describable(
            in_info,
        )
    }
}

/// The same for a conversion from RGB to YUV.
pub open spec fn rgb_to_yuv_defined(in_info: VideoInfo, out_info: VideoInfo) -> bool {
    in_info.is_rgb && (out_info.is_yuv || out_info.is_gray) ==> {
        &&& 1 <= in_info.components.len()
        &&& 1 <= out_info.components.len()
        &&& in_info.components[0].depth == 8 && out_info.components[0].depth == 8
            && super::detect::known_byte_order(in_info) && super::detect::yuv_matrix_of(
            out_info.colorimetry.matrix,
        ) is Some ==> describable(out_info)
    }
}

/// RGB formats have components.
pub open spec fn rgb_to_rgb_defined(in_info: VideoInfo, out_info: VideoInfo) -> bool {
    in_info.is_rgb && out_info.is_rgb ==> 1 <= in_info.components.len() && 1
        <= out_info.components.len()
}

/// Whether a semi-planar image can be turned into pixels: at 8 bits in any known chroma order, at
/// 10 bits in UV order.
pub open spec fn semiplanar_supported(
    subsampling: YuvSubsampling,
    uv_order: UvOrder,
    bit_depth: u32,
) -> bool {
    &&& bit_depth == 8 || (bit_depth == 10 && uv_order == UvOrder::Uv)
    &&& crate::yuvops::chroma_order_known(subsampling, uv_order)
}

/// Whether a planar image can be turned into pixels: at 8 bits always, at 10 bits and 4:4:4 into
/// RGBA only.
pub open spec fn planar_supported(
    subsampling: YuvSubsampling,
    rgb_format: RgbFormat,
    bit_depth: u32,
) -> bool {
    &&& bit_depth == 8 || bit_depth == 10
    &&& subsampling != YuvSubsampling::S400
    &&& bit_depth == 10 && subsampling == YuvSubsampling::S444 ==> rgb_format == RgbFormat::Rgba
}

/// The plane order of a format.
pub open spec fn plane_order_of(info: VideoInfo) -> (usize, usize, usize) {
    (
        super::detect::plane_of(info, 0) as usize,
        super::detect::plane_of(info, 1) as usize,
        super::detect::plane_of(info, 2) as usize,
    )
}

/// The supported conversion from a YUV or gray format to an RGB format, if there is one: the
/// output has 8 bits a channel in a known byte order, the input has a known matrix, and the
/// layouts go together.
pub open spec fn yuv_to_rgb_spec(in_info: VideoInfo, out_info: VideoInfo) -> Option<
    YuvToRgbParams,
> {
    let matrix = super::detect::yuv_matrix_of(in_info.colorimetry.matrix);
    let range = super::detect::yuv_range_of(in_info.colorimetry.range);
    let bit_depth = in_info.components[0].depth;
    let rgb_format = super::detect::rgb_format_of(out_info);
    let subsampling = super::detect::yuv_subsampling_of(in_info);
    let uv_order = super::detect::uv_order_of(in_info);
    let plane_order = plane_order_of(in_info);
    if !(in_info.is_yuv || in_info.is_gray) || !out_info.is_rgb || out_info.components[0].depth
        != 8 || !super::detect::known_byte_order(out_info) || matrix is None {
        None
    } else {
        let matrix = matrix->0;
        match super::detect::yuv_layout_of(in_info) {
            YuvLayout::SemiPlanar => if semiplanar_supported(subsampling, uv_order, bit_depth) {
                Some(
                    YuvToRgbParams::SemiPlanar {
                        subsampling,
                        uv_order,
                        rgb_format,
                        bit_depth,
                        range,
                        matrix,
                    },
                )
            } else {
                None
            },
            YuvLayout::Planar => if planar_supported(subsampling, rgb_format, bit_depth) {
                Some(
                    YuvToRgbParams::Planar {
                        subsampling,
                        plane_order,
                        rgb_format,
                        bit_depth,
                        range,
                        matrix,
                    },
                )
            } else {
                None
            },
            YuvLayout::PlanarAlpha => if bit_depth == 8 && rgb_format == RgbFormat::Rgba
                && subsampling != YuvSubsampling::S400 {
                Some(
                    YuvToRgbParams::PlanarAlpha {
                        subsampling,
                        plane_order,
                        rgb_format,
                        bit_depth,
                        range,
                        matrix,
                    },
                )
            } else {
                None
            },
            YuvLayout::Packed => if bit_depth == 8 && rgb_format == RgbFormat::Rgb {
                Some(
                    YuvToRgbParams::Packed {
                        packed_order: super::detect::packed_order_of(in_info),
                        range,
                        matrix,
                    },
                )
            } else {
                None
            },
            YuvLayout::Grayscale => if bit_depth == 8 {
                Some(YuvToRgbParams::Grayscale { rgb_format, range, matrix })
            } else {
                None
            },
        }
    }
}

/// Determines whether a conversion from YUV to RGB is supported, and all that it takes.
pub fn yuv_to_rgb_params(in_info: &VideoInfo, out_info: &VideoInfo) -> (params: Option<
    YuvToRgbParams,
>)
    requires
        yuv_to_rgb_defined(*in_info, *out_info),
    ensures
        params == yuv_to_rgb_spec(*in_info, *out_info),
{
    if !(in_info.is_yuv || in_info.is_gray) || !out_info.is_rgb {
        return None;
    }
    let in_bit_depth: u32 = in_info.components[0].depth;
    let out_bit_depth: u32 = out_info.components[0].depth;
    if out_bit_depth != 8 {
        return None;
    }
    if !is_rgb_format_supported_by_yuv(out_info) {
        return None;
    }
    let (range, matrix) = match extract_yuv_colorimetry(in_info.colorimetry) {
        Some(colorimetry) => colorimetry,
        None => return None,
    };
    let rgb_format = detect_rgb_format(out_info);
    let layout = detect_yuv_layout(in_info);
    match layout {
        YuvLayout::SemiPlanar => {
            let subsampling = detect_yuv_subsampling(in_info);
            let uv_order = detect_uv_order(in_info);
            let supported = match in_bit_depth {
                8 => match (subsampling, uv_order) {
                    (YuvSubsampling::S420, _) => true,
                    (YuvSubsampling::S422, _) => true,
                    (YuvSubsampling::S444, UvOrder::Uv) => true,
                    _ => false,
                },
                10 => match (subsampling, uv_order) {
                    (YuvSubsampling::S420, UvOrder::Uv) => true,
                    (YuvSubsampling::S422, UvOrder::Uv) => true,
                    (YuvSubsampling::S444, UvOrder::Uv) => true,
                    _ => false,
                },
                _ => false,
            };
            if supported {
                Some(
                    YuvToRgbParams::SemiPlanar {
                        subsampling,
                        uv_order,
                        rgb_format,
                        bit_depth: in_bit_depth,
                        range,
                        matrix,
                    },
                )
            } else {
                None
            }
        },
        YuvLayout::Planar => {
            let subsampling = detect_yuv_subsampling(in_info);
            let plane_order = get_plane_order_introspected(in_info);
            let supported = match in_bit_depth {
                8 => match subsampling {
                    YuvSubsampling::S420 | YuvSubsampling::S422 | YuvSubsampling::S444 => true,
                    _ => false,
                },
                10 => match subsampling {
                    YuvSubsampling::S420 | YuvSubsampling::S422 => true,
                    YuvSubsampling::S444 => rgb_format == RgbFormat::Rgba,
                    _ => false,
                },
                _ => false,
            };
            if supported {
                Some(
                    YuvToRgbParams::Planar {
                        subsampling,
                        plane_order,
                        rgb_format,
                        bit_depth: in_bit_depth,
                        range,
                        matrix,
                    },
                )
            } else {
                None
            }
        },
        YuvLayout::PlanarAlpha => {
            let subsampling = detect_yuv_subsampling(in_info);
            let plane_order = get_plane_order_introspected(in_info);
            if in_bit_depth == 8 && rgb_format == RgbFormat::Rgba && subsampling
                != YuvSubsampling::S400 {
                Some(
                    YuvToRgbParams::PlanarAlpha {
                        subsampling,
                        plane_order,
                        rgb_format,
                        bit_depth: in_bit_depth,
                        range,
                        matrix,
                    },
                )
            } else {
                None
            }
        },
        YuvLayout::Packed => {
            if in_bit_depth == 8 && rgb_format == RgbFormat::Rgb {
                Some(
                    YuvToRgbParams::Packed {
                        packed_order: detect_packed_order(in_info),
                        range,
                        matrix,
                    },
                )
            } else {
                None
            }
        },
        YuvLayout::Grayscale => {
            if in_bit_depth == 8 {
                Some(YuvToRgbParams::Grayscale { rgb_format, range, matrix })
            } else {
                None
            }
        },
    }
}

/// The supported conversion from an RGB format to a YUV or gray format, if there is one: both
/// have 8 bits a channel, the input has a known byte order, the output a known matrix, and the
/// output is neither packed nor has alpha.
pub open spec fn rgb_to_yuv_spec(in_info: VideoInfo, out_info: VideoInfo) -> Option<
    RgbToYuvParams,
> {
    let matrix = super::detect::yuv_matrix_of(out_info.colorimetry.matrix);
    let range = super::detect::yuv_range_of(out_info.colorimetry.range);
    let rgb_format = super::detect::rgb_format_of(in_info);
    let subsampling = super::detect::yuv_subsampling_of(out_info);
    let uv_order = super::detect::uv_order_of(out_info);
    let plane_order = plane_order_of(out_info);
    if !in_info.is_rgb || !(out_info.is_yuv || out_info.is_gray) || in_info.components[0].depth
        != 8 || out_info.components[0].depth != 8 || !super::detect::known_byte_order(in_info)
        || matrix is None {
        None
    } else {
        let matrix = matrix->0;
        match super::detect::yuv_layout_of(out_info) {
            YuvLayout::SemiPlanar => if crate::yuvops::chroma_order_known(subsampling, uv_order) {
                Some(
                    RgbToYuvParams::SemiPlanar { rgb_format, subsampling, uv_order, range, matrix },
                )
            } else {
                None
            },
            YuvLayout::Planar => if subsampling != YuvSubsampling::S400 {
                Some(
                    RgbToYuvParams::Planar { rgb_format, subsampling, plane_order, range, matrix },
                )
            } else {
                None
            },
            YuvLayout::Grayscale => Some(RgbToYuvParams::Grayscale { rgb_format, range, matrix }),
            _ => None,
        }
    }
}

/// Determines whether a conversion from RGB to YUV is supported, and all that it takes.
pub fn rgb_to_yuv_params(in_info: &VideoInfo, out_info: &VideoInfo) -> (params: Option<
    RgbToYuvParams,
>)
    requires
        rgb_to_yuv_defined(*in_info, *out_info),
    ensures
        params == rgb_to_yuv_spec(*in_info, *out_info),
{
    if !in_info.is_rgb || !(out_info.is_yuv || out_info.is_gray) {
        return None;
    }
    let in_bit_depth: u32 = in_info.components[0].depth;
    let out_bit_depth: u32 = out_info.components[0].depth;
    if in_bit_depth != 8 || out_bit_depth != 8 {
        return None;
    }
    if !is_rgb_format_supported_by_yuv(in_info) {
        return None;
    }
    let (range, matrix) = match extract_yuv_colorimetry(out_info.colorimetry) {
        Some(colorimetry) => colorimetry,
        None => return None,
    };
    let rgb_format = detect_rgb_format(in_info);
    let layout = detect_yuv_layout(out_info);
    match layout {
        YuvLayout::Packed => None,
        YuvLayout::PlanarAlpha => None,
        YuvLayout::SemiPlanar => {
            let subsampling = detect_yuv_subsampling(out_info);
            let uv_order = detect_uv_order(out_info);
            let supported = match (subsampling, uv_order) {
                (YuvSubsampling::S420, _) => true,
                (YuvSubsampling::S422, _) => true,
                (YuvSubsampling::S444, UvOrder::Uv) => true,
                _ => false,
            };
            if supported {
                Some(
                    RgbToYuvParams::SemiPlanar { rgb_format, subsampling, uv_order, range, matrix },
                )
            } else {
                None
            }
        },
        YuvLayout::Planar => {
            let subsampling = detect_yuv_subsampling(out_info);
            let plane_order = get_plane_order_introspected(out_info);
            match subsampling {
                YuvSubsampling::S420 | YuvSubsampling::S422 | YuvSubsampling::S444 => Some(
                    RgbToYuvParams::Planar { rgb_format, subsampling, plane_order, range, matrix },
                ),
                _ => None,
            }
        },
        YuvLayout::Grayscale => Some(RgbToYuvParams::Grayscale { rgb_format, range, matrix }),
    }
}

/// The supported conversion between two RGB formats, if there is one: both have 8 bits a channel
/// and known byte orders, and the orders differ.
pub open spec fn rgb_to_rgb_spec(in_info: VideoInfo, out_info: VideoInfo) -> Option<
    RgbToRgbParams,
> {
    let src_format = super::detect::rgb_format_of(in_info);
    let dst_format = super::detect::rgb_format_of(out_info);
    if in_info.is_rgb && out_info.is_rgb && in_info.components[0].depth == 8
        && out_info.components[0].depth == 8 && super::detect::known_byte_order(in_info)
        && super::detect::known_byte_order(out_info) && src_format != dst_format {
        Some(RgbToRgbParams { src_format, dst_format })
    } else {
        None
    }
}

/// Determines whether a conversion between two RGB formats is supported, and all that it takes.
pub fn rgb_to_rgb_params(in_info: &VideoInfo, out_info: &VideoInfo) -> (params: Option<
    RgbToRgbParams,
>)
    requires
        rgb_to_rgb_defined(*in_info, *out_info),
    ensures
        params == rgb_to_rgb_spec(*in_info, *out_info),
{
    if !in_info.is_rgb || !out_info.is_rgb {
        return None;
    }
    let in_bit_depth: u32 = in_info.components[0].depth;
    let out_bit_depth: u32 = out_info.components[0].depth;
    if in_bit_depth != 8 || out_bit_depth != 8 {
        return None;
    }
    if !is_rgb_format_supported_by_yuv(in_info) || !is_rgb_format_supported_by_yuv(out_info) {
        return None;
    }
    let src_format = detect_rgb_format(in_info);
    let dst_format = detect_rgb_format(out_info);
    if src_format == dst_format {
        return None;
    }
    Some(RgbToRgbParams { src_format, dst_format })
}

/// The supported conversion between two formats, if there is one.
pub open spec fn conversion_spec(in_info: VideoInfo, out_info: VideoInfo) -> Option<
    ConversionParams,
> {
    match (
        yuv_to_rgb_spec(in_info, out_info),
        rgb_to_yuv_spec(in_info, out_info),
        rgb_to_rgb_spec(in_info, out_info),
    ) {
        (Some(params), _, _) => Some(ConversionParams::YuvToRgb(params)),
        (None, Some(params), _) => Some(ConversionParams::RgbToYuv(params)),
        (None, None, Some(params)) => Some(ConversionParams::RgbToRgb(params)),
        (None, None, None) => None,
    }
}

} // verus!
