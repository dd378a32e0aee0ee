//! The converter that an element holds: chosen once for a pair of formats, then run per frame.

use super::convert::{
    convert_grayscale_to_rgb, convert_packed_yuv_to_rgb, convert_planar_yuv_to_rgb,
    convert_planar_yuva_to_rgba, convert_rgb_to_grayscale, convert_rgb_to_planar_yuv,
    convert_rgb_to_rgb, convert_rgb_to_semiplanar_yuv, convert_semiplanar_yuv_to_rgb,
};
use super::error::{ConversionError, Verdict};
use super::params::{
    rgb_to_rgb_params, rgb_to_yuv_params, yuv_to_rgb_params, ConversionParams, RgbToRgbParams,
    RgbToYuvParams, YuvToRgbParams,
};
use crate::video::{VideoFrame, VideoInfo};
use crate::yuvops::YuvSubsampling;
use vstd::prelude::*;

verus! {

/// A conversion that the `yuv` crate carries out.
#[derive(Debug)]
pub struct YuvConverter {
    pub params: ConversionParams,
}

/// What carries out a conversion.
#[derive(Debug)]
pub enum Inner {
    /// The `yuv` crate.
    Yuv(YuvConverter),
    /// The stock converter, for everything else.
    Gst,
}

/// Converts frames between two raw video formats.
#[derive(Debug)]
pub struct VideoConverter {
    pub inner: Inner,
}

/// Why there is no converter.
#[derive(Debug, Clone, Copy, PartialEq, Eq, Structural)]
pub enum ConverterError {
    InvalidVideoInfo,
    FallbackDisabled,
}

/// What a caller may set of a conversion.
#[derive(Debug, Clone, Copy, PartialEq, Eq, Structural)]
pub struct VideoConverterConfig {
    /// The field `disable-fallback`, where it is there and a boolean.
    pub disable_fallback: Option<bool>,
}

/// Whether both formats can be looked at for a conversion.
pub open spec fn conversion_defined(in_info: VideoInfo, out_info: VideoInfo) -> bool {
    &&& super::params::yuv_to_rgb_defined(in_info, out_info)
    &&& super::params::rgb_to_yuv_defined(in_info, out_info)
    &&& super::params::rgb_to_rgb_defined(in_info, out_info)
}

/// What a conversion makes of two frames, of the size of the destination.
pub open spec fn conversion_verdict(
    params: ConversionParams,
    src: VideoFrame,
    dest: VideoFrame,
) -> Verdict {
    let w = dest.info.width;
    let h = dest.info.height;
    match params {
        ConversionParams::YuvToRgb(YuvToRgbParams::SemiPlanar {
            subsampling,
            uv_order,
            rgb_format,
            bit_depth,
            ..
        }) => super::convert::semiplanar_verdict(
            src,
            dest,
            w,
            h,
            subsampling,
            uv_order,
            rgb_format,
            bit_depth,
        ),
        ConversionParams::YuvToRgb(YuvToRgbParams::Planar {
            subsampling,
            plane_order,
            rgb_format,
            bit_depth,
            ..
        }) => super::convert::planar_verdict(
            src,
            dest,
            w,
            h,
            plane_order,
            subsampling,
            rgb_format,
            bit_depth,
        ),
        ConversionParams::YuvToRgb(YuvToRgbParams::PlanarAlpha {
            subsampling,
            plane_order,
            rgb_format,
            bit_depth,
            ..
        }) => super::convert::planar_alpha_verdict(
            src,
            dest,
            w,
            h,
            plane_order,
            subsampling,
            rgb_format,
            bit_depth,
        ),
        ConversionParams::YuvToRgb(YuvToRgbParams::Packed { .. }) => super::convert::packed_verdict(
            src,
            dest,
            w,
            h,
        ),
        ConversionParams::YuvToRgb(
            YuvToRgbParams::Grayscale { rgb_format, .. },
        ) => super::convert::gray_verdict(src, dest, w, h, rgb_format),
        ConversionParams::RgbToYuv(RgbToYuvParams::SemiPlanar {
            rgb_format,
            subsampling,
            uv_order,
            ..
        }) => super::convert::to_semiplanar_verdict(
            src,
            dest,
            w,
            h,
            rgb_format,
            subsampling,
            uv_order,
        ),
        ConversionParams::RgbToYuv(RgbToYuvParams::Planar {
            rgb_format,
            subsampling,
            plane_order,
            ..
        }) => super::convert::to_planar_verdict(
            src,
            dest,
            plane_order,
            w,
            h,
            rgb_format,
            subsampling,
        ),
        ConversionParams::RgbToYuv(
            RgbToYuvParams::Grayscale { rgb_format, .. },
        ) => super::convert::to_gray_verdict(src, dest, w, h, rgb_format),
        ConversionParams::RgbToRgb(RgbToRgbParams { src_format, dst_format }) =>
            super::convert::rgb_verdict(src, dest, w, h, src_format, dst_format),
    }
}

/// What a conversion needs of the two frames, whether or not their planes hold the image: planes
/// to read strides from, rows to fill, rows that can be addressed, and a last row that is found
/// in an odd 4:2:0 image.
pub open spec fn convertible(
    params: ConversionParams,
    src: VideoFrame,
    dest: VideoFrame,
) -> bool {
    let w = dest.info.width;
    let h = dest.info.height;
    let from_pixels = src.planes.len() >= 1 && src.planes[0].stride * h <= isize::MAX;
    let to_pixels = dest.planes.len() >= 1 && dest.planes[0].stride * h <= isize::MAX;
    match params {
        ConversionParams::YuvToRgb(YuvToRgbParams::SemiPlanar {
            subsampling,
            rgb_format,
            bit_depth,
            ..
        }) => {
            &&& to_pixels
            &&& 2 * w <= u32::MAX
            &&& src.planes.len() >= 2 && subsampling == YuvSubsampling::S420 && bit_depth == 8
                ==> crate::yuvops::bi_planar_odd_row(
                super::convert::semiplanar_image(src, w, h),
                dest.planes[0].data@.len(),
                dest.planes[0].stride,
                rgb_format.bytes(),
            )
            &&& src.planes.len() >= 2 && subsampling == YuvSubsampling::S420 && bit_depth == 10
                ==> crate::yuvops::bi_planar_odd_row(
                super::convert::semiplanar_image_10bit(src, w, h),
                dest.planes[0].data@.len(),
                dest.planes[0].stride,
                rgb_format.bytes(),
            )
        },
        ConversionParams::YuvToRgb(YuvToRgbParams::Packed { .. }) => to_pixels && 2 * w + 2
            <= usize::MAX,
        ConversionParams::YuvToRgb(_) => to_pixels,
        ConversionParams::RgbToYuv(RgbToYuvParams::SemiPlanar { subsampling, .. }) => {
            &&& from_pixels
            &&& 2 * w <= u32::MAX
            &&& dest.planes.len() >= 2
            &&& subsampling != YuvSubsampling::S400
            &&& super::convert::has_rows(dest, 0, h)
            &&& super::convert::has_rows(
                dest,
                1,
                super::convert::filled_chroma_rows(subsampling, h),
            )
        },
        ConversionParams::RgbToYuv(RgbToYuvParams::Planar { subsampling, plane_order, .. }) => {
            let rows = super::convert::filled_chroma_rows(subsampling, h);
            &&& from_pixels
            &&& subsampling != YuvSubsampling::S400
            &&& super::convert::three_planes(dest, plane_order)
            &&& super::convert::has_rows(dest, plane_order.0 as int, h)
            &&& super::convert::has_rows(dest, plane_order.1 as int, rows)
            &&& super::convert::has_rows(dest, plane_order.2 as int, rows)
        },
        ConversionParams::RgbToYuv(RgbToYuvParams::Grayscale { .. }) => from_pixels
            && dest.planes.len() >= 1,
        ConversionParams::RgbToRgb(_) => from_pixels && to_pixels,
    }
}

/// What a successful conversion leaves in the destination.
pub open spec fn conversion_outcome(
    params: ConversionParams,
    src: VideoFrame,
    before: VideoFrame,
    after: VideoFrame,
) -> bool {
    let w = before.info.width;
    let h = before.info.height;
    let stride = before.planes[0].stride;
    let pixels_before = before.planes[0].data@;
    let pixels_after = after.planes[0].data@;
    match params {
        ConversionParams::YuvToRgb(YuvToRgbParams::SemiPlanar {
            subsampling,
            uv_order,
            rgb_format,
            bit_depth,
            range,
            matrix,
        }) => if bit_depth == 8 {
            crate::yuvops::decode_semiplanar::semiplanar_pixels(
                subsampling,
                uv_order,
                rgb_format,
                super::convert::semiplanar_image(src, w, h),
                range,
                matrix,
                stride,
                pixels_before,
                pixels_after,
            )
        } else {
            crate::yuvops::decode_semiplanar::semiplanar_pixels_10bit(
                subsampling,
                uv_order,
                rgb_format,
                super::convert::semiplanar_image_10bit(src, w, h),
                range,
                matrix,
                stride,
                pixels_before,
                pixels_after,
            )
        },
        ConversionParams::YuvToRgb(YuvToRgbParams::Planar {
            subsampling,
            plane_order,
            rgb_format,
            bit_depth,
            range,
            matrix,
        }) => if bit_depth == 8 {
            crate::yuvops::decode_planar::planar_pixels(
                subsampling,
                rgb_format,
                super::convert::planar_image(src, plane_order, w, h),
                range,
                matrix,
                stride,
                pixels_before,
                pixels_after,
            )
        } else {
            crate::yuvops::decode_planar::planar_pixels_10bit(
                subsampling,
                rgb_format,
                super::convert::planar_image_10bit(src, plane_order, w, h),
                range,
                matrix,
                stride,
                pixels_before,
                pixels_after,
            )
        },
        ConversionParams::YuvToRgb(YuvToRgbParams::PlanarAlpha {
            subsampling,
            plane_order,
            range,
            matrix,
            ..
        }) => crate::yuvops::decode_planar::planar_alpha_pixels(
            subsampling,
            super::convert::planar_alpha_image(src, plane_order, w, h),
            range,
            matrix,
            stride,
            pixels_before,
            pixels_after,
        ),
        ConversionParams::YuvToRgb(YuvToRgbParams::Packed { packed_order, range, matrix }) =>
            crate::yuvops::decode_packed::packed_pixels(
            packed_order,
            super::convert::first_plane_image(src, w, h),
            range,
            matrix,
            stride,
            pixels_before,
            pixels_after,
        ),
        ConversionParams::YuvToRgb(YuvToRgbParams::Grayscale { rgb_format, range, matrix }) =>
            crate::yuvops::decode_packed::gray_pixels(
            rgb_format,
            super::convert::first_plane_image(src, w, h),
            range,
            matrix,
            stride,
            pixels_before,
            pixels_after,
        ),
        ConversionParams::RgbToYuv(RgbToYuvParams::SemiPlanar {
            rgb_format,
            subsampling,
            uv_order,
            range,
            matrix,
        }) => crate::yuvops::encode_semiplanar::semiplanar_planes(
            rgb_format,
            subsampling,
            uv_order,
            src.planes[0].data@,
            src.planes[0].stride,
            range,
            matrix,
            super::convert::semiplanar_target(before, w, h, subsampling),
            super::convert::semiplanar_target(after, w, h, subsampling),
        ),
        ConversionParams::RgbToYuv(RgbToYuvParams::Planar {
            rgb_format,
            subsampling,
            plane_order,
            range,
            matrix,
        }) => crate::yuvops::encode_planar::planar_planes(
            rgb_format,
            subsampling,
            src.planes[0].data@,
            src.planes[0].stride,
            range,
            matrix,
            super::convert::planar_target(before, plane_order, w, h, subsampling),
            super::convert::planar_target(after, plane_order, w, h, subsampling),
        ),
        ConversionParams::RgbToYuv(RgbToYuvParams::Grayscale { rgb_format, range, matrix }) =>
            crate::yuvops::encode_planar::gray_plane(
            rgb_format,
            src.planes[0].data@,
            src.planes[0].stride,
            range,
            matrix,
            super::convert::first_plane_image(before, w, h),
            super::convert::first_plane_image(after, w, h),
        ),
        ConversionParams::RgbToRgb(RgbToRgbParams { src_format, dst_format }) => pixels_after
            == crate::yuvops::shuffle::shuffled(
            src_format,
            dst_format,
            src.planes[0].data@,
            src.planes[0].stride,
            pixels_before,
            stride,
            w,
        ),
    }
}

/// The planes that a conversion may write.
pub open spec fn written_planes(params: ConversionParams) -> Set<int> {
    match params {
        ConversionParams::RgbToYuv(RgbToYuvParams::SemiPlanar { .. }) => set![0, 1],
        ConversionParams::RgbToYuv(RgbToYuvParams::Planar { plane_order, .. }) => set![
            plane_order.0 as int,
            plane_order.1 as int,
            plane_order.2 as int,
        ],
        _ => set![0],
    }
}

impl YuvConverter {
    /// The converter for a pair of formats, where the conversion is supported.
    pub fn try_new(in_info: &VideoInfo, out_info: &VideoInfo) -> (converter: Option<YuvConverter>)
        requires
            conversion_defined(*in_info, *out_info),
        ensures
            match super::params::conversion_spec(*in_info, *out_info) {
                Some(params) => converter == Some(YuvConverter { params }),
                None => converter is None,
            },
    {
        if let Some(params) = yuv_to_rgb_params(in_info, out_info) {
            Some(YuvConverter { params: ConversionParams::YuvToRgb(params) })
        } else if let Some(params) = rgb_to_yuv_params(in_info, out_info) {
            Some(YuvConverter { params: ConversionParams::RgbToYuv(params) })
        } else if let Some(params) = rgb_to_rgb_params(in_info, out_info) {
            Some(YuvConverter { params: ConversionParams::RgbToRgb(params) })
        } else {
            None
        }
    }

    /// Converts a frame into a destination, whose size counts.
    pub fn convert(&self, src: &VideoFrame, dest: &mut VideoFrame) -> (r: Result<
        (),
        ConversionError,
    >)
        requires
            convertible(self.params, *src, *old(dest)),
        ensures
            super::error::follows(r, conversion_verdict(self.params, *src, *old(dest))),
            r is Err ==> crate::video::same_but(*old(dest), *final(dest), Set::empty()),
            crate::video::same_but(*old(dest), *final(dest), written_planes(self.params)),
            r is Ok ==> conversion_outcome(self.params, *src, *old(dest), *final(dest)),
    {
        let width: u32 = dest.info.width;
        let height: u32 = dest.info.height;
        match self.params {
            ConversionParams::YuvToRgb(params) => match params {
                YuvToRgbParams::SemiPlanar {
                    subsampling,
                    uv_order,
                    rgb_format,
                    bit_depth,
                    range,
                    matrix,
                } => convert_semiplanar_yuv_to_rgb(
                    src,
                    dest,
                    width,
                    height,
                    range,
                    matrix,
                    subsampling,
                    uv_order,
                    rgb_format,
                    bit_depth,
                ),
                YuvToRgbParams::Planar {
                    subsampling,
                    plane_order,
                    rgb_format,
                    bit_depth,
                    range,
                    matrix,
                } => convert_planar_yuv_to_rgb(
                    src,
                    dest,
                    width,
                    height,
                    range,
                    matrix,
                    plane_order,
                    subsampling,
                    rgb_format,
                    bit_depth,
                ),
                YuvToRgbParams::PlanarAlpha {
                    subsampling,
                    plane_order,
                    rgb_format,
                    bit_depth,
                    range,
                    matrix,
                } => convert_planar_yuva_to_rgba(
                    src,
                    dest,
                    width,
                    height,
                    range,
                    matrix,
                    plane_order,
                    subsampling,
                    rgb_format,
                    bit_depth,
                ),
                YuvToRgbParams::Packed { packed_order, range, matrix } => convert_packed_yuv_to_rgb(
                    src,
                    dest,
                    width,
                    height,
                    range,
                    matrix,
                    packed_order,
                ),
                YuvToRgbParams::Grayscale { rgb_format, range, matrix } => convert_grayscale_to_rgb(
                    src,
                    dest,
                    width,
                    height,
                    range,
                    matrix,
                    rgb_format,
                ),
            },
            ConversionParams::RgbToYuv(params) => match params {
                RgbToYuvParams::SemiPlanar { rgb_format, subsampling, uv_order, range, matrix } => {
                    convert_rgb_to_semiplanar_yuv(
                        src,
                        dest,
                        width,
                        height,
                        range,
                        matrix,
                        rgb_format,
                        subsampling,
                        uv_order,
                    )
                },
                RgbToYuvParams::Planar { rgb_format, subsampling, plane_order, range, matrix } => {
                    convert_rgb_to_planar_yuv(
                        src,
                        dest,
                        width,
                        height,
                        range,
                        matrix,
                        rgb_format,
                        subsampling,
                        plane_order,
                    )
                },
                RgbToYuvParams::Grayscale { rgb_format, range, matrix } => convert_rgb_to_grayscale(
                    src,
                    dest,
                    width,
                    height,
                    range,
                    matrix,
                    rgb_format,
                ),
            },
            ConversionParams::RgbToRgb(params) => convert_rgb_to_rgb(
                src,
                dest,
                width,
                height,
                params.src_format,
                params.dst_format,
            ),
        }
    }
}

/// Whether a configuration rules the stock converter out.
pub open spec fn fallback_disabled(config: Option<VideoConverterConfig>) -> bool {
    config == Some(VideoConverterConfig { disable_fallback: Some(true) })
}

impl VideoConverter {
    /// Creates a converter. `Inner::Gst` asks the caller to create the stock converter with the
    /// same arguments.
    pub fn new(
        in_info: &VideoInfo,
        out_info: &VideoInfo,
        config: Option<VideoConverterConfig>,
    ) -> (r: Result<VideoConverter, ConverterError>)
        requires
            in_info.valid && out_info.valid ==> conversion_defined(*in_info, *out_info),
        ensures
            r == if !in_info.valid || !out_info.valid {
                Err::<VideoConverter, ConverterError>(ConverterError::InvalidVideoInfo)
            } else {
                match super::params::conversion_spec(*in_info, *out_info) {
                    Some(params) => Ok(
                        VideoConverter { inner: Inner::Yuv(YuvConverter { params }) },
                    ),
                    None => if fallback_disabled(config) {
                        Err(ConverterError::FallbackDisabled)
                    } else {
                        Ok(VideoConverter { inner: Inner::Gst })
                    },
                }
            },
    {
        if !in_info.valid || !out_info.valid {
            return Err(ConverterError::InvalidVideoInfo);
        }
        match Self::create_inner(in_info, out_info, config) {
            Ok(inner) => Ok(VideoConverter { inner }),
            Err(e) => Err(e),
        }
    }

    /// Converts a frame. None where the stock converter has to do it; the destination is then as
    /// it was.
    pub fn frame_ref(&self, src: &VideoFrame, dest: &mut VideoFrame) -> (r: Option<
        Result<(), ConversionError>,
    >)
        requires
            self.inner matches Inner::Yuv(converter) ==> convertible(
                converter.params,
                *src,
                *old(dest),
            ),
        ensures
            match self.inner {
                Inner::Gst => r is None && *final(dest) == *old(dest),
                Inner::Yuv(converter) => {
                    &&& r is Some
                    &&& super::error::follows(
                        r->0,
                        conversion_verdict(converter.params, *src, *old(dest)),
                    )
                    &&& r->0 is Err ==> crate::video::same_but(
                        *old(dest),
                        *final(dest),
                        Set::empty(),
                    )
                    &&& crate::video::same_but(
                        *old(dest),
                        *final(dest),
                        written_planes(converter.params),
                    )
                    &&& r->0 is Ok ==> conversion_outcome(
                        converter.params,
                        *src,
                        *old(dest),
                        *final(dest),
                    )
                },
            },
    {
        match &self.inner {
            Inner::Gst => None,
            Inner::Yuv(converter) => Some(converter.convert(src, dest)),
        }
    }

    fn create_inner(
        in_info: &VideoInfo,
        out_info: &VideoInfo,
        config: Option<VideoConverterConfig>,
    ) -> (r: Result<Inner, ConverterError>)
        requires
            conversion_defined(*in_info, *out_info),
        ensures
            r == match super::params::conversion_spec(*in_info, *out_info) {
                Some(params) => Ok::<Inner, ConverterError>(Inner::Yuv(YuvConverter { params })),
                None => if fallback_disabled(config) {
                    Err(ConverterError::FallbackDisabled)
                } else {
                    Ok(Inner::Gst)
                },
            },
    {
        if let Some(converter) = YuvConverter::try_new(in_info, out_info) {
            Ok(Inner::Yuv(converter))
        } else {
            let disabled = match config {
                Some(config) => match config.disable_fallback {
                    Some(disable) => disable,
                    None => false,
                },
                None => false,
            };
            if disabled {
                return Err(ConverterError::FallbackDisabled);
            }
            Ok(Inner::Gst)
        }
    }
}

} // verus!
