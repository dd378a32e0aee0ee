//! Which function of the `yuv` crate carries out which conversion, and on which planes: the one that is
//! named after the two formats, by the range and the matrix of the conversion.

use super::converter::conversion_outcome;
use super::params::{ConversionParams, RgbToRgbParams, RgbToYuvParams, YuvToRgbParams};
use crate::video::VideoFrame;
use crate::yuvops::{
    BiPlanar, PackedOrder, Planar, PlanarAlpha, RgbFormat, SinglePlane, UvOrder, YuvRange,
    YuvStandardMatrix, YuvSubsampling,
};
use vstd::prelude::*;

verus! {

/// The first two planes of a frame, as luma and chroma of an image of a size.
pub open spec fn two_planes(frame: VideoFrame, size: (u32, u32)) -> BiPlanar<u8> {
    BiPlanar {
        y: frame.planes[0].data@,
        y_stride: frame.planes[0].stride,
        uv: frame.planes[1].data@,
        uv_stride: frame.planes[1].stride,
        width: size.0,
        height: size.1,
    }
}

/// Three planes of a frame, as luma, U and V of an image of a size.
pub open spec fn three_of(frame: VideoFrame, order: (usize, usize, usize), size: (u32, u32)) -> Planar<
    u8,
> {
    Planar {
        y: frame.planes[order.0 as int].data@,
        y_stride: frame.planes[order.0 as int].stride,
        u: frame.planes[order.1 as int].data@,
        u_stride: frame.planes[order.1 as int].stride,
        v: frame.planes[order.2 as int].data@,
        v_stride: frame.planes[order.2 as int].stride,
        width: size.0,
        height: size.1,
    }
}

/// The first plane of a frame, as an image of a size.
pub open spec fn one_plane(frame: VideoFrame, size: (u32, u32)) -> SinglePlane {
    SinglePlane {
        data: frame.planes[0].data@,
        stride: frame.planes[0].stride,
        width: size.0,
        height: size.1,
    }
}

/// Images in two planes of 8 bits are read by the functions for NV12, NV21, NV16, NV61 and NV24: the
/// second and the fourth where V comes first, the first two for 4:2:0, the next two for 4:2:2.
pub proof fn law_two_planes_have_their_functions(
    range: YuvRange,
    matrix: YuvStandardMatrix,
    src: VideoFrame,
    before: VideoFrame,
    after: VideoFrame,
)
    ensures
        ({
            let size = (before.info.width, before.info.height);
            let stride = before.planes[0].stride;
            let was = before.planes[0].data@;
            let now = after.planes[0].data@;
            let image = two_planes(src, size);
            let of = |subsampling: YuvSubsampling, uv_order: UvOrder, rgb_format: RgbFormat|
                ConversionParams::YuvToRgb(
                    YuvToRgbParams::SemiPlanar {
                        subsampling,
                        uv_order,
                        rgb_format,
                        bit_depth: 8,
                        range,
                        matrix,
                    },
                );
            &&& conversion_outcome(
                of(YuvSubsampling::S420, UvOrder::Uv, RgbFormat::Rgb),
                src,
                before,
                after,
            ) == crate::yuvops::decode_semiplanar::yuv_nv12_to_rgb_pixels(
                image,
                range,
                matrix,
                stride,
                was,
                now,
            )
            &&& conversion_outcome(
                of(YuvSubsampling::S420, UvOrder::Uv, RgbFormat::Rgba),
                src,
                before,
                after,
            ) == crate::yuvops::decode_semiplanar::yuv_nv12_to_rgba_pixels(
                image,
                range,
                matrix,
                stride,
                was,
                now,
            )
            &&& conversion_outcome(
                of(YuvSubsampling::S420, UvOrder::Uv, RgbFormat::Bgr),
                src,
                before,
                after,
            ) == crate::yuvops::decode_semiplanar::yuv_nv12_to_bgr_pixels(
                image,
                range,
                matrix,
                stride,
                was,
                now,
            )
            &&& conversion_outcome(
                of(YuvSubsampling::S420, UvOrder::Uv, RgbFormat::Bgra),
                src,
                before,
                after,
            ) == crate::yuvops::decode_semiplanar::yuv_nv12_to_bgra_pixels(
                image,
                range,
                matrix,
                stride,
                was,
                now,
            )
            &&& conversion_outcome(
                of(YuvSubsampling::S420, UvOrder::Vu, RgbFormat::Rgb),
                src,
                before,
                after,
            ) == crate::yuvops::decode_semiplanar::yuv_nv21_to_rgb_pixels(
                image,
                range,
                matrix,
                stride,
                was,
                now,
            )
            &&& conversion_outcome(
                of(YuvSubsampling::S420, UvOrder::Vu, RgbFormat::Rgba),
                src,
                before,
                after,
            ) == crate::yuvops::decode_semiplanar::yuv_nv21_to_rgba_pixels(
                image,
                range,
                matrix,
                stride,
                was,
                now,
            )
            &&& conversion_outcome(
                of(YuvSubsampling::S420, UvOrder::Vu, RgbFormat::Bgr),
                src,
                before,
                after,
            ) == crate::yuvops::decode_semiplanar::yuv_nv21_to_bgr_pixels(
                image,
                range,
                matrix,
                stride,
                was,
                now,
            )
            &&& conversion_outcome(
                of(YuvSubsampling::S420, UvOrder::Vu, RgbFormat::Bgra),
                src,
                before,
                after,
            ) == crate::yuvops::decode_semiplanar::yuv_nv21_to_bgra_pixels(
                image,
                range,
                matrix,
                stride,
                was,
                now,
            )
            &&& conversion_outcome(
                of(YuvSubsampling::S422, UvOrder::Uv, RgbFormat::Rgb),
                src,
                before,
                after,
            ) == crate::yuvops::decode_semiplanar::yuv_nv16_to_rgb_pixels(
                image,
                range,
                matrix,
                stride,
                was,
                now,
            )
            &&& conversion_outcome(
                of(YuvSubsampling::S422, UvOrder::Uv, RgbFormat::Rgba),
                src,
                before,
                after,
            ) == crate::yuvops::decode_semiplanar::yuv_nv16_to_rgba_pixels(
                image,
                range,
                matrix,
                stride,
                was,
                now,
            )
            &&& conversion_outcome(
                of(YuvSubsampling::S422, UvOrder::Uv, RgbFormat::Bgr),
                src,
                before,
                after,
            ) == crate::yuvops::decode_semiplanar::yuv_nv16_to_bgr_pixels(
                image,
                range,
                matrix,
                stride,
                was,
                now,
            )
            &&& conversion_outcome(
                of(YuvSubsampling::S422, UvOrder::Uv, RgbFormat::Bgra),
                src,
                before,
                after,
            ) == crate::yuvops::decode_semiplanar::yuv_nv16_to_bgra_pixels(
                image,
                range,
                matrix,
                stride,
                was,
                now,
            )
            &&& conversion_outcome(
                of(YuvSubsampling::S422, UvOrder::Vu, RgbFormat::Rgb),
                src,
                before,
                after,
            ) == crate::yuvops::decode_semiplanar::yuv_nv61_to_rgb_pixels(
                image,
                range,
                matrix,
                stride,
                was,
                now,
            )
            &&& conversion_outcome(
                of(YuvSubsampling::S422, UvOrder::Vu, RgbFormat::Rgba),
                src,
                before,
                after,
            ) == crate::yuvops::decode_semiplanar::yuv_nv61_to_rgba_pixels(
                image,
                range,
                matrix,
                stride,
                was,
                now,
            )
            &&& conversion_outcome(
                of(YuvSubsampling::S422, UvOrder::Vu, RgbFormat::Bgr),
                src,
                before,
                after,
            ) == crate::yuvops::decode_semiplanar::yuv_nv61_to_bgr_pixels(
                image,
                range,
                matrix,
                stride,
                was,
                now,
            )
            &&& conversion_outcome(
                of(YuvSubsampling::S422, UvOrder::Vu, RgbFormat::Bgra),
                src,
                before,
                after,
            ) == crate::yuvops::decode_semiplanar::yuv_nv61_to_bgra_pixels(
                image,
                range,
                matrix,
                stride,
                was,
                now,
            )
            &&& conversion_outcome(
                of(YuvSubsampling::S444, UvOrder::Uv, RgbFormat::Rgb),
                src,
                before,
                after,
            ) == crate::yuvops::decode_semiplanar::yuv_nv24_to_rgb_pixels(
                image,
                range,
                matrix,
                stride,
                was,
                now,
            )
            &&& conversion_outcome(
                of(YuvSubsampling::S444, UvOrder::Uv, RgbFormat::Rgba),
                src,
                before,
                after,
            ) == crate::yuvops::decode_semiplanar::yuv_nv24_to_rgba_pixels(
                image,
                range,
                matrix,
                stride,
                was,
                now,
            )
            &&& conversion_outcome(
                of(YuvSubsampling::S444, UvOrder::Uv, RgbFormat::Bgr),
                src,
                before,
                after,
            ) == crate::yuvops::decode_semiplanar::yuv_nv24_to_bgr_pixels(
                image,
                range,
                matrix,
                stride,
                was,
                now,
            )
            &&& conversion_outcome(
                of(YuvSubsampling::S444, UvOrder::Uv, RgbFormat::Bgra),
                src,
                before,
                after,
            ) == crate::yuvops::decode_semiplanar::yuv_nv24_to_bgra_pixels(
                image,
                range,
                matrix,
                stride,
                was,
                now,
            )
        }),
{
}

/// Images in two planes of 10 bits are read by the functions for P010, P210 and P410.
pub proof fn law_two_deep_planes_have_their_functions(
    range: YuvRange,
    matrix: YuvStandardMatrix,
    src: VideoFrame,
    before: VideoFrame,
    after: VideoFrame,
)
    ensures
        ({
            let size = (before.info.width, before.info.height);
            let stride = before.planes[0].stride;
            let was = before.planes[0].data@;
            let now = after.planes[0].data@;
            let image = super::convert::semiplanar_image_10bit(src, size.0, size.1);
            let of = |subsampling: YuvSubsampling, uv_order: UvOrder, rgb_format: RgbFormat|
                ConversionParams::YuvToRgb(
                    YuvToRgbParams::SemiPlanar {
                        subsampling,
                        uv_order,
                        rgb_format,
                        bit_depth: 10,
                        range,
                        matrix,
                    },
                );
            &&& conversion_outcome(
                of(YuvSubsampling::S420, UvOrder::Uv, RgbFormat::Rgb),
                src,
                before,
                after,
            ) == crate::yuvops::decode_semiplanar::p010_to_rgb_pixels(
                image,
                range,
                matrix,
                stride,
                was,
                now,
            )
            &&& conversion_outcome(
                of(YuvSubsampling::S420, UvOrder::Uv, RgbFormat::Rgba),
                src,
                before,
                after,
            ) == crate::yuvops::decode_semiplanar::p010_to_rgba_pixels(
                image,
                range,
                matrix,
                stride,
                was,
                now,
            )
            &&& conversion_outcome(
                of(YuvSubsampling::S420, UvOrder::Uv, RgbFormat::Bgr),
                src,
                before,
                after,
            ) == crate::yuvops::decode_semiplanar::p010_to_bgr_pixels(
                image,
                range,
                matrix,
                stride,
                was,
                now,
            )
            &&& conversion_outcome(
                of(YuvSubsampling::S420, UvOrder::Uv, RgbFormat::Bgra),
                src,
                before,
                after,
            ) == crate::yuvops::decode_semiplanar::p010_to_bgra_pixels(
                image,
                range,
                matrix,
                stride,
                was,
                now,
            )
            &&& conversion_outcome(
                of(YuvSubsampling::S422, UvOrder::Uv, RgbFormat::Rgb),
                src,
                before,
                after,
            ) == crate::yuvops::decode_semiplanar::p210_to_rgb_pixels(
                image,
                range,
                matrix,
                stride,
                was,
                now,
            )
            &&& conversion_outcome(
                of(YuvSubsampling::S422, UvOrder::Uv, RgbFormat::Rgba),
                src,
                before,
                after,
            ) == crate::yuvops::decode_semiplanar::p210_to_rgba_pixels(
                image,
                range,
                matrix,
                stride,
                was,
                now,
            )
            &&& conversion_outcome(
                of(YuvSubsampling::S422, UvOrder::Uv, RgbFormat::Bgr),
                src,
                before,
                after,
            ) == crate::yuvops::decode_semiplanar::p210_to_bgr_pixels(
                image,
                range,
                matrix,
                stride,
                was,
                now,
            )
            &&& conversion_outcome(
                of(YuvSubsampling::S422, UvOrder::Uv, RgbFormat::Bgra),
                src,
                before,
                after,
            ) == crate::yuvops::decode_semiplanar::p210_to_bgra_pixels(
                image,
                range,
                matrix,
                stride,
                was,
                now,
            )
            &&& conversion_outcome(
                of(YuvSubsampling::S444, UvOrder::Uv, RgbFormat::Rgb),
                src,
                before,
                after,
            ) == crate::yuvops::decode_semiplanar::p410_to_rgb_pixels(
                image,
                range,
                matrix,
                stride,
                was,
                now,
            )
            &&& conversion_outcome(
                of(YuvSubsampling::S444, UvOrder::Uv, RgbFormat::Rgba),
                src,
                before,
                after,
            ) == crate::yuvops::decode_semiplanar::p410_to_rgba_pixels(
                image,
                range,
                matrix,
                stride,
                was,
                now,
            )
            &&& conversion_outcome(
                of(YuvSubsampling::S444, UvOrder::Uv, RgbFormat::Bgr),
                src,
                before,
                after,
            ) == crate::yuvops::decode_semiplanar::p410_to_bgr_pixels(
                image,
                range,
                matrix,
                stride,
                was,
                now,
            )
            &&& conversion_outcome(
                of(YuvSubsampling::S444, UvOrder::Uv, RgbFormat::Bgra),
                src,
                before,
                after,
            ) == crate::yuvops::decode_semiplanar::p410_to_bgra_pixels(
                image,
                range,
                matrix,
                stride,
                was,
                now,
            )
        }),
{
}

/// Images in three planes of 8 bits are read by the functions for their subsampling, with the planes in
/// the order of the format.
pub proof fn law_three_planes_have_their_functions(
    order: (usize, usize, usize),
    range: YuvRange,
    matrix: YuvStandardMatrix,
    src: VideoFrame,
    before: VideoFrame,
    after: VideoFrame,
)
    ensures
        ({
            let size = (before.info.width, before.info.height);
            let stride = before.planes[0].stride;
            let was = before.planes[0].data@;
            let now = after.planes[0].data@;
            let image = three_of(src, order, size);
            let of = |subsampling: YuvSubsampling, rgb_format: RgbFormat|
                ConversionParams::YuvToRgb(
                    YuvToRgbParams::Planar {
                        subsampling,
                        plane_order: order,
                        rgb_format,
                        bit_depth: 8,
                        range,
                        matrix,
                    },
                );
            &&& conversion_outcome(
                of(YuvSubsampling::S420, RgbFormat::Rgb),
                src,
                before,
                after,
            ) == crate::yuvops::decode_planar::yuv420_to_rgb_pixels(
                image,
                range,
                matrix,
                stride,
                was,
                now,
            )
            &&& conversion_outcome(
                of(YuvSubsampling::S420, RgbFormat::Rgba),
                src,
                before,
                after,
            ) == crate::yuvops::decode_planar::yuv420_to_rgba_pixels(
                image,
                range,
                matrix,
                stride,
                was,
                now,
            )
            &&& conversion_outcome(
                of(YuvSubsampling::S420, RgbFormat::Bgr),
                src,
                before,
                after,
            ) == crate::yuvops::decode_planar::yuv420_to_bgr_pixels(
                image,
                range,
                matrix,
                stride,
                was,
                now,
            )
            &&& conversion_outcome(
                of(YuvSubsampling::S420, RgbFormat::Bgra),
                src,
                before,
                after,
            ) == crate::yuvops::decode_planar::yuv420_to_bgra_pixels(
                image,
                range,
                matrix,
                stride,
                was,
                now,
            )
            &&& conversion_outcome(
                of(YuvSubsampling::S422, RgbFormat::Rgb),
                src,
                before,
                after,
            ) == crate::yuvops::decode_planar::yuv422_to_rgb_pixels(
                image,
                range,
                matrix,
                stride,
                was,
                now,
            )
            &&& conversion_outcome(
                of(YuvSubsampling::S422, RgbFormat::Rgba),
                src,
                before,
                after,
            ) == crate::yuvops::decode_planar::yuv422_to_rgba_pixels(
                image,
                range,
                matrix,
                stride,
                was,
                now,
            )
            &&& conversion_outcome(
                of(YuvSubsampling::S422, RgbFormat::Bgr),
                src,
                before,
                after,
            ) == crate::yuvops::decode_planar::yuv422_to_bgr_pixels(
                image,
                range,
                matrix,
                stride,
                was,
                now,
            )
            &&& conversion_outcome(
                of(YuvSubsampling::S422, RgbFormat::Bgra),
                src,
                before,
                after,
            ) == crate::yuvops::decode_planar::yuv422_to_bgra_pixels(
                image,
                range,
                matrix,
                stride,
                was,
                now,
            )
            &&& conversion_outcome(
                of(YuvSubsampling::S444, RgbFormat::Rgb),
                src,
                before,
                after,
            ) == crate::yuvops::decode_planar::yuv444_to_rgb_pixels(
                image,
                range,
                matrix,
                stride,
                was,
                now,
            )
            &&& conversion_outcome(
                of(YuvSubsampling::S444, RgbFormat::Rgba),
                src,
                before,
                after,
            ) == crate::yuvops::decode_planar::yuv444_to_rgba_pixels(
                image,
                range,
                matrix,
                stride,
                was,
                now,
            )
            &&& conversion_outcome(
                of(YuvSubsampling::S444, RgbFormat::Bgr),
                src,
                before,
                after,
            ) == crate::yuvops::decode_planar::yuv444_to_bgr_pixels(
                image,
                range,
                matrix,
                stride,
                was,
                now,
            )
            &&& conversion_outcome(
                of(YuvSubsampling::S444, RgbFormat::Bgra),
                src,
                before,
                after,
            ) == crate::yuvops::decode_planar::yuv444_to_bgra_pixels(
                image,
                range,
                matrix,
                stride,
                was,
                now,
            )
        }),
{
}

/// Images in three planes of 10 bits are read by the functions for their subsampling.
pub proof fn law_three_deep_planes_have_their_functions(
    order: (usize, usize, usize),
    range: YuvRange,
    matrix: YuvStandardMatrix,
    src: VideoFrame,
    before: VideoFrame,
    after: VideoFrame,
)
    ensures
        ({
            let size = (before.info.width, before.info.height);
            let stride = before.planes[0].stride;
            let was = before.planes[0].data@;
            let now = after.planes[0].data@;
            let image = super::convert::planar_image_10bit(src, order, size.0, size.1);
            let of = |subsampling: YuvSubsampling, rgb_format: RgbFormat|
                ConversionParams::YuvToRgb(
                    YuvToRgbParams::Planar {
                        subsampling,
                        plane_order: order,
                        rgb_format,
                        bit_depth: 10,
                        range,
                        matrix,
                    },
                );
            &&& conversion_outcome(
                of(YuvSubsampling::S420, RgbFormat::Rgb),
                src,
                before,
                after,
            ) == crate::yuvops::decode_planar::i010_to_rgb_pixels(
                image,
                range,
                matrix,
                stride,
                was,
                now,
            )
            &&& conversion_outcome(
                of(YuvSubsampling::S420, RgbFormat::Rgba),
                src,
                before,
                after,
            ) == crate::yuvops::decode_planar::i010_to_rgba_pixels(
                image,
                range,
                matrix,
                stride,
                was,
                now,
            )
            &&& conversion_outcome(
                of(YuvSubsampling::S420, RgbFormat::Bgr),
                src,
                before,
                after,
            ) == crate::yuvops::decode_planar::i010_to_bgr_pixels(
                image,
                range,
                matrix,
                stride,
                was,
                now,
            )
            &&& conversion_outcome(
                of(YuvSubsampling::S420, RgbFormat::Bgra),
                src,
                before,
                after,
            ) == crate::yuvops::decode_planar::i010_to_bgra_pixels(
                image,
                range,
                matrix,
                stride,
                was,
                now,
            )
            &&& conversion_outcome(
                of(YuvSubsampling::S422, RgbFormat::Rgb),
                src,
                before,
                after,
            ) == crate::yuvops::decode_planar::i210_to_rgb_pixels(
                image,
                range,
                matrix,
                stride,
                was,
                now,
            )
            &&& conversion_outcome(
                of(YuvSubsampling::S422, RgbFormat::Rgba),
                src,
                before,
                after,
            ) == crate::yuvops::decode_planar::i210_to_rgba_pixels(
                image,
                range,
                matrix,
                stride,
                was,
                now,
            )
            &&& conversion_outcome(
                of(YuvSubsampling::S422, RgbFormat::Bgr),
                src,
                before,
                after,
            ) == crate::yuvops::decode_planar::i210_to_bgr_pixels(
                image,
                range,
                matrix,
                stride,
                was,
                now,
            )
            &&& conversion_outcome(
                of(YuvSubsampling::S422, RgbFormat::Bgra),
                src,
                before,
                after,
            ) == crate::yuvops::decode_planar::i210_to_bgra_pixels(
                image,
                range,
                matrix,
                stride,
                was,
                now,
            )
            &&& conversion_outcome(
                of(YuvSubsampling::S444, RgbFormat::Rgba),
                src,
                before,
                after,
            ) == crate::yuvops::decode_planar::i410_to_rgba_pixels(
                image,
                range,
                matrix,
                stride,
                was,
                now,
            )
        }),
{
}

/// Images in four planes are read by the functions with alpha, which is the fourth plane.
pub proof fn law_four_planes_have_their_functions(
    order: (usize, usize, usize),
    range: YuvRange,
    matrix: YuvStandardMatrix,
    src: VideoFrame,
    before: VideoFrame,
    after: VideoFrame,
)
    ensures
        ({
            let size = (before.info.width, before.info.height);
            let stride = before.planes[0].stride;
            let was = before.planes[0].data@;
            let now = after.planes[0].data@;
            let image = PlanarAlpha {
                colour: three_of(src, order, size),
                a: src.planes[3].data@,
                a_stride: src.planes[3].stride,
            };
            let of = |subsampling: YuvSubsampling|
                ConversionParams::YuvToRgb(
                    YuvToRgbParams::PlanarAlpha {
                        subsampling,
                        plane_order: order,
                        rgb_format: RgbFormat::Rgba,
                        bit_depth: 8,
                        range,
                        matrix,
                    },
                );
            &&& conversion_outcome(
                of(YuvSubsampling::S420),
                src,
                before,
                after,
            ) == crate::yuvops::decode_planar::yuv420_alpha_to_rgba_pixels(
                image,
                range,
                matrix,
                stride,
                was,
                now,
            )
            &&& conversion_outcome(
                of(YuvSubsampling::S422),
                src,
                before,
                after,
            ) == crate::yuvops::decode_planar::yuv422_alpha_to_rgba_pixels(
                image,
                range,
                matrix,
                stride,
                was,
                now,
            )
            &&& conversion_outcome(
                of(YuvSubsampling::S444),
                src,
                before,
                after,
            ) == crate::yuvops::decode_planar::yuv444_alpha_to_rgba_pixels(
                image,
                range,
                matrix,
                stride,
                was,
                now,
            )
        }),
{
}

/// Packed images are read by the functions that spell their order, and gray ones by those without
/// chroma.
pub proof fn law_single_planes_have_their_functions(
    range: YuvRange,
    matrix: YuvStandardMatrix,
    src: VideoFrame,
    before: VideoFrame,
    after: VideoFrame,
)
    ensures
        ({
            let size = (before.info.width, before.info.height);
            let stride = before.planes[0].stride;
            let was = before.planes[0].data@;
            let now = after.planes[0].data@;
            let image = one_plane(src, size);
            let packed = |packed_order: PackedOrder|
                ConversionParams::YuvToRgb(YuvToRgbParams::Packed { packed_order, range, matrix });
            let gray = |rgb_format: RgbFormat|
                ConversionParams::YuvToRgb(YuvToRgbParams::Grayscale { rgb_format, range, matrix });
            &&& conversion_outcome(
                packed(PackedOrder::Yuyv),
                src,
                before,
                after,
            ) == crate::yuvops::decode_packed::yuyv422_to_rgb_pixels(
                image,
                range,
                matrix,
                stride,
                was,
                now,
            )
            &&& conversion_outcome(
                packed(PackedOrder::Uyvy),
                src,
                before,
                after,
            ) == crate::yuvops::decode_packed::uyvy422_to_rgb_pixels(
                image,
                range,
                matrix,
                stride,
                was,
                now,
            )
            &&& conversion_outcome(
                packed(PackedOrder::Yvyu),
                src,
                before,
                after,
            ) == crate::yuvops::decode_packed::yvyu422_to_rgb_pixels(
                image,
                range,
                matrix,
                stride,
                was,
                now,
            )
            &&& conversion_outcome(
                packed(PackedOrder::Vyuy),
                src,
                before,
                after,
            ) == crate::yuvops::decode_packed::vyuy422_to_rgb_pixels(
                image,
                range,
                matrix,
                stride,
                was,
                now,
            )
            &&& conversion_outcome(
                gray(RgbFormat::Rgb),
                src,
                before,
                after,
            ) == crate::yuvops::decode_packed::yuv400_to_rgb_pixels(
                image,
                range,
                matrix,
                stride,
                was,
                now,
            )
            &&& conversion_outcome(
                gray(RgbFormat::Rgba),
                src,
                before,
                after,
            ) == crate::yuvops::decode_packed::yuv400_to_rgba_pixels(
                image,
                range,
                matrix,
                stride,
                was,
                now,
            )
            &&& conversion_outcome(
                gray(RgbFormat::Bgr),
                src,
                before,
                after,
            ) == crate::yuvops::decode_packed::yuv400_to_bgr_pixels(
                image,
                range,
                matrix,
                stride,
                was,
                now,
            )
            &&& conversion_outcome(
                gray(RgbFormat::Bgra),
                src,
                before,
                after,
            ) == crate::yuvops::decode_packed::yuv400_to_bgra_pixels(
                image,
                range,
                matrix,
                stride,
                was,
                now,
            )
        }),
{
}

/// Pixels are written in two planes by the functions for NV12, NV21, NV16, NV61 and NV24: all rows of
/// luma, and the rows of chroma, of which 4:2:0 has half as many.
pub proof fn law_two_planes_are_written_by_their_functions(
    range: YuvRange,
    matrix: YuvStandardMatrix,
    src: VideoFrame,
    before: VideoFrame,
    after: VideoFrame,
)
    ensures
        ({
            let (w, h) = (before.info.width, before.info.height);
            let pixels = src.planes[0].data@;
            let stride = src.planes[0].stride;
            let filled = |frame: VideoFrame, subsampling: YuvSubsampling|
                BiPlanar {
                    y: frame.planes[0].data@.take(frame.planes[0].stride * h),
                    y_stride: frame.planes[0].stride,
                    uv: frame.planes[1].data@.take(
                        frame.planes[1].stride * (if subsampling == YuvSubsampling::S420 {
                            h as int / 2
                        } else {
                            h as int
                        }),
                    ),
                    uv_stride: frame.planes[1].stride,
                    width: w,
                    height: h,
                };
            let to = |rgb_format: RgbFormat, subsampling: YuvSubsampling, uv_order: UvOrder|
                ConversionParams::RgbToYuv(
                    RgbToYuvParams::SemiPlanar { rgb_format, subsampling, uv_order, range, matrix },
                );
            &&& conversion_outcome(
                to(RgbFormat::Rgb, YuvSubsampling::S420, UvOrder::Uv),
                src,
                before,
                after,
            ) == crate::yuvops::encode_semiplanar::rgb_to_yuv_nv12_planes(
                pixels,
                stride,
                range,
                matrix,
                filled(before, YuvSubsampling::S420),
                filled(after, YuvSubsampling::S420),
            )
            &&& conversion_outcome(
                to(RgbFormat::Rgba, YuvSubsampling::S420, UvOrder::Uv),
                src,
                before,
                after,
            ) == crate::yuvops::encode_semiplanar::rgba_to_yuv_nv12_planes(
                pixels,
                stride,
                range,
                matrix,
                filled(before, YuvSubsampling::S420),
                filled(after, YuvSubsampling::S420),
            )
            &&& conversion_outcome(
                to(RgbFormat::Bgr, YuvSubsampling::S420, UvOrder::Uv),
                src,
                before,
                after,
            ) == crate::yuvops::encode_semiplanar::bgr_to_yuv_nv12_planes(
                pixels,
                stride,
                range,
                matrix,
                filled(before, YuvSubsampling::S420),
                filled(after, YuvSubsampling::S420),
            )
            &&& conversion_outcome(
                to(RgbFormat::Bgra, YuvSubsampling::S420, UvOrder::Uv),
                src,
                before,
                after,
            ) == crate::yuvops::encode_semiplanar::bgra_to_yuv_nv12_planes(
                pixels,
                stride,
                range,
                matrix,
                filled(before, YuvSubsampling::S420),
                filled(after, YuvSubsampling::S420),
            )
            &&& conversion_outcome(
                to(RgbFormat::Rgb, YuvSubsampling::S420, UvOrder::Vu),
                src,
                before,
                after,
            ) == crate::yuvops::encode_semiplanar::rgb_to_yuv_nv21_planes(
                pixels,
                stride,
                range,
                matrix,
                filled(before, YuvSubsampling::S420),
                filled(after, YuvSubsampling::S420),
            )
            &&& conversion_outcome(
                to(RgbFormat::Rgba, YuvSubsampling::S420, UvOrder::Vu),
                src,
                before,
                after,
            ) == crate::yuvops::encode_semiplanar::rgba_to_yuv_nv21_planes(
                pixels,
                stride,
                range,
                matrix,
                filled(before, YuvSubsampling::S420),
                filled(after, YuvSubsampling::S420),
            )
            &&& conversion_outcome(
                to(RgbFormat::Bgr, YuvSubsampling::S420, UvOrder::Vu),
                src,
                before,
                after,
            ) == crate::yuvops::encode_semiplanar::bgr_to_yuv_nv21_planes(
                pixels,
                stride,
                range,
                matrix,
                filled(before, YuvSubsampling::S420),
                filled(after, YuvSubsampling::S420),
            )
            &&& conversion_outcome(
                to(RgbFormat::Bgra, YuvSubsampling::S420, UvOrder::Vu),
                src,
                before,
                after,
            ) == crate::yuvops::encode_semiplanar::bgra_to_yuv_nv21_planes(
                pixels,
                stride,
                range,
                matrix,
                filled(before, YuvSubsampling::S420),
                filled(after, YuvSubsampling::S420),
            )
            &&& conversion_outcome(
                to(RgbFormat::Rgb, YuvSubsampling::S422, UvOrder::Uv),
                src,
                before,
                after,
            ) == crate::yuvops::encode_semiplanar::rgb_to_yuv_nv16_planes(
                pixels,
                stride,
                range,
                matrix,
                filled(before, YuvSubsampling::S422),
                filled(after, YuvSubsampling::S422),
            )
            &&& conversion_outcome(
                to(RgbFormat::Rgba, YuvSubsampling::S422, UvOrder::Uv),
                src,
                before,
                after,
            ) == crate::yuvops::encode_semiplanar::rgba_to_yuv_nv16_planes(
                pixels,
                stride,
                range,
                matrix,
                filled(before, YuvSubsampling::S422),
                filled(after, YuvSubsampling::S422),
            )
            &&& conversion_outcome(
                to(RgbFormat::Bgr, YuvSubsampling::S422, UvOrder::Uv),
                src,
                before,
                after,
            ) == crate::yuvops::encode_semiplanar::bgr_to_yuv_nv16_planes(
                pixels,
                stride,
                range,
                matrix,
                filled(before, YuvSubsampling::S422),
                filled(after, YuvSubsampling::S422),
            )
            &&& conversion_outcome(
                to(RgbFormat::Bgra, YuvSubsampling::S422, UvOrder::Uv),
                src,
                before,
                after,
            ) == crate::yuvops::encode_semiplanar::bgra_to_yuv_nv16_planes(
                pixels,
                stride,
                range,
                matrix,
                filled(before, YuvSubsampling::S422),
                filled(after, YuvSubsampling::S422),
            )
            &&& conversion_outcome(
                to(RgbFormat::Rgb, YuvSubsampling::S422, UvOrder::Vu),
                src,
                before,
                after,
            ) == crate::yuvops::encode_semiplanar::rgb_to_yuv_nv61_planes(
                pixels,
                stride,
                range,
                matrix,
                filled(before, YuvSubsampling::S422),
                filled(after, YuvSubsampling::S422),
            )
            &&& conversion_outcome(
                to(RgbFormat::Rgba, YuvSubsampling::S422, UvOrder::Vu),
                src,
                before,
                after,
            ) == crate::yuvops::encode_semiplanar::rgba_to_yuv_nv61_planes(
                pixels,
                stride,
                range,
                matrix,
                filled(before, YuvSubsampling::S422),
                filled(after, YuvSubsampling::S422),
            )
            &&& conversion_outcome(
                to(RgbFormat::Bgr, YuvSubsampling::S422, UvOrder::Vu),
                src,
                before,
                after,
            ) == crate::yuvops::encode_semiplanar::bgr_to_yuv_nv61_planes(
                pixels,
                stride,
                range,
                matrix,
                filled(before, YuvSubsampling::S422),
                filled(after, YuvSubsampling::S422),
            )
            &&& conversion_outcome(
                to(RgbFormat::Bgra, YuvSubsampling::S422, UvOrder::Vu),
                src,
                before,
                after,
            ) == crate::yuvops::encode_semiplanar::bgra_to_yuv_nv61_planes(
                pixels,
                stride,
                range,
                matrix,
                filled(before, YuvSubsampling::S422),
                filled(after, YuvSubsampling::S422),
            )
            &&& conversion_outcome(
                to(RgbFormat::Rgb, YuvSubsampling::S444, UvOrder::Uv),
                src,
                before,
                after,
            ) == crate::yuvops::encode_semiplanar::rgb_to_yuv_nv24_planes(
                pixels,
                stride,
                range,
                matrix,
                filled(before, YuvSubsampling::S444),
                filled(after, YuvSubsampling::S444),
            )
            &&& conversion_outcome(
                to(RgbFormat::Rgba, YuvSubsampling::S444, UvOrder::Uv),
                src,
                before,
                after,
            ) == crate::yuvops::encode_semiplanar::rgba_to_yuv_nv24_planes(
                pixels,
                stride,
                range,
                matrix,
                filled(before, YuvSubsampling::S444),
                filled(after, YuvSubsampling::S444),
            )
            &&& conversion_outcome(
                to(RgbFormat::Bgr, YuvSubsampling::S444, UvOrder::Uv),
                src,
                before,
                after,
            ) == crate::yuvops::encode_semiplanar::bgr_to_yuv_nv24_planes(
                pixels,
                stride,
                range,
                matrix,
                filled(before, YuvSubsampling::S444),
                filled(after, YuvSubsampling::S444),
            )
            &&& conversion_outcome(
                to(RgbFormat::Bgra, YuvSubsampling::S444, UvOrder::Uv),
                src,
                before,
                after,
            ) == crate::yuvops::encode_semiplanar::bgra_to_yuv_nv24_planes(
                pixels,
                stride,
                range,
                matrix,
                filled(before, YuvSubsampling::S444),
                filled(after, YuvSubsampling::S444),
            )
        }),
{
}

/// Pixels are written in three planes by the functions for the subsampling, with the planes in the
/// order of the format, and in one plane by those without chroma.
pub proof fn law_three_planes_are_written_by_their_functions(
    order: (usize, usize, usize),
    range: YuvRange,
    matrix: YuvStandardMatrix,
    src: VideoFrame,
    before: VideoFrame,
    after: VideoFrame,
)
    ensures
        ({
            let (w, h) = (before.info.width, before.info.height);
            let pixels = src.planes[0].data@;
            let stride = src.planes[0].stride;
            let filled = |frame: VideoFrame, subsampling: YuvSubsampling|
                {
                    let rows = if subsampling == YuvSubsampling::S420 {
                        h as int / 2
                    } else {
                        h as int
                    };
                    let image = three_of(frame, order, (w, h));
                    Planar {
                        y: image.y.take(image.y_stride * h),
                        u: image.u.take(image.u_stride * rows),
                        v: image.v.take(image.v_stride * rows),
                        ..image
                    }
                };
            let to = |rgb_format: RgbFormat, subsampling: YuvSubsampling|
                ConversionParams::RgbToYuv(
                    RgbToYuvParams::Planar {
                        rgb_format,
                        subsampling,
                        plane_order: order,
                        range,
                        matrix,
                    },
                );
            let gray = |rgb_format: RgbFormat|
                ConversionParams::RgbToYuv(RgbToYuvParams::Grayscale { rgb_format, range, matrix });
            &&& conversion_outcome(
                to(RgbFormat::Rgb, YuvSubsampling::S420),
                src,
                before,
                after,
            ) == crate::yuvops::encode_planar::rgb_to_yuv420_planes(
                pixels,
                stride,
                range,
                matrix,
                filled(before, YuvSubsampling::S420),
                filled(after, YuvSubsampling::S420),
            )
            &&& conversion_outcome(
                to(RgbFormat::Rgba, YuvSubsampling::S420),
                src,
                before,
                after,
            ) == crate::yuvops::encode_planar::rgba_to_yuv420_planes(
                pixels,
                stride,
                range,
                matrix,
                filled(before, YuvSubsampling::S420),
                filled(after, YuvSubsampling::S420),
            )
            &&& conversion_outcome(
                to(RgbFormat::Bgr, YuvSubsampling::S420),
                src,
                before,
                after,
            ) == crate::yuvops::encode_planar::bgr_to_yuv420_planes(
                pixels,
                stride,
                range,
                matrix,
                filled(before, YuvSubsampling::S420),
                filled(after, YuvSubsampling::S420),
            )
            &&& conversion_outcome(
                to(RgbFormat::Bgra, YuvSubsampling::S420),
                src,
                before,
                after,
            ) == crate::yuvops::encode_planar::bgra_to_yuv420_planes(
                pixels,
                stride,
                range,
                matrix,
                filled(before, YuvSubsampling::S420),
                filled(after, YuvSubsampling::S420),
            )
            &&& conversion_outcome(
                to(RgbFormat::Rgb, YuvSubsampling::S422),
                src,
                before,
                after,
            ) == crate::yuvops::encode_planar::rgb_to_yuv422_planes(
                pixels,
                stride,
                range,
                matrix,
                filled(before, YuvSubsampling::S422),
                filled(after, YuvSubsampling::S422),
            )
            &&& conversion_outcome(
                to(RgbFormat::Rgba, YuvSubsampling::S422),
                src,
                before,
                after,
            ) == crate::yuvops::encode_planar::rgba_to_yuv422_planes(
                pixels,
                stride,
                range,
                matrix,
                filled(before, YuvSubsampling::S422),
                filled(after, YuvSubsampling::S422),
            )
            &&& conversion_outcome(
                to(RgbFormat::Bgr, YuvSubsampling::S422),
                src,
                before,
                after,
            ) == crate::yuvops::encode_planar::bgr_to_yuv422_planes(
                pixels,
                stride,
                range,
                matrix,
                filled(before, YuvSubsampling::S422),
                filled(after, YuvSubsampling::S422),
            )
            &&& conversion_outcome(
                to(RgbFormat::Bgra, YuvSubsampling::S422),
                src,
                before,
                after,
            ) == crate::yuvops::encode_planar::bgra_to_yuv422_planes(
                pixels,
                stride,
                range,
                matrix,
                filled(before, YuvSubsampling::S422),
                filled(after, YuvSubsampling::S422),
            )
            &&& conversion_outcome(
                to(RgbFormat::Rgb, YuvSubsampling::S444),
                src,
                before,
                after,
            ) == crate::yuvops::encode_planar::rgb_to_yuv444_planes(
                pixels,
                stride,
                range,
                matrix,
                filled(before, YuvSubsampling::S444),
                filled(after, YuvSubsampling::S444),
            )
            &&& conversion_outcome(
                to(RgbFormat::Rgba, YuvSubsampling::S444),
                src,
                before,
                after,
            ) == crate::yuvops::encode_planar::rgba_to_yuv444_planes(
                pixels,
                stride,
                range,
                matrix,
                filled(before, YuvSubsampling::S444),
                filled(after, YuvSubsampling::S444),
            )
            &&& conversion_outcome(
                to(RgbFormat::Bgr, YuvSubsampling::S444),
                src,
                before,
                after,
            ) == crate::yuvops::encode_planar::bgr_to_yuv444_planes(
                pixels,
                stride,
                range,
                matrix,
                filled(before, YuvSubsampling::S444),
                filled(after, YuvSubsampling::S444),
            )
            &&& conversion_outcome(
                to(RgbFormat::Bgra, YuvSubsampling::S444),
                src,
                before,
                after,
            ) == crate::yuvops::encode_planar::bgra_to_yuv444_planes(
                pixels,
                stride,
                range,
                matrix,
                filled(before, YuvSubsampling::S444),
                filled(after, YuvSubsampling::S444),
            )
            &&& conversion_outcome(
                gray(RgbFormat::Rgb),
                src,
                before,
                after,
            ) == crate::yuvops::encode_planar::rgb_to_yuv400_plane(
                pixels,
                stride,
                range,
                matrix,
                one_plane(before, (w, h)),
                one_plane(after, (w, h)),
            )
            &&& conversion_outcome(
                gray(RgbFormat::Rgba),
                src,
                before,
                after,
            ) == crate::yuvops::encode_planar::rgba_to_yuv400_plane(
                pixels,
                stride,
                range,
                matrix,
                one_plane(before, (w, h)),
                one_plane(after, (w, h)),
            )
            &&& conversion_outcome(
                gray(RgbFormat::Bgr),
                src,
                before,
                after,
            ) == crate::yuvops::encode_planar::bgr_to_yuv400_plane(
                pixels,
                stride,
                range,
                matrix,
                one_plane(before, (w, h)),
                one_plane(after, (w, h)),
            )
            &&& conversion_outcome(
                gray(RgbFormat::Bgra),
                src,
                before,
                after,
            ) == crate::yuvops::encode_planar::bgra_to_yuv400_plane(
                pixels,
                stride,
                range,
                matrix,
                one_plane(before, (w, h)),
                one_plane(after, (w, h)),
            )
        }),
{
}

/// Pixels are moved from the layout of the source to that of the destination, row by row, in the width
/// of the destination.
pub proof fn law_pixels_are_moved_between_their_layouts(
    from: RgbFormat,
    to: RgbFormat,
    src: VideoFrame,
    before: VideoFrame,
    after: VideoFrame,
)
    ensures
        conversion_outcome(
            ConversionParams::RgbToRgb(RgbToRgbParams { src_format: from, dst_format: to }),
            src,
            before,
            after,
        ) <==> after.planes[0].data@ == crate::yuvops::shuffle::shuffled(
            from,
            to,
            src.planes[0].data@,
            src.planes[0].stride,
            before.planes[0].data@,
            before.planes[0].stride,
            before.info.width,
        ),
{
}

/// Samples of two bytes have their low byte first, and there are half as many of them as bytes.
pub proof fn law_samples_have_their_low_byte_first(data: Seq<u8>, i: int)
    requires
        0 <= i,
        2 * i + 1 < data.len(),
    ensures
        super::convert::samples(data).len() == data.len() / 2,
        super::convert::samples(data)[i] == data[2 * i] + 256 * data[2 * i + 1],
{
}

} // verus!
