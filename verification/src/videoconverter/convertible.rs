//! Which frames a converter can be given.

use super::converter::YuvConverter;
use super::detect::{extract_yuv_colorimetry, is_rgb_format_supported_by_yuv};
use super::params::{ConversionParams, RgbToYuvParams, YuvToRgbParams};
use crate::video::{VideoFrame, VideoInfo};
use crate::yuvops::{RgbFormat, YuvSubsampling};
use vstd::prelude::*;

verus! {

fn product(a: u32, b: u32) -> (r: u64)
    ensures
        r == a * b,
{
    proof {
        assert(0 <= a * b <= 0xffff_ffff * 0xffff_ffff) by (nonlinear_arith)
            requires
                0 <= a <= 0xffff_ffff,
                0 <= b <= 0xffff_ffff,
        ;
    }
    a as u64 * b as u64
}

fn addressable(stride: u32, rows: u32) -> (r: bool)
    ensures
        r == (stride * rows <= isize::MAX),
{
    product(stride, rows) as i128 <= isize::MAX as i128
}

fn holds(len: usize, stride: u32, row: u64, rows: u32) -> (r: bool)
    requires
        row <= 0x7_ffff_ffff,
    ensures
        r == crate::yuvops::plane_fits(len as nat, stride, row as int, rows as int),
{
    if row == 0 || row > stride as u64 || rows == 0 || !addressable(stride, rows) {
        return false;
    }
    let before: u64 = product(stride, rows - 1);
    before as u128 + row as u128 <= len as u128
}

fn row_left(len: usize, stride: u32, row: u64) -> (r: bool)
    requires
        stride > 0,
    ensures
        r == crate::yuvops::row_left(len as nat, stride, row as int),
{
    row <= len as u64 % (2 * stride as u64)
}

fn pixel_bytes(format: RgbFormat) -> (n: u64)
    ensures
        n == format.bytes(),
{
    match format {
        RgbFormat::Rgb | RgbFormat::Bgr => 3,
        RgbFormat::Rgba | RgbFormat::Bgra => 4,
    }
}

/// Whether the single last row of a semi-planar 4:2:0 image is found, where there is one: the
/// lengths and strides of the two planes count samples.
fn odd_row_is_found(
    y: (usize, u32),
    uv: (usize, u32),
    pixels: (usize, u32),
    rgb_format: RgbFormat,
    width: u32,
    height: u32,
) -> (r: bool)
    ensures
        forall|image: crate::yuvops::BiPlanar<u8>|
            image.y.len() == y.0 && image.y_stride == y.1 && image.uv.len() == uv.0
                && image.uv_stride == uv.1 && image.width == width && image.height == height
                ==> r == #[trigger] crate::yuvops::bi_planar_odd_row(
                image,
                pixels.0 as nat,
                pixels.1,
                rgb_format.bytes(),
            ),
        forall|image: crate::yuvops::BiPlanar<u16>|
            image.y.len() == y.0 && image.y_stride == y.1 && image.uv.len() == uv.0
                && image.uv_stride == uv.1 && image.width == width && image.height == height
                ==> r == #[trigger] crate::yuvops::bi_planar_odd_row(
                image,
                pixels.0 as nat,
                pixels.1,
                rgb_format.bytes(),
            ),
{
    if height % 2 == 0 {
        return true;
    }
    let chroma_rows: u32 = height / 2 + 1;
    let chroma_row: u64 = (width as u64 + 1) / 2;
    proof {
        assert(chroma_rows == crate::yuvops::chroma_rows(YuvSubsampling::S420, height));
        assert(chroma_row == crate::yuvops::chroma_row(YuvSubsampling::S420, width));
        assert(width * rgb_format.bytes() == rgb_format.bytes() * width) by (nonlinear_arith);
    }
    let pixel_row: u64 = pixel_bytes(rgb_format) * width as u64;
    if !holds(y.0, y.1, width as u64, height) || !holds(uv.0, uv.1, 2 * chroma_row, chroma_rows)
        || !holds(pixels.0, pixels.1, pixel_row, height) {
        return true;
    }
    row_left(y.0, y.1, width as u64) && uv.1 as u64 <= uv.0 as u64 && row_left(
        pixels.0,
        pixels.1,
        pixel_row,
    )
}

fn has_rows(frame: &VideoFrame, plane: usize, rows: u32) -> (r: bool)
    requires
        plane < frame.planes.len(),
    ensures
        r == super::convert::has_rows(*frame, plane as int, rows),
{
    let filled: u64 = product(frame.planes[plane].stride, rows);
    filled as u128 <= frame.planes[plane].data.len() as u128 && filled <= u32::MAX as u64
}

fn filled_chroma_rows(subsampling: YuvSubsampling, height: u32) -> (rows: u32)
    ensures
        rows == super::convert::filled_chroma_rows(subsampling, height),
{
    match subsampling {
        YuvSubsampling::S420 => height / 2,
        _ => height,
    }
}

impl YuvConverter {
    /// Whether two frames can be given to the conversion.
    pub fn can_convert(&self, src: &VideoFrame, dest: &VideoFrame) -> (r: bool)
        ensures
            r == super::converter::convertible(self.params, *src, *dest),
    {
        let width: u32 = dest.info.width;
        let height: u32 = dest.info.height;
        let from_pixels = src.planes.len() >= 1 && addressable(src.planes[0].stride, height);
        let to_pixels = dest.planes.len() >= 1 && addressable(dest.planes[0].stride, height);
        match self.params {
            ConversionParams::YuvToRgb(params) => match params {
                YuvToRgbParams::SemiPlanar { subsampling, rgb_format, bit_depth, .. } => {
                    if !to_pixels || width > u32::MAX / 2 {
                        return false;
                    }
                    if src.planes.len() < 2 || subsampling != YuvSubsampling::S420 || (bit_depth
                        != 8 && bit_depth != 10) {
                        return true;
                    }
                    let y = &src.planes[0];
                    let uv = &src.planes[1];
                    let pixels = (dest.planes[0].data.len(), dest.planes[0].stride);
                    if bit_depth == 8 {
                        let r = odd_row_is_found(
                            (y.data.len(), y.stride),
                            (uv.data.len(), uv.stride),
                            pixels,
                            rgb_format,
                            width,
                            height,
                        );
                        proof {
                            let image = super::convert::semiplanar_image(*src, width, height);
                            assert(image.y.len() == y.data.len() && image.uv.len()
                                == uv.data.len());
                            assert(r == crate::yuvops::bi_planar_odd_row(
                                image,
                                pixels.0 as nat,
                                pixels.1,
                                rgb_format.bytes(),
                            ));
                        }
                        r
                    } else {
                        let r = odd_row_is_found(
                            (y.data.len() / 2, y.stride / 2),
                            (uv.data.len() / 2, uv.stride / 2),
                            pixels,
                            rgb_format,
                            width,
                            height,
                        );
                        proof {
                            let image = super::convert::semiplanar_image_10bit(
                                *src,
                                width,
                                height,
                            );
                            assert(image.y.len() == y.data.len() / 2 && image.uv.len()
                                == uv.data.len() / 2);
                            assert(r == crate::yuvops::bi_planar_odd_row(
                                image,
                                pixels.0 as nat,
                                pixels.1,
                                rgb_format.bytes(),
                            ));
                        }
                        r
                    }
                },
                YuvToRgbParams::Packed { .. } => to_pixels && 2 * width as u128 + 2
                    <= usize::MAX as u128,
                _ => to_pixels,
            },
            ConversionParams::RgbToYuv(params) => match params {
                RgbToYuvParams::SemiPlanar { subsampling, .. } => {
                    from_pixels && width <= u32::MAX / 2 && dest.planes.len() >= 2 && subsampling
                        != YuvSubsampling::S400 && has_rows(dest, 0, height) && has_rows(
                        dest,
                        1,
                        filled_chroma_rows(subsampling, height),
                    )
                },
                RgbToYuvParams::Planar { subsampling, plane_order, .. } => {
                    let n: usize = dest.planes.len();
                    let (y, u, v) = plane_order;
                    let rows: u32 = filled_chroma_rows(subsampling, height);
                    from_pixels && subsampling != YuvSubsampling::S400 && y < n && u < n && v < n
                        && y != u && u != v && y != v && has_rows(dest, y, height) && has_rows(
                        dest,
                        u,
                        rows,
                    ) && has_rows(dest, v, rows)
                },
                RgbToYuvParams::Grayscale { .. } => from_pixels && dest.planes.len() >= 1,
            },
            ConversionParams::RgbToRgb(_) => from_pixels && to_pixels,
        }
    }
}

fn halved(chroma: u32, luma: u32) -> (r: bool)
    ensures
        r == super::detect::halved(chroma, luma),
{
    chroma > 0 && chroma < luma && luma as u64 <= 2 * chroma as u64
}

fn is_describable(info: &VideoInfo) -> (r: bool)
    ensures
        r == super::params::describable(*info),
{
    if info.is_gray {
        return true;
    }
    if info.n_planes == 1 {
        return true;
    }
    if info.n_planes < 1 || info.n_planes > 4 || info.components.len() < 2 {
        return false;
    }
    let luma = info.components[0];
    let chroma = info.components[1];
    chroma.width <= u32::MAX / 2 && chroma.height <= u32::MAX / 2 && (!halved(
        chroma.height,
        luma.height,
    ) || halved(chroma.width, luma.width))
}

/// Whether two formats can be looked at for a conversion.
pub fn is_conversion_defined(in_info: &VideoInfo, out_info: &VideoInfo) -> (r: bool)
    ensures
        r == super::converter::conversion_defined(*in_info, *out_info),
{
    let from_yuv = (in_info.is_yuv || in_info.is_gray) && out_info.is_rgb;
    let to_yuv = in_info.is_rgb && (out_info.is_yuv || out_info.is_gray);
    let between_rgb = in_info.is_rgb && out_info.is_rgb;
    if !from_yuv && !to_yuv && !between_rgb {
        return true;
    }
    if in_info.components.len() == 0 || out_info.components.len() == 0 {
        return false;
    }
    if from_yuv && out_info.components[0].depth == 8 && is_rgb_format_supported_by_yuv(out_info)
        && extract_yuv_colorimetry(in_info.colorimetry).is_some() && !is_describable(in_info) {
        return false;
    }
    if to_yuv && in_info.components[0].depth == 8 && out_info.components[0].depth == 8
        && is_rgb_format_supported_by_yuv(in_info) && extract_yuv_colorimetry(
        out_info.colorimetry,
    ).is_some() && !is_describable(out_info) {
        return false;
    }
    true
}

} // verus!
