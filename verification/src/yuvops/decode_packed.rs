//! From packed YUV and from gray to packed RGB: one item for each function of the `yuv` crate,
//! and what each sample order and pixel layout selects among them.

use super::{packed_fits, plane_fits, single_plane, PackedOrder, RgbFormat, SinglePlane, YuvRange, YuvStandardMatrix};
use vstd::prelude::*;
use yuv::YuvStandardMatrix as Std;

verus! {

/// The outcomes of `yuv::yuyv422_to_rgb`: `after` is a destination that the call may leave where it found
/// `before`.
pub uninterp spec fn yuyv422_to_rgb_pixels(image: SinglePlane, range: YuvRange, matrix: YuvStandardMatrix, stride: u32, before: Seq<u8>, after: Seq<u8>) -> bool;

/// Calls `yuv::yuyv422_to_rgb`: packed 4:2:2 in YUYV order to RGB.
///
/// Claimed of it: it succeeds exactly when the packed plane is whole and the destination holds
/// the image, it writes nothing when it fails, and it keeps the destination's length. Which bytes
/// it writes depends on the vector unit that it finds, so a success is only tied to the arguments
/// by `yuyv422_to_rgb_pixels`.
#[verifier::external_body]
pub(crate) fn yuyv422_to_rgb(
    data: &[u8],
    data_stride: u32,
    width: u32,
    height: u32,
    dst: &mut [u8],
    stride: u32,
    range: YuvRange,
    matrix: YuvStandardMatrix,
) -> (r: Result<(), yuv::YuvError>)
    requires
        2 * width + 2 <= usize::MAX,
        stride * height <= isize::MAX,
    ensures
        r is Ok <==> (packed_fits(single_plane(data@, data_stride, width, height)) && plane_fits(old(dst)@.len(), stride, width * 3, height as int)),
        r is Err ==> final(dst)@ == old(dst)@,
        final(dst)@.len() == old(dst)@.len(),
        r is Ok ==> yuyv422_to_rgb_pixels(single_plane(data@, data_stride, width, height), range, matrix, stride, old(dst)@, final(dst)@),
{
    let range = match range {
        YuvRange::Limited => yuv::YuvRange::Limited,
        YuvRange::Full => yuv::YuvRange::Full,
    };
    let matrix = match matrix {
        YuvStandardMatrix::Bt601 => Std::Bt601,
        YuvStandardMatrix::Bt709 => Std::Bt709,
        YuvStandardMatrix::Bt2020 => Std::Bt2020,
        YuvStandardMatrix::Smpte240 => Std::Smpte240,
        YuvStandardMatrix::Fcc => Std::Fcc,
    };
    let image = yuv::YuvPackedImage { yuy: data, yuy_stride: data_stride, width, height };
    yuv::yuyv422_to_rgb(&image, dst, stride, range, matrix)
}

/// The outcomes of `yuv::uyvy422_to_rgb`: `after` is a destination that the call may leave where it found
/// `before`.
pub uninterp spec fn uyvy422_to_rgb_pixels(image: SinglePlane, range: YuvRange, matrix: YuvStandardMatrix, stride: u32, before: Seq<u8>, after: Seq<u8>) -> bool;

/// Calls `yuv::uyvy422_to_rgb`: packed 4:2:2 in UYVY order to RGB.
///
/// Claimed of it: it succeeds exactly when the packed plane is whole and the destination holds
/// the image, it writes nothing when it fails, and it keeps the destination's length. Which bytes
/// it writes depends on the vector unit that it finds, so a success is only tied to the arguments
/// by `uyvy422_to_rgb_pixels`.
#[verifier::external_body]
pub(crate) fn uyvy422_to_rgb(
    data: &[u8],
    data_stride: u32,
    width: u32,
    height: u32,
    dst: &mut [u8],
    stride: u32,
    range: YuvRange,
    matrix: YuvStandardMatrix,
) -> (r: Result<(), yuv::YuvError>)
    requires
        2 * width + 2 <= usize::MAX,
        stride * height <= isize::MAX,
    ensures
        r is Ok <==> (packed_fits(single_plane(data@, data_stride, width, height)) && plane_fits(old(dst)@.len(), stride, width * 3, height as int)),
        r is Err ==> final(dst)@ == old(dst)@,
        final(dst)@.len() == old(dst)@.len(),
        r is Ok ==> uyvy422_to_rgb_pixels(single_plane(data@, data_stride, width, height), range, matrix, stride, old(dst)@, final(dst)@),
{
    let range = match range {
        YuvRange::Limited => yuv::YuvRange::Limited,
        YuvRange::Full => yuv::YuvRange::Full,
    };
    let matrix = match matrix {
        YuvStandardMatrix::Bt601 => Std::Bt601,
        YuvStandardMatrix::Bt709 => Std::Bt709,
        YuvStandardMatrix::Bt2020 => Std::Bt2020,
        YuvStandardMatrix::Smpte240 => Std::Smpte240,
        YuvStandardMatrix::Fcc => Std::Fcc,
    };
    let image = yuv::YuvPackedImage { yuy: data, yuy_stride: data_stride, width, height };
    yuv::uyvy422_to_rgb(&image, dst, stride, range, matrix)
}

/// The outcomes of `yuv::yvyu422_to_rgb`: `after` is a destination that the call may leave where it found
/// `before`.
pub uninterp spec fn yvyu422_to_rgb_pixels(image: SinglePlane, range: YuvRange, matrix: YuvStandardMatrix, stride: u32, before: Seq<u8>, after: Seq<u8>) -> bool;

/// Calls `yuv::yvyu422_to_rgb`: packed 4:2:2 in YVYU order to RGB.
///
/// Claimed of it: it succeeds exactly when the packed plane is whole and the destination holds
/// the image, it writes nothing when it fails, and it keeps the destination's length. Which bytes
/// it writes depends on the vector unit that it finds, so a success is only tied to the arguments
/// by `yvyu422_to_rgb_pixels`.
#[verifier::external_body]
pub(crate) fn yvyu422_to_rgb(
    data: &[u8],
    data_stride: u32,
    width: u32,
    height: u32,
    dst: &mut [u8],
    stride: u32,
    range: YuvRange,
    matrix: YuvStandardMatrix,
) -> (r: Result<(), yuv::YuvError>)
    requires
        2 * width + 2 <= usize::MAX,
        stride * height <= isize::MAX,
    ensures
        r is Ok <==> (packed_fits(single_plane(data@, data_stride, width, height)) && plane_fits(old(dst)@.len(), stride, width * 3, height as int)),
        r is Err ==> final(dst)@ == old(dst)@,
        final(dst)@.len() == old(dst)@.len(),
        r is Ok ==> yvyu422_to_rgb_pixels(single_plane(data@, data_stride, width, height), range, matrix, stride, old(dst)@, final(dst)@),
{
    let range = match range {
        YuvRange::Limited => yuv::YuvRange::Limited,
        YuvRange::Full => yuv::YuvRange::Full,
    };
    let matrix = match matrix {
        YuvStandardMatrix::Bt601 => Std::Bt601,
        YuvStandardMatrix::Bt709 => Std::Bt709,
        YuvStandardMatrix::Bt2020 => Std::Bt2020,
        YuvStandardMatrix::Smpte240 => Std::Smpte240,
        YuvStandardMatrix::Fcc => Std::Fcc,
    };
    let image = yuv::YuvPackedImage { yuy: data, yuy_stride: data_stride, width, height };
    yuv::yvyu422_to_rgb(&image, dst, stride, range, matrix)
}

/// The outcomes of `yuv::vyuy422_to_rgb`: `after` is a destination that the call may leave where it found
/// `before`.
pub uninterp spec fn vyuy422_to_rgb_pixels(image: SinglePlane, range: YuvRange, matrix: YuvStandardMatrix, stride: u32, before: Seq<u8>, after: Seq<u8>) -> bool;

/// Calls `yuv::vyuy422_to_rgb`: packed 4:2:2 in VYUY order to RGB.
///
/// Claimed of it: it succeeds exactly when the packed plane is whole and the destination holds
/// the image, it writes nothing when it fails, and it keeps the destination's length. Which bytes
/// it writes depends on the vector unit that it finds, so a success is only tied to the arguments
/// by `vyuy422_to_rgb_pixels`.
#[verifier::external_body]
pub(crate) fn vyuy422_to_rgb(
    data: &[u8],
    data_stride: u32,
    width: u32,
    height: u32,
    dst: &mut [u8],
    stride: u32,
    range: YuvRange,
    matrix: YuvStandardMatrix,
) -> (r: Result<(), yuv::YuvError>)
    requires
        2 * width + 2 <= usize::MAX,
        stride * height <= isize::MAX,
    ensures
        r is Ok <==> (packed_fits(single_plane(data@, data_stride, width, height)) && plane_fits(old(dst)@.len(), stride, width * 3, height as int)),
        r is Err ==> final(dst)@ == old(dst)@,
        final(dst)@.len() == old(dst)@.len(),
        r is Ok ==> vyuy422_to_rgb_pixels(single_plane(data@, data_stride, width, height), range, matrix, stride, old(dst)@, final(dst)@),
{
    let range = match range {
        YuvRange::Limited => yuv::YuvRange::Limited,
        YuvRange::Full => yuv::YuvRange::Full,
    };
    let matrix = match matrix {
        YuvStandardMatrix::Bt601 => Std::Bt601,
        YuvStandardMatrix::Bt709 => Std::Bt709,
        YuvStandardMatrix::Bt2020 => Std::Bt2020,
        YuvStandardMatrix::Smpte240 => Std::Smpte240,
        YuvStandardMatrix::Fcc => Std::Fcc,
    };
    let image = yuv::YuvPackedImage { yuy: data, yuy_stride: data_stride, width, height };
    yuv::vyuy422_to_rgb(&image, dst, stride, range, matrix)
}

/// The outcomes of `yuv::yuv400_to_rgb`: `after` is a destination that the call may leave where it found
/// `before`.
pub uninterp spec fn yuv400_to_rgb_pixels(image: SinglePlane, range: YuvRange, matrix: YuvStandardMatrix, stride: u32, before: Seq<u8>, after: Seq<u8>) -> bool;

/// Calls `yuv::yuv400_to_rgb`: gray to RGB.
///
/// Claimed of it: it succeeds exactly when the gray plane and the destination hold the image, it
/// writes nothing when it fails, and it keeps the destination's length. Which bytes it writes
/// depends on the vector unit that it finds, so a success is only tied to the arguments by
/// `yuv400_to_rgb_pixels`.
#[verifier::external_body]
pub(crate) fn yuv400_to_rgb(
    data: &[u8],
    data_stride: u32,
    width: u32,
    height: u32,
    dst: &mut [u8],
    stride: u32,
    range: YuvRange,
    matrix: YuvStandardMatrix,
) -> (r: Result<(), yuv::YuvError>)
    requires
        stride * height <= isize::MAX,
    ensures
        r is Ok <==> (plane_fits(data@.len(), data_stride, width as int, height as int)
            && plane_fits(old(dst)@.len(), stride, width * 3, height as int)),
        r is Err ==> final(dst)@ == old(dst)@,
        final(dst)@.len() == old(dst)@.len(),
        r is Ok ==> yuv400_to_rgb_pixels(single_plane(data@, data_stride, width, height), range, matrix, stride, old(dst)@, final(dst)@),
{
    let range = match range {
        YuvRange::Limited => yuv::YuvRange::Limited,
        YuvRange::Full => yuv::YuvRange::Full,
    };
    let matrix = match matrix {
        YuvStandardMatrix::Bt601 => Std::Bt601,
        YuvStandardMatrix::Bt709 => Std::Bt709,
        YuvStandardMatrix::Bt2020 => Std::Bt2020,
        YuvStandardMatrix::Smpte240 => Std::Smpte240,
        YuvStandardMatrix::Fcc => Std::Fcc,
    };
    let image = yuv::YuvGrayImage { y_plane: data, y_stride: data_stride, width, height };
    yuv::yuv400_to_rgb(&image, dst, stride, range, matrix)
}

/// The outcomes of `yuv::yuv400_to_rgba`: `after` is a destination that the call may leave where it found
/// `before`.
pub uninterp spec fn yuv400_to_rgba_pixels(image: SinglePlane, range: YuvRange, matrix: YuvStandardMatrix, stride: u32, before: Seq<u8>, after: Seq<u8>) -> bool;

/// Calls `yuv::yuv400_to_rgba`: gray to RGBA.
///
/// Claimed of it: it succeeds exactly when the gray plane and the destination hold the image, it
/// writes nothing when it fails, and it keeps the destination's length. Which bytes it writes
/// depends on the vector unit that it finds, so a success is only tied to the arguments by
/// `yuv400_to_rgba_pixels`.
#[verifier::external_body]
pub(crate) fn yuv400_to_rgba(
    data: &[u8],
    data_stride: u32,
    width: u32,
    height: u32,
    dst: &mut [u8],
    stride: u32,
    range: YuvRange,
    matrix: YuvStandardMatrix,
) -> (r: Result<(), yuv::YuvError>)
    requires
        stride * height <= isize::MAX,
    ensures
        r is Ok <==> (plane_fits(data@.len(), data_stride, width as int, height as int)
            && plane_fits(old(dst)@.len(), stride, width * 4, height as int)),
        r is Err ==> final(dst)@ == old(dst)@,
        final(dst)@.len() == old(dst)@.len(),
        r is Ok ==> yuv400_to_rgba_pixels(single_plane(data@, data_stride, width, height), range, matrix, stride, old(dst)@, final(dst)@),
{
    let range = match range {
        YuvRange::Limited => yuv::YuvRange::Limited,
        YuvRange::Full => yuv::YuvRange::Full,
    };
    let matrix = match matrix {
        YuvStandardMatrix::Bt601 => Std::Bt601,
        YuvStandardMatrix::Bt709 => Std::Bt709,
        YuvStandardMatrix::Bt2020 => Std::Bt2020,
        YuvStandardMatrix::Smpte240 => Std::Smpte240,
        YuvStandardMatrix::Fcc => Std::Fcc,
    };
    let image = yuv::YuvGrayImage { y_plane: data, y_stride: data_stride, width, height };
    yuv::yuv400_to_rgba(&image, dst, stride, range, matrix)
}

/// The outcomes of `yuv::yuv400_to_bgr`: `after` is a destination that the call may leave where it found
/// `before`.
pub uninterp spec fn yuv400_to_bgr_pixels(image: SinglePlane, range: YuvRange, matrix: YuvStandardMatrix, stride: u32, before: Seq<u8>, after: Seq<u8>) -> bool;

/// Calls `yuv::yuv400_to_bgr`: gray to BGR.
///
/// Claimed of it: it succeeds exactly when the gray plane and the destination hold the image, it
/// writes nothing when it fails, and it keeps the destination's length. Which bytes it writes
/// depends on the vector unit that it finds, so a success is only tied to the arguments by
/// `yuv400_to_bgr_pixels`.
#[verifier::external_body]
pub(crate) fn yuv400_to_bgr(
    data: &[u8],
    data_stride: u32,
    width: u32,
    height: u32,
    dst: &mut [u8],
    stride: u32,
    range: YuvRange,
    matrix: YuvStandardMatrix,
) -> (r: Result<(), yuv::YuvError>)
    requires
        stride * height <= isize::MAX,
    ensures
        r is Ok <==> (plane_fits(data@.len(), data_stride, width as int, height as int)
            && plane_fits(old(dst)@.len(), stride, width * 3, height as int)),
        r is Err ==> final(dst)@ == old(dst)@,
        final(dst)@.len() == old(dst)@.len(),
        r is Ok ==> yuv400_to_bgr_pixels(single_plane(data@, data_stride, width, height), range, matrix, stride, old(dst)@, final(dst)@),
{
    let range = match range {
        YuvRange::Limited => yuv::YuvRange::Limited,
        YuvRange::Full => yuv::YuvRange::Full,
    };
    let matrix = match matrix {
        YuvStandardMatrix::Bt601 => Std::Bt601,
        YuvStandardMatrix::Bt709 => Std::Bt709,
        YuvStandardMatrix::Bt2020 => Std::Bt2020,
        YuvStandardMatrix::Smpte240 => Std::Smpte240,
        YuvStandardMatrix::Fcc => Std::Fcc,
    };
    let image = yuv::YuvGrayImage { y_plane: data, y_stride: data_stride, width, height };
    yuv::yuv400_to_bgr(&image, dst, stride, range, matrix)
}

/// The outcomes of `yuv::yuv400_to_bgra`: `after` is a destination that the call may leave where it found
/// `before`.
pub uninterp spec fn yuv400_to_bgra_pixels(image: SinglePlane, range: YuvRange, matrix: YuvStandardMatrix, stride: u32, before: Seq<u8>, after: Seq<u8>) -> bool;

/// Calls `yuv::yuv400_to_bgra`: gray to BGRA.
///
/// Claimed of it: it succeeds exactly when the gray plane and the destination hold the image, it
/// writes nothing when it fails, and it keeps the destination's length. Which bytes it writes
/// depends on the vector unit that it finds, so a success is only tied to the arguments by
/// `yuv400_to_bgra_pixels`.
#[verifier::external_body]
pub(crate) fn yuv400_to_bgra(
    data: &[u8],
    data_stride: u32,
    width: u32,
    height: u32,
    dst: &mut [u8],
    stride: u32,
    range: YuvRange,
    matrix: YuvStandardMatrix,
) -> (r: Result<(), yuv::YuvError>)
    requires
        stride * height <= isize::MAX,
    ensures
        r is Ok <==> (plane_fits(data@.len(), data_stride, width as int, height as int)
            && plane_fits(old(dst)@.len(), stride, width * 4, height as int)),
        r is Err ==> final(dst)@ == old(dst)@,
        final(dst)@.len() == old(dst)@.len(),
        r is Ok ==> yuv400_to_bgra_pixels(single_plane(data@, data_stride, width, height), range, matrix, stride, old(dst)@, final(dst)@),
{
    let range = match range {
        YuvRange::Limited => yuv::YuvRange::Limited,
        YuvRange::Full => yuv::YuvRange::Full,
    };
    let matrix = match matrix {
        YuvStandardMatrix::Bt601 => Std::Bt601,
        YuvStandardMatrix::Bt709 => Std::Bt709,
        YuvStandardMatrix::Bt2020 => Std::Bt2020,
        YuvStandardMatrix::Smpte240 => Std::Smpte240,
        YuvStandardMatrix::Fcc => Std::Fcc,
    };
    let image = yuv::YuvGrayImage { y_plane: data, y_stride: data_stride, width, height };
    yuv::yuv400_to_bgra(&image, dst, stride, range, matrix)
}

/// What a packed 4:2:2 image becomes in RGB, for each sample order.
pub open spec fn packed_pixels(
    packed_order: PackedOrder,
    image: SinglePlane,
    range: YuvRange,
    matrix: YuvStandardMatrix,
    stride: u32,
    before: Seq<u8>,
    after: Seq<u8>,
) -> bool {
    match packed_order {
        PackedOrder::Yuyv => yuyv422_to_rgb_pixels(image, range, matrix, stride, before, after),
        PackedOrder::Uyvy => uyvy422_to_rgb_pixels(image, range, matrix, stride, before, after),
        PackedOrder::Yvyu => yvyu422_to_rgb_pixels(image, range, matrix, stride, before, after),
        PackedOrder::Vyuy => vyuy422_to_rgb_pixels(image, range, matrix, stride, before, after),
    }
}

/// What a gray image becomes, for each pixel layout.
pub open spec fn gray_pixels(
    rgb_format: RgbFormat,
    image: SinglePlane,
    range: YuvRange,
    matrix: YuvStandardMatrix,
    stride: u32,
    before: Seq<u8>,
    after: Seq<u8>,
) -> bool {
    match rgb_format {
        RgbFormat::Rgb => yuv400_to_rgb_pixels(image, range, matrix, stride, before, after),
        RgbFormat::Rgba => yuv400_to_rgba_pixels(image, range, matrix, stride, before, after),
        RgbFormat::Bgr => yuv400_to_bgr_pixels(image, range, matrix, stride, before, after),
        RgbFormat::Bgra => yuv400_to_bgra_pixels(image, range, matrix, stride, before, after),
    }
}

/// Turns a packed 4:2:2 image into RGB.
pub(crate) fn decode_packed(
    packed_order: PackedOrder,
    data: &[u8],
    data_stride: u32,
    width: u32,
    height: u32,
    dst: &mut [u8],
    stride: u32,
    range: YuvRange,
    matrix: YuvStandardMatrix,
) -> (r: Result<(), yuv::YuvError>)
    requires
        2 * width + 2 <= usize::MAX,
        stride * height <= isize::MAX,
    ensures
        r is Ok <==> (packed_fits(single_plane(data@, data_stride, width, height)) && plane_fits(
            old(dst)@.len(),
            stride,
            width * 3,
            height as int,
        )),
        r is Err ==> final(dst)@ == old(dst)@,
        final(dst)@.len() == old(dst)@.len(),
        r is Ok ==> packed_pixels(
            packed_order,
            single_plane(data@, data_stride, width, height),
            range,
            matrix,
            stride,
            old(dst)@,
            final(dst)@,
        ),
{
    match packed_order {
        PackedOrder::Yuyv => yuyv422_to_rgb(data, data_stride, width, height, dst, stride, range, matrix),
        PackedOrder::Uyvy => uyvy422_to_rgb(data, data_stride, width, height, dst, stride, range, matrix),
        PackedOrder::Yvyu => yvyu422_to_rgb(data, data_stride, width, height, dst, stride, range, matrix),
        PackedOrder::Vyuy => vyuy422_to_rgb(data, data_stride, width, height, dst, stride, range, matrix),
    }
}

/// Turns a gray image into pixels.
pub(crate) fn decode_gray(
    rgb_format: RgbFormat,
    data: &[u8],
    data_stride: u32,
    width: u32,
    height: u32,
    dst: &mut [u8],
    stride: u32,
    range: YuvRange,
    matrix: YuvStandardMatrix,
) -> (r: Result<(), yuv::YuvError>)
    requires
        stride * height <= isize::MAX,
    ensures
        r is Ok <==> (plane_fits(data@.len(), data_stride, width as int, height as int) && plane_fits(
            old(dst)@.len(),
            stride,
            width * rgb_format.bytes(),
            height as int,
        )),
        r is Err ==> final(dst)@ == old(dst)@,
        final(dst)@.len() == old(dst)@.len(),
        r is Ok ==> gray_pixels(
            rgb_format,
            single_plane(data@, data_stride, width, height),
            range,
            matrix,
            stride,
            old(dst)@,
            final(dst)@,
        ),
{
    match rgb_format {
        RgbFormat::Rgb => yuv400_to_rgb(data, data_stride, width, height, dst, stride, range, matrix),
        RgbFormat::Rgba => yuv400_to_rgba(data, data_stride, width, height, dst, stride, range, matrix),
        RgbFormat::Bgr => yuv400_to_bgr(data, data_stride, width, height, dst, stride, range, matrix),
        RgbFormat::Bgra => yuv400_to_bgra(data, data_stride, width, height, dst, stride, range, matrix),
    }
}

} // verus!
