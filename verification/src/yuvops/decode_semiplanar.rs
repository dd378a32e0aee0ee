//! From semi-planar YUV to packed RGB: one item for each function of the `yuv` crate, and what
//! each combination of chroma layout and pixel layout selects among them.

use super::{bi_planar, bi_planar_fits, bi_planar_odd_row, chroma_order_known, plane_fits, BiPlanar};
use super::{RgbFormat, UvOrder, YuvRange, YuvStandardMatrix, YuvSubsampling};
use vstd::prelude::*;
use yuv::YuvStandardMatrix as Std;

verus! {

/// The outcomes of `yuv::yuv_nv12_to_rgb`: `after` is a destination that the call may leave where it found
/// `before`.
pub uninterp spec fn yuv_nv12_to_rgb_pixels(image: BiPlanar<u8>, range: YuvRange, matrix: YuvStandardMatrix, stride: u32, before: Seq<u8>, after: Seq<u8>) -> bool;

/// Calls `yuv::yuv_nv12_to_rgb` in its `Balanced` mode: NV12 to RGB.
///
/// Claimed of it: it succeeds exactly when both planes and the destination hold the image, it
/// writes nothing when it fails, and it keeps the destination's length. Which bytes it writes
/// depends on the vector unit that it finds, so a success is only tied to the arguments by
/// `yuv_nv12_to_rgb_pixels`.
#[verifier::external_body]
pub(crate) fn yuv_nv12_to_rgb(
    y_plane: &[u8],
    y_stride: u32,
    uv_plane: &[u8],
    uv_stride: u32,
    width: u32,
    height: u32,
    dst: &mut [u8],
    stride: u32,
    range: YuvRange,
    matrix: YuvStandardMatrix,
) -> (r: Result<(), yuv::YuvError>)
    requires
        2 * width <= u32::MAX,
        stride * height <= isize::MAX,
        bi_planar_odd_row(bi_planar(y_plane@, y_stride, uv_plane@, uv_stride, width, height), old(dst)@.len(), stride, 3),
    ensures
        r is Ok <==> (bi_planar_fits(bi_planar(y_plane@, y_stride, uv_plane@, uv_stride, width, height), YuvSubsampling::S420)
            && plane_fits(old(dst)@.len(), stride, width * 3, height as int)),
        r is Err ==> final(dst)@ == old(dst)@,
        final(dst)@.len() == old(dst)@.len(),
        r is Ok ==> yuv_nv12_to_rgb_pixels(bi_planar(y_plane@, y_stride, uv_plane@, uv_stride, width, height), range, matrix, stride, old(dst)@, final(dst)@),
{
    let range = match range {
        YuvRange::Limited => yuv::YuvRange::Limited,
        YuvRange::Full => yuv::YuvRange::Full,
    };
    let matrix = match matrix {
        YuvStandardMatrix::Bt601 => Std::Bt601,
        YuvStandardMatrix::Bt709 => Std::Bt709,
        YuvStandardMatrix::Bt2020 => Std::Bt2020,
        YuvStandardMatrix::Smpte240 => Std::Smpte240,
        YuvStandardMatrix::Fcc => Std::Fcc,
    };
    let image = yuv::YuvBiPlanarImage { y_plane, y_stride, uv_plane, uv_stride, width, height };
    yuv::yuv_nv12_to_rgb(&image, dst, stride, range, matrix, yuv::YuvConversionMode::Balanced)
}

/// The outcomes of `yuv::yuv_nv12_to_rgba`: `after` is a destination that the call may leave where it found
/// `before`.
pub uninterp spec fn yuv_nv12_to_rgba_pixels(image: BiPlanar<u8>, range: YuvRange, matrix: YuvStandardMatrix, stride: u32, before: Seq<u8>, after: Seq<u8>) -> bool;

/// Calls `yuv::yuv_nv12_to_rgba` in its `Balanced` mode: NV12 to RGBA.
///
/// Claimed of it: it succeeds exactly when both planes and the destination hold the image, it
/// writes nothing when it fails, and it keeps the destination's length. Which bytes it writes
/// depends on the vector unit that it finds, so a success is only tied to the arguments by
/// `yuv_nv12_to_rgba_pixels`.
#[verifier::external_body]
pub(crate) fn yuv_nv12_to_rgba(
    y_plane: &[u8],
    y_stride: u32,
    uv_plane: &[u8],
    uv_stride: u32,
    width: u32,
    height: u32,
    dst: &mut [u8],
    stride: u32,
    range: YuvRange,
    matrix: YuvStandardMatrix,
) -> (r: Result<(), yuv::YuvError>)
    requires
        2 * width <= u32::MAX,
        stride * height <= isize::MAX,
        bi_planar_odd_row(bi_planar(y_plane@, y_stride, uv_plane@, uv_stride, width, height), old(dst)@.len(), stride, 4),
    ensures
        r is Ok <==> (bi_planar_fits(bi_planar(y_plane@, y_stride, uv_plane@, uv_stride, width, height), YuvSubsampling::S420)
            && plane_fits(old(dst)@.len(), stride, width * 4, height as int)),
        r is Err ==> final(dst)@ == old(dst)@,
        final(dst)@.len() == old(dst)@.len(),
        r is Ok ==> yuv_nv12_to_rgba_pixels(bi_planar(y_plane@, y_stride, uv_plane@, uv_stride, width, height), range, matrix, stride, old(dst)@, final(dst)@),
{
    let range = match range {
        YuvRange::Limited => yuv::YuvRange::Limited,
        YuvRange::Full => yuv::YuvRange::Full,
    };
    let matrix = match matrix {
        YuvStandardMatrix::Bt601 => Std::Bt601,
        YuvStandardMatrix::Bt709 => Std::Bt709,
        YuvStandardMatrix::Bt2020 => Std::Bt2020,
        YuvStandardMatrix::Smpte240 => Std::Smpte240,
        YuvStandardMatrix::Fcc => Std::Fcc,
    };
    let image = yuv::YuvBiPlanarImage { y_plane, y_stride, uv_plane, uv_stride, width, height };
    yuv::yuv_nv12_to_rgba(&image, dst, stride, range, matrix, yuv::YuvConversionMode::Balanced)
}

/// The outcomes of `yuv::yuv_nv12_to_bgr`: `after` is a destination that the call may leave where it found
/// `before`.
pub uninterp spec fn yuv_nv12_to_bgr_pixels(image: BiPlanar<u8>, range: YuvRange, matrix: YuvStandardMatrix, stride: u32, before: Seq<u8>, after: Seq<u8>) -> bool;

/// Calls `yuv::yuv_nv12_to_bgr` in its `Balanced` mode: NV12 to BGR.
///
/// Claimed of it: it succeeds exactly when both planes and the destination hold the image, it
/// writes nothing when it fails, and it keeps the destination's length. Which bytes it writes
/// depends on the vector unit that it finds, so a success is only tied to the arguments by
/// `yuv_nv12_to_bgr_pixels`.
#[verifier::external_body]
pub(crate) fn yuv_nv12_to_bgr(
    y_plane: &[u8],
    y_stride: u32,
    uv_plane: &[u8],
    uv_stride: u32,
    width: u32,
    height: u32,
    dst: &mut [u8],
    stride: u32,
    range: YuvRange,
    matrix: YuvStandardMatrix,
) -> (r: Result<(), yuv::YuvError>)
    requires
        2 * width <= u32::MAX,
        stride * height <= isize::MAX,
        bi_planar_odd_row(bi_planar(y_plane@, y_stride, uv_plane@, uv_stride, width, height), old(dst)@.len(), stride, 3),
    ensures
        r is Ok <==> (bi_planar_fits(bi_planar(y_plane@, y_stride, uv_plane@, uv_stride, width, height), YuvSubsampling::S420)
            && plane_fits(old(dst)@.len(), stride, width * 3, height as int)),
        r is Err ==> final(dst)@ == old(dst)@,
        final(dst)@.len() == old(dst)@.len(),
        r is Ok ==> yuv_nv12_to_bgr_pixels(bi_planar(y_plane@, y_stride, uv_plane@, uv_stride, width, height), range, matrix, stride, old(dst)@, final(dst)@),
{
    let range = match range {
        YuvRange::Limited => yuv::YuvRange::Limited,
        YuvRange::Full => yuv::YuvRange::Full,
    };
    let matrix = match matrix {
        YuvStandardMatrix::Bt601 => Std::Bt601,
        YuvStandardMatrix::Bt709 => Std::Bt709,
        YuvStandardMatrix::Bt2020 => Std::Bt2020,
        YuvStandardMatrix::Smpte240 => Std::Smpte240,
        YuvStandardMatrix::Fcc => Std::Fcc,
    };
    let image = yuv::YuvBiPlanarImage { y_plane, y_stride, uv_plane, uv_stride, width, height };
    yuv::yuv_nv12_to_bgr(&image, dst, stride, range, matrix, yuv::YuvConversionMode::Balanced)
}

/// The outcomes of `yuv::yuv_nv12_to_bgra`: `after` is a destination that the call may leave where it found
/// `before`.
pub uninterp spec fn yuv_nv12_to_bgra_pixels(image: BiPlanar<u8>, range: YuvRange, matrix: YuvStandardMatrix, stride: u32, before: Seq<u8>, after: Seq<u8>) -> bool;

/// Calls `yuv::yuv_nv12_to_bgra` in its `Balanced` mode: NV12 to BGRA.
///
/// Claimed of it: it succeeds exactly when both planes and the destination hold the image, it
/// writes nothing when it fails, and it keeps the destination's length. Which bytes it writes
/// depends on the vector unit that it finds, so a success is only tied to the arguments by
/// `yuv_nv12_to_bgra_pixels`.
#[verifier::external_body]
pub(crate) fn yuv_nv12_to_bgra(
    y_plane: &[u8],
    y_stride: u32,
    uv_plane: &[u8],
    uv_stride: u32,
    width: u32,
    height: u32,
    dst: &mut [u8],
    stride: u32,
    range: YuvRange,
    matrix: YuvStandardMatrix,
) -> (r: Result<(), yuv::YuvError>)
    requires
        2 * width <= u32::MAX,
        stride * height <= isize::MAX,
        bi_planar_odd_row(bi_planar(y_plane@, y_stride, uv_plane@, uv_stride, width, height), old(dst)@.len(), stride, 4),
    ensures
        r is Ok <==> (bi_planar_fits(bi_planar(y_plane@, y_stride, uv_plane@, uv_stride, width, height), YuvSubsampling::S420)
            && plane_fits(old(dst)@.len(), stride, width * 4, height as int)),
        r is Err ==> final(dst)@ == old(dst)@,
        final(dst)@.len() == old(dst)@.len(),
        r is Ok ==> yuv_nv12_to_bgra_pixels(bi_planar(y_plane@, y_stride, uv_plane@, uv_stride, width, height), range, matrix, stride, old(dst)@, final(dst)@),
{
    let range = match range {
        YuvRange::Limited => yuv::YuvRange::Limited,
        YuvRange::Full => yuv::YuvRange::Full,
    };
    let matrix = match matrix {
        YuvStandardMatrix::Bt601 => Std::Bt601,
        YuvStandardMatrix::Bt709 => Std::Bt709,
        YuvStandardMatrix::Bt2020 => Std::Bt2020,
        YuvStandardMatrix::Smpte240 => Std::Smpte240,
        YuvStandardMatrix::Fcc => Std::Fcc,
    };
    let image = yuv::YuvBiPlanarImage { y_plane, y_stride, uv_plane, uv_stride, width, height };
    yuv::yuv_nv12_to_bgra(&image, dst, stride, range, matrix, yuv::YuvConversionMode::Balanced)
}

/// The outcomes of `yuv::yuv_nv21_to_rgb`: `after` is a destination that the call may leave where it found
/// `before`.
pub uninterp spec fn yuv_nv21_to_rgb_pixels(image: BiPlanar<u8>, range: YuvRange, matrix: YuvStandardMatrix, stride: u32, before: Seq<u8>, after: Seq<u8>) -> bool;

/// Calls `yuv::yuv_nv21_to_rgb` in its `Balanced` mode: NV21 to RGB.
///
/// Claimed of it: it succeeds exactly when both planes and the destination hold the image, it
/// writes nothing when it fails, and it keeps the destination's length. Which bytes it writes
/// depends on the vector unit that it finds, so a success is only tied to the arguments by
/// `yuv_nv21_to_rgb_pixels`.
#[verifier::external_body]
pub(crate) fn yuv_nv21_to_rgb(
    y_plane: &[u8],
    y_stride: u32,
    uv_plane: &[u8],
    uv_stride: u32,
    width: u32,
    height: u32,
    dst: &mut [u8],
    stride: u32,
    range: YuvRange,
    matrix: YuvStandardMatrix,
) -> (r: Result<(), yuv::YuvError>)
    requires
        2 * width <= u32::MAX,
        stride * height <= isize::MAX,
        bi_planar_odd_row(bi_planar(y_plane@, y_stride, uv_plane@, uv_stride, width, height), old(dst)@.len(), stride, 3),
    ensures
        r is Ok <==> (bi_planar_fits(bi_planar(y_plane@, y_stride, uv_plane@, uv_stride, width, height), YuvSubsampling::S420)
            && plane_fits(old(dst)@.len(), stride, width * 3, height as int)),
        r is Err ==> final(dst)@ == old(dst)@,
        final(dst)@.len() == old(dst)@.len(),
        r is Ok ==> yuv_nv21_to_rgb_pixels(bi_planar(y_plane@, y_stride, uv_plane@, uv_stride, width, height), range, matrix, stride, old(dst)@, final(dst)@),
{
    let range = match range {
        YuvRange::Limited => yuv::YuvRange::Limited,
        YuvRange::Full => yuv::YuvRange::Full,
    };
    let matrix = match matrix {
        YuvStandardMatrix::Bt601 => Std::Bt601,
        YuvStandardMatrix::Bt709 => Std::Bt709,
        YuvStandardMatrix::Bt2020 => Std::Bt2020,
        YuvStandardMatrix::Smpte240 => Std::Smpte240,
        YuvStandardMatrix::Fcc => Std::Fcc,
    };
    let image = yuv::YuvBiPlanarImage { y_plane, y_stride, uv_plane, uv_stride, width, height };
    yuv::yuv_nv21_to_rgb(&image, dst, stride, range, matrix, yuv::YuvConversionMode::Balanced)
}

/// The outcomes of `yuv::yuv_nv21_to_rgba`: `after` is a destination that the call may leave where it found
/// `before`.
pub uninterp spec fn yuv_nv21_to_rgba_pixels(image: BiPlanar<u8>, range: YuvRange, matrix: YuvStandardMatrix, stride: u32, before: Seq<u8>, after: Seq<u8>) -> bool;

/// Calls `yuv::yuv_nv21_to_rgba` in its `Balanced` mode: NV21 to RGBA.
///
/// Claimed of it: it succeeds exactly when both planes and the destination hold the image, it
/// writes nothing when it fails, and it keeps the destination's length. Which bytes it writes
/// depends on the vector unit that it finds, so a success is only tied to the arguments by
/// `yuv_nv21_to_rgba_pixels`.
#[verifier::external_body]
pub(crate) fn yuv_nv21_to_rgba(
    y_plane: &[u8],
    y_stride: u32,
    uv_plane: &[u8],
    uv_stride: u32,
    width: u32,
    height: u32,
    dst: &mut [u8],
    stride: u32,
    range: YuvRange,
    matrix: YuvStandardMatrix,
) -> (r: Result<(), yuv::YuvError>)
    requires
        2 * width <= u32::MAX,
        stride * height <= isize::MAX,
        bi_planar_odd_row(bi_planar(y_plane@, y_stride, uv_plane@, uv_stride, width, height), old(dst)@.len(), stride, 4),
    ensures
        r is Ok <==> (bi_planar_fits(bi_planar(y_plane@, y_stride, uv_plane@, uv_stride, width, height), YuvSubsampling::S420)
            && plane_fits(old(dst)@.len(), stride, width * 4, height as int)),
        r is Err ==> final(dst)@ == old(dst)@,
        final(dst)@.len() == old(dst)@.len(),
        r is Ok ==> yuv_nv21_to_rgba_pixels(bi_planar(y_plane@, y_stride, uv_plane@, uv_stride, width, height), range, matrix, stride, old(dst)@, final(dst)@),
{
    let range = match range {
        YuvRange::Limited => yuv::YuvRange::Limited,
        YuvRange::Full => yuv::YuvRange::Full,
    };
    let matrix = match matrix {
        YuvStandardMatrix::Bt601 => Std::Bt601,
        YuvStandardMatrix::Bt709 => Std::Bt709,
        YuvStandardMatrix::Bt2020 => Std::Bt2020,
        YuvStandardMatrix::Smpte240 => Std::Smpte240,
        YuvStandardMatrix::Fcc => Std::Fcc,
    };
    let image = yuv::YuvBiPlanarImage { y_plane, y_stride, uv_plane, uv_stride, width, height };
    yuv::yuv_nv21_to_rgba(&image, dst, stride, range, matrix, yuv::YuvConversionMode::Balanced)
}

/// The outcomes of `yuv::yuv_nv21_to_bgr`: `after` is a destination that the call may leave where it found
/// `before`.
pub uninterp spec fn yuv_nv21_to_bgr_pixels(image: BiPlanar<u8>, range: YuvRange, matrix: YuvStandardMatrix, stride: u32, before: Seq<u8>, after: Seq<u8>) -> bool;

/// Calls `yuv::yuv_nv21_to_bgr` in its `Balanced` mode: NV21 to BGR.
///
/// Claimed of it: it succeeds exactly when both planes and the destination hold the image, it
/// writes nothing when it fails, and it keeps the destination's length. Which bytes it writes
/// depends on the vector unit that it finds, so a success is only tied to the arguments by
/// `yuv_nv21_to_bgr_pixels`.
#[verifier::external_body]
pub(crate) fn yuv_nv21_to_bgr(
    y_plane: &[u8],
    y_stride: u32,
    uv_plane: &[u8],
    uv_stride: u32,
    width: u32,
    height: u32,
    dst: &mut [u8],
    stride: u32,
    range: YuvRange,
    matrix: YuvStandardMatrix,
) -> (r: Result<(), yuv::YuvError>)
    requires
        2 * width <= u32::MAX,
        stride * height <= isize::MAX,
        bi_planar_odd_row(bi_planar(y_plane@, y_stride, uv_plane@, uv_stride, width, height), old(dst)@.len(), stride, 3),
    ensures
        r is Ok <==> (bi_planar_fits(bi_planar(y_plane@, y_stride, uv_plane@, uv_stride, width, height), YuvSubsampling::S420)
            && plane_fits(old(dst)@.len(), stride, width * 3, height as int)),
        r is Err ==> final(dst)@ == old(dst)@,
        final(dst)@.len() == old(dst)@.len(),
        r is Ok ==> yuv_nv21_to_bgr_pixels(bi_planar(y_plane@, y_stride, uv_plane@, uv_stride, width, height), range, matrix, stride, old(dst)@, final(dst)@),
{
    let range = match range {
        YuvRange::Limited => yuv::YuvRange::Limited,
        YuvRange::Full => yuv::YuvRange::Full,
    };
    let matrix = match matrix {
        YuvStandardMatrix::Bt601 => Std::Bt601,
        YuvStandardMatrix::Bt709 => Std::Bt709,
        YuvStandardMatrix::Bt2020 => Std::Bt2020,
        YuvStandardMatrix::Smpte240 => Std::Smpte240,
        YuvStandardMatrix::Fcc => Std::Fcc,
    };
    let image = yuv::YuvBiPlanarImage { y_plane, y_stride, uv_plane, uv_stride, width, height };
    yuv::yuv_nv21_to_bgr(&image, dst, stride, range, matrix, yuv::YuvConversionMode::Balanced)
}

/// The outcomes of `yuv::yuv_nv21_to_bgra`: `after` is a destination that the call may leave where it found
/// `before`.
pub uninterp spec fn yuv_nv21_to_bgra_pixels(image: BiPlanar<u8>, range: YuvRange, matrix: YuvStandardMatrix, stride: u32, before: Seq<u8>, after: Seq<u8>) -> bool;

/// Calls `yuv::yuv_nv21_to_bgra` in its `Balanced` mode: NV21 to BGRA.
///
/// Claimed of it: it succeeds exactly when both planes and the destination hold the image, it
/// writes nothing when it fails, and it keeps the destination's length. Which bytes it writes
/// depends on the vector unit that it finds, so a success is only tied to the arguments by
/// `yuv_nv21_to_bgra_pixels`.
#[verifier::external_body]
pub(crate) fn yuv_nv21_to_bgra(
    y_plane: &[u8],
    y_stride: u32,
    uv_plane: &[u8],
    uv_stride: u32,
    width: u32,
    height: u32,
    dst: &mut [u8],
    stride: u32,
    range: YuvRange,
    matrix: YuvStandardMatrix,
) -> (r: Result<(), yuv::YuvError>)
    requires
        2 * width <= u32::MAX,
        stride * height <= isize::MAX,
        bi_planar_odd_row(bi_planar(y_plane@, y_stride, uv_plane@, uv_stride, width, height), old(dst)@.len(), stride, 4),
    ensures
        r is Ok <==> (bi_planar_fits(bi_planar(y_plane@, y_stride, uv_plane@, uv_stride, width, height), YuvSubsampling::S420)
            && plane_fits(old(dst)@.len(), stride, width * 4, height as int)),
        r is Err ==> final(dst)@ == old(dst)@,
        final(dst)@.len() == old(dst)@.len(),
        r is Ok ==> yuv_nv21_to_bgra_pixels(bi_planar(y_plane@, y_stride, uv_plane@, uv_stride, width, height), range, matrix, stride, old(dst)@, final(dst)@),
{
    let range = match range {
        YuvRange::Limited => yuv::YuvRange::Limited,
        YuvRange::Full => yuv::YuvRange::Full,
    };
    let matrix = match matrix {
        YuvStandardMatrix::Bt601 => Std::Bt601,
        YuvStandardMatrix::Bt709 => Std::Bt709,
        YuvStandardMatrix::Bt2020 => Std::Bt2020,
        YuvStandardMatrix::Smpte240 => Std::Smpte240,
        YuvStandardMatrix::Fcc => Std::Fcc,
    };
    let image = yuv::YuvBiPlanarImage { y_plane, y_stride, uv_plane, uv_stride, width, height };
    yuv::yuv_nv21_to_bgra(&image, dst, stride, range, matrix, yuv::YuvConversionMode::Balanced)
}

/// The outcomes of `yuv::yuv_nv16_to_rgb`: `after` is a destination that the call may leave where it found
/// `before`.
pub uninterp spec fn yuv_nv16_to_rgb_pixels(image: BiPlanar<u8>, range: YuvRange, matrix: YuvStandardMatrix, stride: u32, before: Seq<u8>, after: Seq<u8>) -> bool;

/// Calls `yuv::yuv_nv16_to_rgb` in its `Balanced` mode: NV16 to RGB.
///
/// Claimed of it: it succeeds exactly when both planes and the destination hold the image, it
/// writes nothing when it fails, and it keeps the destination's length. Which bytes it writes
/// depends on the vector unit that it finds, so a success is only tied to the arguments by
/// `yuv_nv16_to_rgb_pixels`.
#[verifier::external_body]
pub(crate) fn yuv_nv16_to_rgb(
    y_plane: &[u8],
    y_stride: u32,
    uv_plane: &[u8],
    uv_stride: u32,
    width: u32,
    height: u32,
    dst: &mut [u8],
    stride: u32,
    range: YuvRange,
    matrix: YuvStandardMatrix,
) -> (r: Result<(), yuv::YuvError>)
    requires
        2 * width <= u32::MAX,
        stride * height <= isize::MAX,
    ensures
        r is Ok <==> (bi_planar_fits(bi_planar(y_plane@, y_stride, uv_plane@, uv_stride, width, height), YuvSubsampling::S422)
            && plane_fits(old(dst)@.len(), stride, width * 3, height as int)),
        r is Err ==> final(dst)@ == old(dst)@,
        final(dst)@.len() == old(dst)@.len(),
        r is Ok ==> yuv_nv16_to_rgb_pixels(bi_planar(y_plane@, y_stride, uv_plane@, uv_stride, width, height), range, matrix, stride, old(dst)@, final(dst)@),
{
    let range = match range {
        YuvRange::Limited => yuv::YuvRange::Limited,
        YuvRange::Full => yuv::YuvRange::Full,
    };
    let matrix = match matrix {
        YuvStandardMatrix::Bt601 => Std::Bt601,
        YuvStandardMatrix::Bt709 => Std::Bt709,
        YuvStandardMatrix::Bt2020 => Std::Bt2020,
        YuvStandardMatrix::Smpte240 => Std::Smpte240,
        YuvStandardMatrix::Fcc => Std::Fcc,
    };
    let image = yuv::YuvBiPlanarImage { y_plane, y_stride, uv_plane, uv_stride, width, height };
    yuv::yuv_nv16_to_rgb(&image, dst, stride, range, matrix, yuv::YuvConversionMode::Balanced)
}

/// The outcomes of `yuv::yuv_nv16_to_rgba`: `after` is a destination that the call may leave where it found
/// `before`.
pub uninterp spec fn yuv_nv16_to_rgba_pixels(image: BiPlanar<u8>, range: YuvRange, matrix: YuvStandardMatrix, stride: u32, before: Seq<u8>, after: Seq<u8>) -> bool;

/// Calls `yuv::yuv_nv16_to_rgba` in its `Balanced` mode: NV16 to RGBA.
///
/// Claimed of it: it succeeds exactly when both planes and the destination hold the image, it
/// writes nothing when it fails, and it keeps the destination's length. Which bytes it writes
/// depends on the vector unit that it finds, so a success is only tied to the arguments by
/// `yuv_nv16_to_rgba_pixels`.
#[verifier::external_body]
pub(crate) fn yuv_nv16_to_rgba(
    y_plane: &[u8],
    y_stride: u32,
    uv_plane: &[u8],
    uv_stride: u32,
    width: u32,
    height: u32,
    dst: &mut [u8],
    stride: u32,
    range: YuvRange,
    matrix: YuvStandardMatrix,
) -> (r: Result<(), yuv::YuvError>)
    requires
        2 * width <= u32::MAX,
        stride * height <= isize::MAX,
    ensures
        r is Ok <==> (bi_planar_fits(bi_planar(y_plane@, y_stride, uv_plane@, uv_stride, width, height), YuvSubsampling::S422)
            && plane_fits(old(dst)@.len(), stride, width * 4, height as int)),
        r is Err ==> final(dst)@ == old(dst)@,
        final(dst)@.len() == old(dst)@.len(),
        r is Ok ==> yuv_nv16_to_rgba_pixels(bi_planar(y_plane@, y_stride, uv_plane@, uv_stride, width, height), range, matrix, stride, old(dst)@, final(dst)@),
{
    let range = match range {
        YuvRange::Limited => yuv::YuvRange::Limited,
        YuvRange::Full => yuv::YuvRange::Full,
    };
    let matrix = match matrix {
        YuvStandardMatrix::Bt601 => Std::Bt601,
        YuvStandardMatrix::Bt709 => Std::Bt709,
        YuvStandardMatrix::Bt2020 => Std::Bt2020,
        YuvStandardMatrix::Smpte240 => Std::Smpte240,
        YuvStandardMatrix::Fcc => Std::Fcc,
    };
    let image = yuv::YuvBiPlanarImage { y_plane, y_stride, uv_plane, uv_stride, width, height };
    yuv::yuv_nv16_to_rgba(&image, dst, stride, range, matrix, yuv::YuvConversionMode::Balanced)
}

/// The outcomes of `yuv::yuv_nv16_to_bgr`: `after` is a destination that the call may leave where it found
/// `before`.
pub uninterp spec fn yuv_nv16_to_bgr_pixels(image: BiPlanar<u8>, range: YuvRange, matrix: YuvStandardMatrix, stride: u32, before: Seq<u8>, after: Seq<u8>) -> bool;

/// Calls `yuv::yuv_nv16_to_bgr` in its `Balanced` mode: NV16 to BGR.
///
/// Claimed of it: it succeeds exactly when both planes and the destination hold the image, it
/// writes nothing when it fails, and it keeps the destination's length. Which bytes it writes
/// depends on the vector unit that it finds, so a success is only tied to the arguments by
/// `yuv_nv16_to_bgr_pixels`.
#[verifier::external_body]
pub(crate) fn yuv_nv16_to_bgr(
    y_plane: &[u8],
    y_stride: u32,
    uv_plane: &[u8],
    uv_stride: u32,
    width: u32,
    height: u32,
    dst: &mut [u8],
    stride: u32,
    range: YuvRange,
    matrix: YuvStandardMatrix,
) -> (r: Result<(), yuv::YuvError>)
    requires
        2 * width <= u32::MAX,
        stride * height <= isize::MAX,
    ensures
        r is Ok <==> (bi_planar_fits(bi_planar(y_plane@, y_stride, uv_plane@, uv_stride, width, height), YuvSubsampling::S422)
            && plane_fits(old(dst)@.len(), stride, width * 3, height as int)),
        r is Err ==> final(dst)@ == old(dst)@,
        final(dst)@.len() == old(dst)@.len(),
        r is Ok ==> yuv_nv16_to_bgr_pixels(bi_planar(y_plane@, y_stride, uv_plane@, uv_stride, width, height), range, matrix, stride, old(dst)@, final(dst)@),
{
    let range = match range {
        YuvRange::Limited => yuv::YuvRange::Limited,
        YuvRange::Full => yuv::YuvRange::Full,
    };
    let matrix = match matrix {
        YuvStandardMatrix::Bt601 => Std::Bt601,
        YuvStandardMatrix::Bt709 => Std::Bt709,
        YuvStandardMatrix::Bt2020 => Std::Bt2020,
        YuvStandardMatrix::Smpte240 => Std::Smpte240,
        YuvStandardMatrix::Fcc => Std::Fcc,
    };
    let image = yuv::YuvBiPlanarImage { y_plane, y_stride, uv_plane, uv_stride, width, height };
    yuv::yuv_nv16_to_bgr(&image, dst, stride, range, matrix, yuv::YuvConversionMode::Balanced)
}

/// The outcomes of `yuv::yuv_nv16_to_bgra`: `after` is a destination that the call may leave where it found
/// `before`.
pub uninterp spec fn yuv_nv16_to_bgra_pixels(image: BiPlanar<u8>, range: YuvRange, matrix: YuvStandardMatrix, stride: u32, before: Seq<u8>, after: Seq<u8>) -> bool;

/// Calls `yuv::yuv_nv16_to_bgra` in its `Balanced` mode: NV16 to BGRA.
///
/// Claimed of it: it succeeds exactly when both planes and the destination hold the image, it
/// writes nothing when it fails, and it keeps the destination's length. Which bytes it writes
/// depends on the vector unit that it finds, so a success is only tied to the arguments by
/// `yuv_nv16_to_bgra_pixels`.
#[verifier::external_body]
pub(crate) fn yuv_nv16_to_bgra(
    y_plane: &[u8],
    y_stride: u32,
    uv_plane: &[u8],
    uv_stride: u32,
    width: u32,
    height: u32,
    dst: &mut [u8],
    stride: u32,
    range: YuvRange,
    matrix: YuvStandardMatrix,
) -> (r: Result<(), yuv::YuvError>)
    requires
        2 * width <= u32::MAX,
        stride * height <= isize::MAX,
    ensures
        r is Ok <==> (bi_planar_fits(bi_planar(y_plane@, y_stride, uv_plane@, uv_stride, width, height), YuvSubsampling::S422)
            && plane_fits(old(dst)@.len(), stride, width * 4, height as int)),
        r is Err ==> final(dst)@ == old(dst)@,
        final(dst)@.len() == old(dst)@.len(),
        r is Ok ==> yuv_nv16_to_bgra_pixels(bi_planar(y_plane@, y_stride, uv_plane@, uv_stride, width, height), range, matrix, stride, old(dst)@, final(dst)@),
{
    let range = match range {
        YuvRange::Limited => yuv::YuvRange::Limited,
        YuvRange::Full => yuv::YuvRange::Full,
    };
    let matrix = match matrix {
        YuvStandardMatrix::Bt601 => Std::Bt601,
        YuvStandardMatrix::Bt709 => Std::Bt709,
        YuvStandardMatrix::Bt2020 => Std::Bt2020,
        YuvStandardMatrix::Smpte240 => Std::Smpte240,
        YuvStandardMatrix::Fcc => Std::Fcc,
    };
    let image = yuv::YuvBiPlanarImage { y_plane, y_stride, uv_plane, uv_stride, width, height };
    yuv::yuv_nv16_to_bgra(&image, dst, stride, range, matrix, yuv::YuvConversionMode::Balanced)
}

/// The outcomes of `yuv::yuv_nv61_to_rgb`: `after` is a destination that the call may leave where it found
/// `before`.
pub uninterp spec fn yuv_nv61_to_rgb_pixels(image: BiPlanar<u8>, range: YuvRange, matrix: YuvStandardMatrix, stride: u32, before: Seq<u8>, after: Seq<u8>) -> bool;

/// Calls `yuv::yuv_nv61_to_rgb` in its `Balanced` mode: NV61 to RGB.
///
/// Claimed of it: it succeeds exactly when both planes and the destination hold the image, it
/// writes nothing when it fails, and it keeps the destination's length. Which bytes it writes
/// depends on the vector unit that it finds, so a success is only tied to the arguments by
/// `yuv_nv61_to_rgb_pixels`.
#[verifier::external_body]
pub(crate) fn yuv_nv61_to_rgb(
    y_plane: &[u8],
    y_stride: u32,
    uv_plane: &[u8],
    uv_stride: u32,
    width: u32,
    height: u32,
    dst: &mut [u8],
    stride: u32,
    range: YuvRange,
    matrix: YuvStandardMatrix,
) -> (r: Result<(), yuv::YuvError>)
    requires
        2 * width <= u32::MAX,
        stride * height <= isize::MAX,
    ensures
        r is Ok <==> (bi_planar_fits(bi_planar(y_plane@, y_stride, uv_plane@, uv_stride, width, height), YuvSubsampling::S422)
            && plane_fits(old(dst)@.len(), stride, width * 3, height as int)),
        r is Err ==> final(dst)@ == old(dst)@,
        final(dst)@.len() == old(dst)@.len(),
        r is Ok ==> yuv_nv61_to_rgb_pixels(bi_planar(y_plane@, y_stride, uv_plane@, uv_stride, width, height), range, matrix, stride, old(dst)@, final(dst)@),
{
    let range = match range {
        YuvRange::Limited => yuv::YuvRange::Limited,
        YuvRange::Full => yuv::YuvRange::Full,
    };
    let matrix = match matrix {
        YuvStandardMatrix::Bt601 => Std::Bt601,
        YuvStandardMatrix::Bt709 => Std::Bt709,
        YuvStandardMatrix::Bt2020 => Std::Bt2020,
        YuvStandardMatrix::Smpte240 => Std::Smpte240,
        YuvStandardMatrix::Fcc => Std::Fcc,
    };
    let image = yuv::YuvBiPlanarImage { y_plane, y_stride, uv_plane, uv_stride, width, height };
    yuv::yuv_nv61_to_rgb(&image, dst, stride, range, matrix, yuv::YuvConversionMode::Balanced)
}

/// The outcomes of `yuv::yuv_nv61_to_rgba`: `after` is a destination that the call may leave where it found
/// `before`.
pub uninterp spec fn yuv_nv61_to_rgba_pixels(image: BiPlanar<u8>, range: YuvRange, matrix: YuvStandardMatrix, stride: u32, before: Seq<u8>, after: Seq<u8>) -> bool;

/// Calls `yuv::yuv_nv61_to_rgba` in its `Balanced` mode: NV61 to RGBA.
///
/// Claimed of it: it succeeds exactly when both planes and the destination hold the image, it
/// writes nothing when it fails, and it keeps the destination's length. Which bytes it writes
/// depends on the vector unit that it finds, so a success is only tied to the arguments by
/// `yuv_nv61_to_rgba_pixels`.
#[verifier::external_body]
pub(crate) fn yuv_nv61_to_rgba(
    y_plane: &[u8],
    y_stride: u32,
    uv_plane: &[u8],
    uv_stride: u32,
    width: u32,
    height: u32,
    dst: &mut [u8],
    stride: u32,
    range: YuvRange,
    matrix: YuvStandardMatrix,
) -> (r: Result<(), yuv::YuvError>)
    requires
        2 * width <= u32::MAX,
        stride * height <= isize::MAX,
    ensures
        r is Ok <==> (bi_planar_fits(bi_planar(y_plane@, y_stride, uv_plane@, uv_stride, width, height), YuvSubsampling::S422)
            && plane_fits(old(dst)@.len(), stride, width * 4, height as int)),
        r is Err ==> final(dst)@ == old(dst)@,
        final(dst)@.len() == old(dst)@.len(),
        r is Ok ==> yuv_nv61_to_rgba_pixels(bi_planar(y_plane@, y_stride, uv_plane@, uv_stride, width, height), range, matrix, stride, old(dst)@, final(dst)@),
{
    let range = match range {
        YuvRange::Limited => yuv::YuvRange::Limited,
        YuvRange::Full => yuv::YuvRange::Full,
    };
    let matrix = match matrix {
        YuvStandardMatrix::Bt601 => Std::Bt601,
        YuvStandardMatrix::Bt709 => Std::Bt709,
        YuvStandardMatrix::Bt2020 => Std::Bt2020,
        YuvStandardMatrix::Smpte240 => Std::Smpte240,
        YuvStandardMatrix::Fcc => Std::Fcc,
    };
    let image = yuv::YuvBiPlanarImage { y_plane, y_stride, uv_plane, uv_stride, width, height };
    yuv::yuv_nv61_to_rgba(&image, dst, stride, range, matrix, yuv::YuvConversionMode::Balanced)
}

/// The outcomes of `yuv::yuv_nv61_to_bgr`: `after` is a destination that the call may leave where it found
/// `before`.
pub uninterp spec fn yuv_nv61_to_bgr_pixels(image: BiPlanar<u8>, range: YuvRange, matrix: YuvStandardMatrix, stride: u32, before: Seq<u8>, after: Seq<u8>) -> bool;

/// Calls `yuv::yuv_nv61_to_bgr` in its `Balanced` mode: NV61 to BGR.
///
/// Claimed of it: it succeeds exactly when both planes and the destination hold the image, it
/// writes nothing when it fails, and it keeps the destination's length. Which bytes it writes
/// depends on the vector unit that it finds, so a success is only tied to the arguments by
/// `yuv_nv61_to_bgr_pixels`.
#[verifier::external_body]
pub(crate) fn yuv_nv61_to_bgr(
    y_plane: &[u8],
    y_stride: u32,
    uv_plane: &[u8],
    uv_stride: u32,
    width: u32,
    height: u32,
    dst: &mut [u8],
    stride: u32,
    range: YuvRange,
    matrix: YuvStandardMatrix,
) -> (r: Result<(), yuv::YuvError>)
    requires
        2 * width <= u32::MAX,
        stride * height <= isize::MAX,
    ensures
        r is Ok <==> (bi_planar_fits(bi_planar(y_plane@, y_stride, uv_plane@, uv_stride, width, height), YuvSubsampling::S422)
            && plane_fits(old(dst)@.len(), stride, width * 3, height as int)),
        r is Err ==> final(dst)@ == old(dst)@,
        final(dst)@.len() == old(dst)@.len(),
        r is Ok ==> yuv_nv61_to_bgr_pixels(bi_planar(y_plane@, y_stride, uv_plane@, uv_stride, width, height), range, matrix, stride, old(dst)@, final(dst)@),
{
    let range = match range {
        YuvRange::Limited => yuv::YuvRange::Limited,
        YuvRange::Full => yuv::YuvRange::Full,
    };
    let matrix = match matrix {
        YuvStandardMatrix::Bt601 => Std::Bt601,
        YuvStandardMatrix::Bt709 => Std::Bt709,
        YuvStandardMatrix::Bt2020 => Std::Bt2020,
        YuvStandardMatrix::Smpte240 => Std::Smpte240,
        YuvStandardMatrix::Fcc => Std::Fcc,
    };
    let image = yuv::YuvBiPlanarImage { y_plane, y_stride, uv_plane, uv_stride, width, height };
    yuv::yuv_nv61_to_bgr(&image, dst, stride, range, matrix, yuv::YuvConversionMode::Balanced)
}

/// The outcomes of `yuv::yuv_nv61_to_bgra`: `after` is a destination that the call may leave where it found
/// `before`.
pub uninterp spec fn yuv_nv61_to_bgra_pixels(image: BiPlanar<u8>, range: YuvRange, matrix: YuvStandardMatrix, stride: u32, before: Seq<u8>, after: Seq<u8>) -> bool;

/// Calls `yuv::yuv_nv61_to_bgra` in its `Balanced` mode: NV61 to BGRA.
///
/// Claimed of it: it succeeds exactly when both planes and the destination hold the image, it
/// writes nothing when it fails, and it keeps the destination's length. Which bytes it writes
/// depends on the vector unit that it finds, so a success is only tied to the arguments by
/// `yuv_nv61_to_bgra_pixels`.
#[verifier::external_body]
pub(crate) fn yuv_nv61_to_bgra(
    y_plane: &[u8],
    y_stride: u32,
    uv_plane: &[u8],
    uv_stride: u32,
    width: u32,
    height: u32,
    dst: &mut [u8],
    stride: u32,
    range: YuvRange,
    matrix: YuvStandardMatrix,
) -> (r: Result<(), yuv::YuvError>)
    requires
        2 * width <= u32::MAX,
        stride * height <= isize::MAX,
    ensures
        r is Ok <==> (bi_planar_fits(bi_planar(y_plane@, y_stride, uv_plane@, uv_stride, width, height), YuvSubsampling::S422)
            && plane_fits(old(dst)@.len(), stride, width * 4, height as int)),
        r is Err ==> final(dst)@ == old(dst)@,
        final(dst)@.len() == old(dst)@.len(),
        r is Ok ==> yuv_nv61_to_bgra_pixels(bi_planar(y_plane@, y_stride, uv_plane@, uv_stride, width, height), range, matrix, stride, old(dst)@, final(dst)@),
{
    let range = match range {
        YuvRange::Limited => yuv::YuvRange::Limited,
        YuvRange::Full => yuv::YuvRange::Full,
    };
    let matrix = match matrix {
        YuvStandardMatrix::Bt601 => Std::Bt601,
        YuvStandardMatrix::Bt709 => Std::Bt709,
        YuvStandardMatrix::Bt2020 => Std::Bt2020,
        YuvStandardMatrix::Smpte240 => Std::Smpte240,
        YuvStandardMatrix::Fcc => Std::Fcc,
    };
    let image = yuv::YuvBiPlanarImage { y_plane, y_stride, uv_plane, uv_stride, width, height };
    yuv::yuv_nv61_to_bgra(&image, dst, stride, range, matrix, yuv::YuvConversionMode::Balanced)
}

/// The outcomes of `yuv::yuv_nv24_to_rgb`: `after` is a destination that the call may leave where it found
/// `before`.
pub uninterp spec fn yuv_nv24_to_rgb_pixels(image: BiPlanar<u8>, range: YuvRange, matrix: YuvStandardMatrix, stride: u32, before: Seq<u8>, after: Seq<u8>) -> bool;

/// Calls `yuv::yuv_nv24_to_rgb` in its `Balanced` mode: NV24 to RGB.
///
/// Claimed of it: it succeeds exactly when both planes and the destination hold the image, it
/// writes nothing when it fails, and it keeps the destination's length. Which bytes it writes
/// depends on the vector unit that it finds, so a success is only tied to the arguments by
/// `yuv_nv24_to_rgb_pixels`.
#[verifier::external_body]
pub(crate) fn yuv_nv24_to_rgb(
    y_plane: &[u8],
    y_stride: u32,
    uv_plane: &[u8],
    uv_stride: u32,
    width: u32,
    height: u32,
    dst: &mut [u8],
    stride: u32,
    range: YuvRange,
    matrix: YuvStandardMatrix,
) -> (r: Result<(), yuv::YuvError>)
    requires
        2 * width <= u32::MAX,
        stride * height <= isize::MAX,
    ensures
        r is Ok <==> (bi_planar_fits(bi_planar(y_plane@, y_stride, uv_plane@, uv_stride, width, height), YuvSubsampling::S444)
            && plane_fits(old(dst)@.len(), stride, width * 3, height as int)),
        r is Err ==> final(dst)@ == old(dst)@,
        final(dst)@.len() == old(dst)@.len(),
        r is Ok ==> yuv_nv24_to_rgb_pixels(bi_planar(y_plane@, y_stride, uv_plane@, uv_stride, width, height), range, matrix, stride, old(dst)@, final(dst)@),
{
    let range = match range {
        YuvRange::Limited => yuv::YuvRange::Limited,
        YuvRange::Full => yuv::YuvRange::Full,
    };
    let matrix = match matrix {
        YuvStandardMatrix::Bt601 => Std::Bt601,
        YuvStandardMatrix::Bt709 => Std::Bt709,
        YuvStandardMatrix::Bt2020 => Std::Bt2020,
        YuvStandardMatrix::Smpte240 => Std::Smpte240,
        YuvStandardMatrix::Fcc => Std::Fcc,
    };
    let image = yuv::YuvBiPlanarImage { y_plane, y_stride, uv_plane, uv_stride, width, height };
    yuv::yuv_nv24_to_rgb(&image, dst, stride, range, matrix, yuv::YuvConversionMode::Balanced)
}

/// The outcomes of `yuv::yuv_nv24_to_rgba`: `after` is a destination that the call may leave where it found
/// `before`.
pub uninterp spec fn yuv_nv24_to_rgba_pixels(image: BiPlanar<u8>, range: YuvRange, matrix: YuvStandardMatrix, stride: u32, before: Seq<u8>, after: Seq<u8>) -> bool;

/// Calls `yuv::yuv_nv24_to_rgba` in its `Balanced` mode: NV24 to RGBA.
///
/// Claimed of it: it succeeds exactly when both planes and the destination hold the image, it
/// writes nothing when it fails, and it keeps the destination's length. Which bytes it writes
/// depends on the vector unit that it finds, so a success is only tied to the arguments by
/// `yuv_nv24_to_rgba_pixels`.
#[verifier::external_body]
pub(crate) fn yuv_nv24_to_rgba(
    y_plane: &[u8],
    y_stride: u32,
    uv_plane: &[u8],
    uv_stride: u32,
    width: u32,
    height: u32,
    dst: &mut [u8],
    stride: u32,
    range: YuvRange,
    matrix: YuvStandardMatrix,
) -> (r: Result<(), yuv::YuvError>)
    requires
        2 * width <= u32::MAX,
        stride * height <= isize::MAX,
    ensures
        r is Ok <==> (bi_planar_fits(bi_planar(y_plane@, y_stride, uv_plane@, uv_stride, width, height), YuvSubsampling::S444)
            && plane_fits(old(dst)@.len(), stride, width * 4, height as int)),
        r is Err ==> final(dst)@ == old(dst)@,
        final(dst)@.len() == old(dst)@.len(),
        r is Ok ==> yuv_nv24_to_rgba_pixels(bi_planar(y_plane@, y_stride, uv_plane@, uv_stride, width, height), range, matrix, stride, old(dst)@, final(dst)@),
{
    let range = match range {
        YuvRange::Limited => yuv::YuvRange::Limited,
        YuvRange::Full => yuv::YuvRange::Full,
    };
    let matrix = match matrix {
        YuvStandardMatrix::Bt601 => Std::Bt601,
        YuvStandardMatrix::Bt709 => Std::Bt709,
        YuvStandardMatrix::Bt2020 => Std::Bt2020,
        YuvStandardMatrix::Smpte240 => Std::Smpte240,
        YuvStandardMatrix::Fcc => Std::Fcc,
    };
    let image = yuv::YuvBiPlanarImage { y_plane, y_stride, uv_plane, uv_stride, width, height };
    yuv::yuv_nv24_to_rgba(&image, dst, stride, range, matrix, yuv::YuvConversionMode::Balanced)
}

/// The outcomes of `yuv::yuv_nv24_to_bgr`: `after` is a destination that the call may leave where it found
/// `before`.
pub uninterp spec fn yuv_nv24_to_bgr_pixels(image: BiPlanar<u8>, range: YuvRange, matrix: YuvStandardMatrix, stride: u32, before: Seq<u8>, after: Seq<u8>) -> bool;

/// Calls `yuv::yuv_nv24_to_bgr` in its `Balanced` mode: NV24 to BGR.
///
/// Claimed of it: it succeeds exactly when both planes and the destination hold the image, it
/// writes nothing when it fails, and it keeps the destination's length. Which bytes it writes
/// depends on the vector unit that it finds, so a success is only tied to the arguments by
/// `yuv_nv24_to_bgr_pixels`.
#[verifier::external_body]
pub(crate) fn yuv_nv24_to_bgr(
    y_plane: &[u8],
    y_stride: u32,
    uv_plane: &[u8],
    uv_stride: u32,
    width: u32,
    height: u32,
    dst: &mut [u8],
    stride: u32,
    range: YuvRange,
    matrix: YuvStandardMatrix,
) -> (r: Result<(), yuv::YuvError>)
    requires
        2 * width <= u32::MAX,
        stride * height <= isize::MAX,
    ensures
        r is Ok <==> (bi_planar_fits(bi_planar(y_plane@, y_stride, uv_plane@, uv_stride, width, height), YuvSubsampling::S444)
            && plane_fits(old(dst)@.len(), stride, width * 3, height as int)),
        r is Err ==> final(dst)@ == old(dst)@,
        final(dst)@.len() == old(dst)@.len(),
        r is Ok ==> yuv_nv24_to_bgr_pixels(bi_planar(y_plane@, y_stride, uv_plane@, uv_stride, width, height), range, matrix, stride, old(dst)@, final(dst)@),
{
    let range = match range {
        YuvRange::Limited => yuv::YuvRange::Limited,
        YuvRange::Full => yuv::YuvRange::Full,
    };
    let matrix = match matrix {
        YuvStandardMatrix::Bt601 => Std::Bt601,
        YuvStandardMatrix::Bt709 => Std::Bt709,
        YuvStandardMatrix::Bt2020 => Std::Bt2020,
        YuvStandardMatrix::Smpte240 => Std::Smpte240,
        YuvStandardMatrix::Fcc => Std::Fcc,
    };
    let image = yuv::YuvBiPlanarImage { y_plane, y_stride, uv_plane, uv_stride, width, height };
    yuv::yuv_nv24_to_bgr(&image, dst, stride, range, matrix, yuv::YuvConversionMode::Balanced)
}

/// The outcomes of `yuv::yuv_nv24_to_bgra`: `after` is a destination that the call may leave where it found
/// `before`.
pub uninterp spec fn yuv_nv24_to_bgra_pixels(image: BiPlanar<u8>, range: YuvRange, matrix: YuvStandardMatrix, stride: u32, before: Seq<u8>, after: Seq<u8>) -> bool;

/// Calls `yuv::yuv_nv24_to_bgra` in its `Balanced` mode: NV24 to BGRA.
///
/// Claimed of it: it succeeds exactly when both planes and the destination hold the image, it
/// writes nothing when it fails, and it keeps the destination's length. Which bytes it writes
/// depends on the vector unit that it finds, so a success is only tied to the arguments by
/// `yuv_nv24_to_bgra_pixels`.
#[verifier::external_body]
pub(crate) fn yuv_nv24_to_bgra(
    y_plane: &[u8],
    y_stride: u32,
    uv_plane: &[u8],
    uv_stride: u32,
    width: u32,
    height: u32,
    dst: &mut [u8],
    stride: u32,
    range: YuvRange,
    matrix: YuvStandardMatrix,
) -> (r: Result<(), yuv::YuvError>)
    requires
        2 * width <= u32::MAX,
        stride * height <= isize::MAX,
    ensures
        r is Ok <==> (bi_planar_fits(bi_planar(y_plane@, y_stride, uv_plane@, uv_stride, width, height), YuvSubsampling::S444)
            && plane_fits(old(dst)@.len(), stride, width * 4, height as int)),
        r is Err ==> final(dst)@ == old(dst)@,
        final(dst)@.len() == old(dst)@.len(),
        r is Ok ==> yuv_nv24_to_bgra_pixels(bi_planar(y_plane@, y_stride, uv_plane@, uv_stride, width, height), range, matrix, stride, old(dst)@, final(dst)@),
{
    let range = match range {
        YuvRange::Limited => yuv::YuvRange::Limited,
        YuvRange::Full => yuv::YuvRange::Full,
    };
    let matrix = match matrix {
        YuvStandardMatrix::Bt601 => Std::Bt601,
        YuvStandardMatrix::Bt709 => Std::Bt709,
        YuvStandardMatrix::Bt2020 => Std::Bt2020,
        YuvStandardMatrix::Smpte240 => Std::Smpte240,
        YuvStandardMatrix::Fcc => Std::Fcc,
    };
    let image = yuv::YuvBiPlanarImage { y_plane, y_stride, uv_plane, uv_stride, width, height };
    yuv::yuv_nv24_to_bgra(&image, dst, stride, range, matrix, yuv::YuvConversionMode::Balanced)
}

/// The outcomes of `yuv::p010_to_rgb`: `after` is a destination that the call may leave where it found
/// `before`.
pub uninterp spec fn p010_to_rgb_pixels(image: BiPlanar<u16>, range: YuvRange, matrix: YuvStandardMatrix, stride: u32, before: Seq<u8>, after: Seq<u8>) -> bool;

/// Calls `yuv::p010_to_rgb` in its `Balanced` mode: P010 samples to RGB.
///
/// Claimed of it: it succeeds exactly when both planes and the destination hold the image, it
/// writes nothing when it fails, and it keeps the destination's length. Which bytes it writes
/// depends on the vector unit that it finds, so a success is only tied to the arguments by
/// `p010_to_rgb_pixels`.
#[verifier::external_body]
pub(crate) fn p010_to_rgb(
    y_plane: &[u16],
    y_stride: u32,
    uv_plane: &[u16],
    uv_stride: u32,
    width: u32,
    height: u32,
    dst: &mut [u8],
    stride: u32,
    range: YuvRange,
    matrix: YuvStandardMatrix,
) -> (r: Result<(), yuv::YuvError>)
    requires
        2 * width <= u32::MAX,
        stride * height <= isize::MAX,
        bi_planar_odd_row(bi_planar(y_plane@, y_stride, uv_plane@, uv_stride, width, height), old(dst)@.len(), stride, 3),
    ensures
        r is Ok <==> (bi_planar_fits(bi_planar(y_plane@, y_stride, uv_plane@, uv_stride, width, height), YuvSubsampling::S420)
            && plane_fits(old(dst)@.len(), stride, width * 3, height as int)),
        r is Err ==> final(dst)@ == old(dst)@,
        final(dst)@.len() == old(dst)@.len(),
        r is Ok ==> p010_to_rgb_pixels(bi_planar(y_plane@, y_stride, uv_plane@, uv_stride, width, height), range, matrix, stride, old(dst)@, final(dst)@),
{
    let range = match range {
        YuvRange::Limited => yuv::YuvRange::Limited,
        YuvRange::Full => yuv::YuvRange::Full,
    };
    let matrix = match matrix {
        YuvStandardMatrix::Bt601 => Std::Bt601,
        YuvStandardMatrix::Bt709 => Std::Bt709,
        YuvStandardMatrix::Bt2020 => Std::Bt2020,
        YuvStandardMatrix::Smpte240 => Std::Smpte240,
        YuvStandardMatrix::Fcc => Std::Fcc,
    };
    let image = yuv::YuvBiPlanarImage { y_plane, y_stride, uv_plane, uv_stride, width, height };
    yuv::p010_to_rgb(&image, dst, stride, range, matrix, yuv::YuvConversionMode::Balanced)
}

/// The outcomes of `yuv::p010_to_rgba`: `after` is a destination that the call may leave where it found
/// `before`.
pub uninterp spec fn p010_to_rgba_pixels(image: BiPlanar<u16>, range: YuvRange, matrix: YuvStandardMatrix, stride: u32, before: Seq<u8>, after: Seq<u8>) -> bool;

/// Calls `yuv::p010_to_rgba` in its `Balanced` mode: P010 samples to RGBA.
///
/// Claimed of it: it succeeds exactly when both planes and the destination hold the image, it
/// writes nothing when it fails, and it keeps the destination's length. Which bytes it writes
/// depends on the vector unit that it finds, so a success is only tied to the arguments by
/// `p010_to_rgba_pixels`.
#[verifier::external_body]
pub(crate) fn p010_to_rgba(
    y_plane: &[u16],
    y_stride: u32,
    uv_plane: &[u16],
    uv_stride: u32,
    width: u32,
    height: u32,
    dst: &mut [u8],
    stride: u32,
    range: YuvRange,
    matrix: YuvStandardMatrix,
) -> (r: Result<(), yuv::YuvError>)
    requires
        2 * width <= u32::MAX,
        stride * height <= isize::MAX,
        bi_planar_odd_row(bi_planar(y_plane@, y_stride, uv_plane@, uv_stride, width, height), old(dst)@.len(), stride, 4),
    ensures
        r is Ok <==> (bi_planar_fits(bi_planar(y_plane@, y_stride, uv_plane@, uv_stride, width, height), YuvSubsampling::S420)
            && plane_fits(old(dst)@.len(), stride, width * 4, height as int)),
        r is Err ==> final(dst)@ == old(dst)@,
        final(dst)@.len() == old(dst)@.len(),
        r is Ok ==> p010_to_rgba_pixels(bi_planar(y_plane@, y_stride, uv_plane@, uv_stride, width, height), range, matrix, stride, old(dst)@, final(dst)@),
{
    let range = match range {
        YuvRange::Limited => yuv::YuvRange::Limited,
        YuvRange::Full => yuv::YuvRange::Full,
    };
    let matrix = match matrix {
        YuvStandardMatrix::Bt601 => Std::Bt601,
        YuvStandardMatrix::Bt709 => Std::Bt709,
        YuvStandardMatrix::Bt2020 => Std::Bt2020,
        YuvStandardMatrix::Smpte240 => Std::Smpte240,
        YuvStandardMatrix::Fcc => Std::Fcc,
    };
    let image = yuv::YuvBiPlanarImage { y_plane, y_stride, uv_plane, uv_stride, width, height };
    yuv::p010_to_rgba(&image, dst, stride, range, matrix, yuv::YuvConversionMode::Balanced)
}

/// The outcomes of `yuv::p010_to_bgr`: `after` is a destination that the call may leave where it found
/// `before`.
pub uninterp spec fn p010_to_bgr_pixels(image: BiPlanar<u16>, range: YuvRange, matrix: YuvStandardMatrix, stride: u32, before: Seq<u8>, after: Seq<u8>) -> bool;

/// Calls `yuv::p010_to_bgr` in its `Balanced` mode: P010 samples to BGR.
///
/// Claimed of it: it succeeds exactly when both planes and the destination hold the image, it
/// writes nothing when it fails, and it keeps the destination's length. Which bytes it writes
/// depends on the vector unit that it finds, so a success is only tied to the arguments by
/// `p010_to_bgr_pixels`.
#[verifier::external_body]
pub(crate) fn p010_to_bgr(
    y_plane: &[u16],
    y_stride: u32,
    uv_plane: &[u16],
    uv_stride: u32,
    width: u32,
    height: u32,
    dst: &mut [u8],
    stride: u32,
    range: YuvRange,
    matrix: YuvStandardMatrix,
) -> (r: Result<(), yuv::YuvError>)
    requires
        2 * width <= u32::MAX,
        stride * height <= isize::MAX,
        bi_planar_odd_row(bi_planar(y_plane@, y_stride, uv_plane@, uv_stride, width, height), old(dst)@.len(), stride, 3),
    ensures
        r is Ok <==> (bi_planar_fits(bi_planar(y_plane@, y_stride, uv_plane@, uv_stride, width, height), YuvSubsampling::S420)
            && plane_fits(old(dst)@.len(), stride, width * 3, height as int)),
        r is Err ==> final(dst)@ == old(dst)@,
        final(dst)@.len() == old(dst)@.len(),
        r is Ok ==> p010_to_bgr_pixels(bi_planar(y_plane@, y_stride, uv_plane@, uv_stride, width, height), range, matrix, stride, old(dst)@, final(dst)@),
{
    let range = match range {
        YuvRange::Limited => yuv::YuvRange::Limited,
        YuvRange::Full => yuv::YuvRange::Full,
    };
    let matrix = match matrix {
        YuvStandardMatrix::Bt601 => Std::Bt601,
        YuvStandardMatrix::Bt709 => Std::Bt709,
        YuvStandardMatrix::Bt2020 => Std::Bt2020,
        YuvStandardMatrix::Smpte240 => Std::Smpte240,
        YuvStandardMatrix::Fcc => Std::Fcc,
    };
    let image = yuv::YuvBiPlanarImage { y_plane, y_stride, uv_plane, uv_stride, width, height };
    yuv::p010_to_bgr(&image, dst, stride, range, matrix, yuv::YuvConversionMode::Balanced)
}

/// The outcomes of `yuv::p010_to_bgra`: `after` is a destination that the call may leave where it found
/// `before`.
pub uninterp spec fn p010_to_bgra_pixels(image: BiPlanar<u16>, range: YuvRange, matrix: YuvStandardMatrix, stride: u32, before: Seq<u8>, after: Seq<u8>) -> bool;

/// Calls `yuv::p010_to_bgra` in its `Balanced` mode: P010 samples to BGRA.
///
/// Claimed of it: it succeeds exactly when both planes and the destination hold the image, it
/// writes nothing when it fails, and it keeps the destination's length. Which bytes it writes
/// depends on the vector unit that it finds, so a success is only tied to the arguments by
/// `p010_to_bgra_pixels`.
#[verifier::external_body]
pub(crate) fn p010_to_bgra(
    y_plane: &[u16],
    y_stride: u32,
    uv_plane: &[u16],
    uv_stride: u32,
    width: u32,
    height: u32,
    dst: &mut [u8],
    stride: u32,
    range: YuvRange,
    matrix: YuvStandardMatrix,
) -> (r: Result<(), yuv::YuvError>)
    requires
        2 * width <= u32::MAX,
        stride * height <= isize::MAX,
        bi_planar_odd_row(bi_planar(y_plane@, y_stride, uv_plane@, uv_stride, width, height), old(dst)@.len(), stride, 4),
    ensures
        r is Ok <==> (bi_planar_fits(bi_planar(y_plane@, y_stride, uv_plane@, uv_stride, width, height), YuvSubsampling::S420)
            && plane_fits(old(dst)@.len(), stride, width * 4, height as int)),
        r is Err ==> final(dst)@ == old(dst)@,
        final(dst)@.len() == old(dst)@.len(),
        r is Ok ==> p010_to_bgra_pixels(bi_planar(y_plane@, y_stride, uv_plane@, uv_stride, width, height), range, matrix, stride, old(dst)@, final(dst)@),
{
    let range = match range {
        YuvRange::Limited => yuv::YuvRange::Limited,
        YuvRange::Full => yuv::YuvRange::Full,
    };
    let matrix = match matrix {
        YuvStandardMatrix::Bt601 => Std::Bt601,
        YuvStandardMatrix::Bt709 => Std::Bt709,
        YuvStandardMatrix::Bt2020 => Std::Bt2020,
        YuvStandardMatrix::Smpte240 => Std::Smpte240,
        YuvStandardMatrix::Fcc => Std::Fcc,
    };
    let image = yuv::YuvBiPlanarImage { y_plane, y_stride, uv_plane, uv_stride, width, height };
    yuv::p010_to_bgra(&image, dst, stride, range, matrix, yuv::YuvConversionMode::Balanced)
}

/// The outcomes of `yuv::p210_to_rgb`: `after` is a destination that the call may leave where it found
/// `before`.
pub uninterp spec fn p210_to_rgb_pixels(image: BiPlanar<u16>, range: YuvRange, matrix: YuvStandardMatrix, stride: u32, before: Seq<u8>, after: Seq<u8>) -> bool;

/// Calls `yuv::p210_to_rgb` in its `Balanced` mode: P210 samples to RGB.
///
/// Claimed of it: it succeeds exactly when both planes and the destination hold the image, it
/// writes nothing when it fails, and it keeps the destination's length. Which bytes it writes
/// depends on the vector unit that it finds, so a success is only tied to the arguments by
/// `p210_to_rgb_pixels`.
#[verifier::external_body]
pub(crate) fn p210_to_rgb(
    y_plane: &[u16],
    y_stride: u32,
    uv_plane: &[u16],
    uv_stride: u32,
    width: u32,
    height: u32,
    dst: &mut [u8],
    stride: u32,
    range: YuvRange,
    matrix: YuvStandardMatrix,
) -> (r: Result<(), yuv::YuvError>)
    requires
        2 * width <= u32::MAX,
        stride * height <= isize::MAX,
    ensures
        r is Ok <==> (bi_planar_fits(bi_planar(y_plane@, y_stride, uv_plane@, uv_stride, width, height), YuvSubsampling::S422)
            && plane_fits(old(dst)@.len(), stride, width * 3, height as int)),
        r is Err ==> final(dst)@ == old(dst)@,
        final(dst)@.len() == old(dst)@.len(),
        r is Ok ==> p210_to_rgb_pixels(bi_planar(y_plane@, y_stride, uv_plane@, uv_stride, width, height), range, matrix, stride, old(dst)@, final(dst)@),
{
    let range = match range {
        YuvRange::Limited => yuv::YuvRange::Limited,
        YuvRange::Full => yuv::YuvRange::Full,
    };
    let matrix = match matrix {
        YuvStandardMatrix::Bt601 => Std::Bt601,
        YuvStandardMatrix::Bt709 => Std::Bt709,
        YuvStandardMatrix::Bt2020 => Std::Bt2020,
        YuvStandardMatrix::Smpte240 => Std::Smpte240,
        YuvStandardMatrix::Fcc => Std::Fcc,
    };
    let image = yuv::YuvBiPlanarImage { y_plane, y_stride, uv_plane, uv_stride, width, height };
    yuv::p210_to_rgb(&image, dst, stride, range, matrix, yuv::YuvConversionMode::Balanced)
}

/// The outcomes of `yuv::p210_to_rgba`: `after` is a destination that the call may leave where it found
/// `before`.
pub uninterp spec fn p210_to_rgba_pixels(image: BiPlanar<u16>, range: YuvRange, matrix: YuvStandardMatrix, stride: u32, before: Seq<u8>, after: Seq<u8>) -> bool;

/// Calls `yuv::p210_to_rgba` in its `Balanced` mode: P210 samples to RGBA.
///
/// Claimed of it: it succeeds exactly when both planes and the destination hold the image, it
/// writes nothing when it fails, and it keeps the destination's length. Which bytes it writes
/// depends on the vector unit that it finds, so a success is only tied to the arguments by
/// `p210_to_rgba_pixels`.
#[verifier::external_body]
pub(crate) fn p210_to_rgba(
    y_plane: &[u16],
    y_stride: u32,
    uv_plane: &[u16],
    uv_stride: u32,
    width: u32,
    height: u32,
    dst: &mut [u8],
    stride: u32,
    range: YuvRange,
    matrix: YuvStandardMatrix,
) -> (r: Result<(), yuv::YuvError>)
    requires
        2 * width <= u32::MAX,
        stride * height <= isize::MAX,
    ensures
        r is Ok <==> (bi_planar_fits(bi_planar(y_plane@, y_stride, uv_plane@, uv_stride, width, height), YuvSubsampling::S422)
            && plane_fits(old(dst)@.len(), stride, width * 4, height as int)),
        r is Err ==> final(dst)@ == old(dst)@,
        final(dst)@.len() == old(dst)@.len(),
        r is Ok ==> p210_to_rgba_pixels(bi_planar(y_plane@, y_stride, uv_plane@, uv_stride, width, height), range, matrix, stride, old(dst)@, final(dst)@),
{
    let range = match range {
        YuvRange::Limited => yuv::YuvRange::Limited,
        YuvRange::Full => yuv::YuvRange::Full,
    };
    let matrix = match matrix {
        YuvStandardMatrix::Bt601 => Std::Bt601,
        YuvStandardMatrix::Bt709 => Std::Bt709,
        YuvStandardMatrix::Bt2020 => Std::Bt2020,
        YuvStandardMatrix::Smpte240 => Std::Smpte240,
        YuvStandardMatrix::Fcc => Std::Fcc,
    };
    let image = yuv::YuvBiPlanarImage { y_plane, y_stride, uv_plane, uv_stride, width, height };
    yuv::p210_to_rgba(&image, dst, stride, range, matrix, yuv::YuvConversionMode::Balanced)
}

/// The outcomes of `yuv::p210_to_bgr`: `after` is a destination that the call may leave where it found
/// `before`.
pub uninterp spec fn p210_to_bgr_pixels(image: BiPlanar<u16>, range: YuvRange, matrix: YuvStandardMatrix, stride: u32, before: Seq<u8>, after: Seq<u8>) -> bool;

/// Calls `yuv::p210_to_bgr` in its `Balanced` mode: P210 samples to BGR.
///
/// Claimed of it: it succeeds exactly when both planes and the destination hold the image, it
/// writes nothing when it fails, and it keeps the destination's length. Which bytes it writes
/// depends on the vector unit that it finds, so a success is only tied to the arguments by
/// `p210_to_bgr_pixels`.
#[verifier::external_body]
pub(crate) fn p210_to_bgr(
    y_plane: &[u16],
    y_stride: u32,
    uv_plane: &[u16],
    uv_stride: u32,
    width: u32,
    height: u32,
    dst: &mut [u8],
    stride: u32,
    range: YuvRange,
    matrix: YuvStandardMatrix,
) -> (r: Result<(), yuv::YuvError>)
    requires
        2 * width <= u32::MAX,
        stride * height <= isize::MAX,
    ensures
        r is Ok <==> (bi_planar_fits(bi_planar(y_plane@, y_stride, uv_plane@, uv_stride, width, height), YuvSubsampling::S422)
            && plane_fits(old(dst)@.len(), stride, width * 3, height as int)),
        r is Err ==> final(dst)@ == old(dst)@,
        final(dst)@.len() == old(dst)@.len(),
        r is Ok ==> p210_to_bgr_pixels(bi_planar(y_plane@, y_stride, uv_plane@, uv_stride, width, height), range, matrix, stride, old(dst)@, final(dst)@),
{
    let range = match range {
        YuvRange::Limited => yuv::YuvRange::Limited,
        YuvRange::Full => yuv::YuvRange::Full,
    };
    let matrix = match matrix {
        YuvStandardMatrix::Bt601 => Std::Bt601,
        YuvStandardMatrix::Bt709 => Std::Bt709,
        YuvStandardMatrix::Bt2020 => Std::Bt2020,
        YuvStandardMatrix::Smpte240 => Std::Smpte240,
        YuvStandardMatrix::Fcc => Std::Fcc,
    };
    let image = yuv::YuvBiPlanarImage { y_plane, y_stride, uv_plane, uv_stride, width, height };
    yuv::p210_to_bgr(&image, dst, stride, range, matrix, yuv::YuvConversionMode::Balanced)
}

/// The outcomes of `yuv::p210_to_bgra`: `after` is a destination that the call may leave where it found
/// `before`.
pub uninterp spec fn p210_to_bgra_pixels(image: BiPlanar<u16>, range: YuvRange, matrix: YuvStandardMatrix, stride: u32, before: Seq<u8>, after: Seq<u8>) -> bool;

/// Calls `yuv::p210_to_bgra` in its `Balanced` mode: P210 samples to BGRA.
///
/// Claimed of it: it succeeds exactly when both planes and the destination hold the image, it
/// writes nothing when it fails, and it keeps the destination's length. Which bytes it writes
/// depends on the vector unit that it finds, so a success is only tied to the arguments by
/// `p210_to_bgra_pixels`.
#[verifier::external_body]
pub(crate) fn p210_to_bgra(
    y_plane: &[u16],
    y_stride: u32,
    uv_plane: &[u16],
    uv_stride: u32,
    width: u32,
    height: u32,
    dst: &mut [u8],
    stride: u32,
    range: YuvRange,
    matrix: YuvStandardMatrix,
) -> (r: Result<(), yuv::YuvError>)
    requires
        2 * width <= u32::MAX,
        stride * height <= isize::MAX,
    ensures
        r is Ok <==> (bi_planar_fits(bi_planar(y_plane@, y_stride, uv_plane@, uv_stride, width, height), YuvSubsampling::S422)
            && plane_fits(old(dst)@.len(), stride, width * 4, height as int)),
        r is Err ==> final(dst)@ == old(dst)@,
        final(dst)@.len() == old(dst)@.len(),
        r is Ok ==> p210_to_bgra_pixels(bi_planar(y_plane@, y_stride, uv_plane@, uv_stride, width, height), range, matrix, stride, old(dst)@, final(dst)@),
{
    let range = match range {
        YuvRange::Limited => yuv::YuvRange::Limited,
        YuvRange::Full => yuv::YuvRange::Full,
    };
    let matrix = match matrix {
        YuvStandardMatrix::Bt601 => Std::Bt601,
        YuvStandardMatrix::Bt709 => Std::Bt709,
        YuvStandardMatrix::Bt2020 => Std::Bt2020,
        YuvStandardMatrix::Smpte240 => Std::Smpte240,
        YuvStandardMatrix::Fcc => Std::Fcc,
    };
    let image = yuv::YuvBiPlanarImage { y_plane, y_stride, uv_plane, uv_stride, width, height };
    yuv::p210_to_bgra(&image, dst, stride, range, matrix, yuv::YuvConversionMode::Balanced)
}

/// The outcomes of `yuv::p410_to_rgb`: `after` is a destination that the call may leave where it found
/// `before`.
pub uninterp spec fn p410_to_rgb_pixels(image: BiPlanar<u16>, range: YuvRange, matrix: YuvStandardMatrix, stride: u32, before: Seq<u8>, after: Seq<u8>) -> bool;

/// Calls `yuv::p410_to_rgb` in its `Balanced` mode: P410 samples to RGB.
///
/// Claimed of it: it succeeds exactly when both planes and the destination hold the image, it
/// writes nothing when it fails, and it keeps the destination's length. Which bytes it writes
/// depends on the vector unit that it finds, so a success is only tied to the arguments by
/// `p410_to_rgb_pixels`.
#[verifier::external_body]
pub(crate) fn p410_to_rgb(
    y_plane: &[u16],
    y_stride: u32,
    uv_plane: &[u16],
    uv_stride: u32,
    width: u32,
    height: u32,
    dst: &mut [u8],
    stride: u32,
    range: YuvRange,
    matrix: YuvStandardMatrix,
) -> (r: Result<(), yuv::YuvError>)
    requires
        2 * width <= u32::MAX,
        stride * height <= isize::MAX,
    ensures
        r is Ok <==> (bi_planar_fits(bi_planar(y_plane@, y_stride, uv_plane@, uv_stride, width, height), YuvSubsampling::S444)
            && plane_fits(old(dst)@.len(), stride, width * 3, height as int)),
        r is Err ==> final(dst)@ == old(dst)@,
        final(dst)@.len() == old(dst)@.len(),
        r is Ok ==> p410_to_rgb_pixels(bi_planar(y_plane@, y_stride, uv_plane@, uv_stride, width, height), range, matrix, stride, old(dst)@, final(dst)@),
{
    let range = match range {
        YuvRange::Limited => yuv::YuvRange::Limited,
        YuvRange::Full => yuv::YuvRange::Full,
    };
    let matrix = match matrix {
        YuvStandardMatrix::Bt601 => Std::Bt601,
        YuvStandardMatrix::Bt709 => Std::Bt709,
        YuvStandardMatrix::Bt2020 => Std::Bt2020,
        YuvStandardMatrix::Smpte240 => Std::Smpte240,
        YuvStandardMatrix::Fcc => Std::Fcc,
    };
    let image = yuv::YuvBiPlanarImage { y_plane, y_stride, uv_plane, uv_stride, width, height };
    yuv::p410_to_rgb(&image, dst, stride, range, matrix, yuv::YuvConversionMode::Balanced)
}

/// The outcomes of `yuv::p410_to_rgba`: `after` is a destination that the call may leave where it found
/// `before`.
pub uninterp spec fn p410_to_rgba_pixels(image: BiPlanar<u16>, range: YuvRange, matrix: YuvStandardMatrix, stride: u32, before: Seq<u8>, after: Seq<u8>) -> bool;

/// Calls `yuv::p410_to_rgba` in its `Balanced` mode: P410 samples to RGBA.
///
/// Claimed of it: it succeeds exactly when both planes and the destination hold the image, it
/// writes nothing when it fails, and it keeps the destination's length. Which bytes it writes
/// depends on the vector unit that it finds, so a success is only tied to the arguments by
/// `p410_to_rgba_pixels`.
#[verifier::external_body]
pub(crate) fn p410_to_rgba(
    y_plane: &[u16],
    y_stride: u32,
    uv_plane: &[u16],
    uv_stride: u32,
    width: u32,
    height: u32,
    dst: &mut [u8],
    stride: u32,
    range: YuvRange,
    matrix: YuvStandardMatrix,
) -> (r: Result<(), yuv::YuvError>)
    requires
        2 * width <= u32::MAX,
        stride * height <= isize::MAX,
    ensures
        r is Ok <==> (bi_planar_fits(bi_planar(y_plane@, y_stride, uv_plane@, uv_stride, width, height), YuvSubsampling::S444)
            && plane_fits(old(dst)@.len(), stride, width * 4, height as int)),
        r is Err ==> final(dst)@ == old(dst)@,
        final(dst)@.len() == old(dst)@.len(),
        r is Ok ==> p410_to_rgba_pixels(bi_planar(y_plane@, y_stride, uv_plane@, uv_stride, width, height), range, matrix, stride, old(dst)@, final(dst)@),
{
    let range = match range {
        YuvRange::Limited => yuv::YuvRange::Limited,
        YuvRange::Full => yuv::YuvRange::Full,
    };
    let matrix = match matrix {
        YuvStandardMatrix::Bt601 => Std::Bt601,
        YuvStandardMatrix::Bt709 => Std::Bt709,
        YuvStandardMatrix::Bt2020 => Std::Bt2020,
        YuvStandardMatrix::Smpte240 => Std::Smpte240,
        YuvStandardMatrix::Fcc => Std::Fcc,
    };
    let image = yuv::YuvBiPlanarImage { y_plane, y_stride, uv_plane, uv_stride, width, height };
    yuv::p410_to_rgba(&image, dst, stride, range, matrix, yuv::YuvConversionMode::Balanced)
}

/// The outcomes of `yuv::p410_to_bgr`: `after` is a destination that the call may leave where it found
/// `before`.
pub uninterp spec fn p410_to_bgr_pixels(image: BiPlanar<u16>, range: YuvRange, matrix: YuvStandardMatrix, stride: u32, before: Seq<u8>, after: Seq<u8>) -> bool;

/// Calls `yuv::p410_to_bgr` in its `Balanced` mode: P410 samples to BGR.
///
/// Claimed of it: it succeeds exactly when both planes and the destination hold the image, it
/// writes nothing when it fails, and it keeps the destination's length. Which bytes it writes
/// depends on the vector unit that it finds, so a success is only tied to the arguments by
/// `p410_to_bgr_pixels`.
#[verifier::external_body]
pub(crate) fn p410_to_bgr(
    y_plane: &[u16],
    y_stride: u32,
    uv_plane: &[u16],
    uv_stride: u32,
    width: u32,
    height: u32,
    dst: &mut [u8],
    stride: u32,
    range: YuvRange,
    matrix: YuvStandardMatrix,
) -> (r: Result<(), yuv::YuvError>)
    requires
        2 * width <= u32::MAX,
        stride * height <= isize::MAX,
    ensures
        r is Ok <==> (bi_planar_fits(bi_planar(y_plane@, y_stride, uv_plane@, uv_stride, width, height), YuvSubsampling::S444)
            && plane_fits(old(dst)@.len(), stride, width * 3, height as int)),
        r is Err ==> final(dst)@ == old(dst)@,
        final(dst)@.len() == old(dst)@.len(),
        r is Ok ==> p410_to_bgr_pixels(bi_planar(y_plane@, y_stride, uv_plane@, uv_stride, width, height), range, matrix, stride, old(dst)@, final(dst)@),
{
    let range = match range {
        YuvRange::Limited => yuv::YuvRange::Limited,
        YuvRange::Full => yuv::YuvRange::Full,
    };
    let matrix = match matrix {
        YuvStandardMatrix::Bt601 => Std::Bt601,
        YuvStandardMatrix::Bt709 => Std::Bt709,
        YuvStandardMatrix::Bt2020 => Std::Bt2020,
        YuvStandardMatrix::Smpte240 => Std::Smpte240,
        YuvStandardMatrix::Fcc => Std::Fcc,
    };
    let image = yuv::YuvBiPlanarImage { y_plane, y_stride, uv_plane, uv_stride, width, height };
    yuv::p410_to_bgr(&image, dst, stride, range, matrix, yuv::YuvConversionMode::Balanced)
}

/// The outcomes of `yuv::p410_to_bgra`: `after` is a destination that the call may leave where it found
/// `before`.
pub uninterp spec fn p410_to_bgra_pixels(image: BiPlanar<u16>, range: YuvRange, matrix: YuvStandardMatrix, stride: u32, before: Seq<u8>, after: Seq<u8>) -> bool;

/// Calls `yuv::p410_to_bgra` in its `Balanced` mode: P410 samples to BGRA.
///
/// Claimed of it: it succeeds exactly when both planes and the destination hold the image, it
/// writes nothing when it fails, and it keeps the destination's length. Which bytes it writes
/// depends on the vector unit that it finds, so a success is only tied to the arguments by
/// `p410_to_bgra_pixels`.
#[verifier::external_body]
pub(crate) fn p410_to_bgra(
    y_plane: &[u16],
    y_stride: u32,
    uv_plane: &[u16],
    uv_stride: u32,
    width: u32,
    height: u32,
    dst: &mut [u8],
    stride: u32,
    range: YuvRange,
    matrix: YuvStandardMatrix,
) -> (r: Result<(), yuv::YuvError>)
    requires
        2 * width <= u32::MAX,
        stride * height <= isize::MAX,
    ensures
        r is Ok <==> (bi_planar_fits(bi_planar(y_plane@, y_stride, uv_plane@, uv_stride, width, height), YuvSubsampling::S444)
            && plane_fits(old(dst)@.len(), stride, width * 4, height as int)),
        r is Err ==> final(dst)@ == old(dst)@,
        final(dst)@.len() == old(dst)@.len(),
        r is Ok ==> p410_to_bgra_pixels(bi_planar(y_plane@, y_stride, uv_plane@, uv_stride, width, height), range, matrix, stride, old(dst)@, final(dst)@),
{
    let range = match range {
        YuvRange::Limited => yuv::YuvRange::Limited,
        YuvRange::Full => yuv::YuvRange::Full,
    };
    let matrix = match matrix {
        YuvStandardMatrix::Bt601 => Std::Bt601,
        YuvStandardMatrix::Bt709 => Std::Bt709,
        YuvStandardMatrix::Bt2020 => Std::Bt2020,
        YuvStandardMatrix::Smpte240 => Std::Smpte240,
        YuvStandardMatrix::Fcc => Std::Fcc,
    };
    let image = yuv::YuvBiPlanarImage { y_plane, y_stride, uv_plane, uv_stride, width, height };
    yuv::p410_to_bgra(&image, dst, stride, range, matrix, yuv::YuvConversionMode::Balanced)
}

/// What an 8-bit semi-planar image becomes, for each chroma layout and pixel layout.
pub open spec fn semiplanar_pixels(
    subsampling: YuvSubsampling,
    uv_order: UvOrder,
    rgb_format: RgbFormat,
    image: BiPlanar<u8>,
    range: YuvRange,
    matrix: YuvStandardMatrix,
    stride: u32,
    before: Seq<u8>,
    after: Seq<u8>,
) -> bool {
    match (subsampling, uv_order, rgb_format) {
        (YuvSubsampling::S420, UvOrder::Uv, RgbFormat::Rgb) => yuv_nv12_to_rgb_pixels(image, range, matrix, stride, before, after),
        (YuvSubsampling::S420, UvOrder::Uv, RgbFormat::Rgba) => yuv_nv12_to_rgba_pixels(image, range, matrix, stride, before, after),
        (YuvSubsampling::S420, UvOrder::Uv, RgbFormat::Bgr) => yuv_nv12_to_bgr_pixels(image, range, matrix, stride, before, after),
        (YuvSubsampling::S420, UvOrder::Uv, RgbFormat::Bgra) => yuv_nv12_to_bgra_pixels(image, range, matrix, stride, before, after),
        (YuvSubsampling::S420, UvOrder::Vu, RgbFormat::Rgb) => yuv_nv21_to_rgb_pixels(image, range, matrix, stride, before, after),
        (YuvSubsampling::S420, UvOrder::Vu, RgbFormat::Rgba) => yuv_nv21_to_rgba_pixels(image, range, matrix, stride, before, after),
        (YuvSubsampling::S420, UvOrder::Vu, RgbFormat::Bgr) => yuv_nv21_to_bgr_pixels(image, range, matrix, stride, before, after),
        (YuvSubsampling::S420, UvOrder::Vu, RgbFormat::Bgra) => yuv_nv21_to_bgra_pixels(image, range, matrix, stride, before, after),
        (YuvSubsampling::S422, UvOrder::Uv, RgbFormat::Rgb) => yuv_nv16_to_rgb_pixels(image, range, matrix, stride, before, after),
        (YuvSubsampling::S422, UvOrder::Uv, RgbFormat::Rgba) => yuv_nv16_to_rgba_pixels(image, range, matrix, stride, before, after),
        (YuvSubsampling::S422, UvOrder::Uv, RgbFormat::Bgr) => yuv_nv16_to_bgr_pixels(image, range, matrix, stride, before, after),
        (YuvSubsampling::S422, UvOrder::Uv, RgbFormat::Bgra) => yuv_nv16_to_bgra_pixels(image, range, matrix, stride, before, after),
        (YuvSubsampling::S422, UvOrder::Vu, RgbFormat::Rgb) => yuv_nv61_to_rgb_pixels(image, range, matrix, stride, before, after),
        (YuvSubsampling::S422, UvOrder::Vu, RgbFormat::Rgba) => yuv_nv61_to_rgba_pixels(image, range, matrix, stride, before, after),
        (YuvSubsampling::S422, UvOrder::Vu, RgbFormat::Bgr) => yuv_nv61_to_bgr_pixels(image, range, matrix, stride, before, after),
        (YuvSubsampling::S422, UvOrder::Vu, RgbFormat::Bgra) => yuv_nv61_to_bgra_pixels(image, range, matrix, stride, before, after),
        (YuvSubsampling::S444, UvOrder::Uv, RgbFormat::Rgb) => yuv_nv24_to_rgb_pixels(image, range, matrix, stride, before, after),
        (YuvSubsampling::S444, UvOrder::Uv, RgbFormat::Rgba) => yuv_nv24_to_rgba_pixels(image, range, matrix, stride, before, after),
        (YuvSubsampling::S444, UvOrder::Uv, RgbFormat::Bgr) => yuv_nv24_to_bgr_pixels(image, range, matrix, stride, before, after),
        (YuvSubsampling::S444, UvOrder::Uv, RgbFormat::Bgra) => yuv_nv24_to_bgra_pixels(image, range, matrix, stride, before, after),
        _ => false,
    }
}

/// What a 10-bit semi-planar image becomes, for each chroma layout and pixel layout.
pub open spec fn semiplanar_pixels_10bit(
    subsampling: YuvSubsampling,
    uv_order: UvOrder,
    rgb_format: RgbFormat,
    image: BiPlanar<u16>,
    range: YuvRange,
    matrix: YuvStandardMatrix,
    stride: u32,
    before: Seq<u8>,
    after: Seq<u8>,
) -> bool {
    match (subsampling, uv_order, rgb_format) {
        (YuvSubsampling::S420, UvOrder::Uv, RgbFormat::Rgb) => p010_to_rgb_pixels(image, range, matrix, stride, before, after),
        (YuvSubsampling::S420, UvOrder::Uv, RgbFormat::Rgba) => p010_to_rgba_pixels(image, range, matrix, stride, before, after),
        (YuvSubsampling::S420, UvOrder::Uv, RgbFormat::Bgr) => p010_to_bgr_pixels(image, range, matrix, stride, before, after),
        (YuvSubsampling::S420, UvOrder::Uv, RgbFormat::Bgra) => p010_to_bgra_pixels(image, range, matrix, stride, before, after),
        (YuvSubsampling::S422, UvOrder::Uv, RgbFormat::Rgb) => p210_to_rgb_pixels(image, range, matrix, stride, before, after),
        (YuvSubsampling::S422, UvOrder::Uv, RgbFormat::Rgba) => p210_to_rgba_pixels(image, range, matrix, stride, before, after),
        (YuvSubsampling::S422, UvOrder::Uv, RgbFormat::Bgr) => p210_to_bgr_pixels(image, range, matrix, stride, before, after),
        (YuvSubsampling::S422, UvOrder::Uv, RgbFormat::Bgra) => p210_to_bgra_pixels(image, range, matrix, stride, before, after),
        (YuvSubsampling::S444, UvOrder::Uv, RgbFormat::Rgb) => p410_to_rgb_pixels(image, range, matrix, stride, before, after),
        (YuvSubsampling::S444, UvOrder::Uv, RgbFormat::Rgba) => p410_to_rgba_pixels(image, range, matrix, stride, before, after),
        (YuvSubsampling::S444, UvOrder::Uv, RgbFormat::Bgr) => p410_to_bgr_pixels(image, range, matrix, stride, before, after),
        (YuvSubsampling::S444, UvOrder::Uv, RgbFormat::Bgra) => p410_to_bgra_pixels(image, range, matrix, stride, before, after),
        _ => false,
    }
}

/// Turns an 8-bit semi-planar image into pixels; none where no function does.
pub(crate) fn decode_semiplanar(
    subsampling: YuvSubsampling,
    uv_order: UvOrder,
    rgb_format: RgbFormat,
    y_plane: &[u8],
    y_stride: u32,
    uv_plane: &[u8],
    uv_stride: u32,
    width: u32,
    height: u32,
    dst: &mut [u8],
    stride: u32,
    range: YuvRange,
    matrix: YuvStandardMatrix,
) -> (r: Option<Result<(), yuv::YuvError>>)
    requires
        2 * width <= u32::MAX,
        stride * height <= isize::MAX,
        subsampling == YuvSubsampling::S420 ==> bi_planar_odd_row(
            bi_planar(y_plane@, y_stride, uv_plane@, uv_stride, width, height),
            old(dst)@.len(),
            stride,
            rgb_format.bytes(),
        ),
    ensures
        r is Some <==> chroma_order_known(subsampling, uv_order),
        r is Some ==> (r->0 is Ok <==> (bi_planar_fits(
            bi_planar(y_plane@, y_stride, uv_plane@, uv_stride, width, height),
            subsampling,
        ) && plane_fits(old(dst)@.len(), stride, width * rgb_format.bytes(), height as int))),
        r is None || r->0 is Err ==> final(dst)@ == old(dst)@,
        final(dst)@.len() == old(dst)@.len(),
        r is Some && r->0 is Ok ==> semiplanar_pixels(
            subsampling,
            uv_order,
            rgb_format,
            bi_planar(y_plane@, y_stride, uv_plane@, uv_stride, width, height),
            range,
            matrix,
            stride,
            old(dst)@,
            final(dst)@,
        ),
{
    let converted = match (subsampling, uv_order, rgb_format) {
        (YuvSubsampling::S420, UvOrder::Uv, RgbFormat::Rgb) => yuv_nv12_to_rgb(
            y_plane, y_stride, uv_plane, uv_stride, width, height, dst, stride, range, matrix),
        (YuvSubsampling::S420, UvOrder::Uv, RgbFormat::Rgba) => yuv_nv12_to_rgba(
            y_plane, y_stride, uv_plane, uv_stride, width, height, dst, stride, range, matrix),
        (YuvSubsampling::S420, UvOrder::Uv, RgbFormat::Bgr) => yuv_nv12_to_bgr(
            y_plane, y_stride, uv_plane, uv_stride, width, height, dst, stride, range, matrix),
        (YuvSubsampling::S420, UvOrder::Uv, RgbFormat::Bgra) => yuv_nv12_to_bgra(
            y_plane, y_stride, uv_plane, uv_stride, width, height, dst, stride, range, matrix),
        (YuvSubsampling::S420, UvOrder::Vu, RgbFormat::Rgb) => yuv_nv21_to_rgb(
            y_plane, y_stride, uv_plane, uv_stride, width, height, dst, stride, range, matrix),
        (YuvSubsampling::S420, UvOrder::Vu, RgbFormat::Rgba) => yuv_nv21_to_rgba(
            y_plane, y_stride, uv_plane, uv_stride, width, height, dst, stride, range, matrix),
        (YuvSubsampling::S420, UvOrder::Vu, RgbFormat::Bgr) => yuv_nv21_to_bgr(
            y_plane, y_stride, uv_plane, uv_stride, width, height, dst, stride, range, matrix),
        (YuvSubsampling::S420, UvOrder::Vu, RgbFormat::Bgra) => yuv_nv21_to_bgra(
            y_plane, y_stride, uv_plane, uv_stride, width, height, dst, stride, range, matrix),
        (YuvSubsampling::S422, UvOrder::Uv, RgbFormat::Rgb) => yuv_nv16_to_rgb(
            y_plane, y_stride, uv_plane, uv_stride, width, height, dst, stride, range, matrix),
        (YuvSubsampling::S422, UvOrder::Uv, RgbFormat::Rgba) => yuv_nv16_to_rgba(
            y_plane, y_stride, uv_plane, uv_stride, width, height, dst, stride, range, matrix),
        (YuvSubsampling::S422, UvOrder::Uv, RgbFormat::Bgr) => yuv_nv16_to_bgr(
            y_plane, y_stride, uv_plane, uv_stride, width, height, dst, stride, range, matrix),
        (YuvSubsampling::S422, UvOrder::Uv, RgbFormat::Bgra) => yuv_nv16_to_bgra(
            y_plane, y_stride, uv_plane, uv_stride, width, height, dst, stride, range, matrix),
        (YuvSubsampling::S422, UvOrder::Vu, RgbFormat::Rgb) => yuv_nv61_to_rgb(
            y_plane, y_stride, uv_plane, uv_stride, width, height, dst, stride, range, matrix),
        (YuvSubsampling::S422, UvOrder::Vu, RgbFormat::Rgba) => yuv_nv61_to_rgba(
            y_plane, y_stride, uv_plane, uv_stride, width, height, dst, stride, range, matrix),
        (YuvSubsampling::S422, UvOrder::Vu, RgbFormat::Bgr) => yuv_nv61_to_bgr(
            y_plane, y_stride, uv_plane, uv_stride, width, height, dst, stride, range, matrix),
        (YuvSubsampling::S422, UvOrder::Vu, RgbFormat::Bgra) => yuv_nv61_to_bgra(
            y_plane, y_stride, uv_plane, uv_stride, width, height, dst, stride, range, matrix),
        (YuvSubsampling::S444, UvOrder::Uv, RgbFormat::Rgb) => yuv_nv24_to_rgb(
            y_plane, y_stride, uv_plane, uv_stride, width, height, dst, stride, range, matrix),
        (YuvSubsampling::S444, UvOrder::Uv, RgbFormat::Rgba) => yuv_nv24_to_rgba(
            y_plane, y_stride, uv_plane, uv_stride, width, height, dst, stride, range, matrix),
        (YuvSubsampling::S444, UvOrder::Uv, RgbFormat::Bgr) => yuv_nv24_to_bgr(
            y_plane, y_stride, uv_plane, uv_stride, width, height, dst, stride, range, matrix),
        (YuvSubsampling::S444, UvOrder::Uv, RgbFormat::Bgra) => yuv_nv24_to_bgra(
            y_plane, y_stride, uv_plane, uv_stride, width, height, dst, stride, range, matrix),
        _ => return None,
    };
    Some(converted)
}

/// Turns a 10-bit semi-planar image into pixels; none where no function does.
pub(crate) fn decode_semiplanar_10bit(
    subsampling: YuvSubsampling,
    uv_order: UvOrder,
    rgb_format: RgbFormat,
    y_plane: &[u16],
    y_stride: u32,
    uv_plane: &[u16],
    uv_stride: u32,
    width: u32,
    height: u32,
    dst: &mut [u8],
    stride: u32,
    range: YuvRange,
    matrix: YuvStandardMatrix,
) -> (r: Option<Result<(), yuv::YuvError>>)
    requires
        2 * width <= u32::MAX,
        stride * height <= isize::MAX,
        subsampling == YuvSubsampling::S420 ==> bi_planar_odd_row(
            bi_planar(y_plane@, y_stride, uv_plane@, uv_stride, width, height),
            old(dst)@.len(),
            stride,
            rgb_format.bytes(),
        ),
    ensures
        r is Some <==> (subsampling != YuvSubsampling::S400 && uv_order == UvOrder::Uv),
        r is Some ==> (r->0 is Ok <==> (bi_planar_fits(
            bi_planar(y_plane@, y_stride, uv_plane@, uv_stride, width, height),
            subsampling,
        ) && plane_fits(old(dst)@.len(), stride, width * rgb_format.bytes(), height as int))),
        r is None || r->0 is Err ==> final(dst)@ == old(dst)@,
        final(dst)@.len() == old(dst)@.len(),
        r is Some && r->0 is Ok ==> semiplanar_pixels_10bit(
            subsampling,
            uv_order,
            rgb_format,
            bi_planar(y_plane@, y_stride, uv_plane@, uv_stride, width, height),
            range,
            matrix,
            stride,
            old(dst)@,
            final(dst)@,
        ),
{
    let converted = match (subsampling, uv_order, rgb_format) {
        (YuvSubsampling::S420, UvOrder::Uv, RgbFormat::Rgb) => p010_to_rgb(
            y_plane, y_stride, uv_plane, uv_stride, width, height, dst, stride, range, matrix),
        (YuvSubsampling::S420, UvOrder::Uv, RgbFormat::Rgba) => p010_to_rgba(
            y_plane, y_stride, uv_plane, uv_stride, width, height, dst, stride, range, matrix),
        (YuvSubsampling::S420, UvOrder::Uv, RgbFormat::Bgr) => p010_to_bgr(
            y_plane, y_stride, uv_plane, uv_stride, width, height, dst, stride, range, matrix),
        (YuvSubsampling::S420, UvOrder::Uv, RgbFormat::Bgra) => p010_to_bgra(
            y_plane, y_stride, uv_plane, uv_stride, width, height, dst, stride, range, matrix),
        (YuvSubsampling::S422, UvOrder::Uv, RgbFormat::Rgb) => p210_to_rgb(
            y_plane, y_stride, uv_plane, uv_stride, width, height, dst, stride, range, matrix),
        (YuvSubsampling::S422, UvOrder::Uv, RgbFormat::Rgba) => p210_to_rgba(
            y_plane, y_stride, uv_plane, uv_stride, width, height, dst, stride, range, matrix),
        (YuvSubsampling::S422, UvOrder::Uv, RgbFormat::Bgr) => p210_to_bgr(
            y_plane, y_stride, uv_plane, uv_stride, width, height, dst, stride, range, matrix),
        (YuvSubsampling::S422, UvOrder::Uv, RgbFormat::Bgra) => p210_to_bgra(
            y_plane, y_stride, uv_plane, uv_stride, width, height, dst, stride, range, matrix),
        (YuvSubsampling::S444, UvOrder::Uv, RgbFormat::Rgb) => p410_to_rgb(
            y_plane, y_stride, uv_plane, uv_stride, width, height, dst, stride, range, matrix),
        (YuvSubsampling::S444, UvOrder::Uv, RgbFormat::Rgba) => p410_to_rgba(
            y_plane, y_stride, uv_plane, uv_stride, width, height, dst, stride, range, matrix),
        (YuvSubsampling::S444, UvOrder::Uv, RgbFormat::Bgr) => p410_to_bgr(
            y_plane, y_stride, uv_plane, uv_stride, width, height, dst, stride, range, matrix),
        (YuvSubsampling::S444, UvOrder::Uv, RgbFormat::Bgra) => p410_to_bgra(
            y_plane, y_stride, uv_plane, uv_stride, width, height, dst, stride, range, matrix),
        _ => return None,
    };
    Some(converted)
}

} // verus!
