//! From packed RGB to semi-planar YUV: one item for each function of the `yuv` crate, and what
//! each combination of pixel layout and chroma layout selects among them.

use super::{bi_planar, bi_planar_fits, bi_planar_odd_row, chroma_order_known, plane_fits, BiPlanar};
use super::{RgbFormat, UvOrder, YuvRange, YuvStandardMatrix, YuvSubsampling};
use vstd::prelude::*;
use yuv::BufferStoreMut as Store;
use yuv::YuvStandardMatrix as Std;

verus! {

/// The outcomes of `yuv::rgb_to_yuv_nv12`: `after` is an image that the call may leave where it found
/// `before`.
pub uninterp spec fn rgb_to_yuv_nv12_planes(src: Seq<u8>, stride: u32, range: YuvRange, matrix: YuvStandardMatrix, before: BiPlanar<u8>, after: BiPlanar<u8>) -> bool;

/// Calls `yuv::rgb_to_yuv_nv12` in its `Balanced` mode: RGB to NV12.
///
/// Claimed of it: it succeeds exactly when the source and both planes hold the image, it writes
/// nothing when it fails, and it keeps the planes' lengths. Which bytes it writes depends on the
/// vector unit that it finds, so a success is only tied to the arguments by `rgb_to_yuv_nv12_planes`.
#[verifier::external_body]
pub(crate) fn rgb_to_yuv_nv12(
    y_plane: &mut [u8],
    y_stride: u32,
    uv_plane: &mut [u8],
    uv_stride: u32,
    width: u32,
    height: u32,
    src: &[u8],
    stride: u32,
    range: YuvRange,
    matrix: YuvStandardMatrix,
) -> (r: Result<(), yuv::YuvError>)
    requires
        2 * width <= u32::MAX,
        stride * height <= isize::MAX,
        bi_planar_odd_row(bi_planar(old(y_plane)@, y_stride, old(uv_plane)@, uv_stride, width, height), src@.len(), stride, 3),
    ensures
        r is Ok <==> (bi_planar_fits(bi_planar(old(y_plane)@, y_stride, old(uv_plane)@, uv_stride, width, height), YuvSubsampling::S420)
            && plane_fits(src@.len(), stride, width * 3, height as int)),
        r is Err ==> final(y_plane)@ == old(y_plane)@ && final(uv_plane)@ == old(uv_plane)@,
        final(y_plane)@.len() == old(y_plane)@.len(),
        final(uv_plane)@.len() == old(uv_plane)@.len(),
        r is Ok ==> rgb_to_yuv_nv12_planes(src@, stride, range, matrix, bi_planar(old(y_plane)@, y_stride, old(uv_plane)@, uv_stride, width, height), bi_planar(final(y_plane)@, y_stride, final(uv_plane)@, uv_stride, width, height)),
{
    let range = match range {
        YuvRange::Limited => yuv::YuvRange::Limited,
        YuvRange::Full => yuv::YuvRange::Full,
    };
    let matrix = match matrix {
        YuvStandardMatrix::Bt601 => Std::Bt601,
        YuvStandardMatrix::Bt709 => Std::Bt709,
        YuvStandardMatrix::Bt2020 => Std::Bt2020,
        YuvStandardMatrix::Smpte240 => Std::Smpte240,
        YuvStandardMatrix::Fcc => Std::Fcc,
    };
    let (y_plane, uv_plane) = (Store::Borrowed(y_plane), Store::Borrowed(uv_plane));
    let mut image = yuv::YuvBiPlanarImageMut { y_plane, y_stride, uv_plane, uv_stride, width, height };
    yuv::rgb_to_yuv_nv12(&mut image, src, stride, range, matrix, yuv::YuvConversionMode::Balanced)
}

/// The outcomes of `yuv::rgb_to_yuv_nv21`: `after` is an image that the call may leave where it found
/// `before`.
pub uninterp spec fn rgb_to_yuv_nv21_planes(src: Seq<u8>, stride: u32, range: YuvRange, matrix: YuvStandardMatrix, before: BiPlanar<u8>, after: BiPlanar<u8>) -> bool;

/// Calls `yuv::rgb_to_yuv_nv21` in its `Balanced` mode: RGB to NV21.
///
/// Claimed of it: it succeeds exactly when the source and both planes hold the image, it writes
/// nothing when it fails, and it keeps the planes' lengths. Which bytes it writes depends on the
/// vector unit that it finds, so a success is only tied to the arguments by `rgb_to_yuv_nv21_planes`.
#[verifier::external_body]
pub(crate) fn rgb_to_yuv_nv21(
    y_plane: &mut [u8],
    y_stride: u32,
    uv_plane: &mut [u8],
    uv_stride: u32,
    width: u32,
    height: u32,
    src: &[u8],
    stride: u32,
    range: YuvRange,
    matrix: YuvStandardMatrix,
) -> (r: Result<(), yuv::YuvError>)
    requires
        2 * width <= u32::MAX,
        stride * height <= isize::MAX,
        bi_planar_odd_row(bi_planar(old(y_plane)@, y_stride, old(uv_plane)@, uv_stride, width, height), src@.len(), stride, 3),
    ensures
        r is Ok <==> (bi_planar_fits(bi_planar(old(y_plane)@, y_stride, old(uv_plane)@, uv_stride, width, height), YuvSubsampling::S420)
            && plane_fits(src@.len(), stride, width * 3, height as int)),
        r is Err ==> final(y_plane)@ == old(y_plane)@ && final(uv_plane)@ == old(uv_plane)@,
        final(y_plane)@.len() == old(y_plane)@.len(),
        final(uv_plane)@.len() == old(uv_plane)@.len(),
        r is Ok ==> rgb_to_yuv_nv21_planes(src@, stride, range, matrix, bi_planar(old(y_plane)@, y_stride, old(uv_plane)@, uv_stride, width, height), bi_planar(final(y_plane)@, y_stride, final(uv_plane)@, uv_stride, width, height)),
{
    let range = match range {
        YuvRange::Limited => yuv::YuvRange::Limited,
        YuvRange::Full => yuv::YuvRange::Full,
    };
    let matrix = match matrix {
        YuvStandardMatrix::Bt601 => Std::Bt601,
        YuvStandardMatrix::Bt709 => Std::Bt709,
        YuvStandardMatrix::Bt2020 => Std::Bt2020,
        YuvStandardMatrix::Smpte240 => Std::Smpte240,
        YuvStandardMatrix::Fcc => Std::Fcc,
    };
    let (y_plane, uv_plane) = (Store::Borrowed(y_plane), Store::Borrowed(uv_plane));
    let mut image = yuv::YuvBiPlanarImageMut { y_plane, y_stride, uv_plane, uv_stride, width, height };
    yuv::rgb_to_yuv_nv21(&mut image, src, stride, range, matrix, yuv::YuvConversionMode::Balanced)
}

/// The outcomes of `yuv::rgb_to_yuv_nv16`: `after` is an image that the call may leave where it found
/// `before`.
pub uninterp spec fn rgb_to_yuv_nv16_planes(src: Seq<u8>, stride: u32, range: YuvRange, matrix: YuvStandardMatrix, before: BiPlanar<u8>, after: BiPlanar<u8>) -> bool;

/// Calls `yuv::rgb_to_yuv_nv16` in its `Balanced` mode: RGB to NV16.
///
/// Claimed of it: it succeeds exactly when the source and both planes hold the image, it writes
/// nothing when it fails, and it keeps the planes' lengths. Which bytes it writes depends on the
/// vector unit that it finds, so a success is only tied to the arguments by `rgb_to_yuv_nv16_planes`.
#[verifier::external_body]
pub(crate) fn rgb_to_yuv_nv16(
    y_plane: &mut [u8],
    y_stride: u32,
    uv_plane: &mut [u8],
    uv_stride: u32,
    width: u32,
    height: u32,
    src: &[u8],
    stride: u32,
    range: YuvRange,
    matrix: YuvStandardMatrix,
) -> (r: Result<(), yuv::YuvError>)
    requires
        2 * width <= u32::MAX,
        stride * height <= isize::MAX,
    ensures
        r is Ok <==> (bi_planar_fits(bi_planar(old(y_plane)@, y_stride, old(uv_plane)@, uv_stride, width, height), YuvSubsampling::S422)
            && plane_fits(src@.len(), stride, width * 3, height as int)),
        r is Err ==> final(y_plane)@ == old(y_plane)@ && final(uv_plane)@ == old(uv_plane)@,
        final(y_plane)@.len() == old(y_plane)@.len(),
        final(uv_plane)@.len() == old(uv_plane)@.len(),
        r is Ok ==> rgb_to_yuv_nv16_planes(src@, stride, range, matrix, bi_planar(old(y_plane)@, y_stride, old(uv_plane)@, uv_stride, width, height), bi_planar(final(y_plane)@, y_stride, final(uv_plane)@, uv_stride, width, height)),
{
    let range = match range {
        YuvRange::Limited => yuv::YuvRange::Limited,
        YuvRange::Full => yuv::YuvRange::Full,
    };
    let matrix = match matrix {
        YuvStandardMatrix::Bt601 => Std::Bt601,
        YuvStandardMatrix::Bt709 => Std::Bt709,
        YuvStandardMatrix::Bt2020 => Std::Bt2020,
        YuvStandardMatrix::Smpte240 => Std::Smpte240,
        YuvStandardMatrix::Fcc => Std::Fcc,
    };
    let (y_plane, uv_plane) = (Store::Borrowed(y_plane), Store::Borrowed(uv_plane));
    let mut image = yuv::YuvBiPlanarImageMut { y_plane, y_stride, uv_plane, uv_stride, width, height };
    yuv::rgb_to_yuv_nv16(&mut image, src, stride, range, matrix, yuv::YuvConversionMode::Balanced)
}

/// The outcomes of `yuv::rgb_to_yuv_nv61`: `after` is an image that the call may leave where it found
/// `before`.
pub uninterp spec fn rgb_to_yuv_nv61_planes(src: Seq<u8>, stride: u32, range: YuvRange, matrix: YuvStandardMatrix, before: BiPlanar<u8>, after: BiPlanar<u8>) -> bool;

/// Calls `yuv::rgb_to_yuv_nv61` in its `Balanced` mode: RGB to NV61.
///
/// Claimed of it: it succeeds exactly when the source and both planes hold the image, it writes
/// nothing when it fails, and it keeps the planes' lengths. Which bytes it writes depends on the
/// vector unit that it finds, so a success is only tied to the arguments by `rgb_to_yuv_nv61_planes`.
#[verifier::external_body]
pub(crate) fn rgb_to_yuv_nv61(
    y_plane: &mut [u8],
    y_stride: u32,
    uv_plane: &mut [u8],
    uv_stride: u32,
    width: u32,
    height: u32,
    src: &[u8],
    stride: u32,
    range: YuvRange,
    matrix: YuvStandardMatrix,
) -> (r: Result<(), yuv::YuvError>)
    requires
        2 * width <= u32::MAX,
        stride * height <= isize::MAX,
    ensures
        r is Ok <==> (bi_planar_fits(bi_planar(old(y_plane)@, y_stride, old(uv_plane)@, uv_stride, width, height), YuvSubsampling::S422)
            && plane_fits(src@.len(), stride, width * 3, height as int)),
        r is Err ==> final(y_plane)@ == old(y_plane)@ && final(uv_plane)@ == old(uv_plane)@,
        final(y_plane)@.len() == old(y_plane)@.len(),
        final(uv_plane)@.len() == old(uv_plane)@.len(),
        r is Ok ==> rgb_to_yuv_nv61_planes(src@, stride, range, matrix, bi_planar(old(y_plane)@, y_stride, old(uv_plane)@, uv_stride, width, height), bi_planar(final(y_plane)@, y_stride, final(uv_plane)@, uv_stride, width, height)),
{
    let range = match range {
        YuvRange::Limited => yuv::YuvRange::Limited,
        YuvRange::Full => yuv::YuvRange::Full,
    };
    let matrix = match matrix {
        YuvStandardMatrix::Bt601 => Std::Bt601,
        YuvStandardMatrix::Bt709 => Std::Bt709,
        YuvStandardMatrix::Bt2020 => Std::Bt2020,
        YuvStandardMatrix::Smpte240 => Std::Smpte240,
        YuvStandardMatrix::Fcc => Std::Fcc,
    };
    let (y_plane, uv_plane) = (Store::Borrowed(y_plane), Store::Borrowed(uv_plane));
    let mut image = yuv::YuvBiPlanarImageMut { y_plane, y_stride, uv_plane, uv_stride, width, height };
    yuv::rgb_to_yuv_nv61(&mut image, src, stride, range, matrix, yuv::YuvConversionMode::Balanced)
}

/// The outcomes of `yuv::rgb_to_yuv_nv24`: `after` is an image that the call may leave where it found
/// `before`.
pub uninterp spec fn rgb_to_yuv_nv24_planes(src: Seq<u8>, stride: u32, range: YuvRange, matrix: YuvStandardMatrix, before: BiPlanar<u8>, after: BiPlanar<u8>) -> bool;

/// Calls `yuv::rgb_to_yuv_nv24` in its `Balanced` mode: RGB to NV24.
///
/// Claimed of it: it succeeds exactly when the source and both planes hold the image, it writes
/// nothing when it fails, and it keeps the planes' lengths. Which bytes it writes depends on the
/// vector unit that it finds, so a success is only tied to the arguments by `rgb_to_yuv_nv24_planes`.
#[verifier::external_body]
pub(crate) fn rgb_to_yuv_nv24(
    y_plane: &mut [u8],
    y_stride: u32,
    uv_plane: &mut [u8],
    uv_stride: u32,
    width: u32,
    height: u32,
    src: &[u8],
    stride: u32,
    range: YuvRange,
    matrix: YuvStandardMatrix,
) -> (r: Result<(), yuv::YuvError>)
    requires
        2 * width <= u32::MAX,
        stride * height <= isize::MAX,
    ensures
        r is Ok <==> (bi_planar_fits(bi_planar(old(y_plane)@, y_stride, old(uv_plane)@, uv_stride, width, height), YuvSubsampling::S444)
            && plane_fits(src@.len(), stride, width * 3, height as int)),
        r is Err ==> final(y_plane)@ == old(y_plane)@ && final(uv_plane)@ == old(uv_plane)@,
        final(y_plane)@.len() == old(y_plane)@.len(),
        final(uv_plane)@.len() == old(uv_plane)@.len(),
        r is Ok ==> rgb_to_yuv_nv24_planes(src@, stride, range, matrix, bi_planar(old(y_plane)@, y_stride, old(uv_plane)@, uv_stride, width, height), bi_planar(final(y_plane)@, y_stride, final(uv_plane)@, uv_stride, width, height)),
{
    let range = match range {
        YuvRange::Limited => yuv::YuvRange::Limited,
        YuvRange::Full => yuv::YuvRange::Full,
    };
    let matrix = match matrix {
        YuvStandardMatrix::Bt601 => Std::Bt601,
        YuvStandardMatrix::Bt709 => Std::Bt709,
        YuvStandardMatrix::Bt2020 => Std::Bt2020,
        YuvStandardMatrix::Smpte240 => Std::Smpte240,
        YuvStandardMatrix::Fcc => Std::Fcc,
    };
    let (y_plane, uv_plane) = (Store::Borrowed(y_plane), Store::Borrowed(uv_plane));
    let mut image = yuv::YuvBiPlanarImageMut { y_plane, y_stride, uv_plane, uv_stride, width, height };
    yuv::rgb_to_yuv_nv24(&mut image, src, stride, range, matrix, yuv::YuvConversionMode::Balanced)
}

/// The outcomes of `yuv::rgba_to_yuv_nv12`: `after` is an image that the call may leave where it found
/// `before`.
pub uninterp spec fn rgba_to_yuv_nv12_planes(src: Seq<u8>, stride: u32, range: YuvRange, matrix: YuvStandardMatrix, before: BiPlanar<u8>, after: BiPlanar<u8>) -> bool;

/// Calls `yuv::rgba_to_yuv_nv12` in its `Balanced` mode: RGBA to NV12.
///
/// Claimed of it: it succeeds exactly when the source and both planes hold the image, it writes
/// nothing when it fails, and it keeps the planes' lengths. Which bytes it writes depends on the
/// vector unit that it finds, so a success is only tied to the arguments by `rgba_to_yuv_nv12_planes`.
#[verifier::external_body]
pub(crate) fn rgba_to_yuv_nv12(
    y_plane: &mut [u8],
    y_stride: u32,
    uv_plane: &mut [u8],
    uv_stride: u32,
    width: u32,
    height: u32,
    src: &[u8],
    stride: u32,
    range: YuvRange,
    matrix: YuvStandardMatrix,
) -> (r: Result<(), yuv::YuvError>)
    requires
        2 * width <= u32::MAX,
        stride * height <= isize::MAX,
        bi_planar_odd_row(bi_planar(old(y_plane)@, y_stride, old(uv_plane)@, uv_stride, width, height), src@.len(), stride, 4),
    ensures
        r is Ok <==> (bi_planar_fits(bi_planar(old(y_plane)@, y_stride, old(uv_plane)@, uv_stride, width, height), YuvSubsampling::S420)
            && plane_fits(src@.len(), stride, width * 4, height as int)),
        r is Err ==> final(y_plane)@ == old(y_plane)@ && final(uv_plane)@ == old(uv_plane)@,
        final(y_plane)@.len() == old(y_plane)@.len(),
        final(uv_plane)@.len() == old(uv_plane)@.len(),
        r is Ok ==> rgba_to_yuv_nv12_planes(src@, stride, range, matrix, bi_planar(old(y_plane)@, y_stride, old(uv_plane)@, uv_stride, width, height), bi_planar(final(y_plane)@, y_stride, final(uv_plane)@, uv_stride, width, height)),
{
    let range = match range {
        YuvRange::Limited => yuv::YuvRange::Limited,
        YuvRange::Full => yuv::YuvRange::Full,
    };
    let matrix = match matrix {
        YuvStandardMatrix::Bt601 => Std::Bt601,
        YuvStandardMatrix::Bt709 => Std::Bt709,
        YuvStandardMatrix::Bt2020 => Std::Bt2020,
        YuvStandardMatrix::Smpte240 => Std::Smpte240,
        YuvStandardMatrix::Fcc => Std::Fcc,
    };
    let (y_plane, uv_plane) = (Store::Borrowed(y_plane), Store::Borrowed(uv_plane));
    let mut image = yuv::YuvBiPlanarImageMut { y_plane, y_stride, uv_plane, uv_stride, width, height };
    yuv::rgba_to_yuv_nv12(&mut image, src, stride, range, matrix, yuv::YuvConversionMode::Balanced)
}

/// The outcomes of `yuv::rgba_to_yuv_nv21`: `after` is an image that the call may leave where it found
/// `before`.
pub uninterp spec fn rgba_to_yuv_nv21_planes(src: Seq<u8>, stride: u32, range: YuvRange, matrix: YuvStandardMatrix, before: BiPlanar<u8>, after: BiPlanar<u8>) -> bool;

/// Calls `yuv::rgba_to_yuv_nv21` in its `Balanced` mode: RGBA to NV21.
///
/// Claimed of it: it succeeds exactly when the source and both planes hold the image, it writes
/// nothing when it fails, and it keeps the planes' lengths. Which bytes it writes depends on the
/// vector unit that it finds, so a success is only tied to the arguments by `rgba_to_yuv_nv21_planes`.
#[verifier::external_body]
pub(crate) fn rgba_to_yuv_nv21(
    y_plane: &mut [u8],
    y_stride: u32,
    uv_plane: &mut [u8],
    uv_stride: u32,
    width: u32,
    height: u32,
    src: &[u8],
    stride: u32,
    range: YuvRange,
    matrix: YuvStandardMatrix,
) -> (r: Result<(), yuv::YuvError>)
    requires
        2 * width <= u32::MAX,
        stride * height <= isize::MAX,
        bi_planar_odd_row(bi_planar(old(y_plane)@, y_stride, old(uv_plane)@, uv_stride, width, height), src@.len(), stride, 4),
    ensures
        r is Ok <==> (bi_planar_fits(bi_planar(old(y_plane)@, y_stride, old(uv_plane)@, uv_stride, width, height), YuvSubsampling::S420)
            && plane_fits(src@.len(), stride, width * 4, height as int)),
        r is Err ==> final(y_plane)@ == old(y_plane)@ && final(uv_plane)@ == old(uv_plane)@,
        final(y_plane)@.len() == old(y_plane)@.len(),
        final(uv_plane)@.len() == old(uv_plane)@.len(),
        r is Ok ==> rgba_to_yuv_nv21_planes(src@, stride, range, matrix, bi_planar(old(y_plane)@, y_stride, old(uv_plane)@, uv_stride, width, height), bi_planar(final(y_plane)@, y_stride, final(uv_plane)@, uv_stride, width, height)),
{
    let range = match range {
        YuvRange::Limited => yuv::YuvRange::Limited,
        YuvRange::Full => yuv::YuvRange::Full,
    };
    let matrix = match matrix {
        YuvStandardMatrix::Bt601 => Std::Bt601,
        YuvStandardMatrix::Bt709 => Std::Bt709,
        YuvStandardMatrix::Bt2020 => Std::Bt2020,
        YuvStandardMatrix::Smpte240 => Std::Smpte240,
        YuvStandardMatrix::Fcc => Std::Fcc,
    };
    let (y_plane, uv_plane) = (Store::Borrowed(y_plane), Store::Borrowed(uv_plane));
    let mut image = yuv::YuvBiPlanarImageMut { y_plane, y_stride, uv_plane, uv_stride, width, height };
    yuv::rgba_to_yuv_nv21(&mut image, src, stride, range, matrix, yuv::YuvConversionMode::Balanced)
}

/// The outcomes of `yuv::rgba_to_yuv_nv16`: `after` is an image that the call may leave where it found
/// `before`.
pub uninterp spec fn rgba_to_yuv_nv16_planes(src: Seq<u8>, stride: u32, range: YuvRange, matrix: YuvStandardMatrix, before: BiPlanar<u8>, after: BiPlanar<u8>) -> bool;

/// Calls `yuv::rgba_to_yuv_nv16` in its `Balanced` mode: RGBA to NV16.
///
/// Claimed of it: it succeeds exactly when the source and both planes hold the image, it writes
/// nothing when it fails, and it keeps the planes' lengths. Which bytes it writes depends on the
/// vector unit that it finds, so a success is only tied to the arguments by `rgba_to_yuv_nv16_planes`.
#[verifier::external_body]
pub(crate) fn rgba_to_yuv_nv16(
    y_plane: &mut [u8],
    y_stride: u32,
    uv_plane: &mut [u8],
    uv_stride: u32,
    width: u32,
    height: u32,
    src: &[u8],
    stride: u32,
    range: YuvRange,
    matrix: YuvStandardMatrix,
) -> (r: Result<(), yuv::YuvError>)
    requires
        2 * width <= u32::MAX,
        stride * height <= isize::MAX,
    ensures
        r is Ok <==> (bi_planar_fits(bi_planar(old(y_plane)@, y_stride, old(uv_plane)@, uv_stride, width, height), YuvSubsampling::S422)
            && plane_fits(src@.len(), stride, width * 4, height as int)),
        r is Err ==> final(y_plane)@ == old(y_plane)@ && final(uv_plane)@ == old(uv_plane)@,
        final(y_plane)@.len() == old(y_plane)@.len(),
        final(uv_plane)@.len() == old(uv_plane)@.len(),
        r is Ok ==> rgba_to_yuv_nv16_planes(src@, stride, range, matrix, bi_planar(old(y_plane)@, y_stride, old(uv_plane)@, uv_stride, width, height), bi_planar(final(y_plane)@, y_stride, final(uv_plane)@, uv_stride, width, height)),
{
    let range = match range {
        YuvRange::Limited => yuv::YuvRange::Limited,
        YuvRange::Full => yuv::YuvRange::Full,
    };
    let matrix = match matrix {
        YuvStandardMatrix::Bt601 => Std::Bt601,
        YuvStandardMatrix::Bt709 => Std::Bt709,
        YuvStandardMatrix::Bt2020 => Std::Bt2020,
        YuvStandardMatrix::Smpte240 => Std::Smpte240,
        YuvStandardMatrix::Fcc => Std::Fcc,
    };
    let (y_plane, uv_plane) = (Store::Borrowed(y_plane), Store::Borrowed(uv_plane));
    let mut image = yuv::YuvBiPlanarImageMut { y_plane, y_stride, uv_plane, uv_stride, width, height };
    yuv::rgba_to_yuv_nv16(&mut image, src, stride, range, matrix, yuv::YuvConversionMode::Balanced)
}

/// The outcomes of `yuv::rgba_to_yuv_nv61`: `after` is an image that the call may leave where it found
/// `before`.
pub uninterp spec fn rgba_to_yuv_nv61_planes(src: Seq<u8>, stride: u32, range: YuvRange, matrix: YuvStandardMatrix, before: BiPlanar<u8>, after: BiPlanar<u8>) -> bool;

/// Calls `yuv::rgba_to_yuv_nv61` in its `Balanced` mode: RGBA to NV61.
///
/// Claimed of it: it succeeds exactly when the source and both planes hold the image, it writes
/// nothing when it fails, and it keeps the planes' lengths. Which bytes it writes depends on the
/// vector unit that it finds, so a success is only tied to the arguments by `rgba_to_yuv_nv61_planes`.
#[verifier::external_body]
pub(crate) fn rgba_to_yuv_nv61(
    y_plane: &mut [u8],
    y_stride: u32,
    uv_plane: &mut [u8],
    uv_stride: u32,
    width: u32,
    height: u32,
    src: &[u8],
    stride: u32,
    range: YuvRange,
    matrix: YuvStandardMatrix,
) -> (r: Result<(), yuv::YuvError>)
    requires
        2 * width <= u32::MAX,
        stride * height <= isize::MAX,
    ensures
        r is Ok <==> (bi_planar_fits(bi_planar(old(y_plane)@, y_stride, old(uv_plane)@, uv_stride, width, height), YuvSubsampling::S422)
            && plane_fits(src@.len(), stride, width * 4, height as int)),
        r is Err ==> final(y_plane)@ == old(y_plane)@ && final(uv_plane)@ == old(uv_plane)@,
        final(y_plane)@.len() == old(y_plane)@.len(),
        final(uv_plane)@.len() == old(uv_plane)@.len(),
        r is Ok ==> rgba_to_yuv_nv61_planes(src@, stride, range, matrix, bi_planar(old(y_plane)@, y_stride, old(uv_plane)@, uv_stride, width, height), bi_planar(final(y_plane)@, y_stride, final(uv_plane)@, uv_stride, width, height)),
{
    let range = match range {
        YuvRange::Limited => yuv::YuvRange::Limited,
        YuvRange::Full => yuv::YuvRange::Full,
    };
    let matrix = match matrix {
        YuvStandardMatrix::Bt601 => Std::Bt601,
        YuvStandardMatrix::Bt709 => Std::Bt709,
        YuvStandardMatrix::Bt2020 => Std::Bt2020,
        YuvStandardMatrix::Smpte240 => Std::Smpte240,
        YuvStandardMatrix::Fcc => Std::Fcc,
    };
    let (y_plane, uv_plane) = (Store::Borrowed(y_plane), Store::Borrowed(uv_plane));
    let mut image = yuv::YuvBiPlanarImageMut { y_plane, y_stride, uv_plane, uv_stride, width, height };
    yuv::rgba_to_yuv_nv61(&mut image, src, stride, range, matrix, yuv::YuvConversionMode::Balanced)
}

/// The outcomes of `yuv::rgba_to_yuv_nv24`: `after` is an image that the call may leave where it found
/// `before`.
pub uninterp spec fn rgba_to_yuv_nv24_planes(src: Seq<u8>, stride: u32, range: YuvRange, matrix: YuvStandardMatrix, before: BiPlanar<u8>, after: BiPlanar<u8>) -> bool;

/// Calls `yuv::rgba_to_yuv_nv24` in its `Balanced` mode: RGBA to NV24.
///
/// Claimed of it: it succeeds exactly when the source and both planes hold the image, it writes
/// nothing when it fails, and it keeps the planes' lengths. Which bytes it writes depends on the
/// vector unit that it finds, so a success is only tied to the arguments by `rgba_to_yuv_nv24_planes`.
#[verifier::external_body]
pub(crate) fn rgba_to_yuv_nv24(
    y_plane: &mut [u8],
    y_stride: u32,
    uv_plane: &mut [u8],
    uv_stride: u32,
    width: u32,
    height: u32,
    src: &[u8],
    stride: u32,
    range: YuvRange,
    matrix: YuvStandardMatrix,
) -> (r: Result<(), yuv::YuvError>)
    requires
        2 * width <= u32::MAX,
        stride * height <= isize::MAX,
    ensures
        r is Ok <==> (bi_planar_fits(bi_planar(old(y_plane)@, y_stride, old(uv_plane)@, uv_stride, width, height), YuvSubsampling::S444)
            && plane_fits(src@.len(), stride, width * 4, height as int)),
        r is Err ==> final(y_plane)@ == old(y_plane)@ && final(uv_plane)@ == old(uv_plane)@,
        final(y_plane)@.len() == old(y_plane)@.len(),
        final(uv_plane)@.len() == old(uv_plane)@.len(),
        r is Ok ==> rgba_to_yuv_nv24_planes(src@, stride, range, matrix, bi_planar(old(y_plane)@, y_stride, old(uv_plane)@, uv_stride, width, height), bi_planar(final(y_plane)@, y_stride, final(uv_plane)@, uv_stride, width, height)),
{
    let range = match range {
        YuvRange::Limited => yuv::YuvRange::Limited,
        YuvRange::Full => yuv::YuvRange::Full,
    };
    let matrix = match matrix {
        YuvStandardMatrix::Bt601 => Std::Bt601,
        YuvStandardMatrix::Bt709 => Std::Bt709,
        YuvStandardMatrix::Bt2020 => Std::Bt2020,
        YuvStandardMatrix::Smpte240 => Std::Smpte240,
        YuvStandardMatrix::Fcc => Std::Fcc,
    };
    let (y_plane, uv_plane) = (Store::Borrowed(y_plane), Store::Borrowed(uv_plane));
    let mut image = yuv::YuvBiPlanarImageMut { y_plane, y_stride, uv_plane, uv_stride, width, height };
    yuv::rgba_to_yuv_nv24(&mut image, src, stride, range, matrix, yuv::YuvConversionMode::Balanced)
}

/// The outcomes of `yuv::bgr_to_yuv_nv12`: `after` is an image that the call may leave where it found
/// `before`.
pub uninterp spec fn bgr_to_yuv_nv12_planes(src: Seq<u8>, stride: u32, range: YuvRange, matrix: YuvStandardMatrix, before: BiPlanar<u8>, after: BiPlanar<u8>) -> bool;

/// Calls `yuv::bgr_to_yuv_nv12` in its `Balanced` mode: BGR to NV12.
///
/// Claimed of it: it succeeds exactly when the source and both planes hold the image, it writes
/// nothing when it fails, and it keeps the planes' lengths. Which bytes it writes depends on the
/// vector unit that it finds, so a success is only tied to the arguments by `bgr_to_yuv_nv12_planes`.
#[verifier::external_body]
pub(crate) fn bgr_to_yuv_nv12(
    y_plane: &mut [u8],
    y_stride: u32,
    uv_plane: &mut [u8],
    uv_stride: u32,
    width: u32,
    height: u32,
    src: &[u8],
    stride: u32,
    range: YuvRange,
    matrix: YuvStandardMatrix,
) -> (r: Result<(), yuv::YuvError>)
    requires
        2 * width <= u32::MAX,
        stride * height <= isize::MAX,
        bi_planar_odd_row(bi_planar(old(y_plane)@, y_stride, old(uv_plane)@, uv_stride, width, height), src@.len(), stride, 3),
    ensures
        r is Ok <==> (bi_planar_fits(bi_planar(old(y_plane)@, y_stride, old(uv_plane)@, uv_stride, width, height), YuvSubsampling::S420)
            && plane_fits(src@.len(), stride, width * 3, height as int)),
        r is Err ==> final(y_plane)@ == old(y_plane)@ && final(uv_plane)@ == old(uv_plane)@,
        final(y_plane)@.len() == old(y_plane)@.len(),
        final(uv_plane)@.len() == old(uv_plane)@.len(),
        r is Ok ==> bgr_to_yuv_nv12_planes(src@, stride, range, matrix, bi_planar(old(y_plane)@, y_stride, old(uv_plane)@, uv_stride, width, height), bi_planar(final(y_plane)@, y_stride, final(uv_plane)@, uv_stride, width, height)),
{
    let range = match range {
        YuvRange::Limited => yuv::YuvRange::Limited,
        YuvRange::Full => yuv::YuvRange::Full,
    };
    let matrix = match matrix {
        YuvStandardMatrix::Bt601 => Std::Bt601,
        YuvStandardMatrix::Bt709 => Std::Bt709,
        YuvStandardMatrix::Bt2020 => Std::Bt2020,
        YuvStandardMatrix::Smpte240 => Std::Smpte240,
        YuvStandardMatrix::Fcc => Std::Fcc,
    };
    let (y_plane, uv_plane) = (Store::Borrowed(y_plane), Store::Borrowed(uv_plane));
    let mut image = yuv::YuvBiPlanarImageMut { y_plane, y_stride, uv_plane, uv_stride, width, height };
    yuv::bgr_to_yuv_nv12(&mut image, src, stride, range, matrix, yuv::YuvConversionMode::Balanced)
}

/// The outcomes of `yuv::bgr_to_yuv_nv21`: `after` is an image that the call may leave where it found
/// `before`.
pub uninterp spec fn bgr_to_yuv_nv21_planes(src: Seq<u8>, stride: u32, range: YuvRange, matrix: YuvStandardMatrix, before: BiPlanar<u8>, after: BiPlanar<u8>) -> bool;

/// Calls `yuv::bgr_to_yuv_nv21` in its `Balanced` mode: BGR to NV21.
///
/// Claimed of it: it succeeds exactly when the source and both planes hold the image, it writes
/// nothing when it fails, and it keeps the planes' lengths. Which bytes it writes depends on the
/// vector unit that it finds, so a success is only tied to the arguments by `bgr_to_yuv_nv21_planes`.
#[verifier::external_body]
pub(crate) fn bgr_to_yuv_nv21(
    y_plane: &mut [u8],
    y_stride: u32,
    uv_plane: &mut [u8],
    uv_stride: u32,
    width: u32,
    height: u32,
    src: &[u8],
    stride: u32,
    range: YuvRange,
    matrix: YuvStandardMatrix,
) -> (r: Result<(), yuv::YuvError>)
    requires
        2 * width <= u32::MAX,
        stride * height <= isize::MAX,
        bi_planar_odd_row(bi_planar(old(y_plane)@, y_stride, old(uv_plane)@, uv_stride, width, height), src@.len(), stride, 3),
    ensures
        r is Ok <==> (bi_planar_fits(bi_planar(old(y_plane)@, y_stride, old(uv_plane)@, uv_stride, width, height), YuvSubsampling::S420)
            && plane_fits(src@.len(), stride, width * 3, height as int)),
        r is Err ==> final(y_plane)@ == old(y_plane)@ && final(uv_plane)@ == old(uv_plane)@,
        final(y_plane)@.len() == old(y_plane)@.len(),
        final(uv_plane)@.len() == old(uv_plane)@.len(),
        r is Ok ==> bgr_to_yuv_nv21_planes(src@, stride, range, matrix, bi_planar(old(y_plane)@, y_stride, old(uv_plane)@, uv_stride, width, height), bi_planar(final(y_plane)@, y_stride, final(uv_plane)@, uv_stride, width, height)),
{
    let range = match range {
        YuvRange::Limited => yuv::YuvRange::Limited,
        YuvRange::Full => yuv::YuvRange::Full,
    };
    let matrix = match matrix {
        YuvStandardMatrix::Bt601 => Std::Bt601,
        YuvStandardMatrix::Bt709 => Std::Bt709,
        YuvStandardMatrix::Bt2020 => Std::Bt2020,
        YuvStandardMatrix::Smpte240 => Std::Smpte240,
        YuvStandardMatrix::Fcc => Std::Fcc,
    };
    let (y_plane, uv_plane) = (Store::Borrowed(y_plane), Store::Borrowed(uv_plane));
    let mut image = yuv::YuvBiPlanarImageMut { y_plane, y_stride, uv_plane, uv_stride, width, height };
    yuv::bgr_to_yuv_nv21(&mut image, src, stride, range, matrix, yuv::YuvConversionMode::Balanced)
}

/// The outcomes of `yuv::bgr_to_yuv_nv16`: `after` is an image that the call may leave where it found
/// `before`.
pub uninterp spec fn bgr_to_yuv_nv16_planes(src: Seq<u8>, stride: u32, range: YuvRange, matrix: YuvStandardMatrix, before: BiPlanar<u8>, after: BiPlanar<u8>) -> bool;

/// Calls `yuv::bgr_to_yuv_nv16` in its `Balanced` mode: BGR to NV16.
///
/// Claimed of it: it succeeds exactly when the source and both planes hold the image, it writes
/// nothing when it fails, and it keeps the planes' lengths. Which bytes it writes depends on the
/// vector unit that it finds, so a success is only tied to the arguments by `bgr_to_yuv_nv16_planes`.
#[verifier::external_body]
pub(crate) fn bgr_to_yuv_nv16(
    y_plane: &mut [u8],
    y_stride: u32,
    uv_plane: &mut [u8],
    uv_stride: u32,
    width: u32,
    height: u32,
    src: &[u8],
    stride: u32,
    range: YuvRange,
    matrix: YuvStandardMatrix,
) -> (r: Result<(), yuv::YuvError>)
    requires
        2 * width <= u32::MAX,
        stride * height <= isize::MAX,
    ensures
        r is Ok <==> (bi_planar_fits(bi_planar(old(y_plane)@, y_stride, old(uv_plane)@, uv_stride, width, height), YuvSubsampling::S422)
            && plane_fits(src@.len(), stride, width * 3, height as int)),
        r is Err ==> final(y_plane)@ == old(y_plane)@ && final(uv_plane)@ == old(uv_plane)@,
        final(y_plane)@.len() == old(y_plane)@.len(),
        final(uv_plane)@.len() == old(uv_plane)@.len(),
        r is Ok ==> bgr_to_yuv_nv16_planes(src@, stride, range, matrix, bi_planar(old(y_plane)@, y_stride, old(uv_plane)@, uv_stride, width, height), bi_planar(final(y_plane)@, y_stride, final(uv_plane)@, uv_stride, width, height)),
{
    let range = match range {
        YuvRange::Limited => yuv::YuvRange::Limited,
        YuvRange::Full => yuv::YuvRange::Full,
    };
    let matrix = match matrix {
        YuvStandardMatrix::Bt601 => Std::Bt601,
        YuvStandardMatrix::Bt709 => Std::Bt709,
        YuvStandardMatrix::Bt2020 => Std::Bt2020,
        YuvStandardMatrix::Smpte240 => Std::Smpte240,
        YuvStandardMatrix::Fcc => Std::Fcc,
    };
    let (y_plane, uv_plane) = (Store::Borrowed(y_plane), Store::Borrowed(uv_plane));
    let mut image = yuv::YuvBiPlanarImageMut { y_plane, y_stride, uv_plane, uv_stride, width, height };
    yuv::bgr_to_yuv_nv16(&mut image, src, stride, range, matrix, yuv::YuvConversionMode::Balanced)
}

/// The outcomes of `yuv::bgr_to_yuv_nv61`: `after` is an image that the call may leave where it found
/// `before`.
pub uninterp spec fn bgr_to_yuv_nv61_planes(src: Seq<u8>, stride: u32, range: YuvRange, matrix: YuvStandardMatrix, before: BiPlanar<u8>, after: BiPlanar<u8>) -> bool;

/// Calls `yuv::bgr_to_yuv_nv61` in its `Balanced` mode: BGR to NV61.
///
/// Claimed of it: it succeeds exactly when the source and both planes hold the image, it writes
/// nothing when it fails, and it keeps the planes' lengths. Which bytes it writes depends on the
/// vector unit that it finds, so a success is only tied to the arguments by `bgr_to_yuv_nv61_planes`.
#[verifier::external_body]
pub(crate) fn bgr_to_yuv_nv61(
    y_plane: &mut [u8],
    y_stride: u32,
    uv_plane: &mut [u8],
    uv_stride: u32,
    width: u32,
    height: u32,
    src: &[u8],
    stride: u32,
    range: YuvRange,
    matrix: YuvStandardMatrix,
) -> (r: Result<(), yuv::YuvError>)
    requires
        2 * width <= u32::MAX,
        stride * height <= isize::MAX,
    ensures
        r is Ok <==> (bi_planar_fits(bi_planar(old(y_plane)@, y_stride, old(uv_plane)@, uv_stride, width, height), YuvSubsampling::S422)
            && plane_fits(src@.len(), stride, width * 3, height as int)),
        r is Err ==> final(y_plane)@ == old(y_plane)@ && final(uv_plane)@ == old(uv_plane)@,
        final(y_plane)@.len() == old(y_plane)@.len(),
        final(uv_plane)@.len() == old(uv_plane)@.len(),
        r is Ok ==> bgr_to_yuv_nv61_planes(src@, stride, range, matrix, bi_planar(old(y_plane)@, y_stride, old(uv_plane)@, uv_stride, width, height), bi_planar(final(y_plane)@, y_stride, final(uv_plane)@, uv_stride, width, height)),
{
    let range = match range {
        YuvRange::Limited => yuv::YuvRange::Limited,
        YuvRange::Full => yuv::YuvRange::Full,
    };
    let matrix = match matrix {
        YuvStandardMatrix::Bt601 => Std::Bt601,
        YuvStandardMatrix::Bt709 => Std::Bt709,
        YuvStandardMatrix::Bt2020 => Std::Bt2020,
        YuvStandardMatrix::Smpte240 => Std::Smpte240,
        YuvStandardMatrix::Fcc => Std::Fcc,
    };
    let (y_plane, uv_plane) = (Store::Borrowed(y_plane), Store::Borrowed(uv_plane));
    let mut image = yuv::YuvBiPlanarImageMut { y_plane, y_stride, uv_plane, uv_stride, width, height };
    yuv::bgr_to_yuv_nv61(&mut image, src, stride, range, matrix, yuv::YuvConversionMode::Balanced)
}

/// The outcomes of `yuv::bgr_to_yuv_nv24`: `after` is an image that the call may leave where it found
/// `before`.
pub uninterp spec fn bgr_to_yuv_nv24_planes(src: Seq<u8>, stride: u32, range: YuvRange, matrix: YuvStandardMatrix, before: BiPlanar<u8>, after: BiPlanar<u8>) -> bool;

/// Calls `yuv::bgr_to_yuv_nv24` in its `Balanced` mode: BGR to NV24.
///
/// Claimed of it: it succeeds exactly when the source and both planes hold the image, it writes
/// nothing when it fails, and it keeps the planes' lengths. Which bytes it writes depends on the
/// vector unit that it finds, so a success is only tied to the arguments by `bgr_to_yuv_nv24_planes`.
#[verifier::external_body]
pub(crate) fn bgr_to_yuv_nv24(
    y_plane: &mut [u8],
    y_stride: u32,
    uv_plane: &mut [u8],
    uv_stride: u32,
    width: u32,
    height: u32,
    src: &[u8],
    stride: u32,
    range: YuvRange,
    matrix: YuvStandardMatrix,
) -> (r: Result<(), yuv::YuvError>)
    requires
        2 * width <= u32::MAX,
        stride * height <= isize::MAX,
    ensures
        r is Ok <==> (bi_planar_fits(bi_planar(old(y_plane)@, y_stride, old(uv_plane)@, uv_stride, width, height), YuvSubsampling::S444)
            && plane_fits(src@.len(), stride, width * 3, height as int)),
        r is Err ==> final(y_plane)@ == old(y_plane)@ && final(uv_plane)@ == old(uv_plane)@,
        final(y_plane)@.len() == old(y_plane)@.len(),
        final(uv_plane)@.len() == old(uv_plane)@.len(),
        r is Ok ==> bgr_to_yuv_nv24_planes(src@, stride, range, matrix, bi_planar(old(y_plane)@, y_stride, old(uv_plane)@, uv_stride, width, height), bi_planar(final(y_plane)@, y_stride, final(uv_plane)@, uv_stride, width, height)),
{
    let range = match range {
        YuvRange::Limited => yuv::YuvRange::Limited,
        YuvRange::Full => yuv::YuvRange::Full,
    };
    let matrix = match matrix {
        YuvStandardMatrix::Bt601 => Std::Bt601,
        YuvStandardMatrix::Bt709 => Std::Bt709,
        YuvStandardMatrix::Bt2020 => Std::Bt2020,
        YuvStandardMatrix::Smpte240 => Std::Smpte240,
        YuvStandardMatrix::Fcc => Std::Fcc,
    };
    let (y_plane, uv_plane) = (Store::Borrowed(y_plane), Store::Borrowed(uv_plane));
    let mut image = yuv::YuvBiPlanarImageMut { y_plane, y_stride, uv_plane, uv_stride, width, height };
    yuv::bgr_to_yuv_nv24(&mut image, src, stride, range, matrix, yuv::YuvConversionMode::Balanced)
}

/// The outcomes of `yuv::bgra_to_yuv_nv12`: `after` is an image that the call may leave where it found
/// `before`.
pub uninterp spec fn bgra_to_yuv_nv12_planes(src: Seq<u8>, stride: u32, range: YuvRange, matrix: YuvStandardMatrix, before: BiPlanar<u8>, after: BiPlanar<u8>) -> bool;

/// Calls `yuv::bgra_to_yuv_nv12` in its `Balanced` mode: BGRA to NV12.
///
/// Claimed of it: it succeeds exactly when the source and both planes hold the image, it writes
/// nothing when it fails, and it keeps the planes' lengths. Which bytes it writes depends on the
/// vector unit that it finds, so a success is only tied to the arguments by `bgra_to_yuv_nv12_planes`.
#[verifier::external_body]
pub(crate) fn bgra_to_yuv_nv12(
    y_plane: &mut [u8],
    y_stride: u32,
    uv_plane: &mut [u8],
    uv_stride: u32,
    width: u32,
    height: u32,
    src: &[u8],
    stride: u32,
    range: YuvRange,
    matrix: YuvStandardMatrix,
) -> (r: Result<(), yuv::YuvError>)
    requires
        2 * width <= u32::MAX,
        stride * height <= isize::MAX,
        bi_planar_odd_row(bi_planar(old(y_plane)@, y_stride, old(uv_plane)@, uv_stride, width, height), src@.len(), stride, 4),
    ensures
        r is Ok <==> (bi_planar_fits(bi_planar(old(y_plane)@, y_stride, old(uv_plane)@, uv_stride, width, height), YuvSubsampling::S420)
            && plane_fits(src@.len(), stride, width * 4, height as int)),
        r is Err ==> final(y_plane)@ == old(y_plane)@ && final(uv_plane)@ == old(uv_plane)@,
        final(y_plane)@.len() == old(y_plane)@.len(),
        final(uv_plane)@.len() == old(uv_plane)@.len(),
        r is Ok ==> bgra_to_yuv_nv12_planes(src@, stride, range, matrix, bi_planar(old(y_plane)@, y_stride, old(uv_plane)@, uv_stride, width, height), bi_planar(final(y_plane)@, y_stride, final(uv_plane)@, uv_stride, width, height)),
{
    let range = match range {
        YuvRange::Limited => yuv::YuvRange::Limited,
        YuvRange::Full => yuv::YuvRange::Full,
    };
    let matrix = match matrix {
        YuvStandardMatrix::Bt601 => Std::Bt601,
        YuvStandardMatrix::Bt709 => Std::Bt709,
        YuvStandardMatrix::Bt2020 => Std::Bt2020,
        YuvStandardMatrix::Smpte240 => Std::Smpte240,
        YuvStandardMatrix::Fcc => Std::Fcc,
    };
    let (y_plane, uv_plane) = (Store::Borrowed(y_plane), Store::Borrowed(uv_plane));
    let mut image = yuv::YuvBiPlanarImageMut { y_plane, y_stride, uv_plane, uv_stride, width, height };
    yuv::bgra_to_yuv_nv12(&mut image, src, stride, range, matrix, yuv::YuvConversionMode::Balanced)
}

/// The outcomes of `yuv::bgra_to_yuv_nv21`: `after` is an image that the call may leave where it found
/// `before`.
pub uninterp spec fn bgra_to_yuv_nv21_planes(src: Seq<u8>, stride: u32, range: YuvRange, matrix: YuvStandardMatrix, before: BiPlanar<u8>, after: BiPlanar<u8>) -> bool;

/// Calls `yuv::bgra_to_yuv_nv21` in its `Balanced` mode: BGRA to NV21.
///
/// Claimed of it: it succeeds exactly when the source and both planes hold the image, it writes
/// nothing when it fails, and it keeps the planes' lengths. Which bytes it writes depends on the
/// vector unit that it finds, so a success is only tied to the arguments by `bgra_to_yuv_nv21_planes`.
#[verifier::external_body]
pub(crate) fn bgra_to_yuv_nv21(
    y_plane: &mut [u8],
    y_stride: u32,
    uv_plane: &mut [u8],
    uv_stride: u32,
    width: u32,
    height: u32,
    src: &[u8],
    stride: u32,
    range: YuvRange,
    matrix: YuvStandardMatrix,
) -> (r: Result<(), yuv::YuvError>)
    requires
        2 * width <= u32::MAX,
        stride * height <= isize::MAX,
        bi_planar_odd_row(bi_planar(old(y_plane)@, y_stride, old(uv_plane)@, uv_stride, width, height), src@.len(), stride, 4),
    ensures
        r is Ok <==> (bi_planar_fits(bi_planar(old(y_plane)@, y_stride, old(uv_plane)@, uv_stride, width, height), YuvSubsampling::S420)
            && plane_fits(src@.len(), stride, width * 4, height as int)),
        r is Err ==> final(y_plane)@ == old(y_plane)@ && final(uv_plane)@ == old(uv_plane)@,
        final(y_plane)@.len() == old(y_plane)@.len(),
        final(uv_plane)@.len() == old(uv_plane)@.len(),
        r is Ok ==> bgra_to_yuv_nv21_planes(src@, stride, range, matrix, bi_planar(old(y_plane)@, y_stride, old(uv_plane)@, uv_stride, width, height), bi_planar(final(y_plane)@, y_stride, final(uv_plane)@, uv_stride, width, height)),
{
    let range = match range {
        YuvRange::Limited => yuv::YuvRange::Limited,
        YuvRange::Full => yuv::YuvRange::Full,
    };
    let matrix = match matrix {
        YuvStandardMatrix::Bt601 => Std::Bt601,
        YuvStandardMatrix::Bt709 => Std::Bt709,
        YuvStandardMatrix::Bt2020 => Std::Bt2020,
        YuvStandardMatrix::Smpte240 => Std::Smpte240,
        YuvStandardMatrix::Fcc => Std::Fcc,
    };
    let (y_plane, uv_plane) = (Store::Borrowed(y_plane), Store::Borrowed(uv_plane));
    let mut image = yuv::YuvBiPlanarImageMut { y_plane, y_stride, uv_plane, uv_stride, width, height };
    yuv::bgra_to_yuv_nv21(&mut image, src, stride, range, matrix, yuv::YuvConversionMode::Balanced)
}

/// The outcomes of `yuv::bgra_to_yuv_nv16`: `after` is an image that the call may leave where it found
/// `before`.
pub uninterp spec fn bgra_to_yuv_nv16_planes(src: Seq<u8>, stride: u32, range: YuvRange, matrix: YuvStandardMatrix, before: BiPlanar<u8>, after: BiPlanar<u8>) -> bool;

/// Calls `yuv::bgra_to_yuv_nv16` in its `Balanced` mode: BGRA to NV16.
///
/// Claimed of it: it succeeds exactly when the source and both planes hold the image, it writes
/// nothing when it fails, and it keeps the planes' lengths. Which bytes it writes depends on the
/// vector unit that it finds, so a success is only tied to the arguments by `bgra_to_yuv_nv16_planes`.
#[verifier::external_body]
pub(crate) fn bgra_to_yuv_nv16(
    y_plane: &mut [u8],
    y_stride: u32,
    uv_plane: &mut [u8],
    uv_stride: u32,
    width: u32,
    height: u32,
    src: &[u8],
    stride: u32,
    range: YuvRange,
    matrix: YuvStandardMatrix,
) -> (r: Result<(), yuv::YuvError>)
    requires
        2 * width <= u32::MAX,
        stride * height <= isize::MAX,
    ensures
        r is Ok <==> (bi_planar_fits(bi_planar(old(y_plane)@, y_stride, old(uv_plane)@, uv_stride, width, height), YuvSubsampling::S422)
            && plane_fits(src@.len(), stride, width * 4, height as int)),
        r is Err ==> final(y_plane)@ == old(y_plane)@ && final(uv_plane)@ == old(uv_plane)@,
        final(y_plane)@.len() == old(y_plane)@.len(),
        final(uv_plane)@.len() == old(uv_plane)@.len(),
        r is Ok ==> bgra_to_yuv_nv16_planes(src@, stride, range, matrix, bi_planar(old(y_plane)@, y_stride, old(uv_plane)@, uv_stride, width, height), bi_planar(final(y_plane)@, y_stride, final(uv_plane)@, uv_stride, width, height)),
{
    let range = match range {
        YuvRange::Limited => yuv::YuvRange::Limited,
        YuvRange::Full => yuv::YuvRange::Full,
    };
    let matrix = match matrix {
        YuvStandardMatrix::Bt601 => Std::Bt601,
        YuvStandardMatrix::Bt709 => Std::Bt709,
        YuvStandardMatrix::Bt2020 => Std::Bt2020,
        YuvStandardMatrix::Smpte240 => Std::Smpte240,
        YuvStandardMatrix::Fcc => Std::Fcc,
    };
    let (y_plane, uv_plane) = (Store::Borrowed(y_plane), Store::Borrowed(uv_plane));
    let mut image = yuv::YuvBiPlanarImageMut { y_plane, y_stride, uv_plane, uv_stride, width, height };
    yuv::bgra_to_yuv_nv16(&mut image, src, stride, range, matrix, yuv::YuvConversionMode::Balanced)
}

/// The outcomes of `yuv::bgra_to_yuv_nv61`: `after` is an image that the call may leave where it found
/// `before`.
pub uninterp spec fn bgra_to_yuv_nv61_planes(src: Seq<u8>, stride: u32, range: YuvRange, matrix: YuvStandardMatrix, before: BiPlanar<u8>, after: BiPlanar<u8>) -> bool;

/// Calls `yuv::bgra_to_yuv_nv61` in its `Balanced` mode: BGRA to NV61.
///
/// Claimed of it: it succeeds exactly when the source and both planes hold the image, it writes
/// nothing when it fails, and it keeps the planes' lengths. Which bytes it writes depends on the
/// vector unit that it finds, so a success is only tied to the arguments by `bgra_to_yuv_nv61_planes`.
#[verifier::external_body]
pub(crate) fn bgra_to_yuv_nv61(
    y_plane: &mut [u8],
    y_stride: u32,
    uv_plane: &mut [u8],
    uv_stride: u32,
    width: u32,
    height: u32,
    src: &[u8],
    stride: u32,
    range: YuvRange,
    matrix: YuvStandardMatrix,
) -> (r: Result<(), yuv::YuvError>)
    requires
        2 * width <= u32::MAX,
        stride * height <= isize::MAX,
    ensures
        r is Ok <==> (bi_planar_fits(bi_planar(old(y_plane)@, y_stride, old(uv_plane)@, uv_stride, width, height), YuvSubsampling::S422)
            && plane_fits(src@.len(), stride, width * 4, height as int)),
        r is Err ==> final(y_plane)@ == old(y_plane)@ && final(uv_plane)@ == old(uv_plane)@,
        final(y_plane)@.len() == old(y_plane)@.len(),
        final(uv_plane)@.len() == old(uv_plane)@.len(),
        r is Ok ==> bgra_to_yuv_nv61_planes(src@, stride, range, matrix, bi_planar(old(y_plane)@, y_stride, old(uv_plane)@, uv_stride, width, height), bi_planar(final(y_plane)@, y_stride, final(uv_plane)@, uv_stride, width, height)),
{
    let range = match range {
        YuvRange::Limited => yuv::YuvRange::Limited,
        YuvRange::Full => yuv::YuvRange::Full,
    };
    let matrix = match matrix {
        YuvStandardMatrix::Bt601 => Std::Bt601,
        YuvStandardMatrix::Bt709 => Std::Bt709,
        YuvStandardMatrix::Bt2020 => Std::Bt2020,
        YuvStandardMatrix::Smpte240 => Std::Smpte240,
        YuvStandardMatrix::Fcc => Std::Fcc,
    };
    let (y_plane, uv_plane) = (Store::Borrowed(y_plane), Store::Borrowed(uv_plane));
    let mut image = yuv::YuvBiPlanarImageMut { y_plane, y_stride, uv_plane, uv_stride, width, height };
    yuv::bgra_to_yuv_nv61(&mut image, src, stride, range, matrix, yuv::YuvConversionMode::Balanced)
}

/// The outcomes of `yuv::bgra_to_yuv_nv24`: `after` is an image that the call may leave where it found
/// `before`.
pub uninterp spec fn bgra_to_yuv_nv24_planes(src: Seq<u8>, stride: u32, range: YuvRange, matrix: YuvStandardMatrix, before: BiPlanar<u8>, after: BiPlanar<u8>) -> bool;

/// Calls `yuv::bgra_to_yuv_nv24` in its `Balanced` mode: BGRA to NV24.
///
/// Claimed of it: it succeeds exactly when the source and both planes hold the image, it writes
/// nothing when it fails, and it keeps the planes' lengths. Which bytes it writes depends on the
/// vector unit that it finds, so a success is only tied to the arguments by `bgra_to_yuv_nv24_planes`.
#[verifier::external_body]
pub(crate) fn bgra_to_yuv_nv24(
    y_plane: &mut [u8],
    y_stride: u32,
    uv_plane: &mut [u8],
    uv_stride: u32,
    width: u32,
    height: u32,
    src: &[u8],
    stride: u32,
    range: YuvRange,
    matrix: YuvStandardMatrix,
) -> (r: Result<(), yuv::YuvError>)
    requires
        2 * width <= u32::MAX,
        stride * height <= isize::MAX,
    ensures
        r is Ok <==> (bi_planar_fits(bi_planar(old(y_plane)@, y_stride, old(uv_plane)@, uv_stride, width, height), YuvSubsampling::S444)
            && plane_fits(src@.len(), stride, width * 4, height as int)),
        r is Err ==> final(y_plane)@ == old(y_plane)@ && final(uv_plane)@ == old(uv_plane)@,
        final(y_plane)@.len() == old(y_plane)@.len(),
        final(uv_plane)@.len() == old(uv_plane)@.len(),
        r is Ok ==> bgra_to_yuv_nv24_planes(src@, stride, range, matrix, bi_planar(old(y_plane)@, y_stride, old(uv_plane)@, uv_stride, width, height), bi_planar(final(y_plane)@, y_stride, final(uv_plane)@, uv_stride, width, height)),
{
    let range = match range {
        YuvRange::Limited => yuv::YuvRange::Limited,
        YuvRange::Full => yuv::YuvRange::Full,
    };
    let matrix = match matrix {
        YuvStandardMatrix::Bt601 => Std::Bt601,
        YuvStandardMatrix::Bt709 => Std::Bt709,
        YuvStandardMatrix::Bt2020 => Std::Bt2020,
        YuvStandardMatrix::Smpte240 => Std::Smpte240,
        YuvStandardMatrix::Fcc => Std::Fcc,
    };
    let (y_plane, uv_plane) = (Store::Borrowed(y_plane), Store::Borrowed(uv_plane));
    let mut image = yuv::YuvBiPlanarImageMut { y_plane, y_stride, uv_plane, uv_stride, width, height };
    yuv::bgra_to_yuv_nv24(&mut image, src, stride, range, matrix, yuv::YuvConversionMode::Balanced)
}

/// What becomes of packed pixels in a semi-planar image, for each pixel layout and chroma layout.
pub open spec fn semiplanar_planes(
    rgb_format: RgbFormat,
    subsampling: YuvSubsampling,
    uv_order: UvOrder,
    src: Seq<u8>,
    stride: u32,
    range: YuvRange,
    matrix: YuvStandardMatrix,
    before: BiPlanar<u8>,
    after: BiPlanar<u8>,
) -> bool {
    match (rgb_format, subsampling, uv_order) {
        (RgbFormat::Rgb, YuvSubsampling::S420, UvOrder::Uv) => rgb_to_yuv_nv12_planes(src, stride, range, matrix, before, after),
        (RgbFormat::Rgb, YuvSubsampling::S420, UvOrder::Vu) => rgb_to_yuv_nv21_planes(src, stride, range, matrix, before, after),
        (RgbFormat::Rgb, YuvSubsampling::S422, UvOrder::Uv) => rgb_to_yuv_nv16_planes(src, stride, range, matrix, before, after),
        (RgbFormat::Rgb, YuvSubsampling::S422, UvOrder::Vu) => rgb_to_yuv_nv61_planes(src, stride, range, matrix, before, after),
        (RgbFormat::Rgb, YuvSubsampling::S444, UvOrder::Uv) => rgb_to_yuv_nv24_planes(src, stride, range, matrix, before, after),
        (RgbFormat::Rgba, YuvSubsampling::S420, UvOrder::Uv) => rgba_to_yuv_nv12_planes(src, stride, range, matrix, before, after),
        (RgbFormat::Rgba, YuvSubsampling::S420, UvOrder::Vu) => rgba_to_yuv_nv21_planes(src, stride, range, matrix, before, after),
        (RgbFormat::Rgba, YuvSubsampling::S422, UvOrder::Uv) => rgba_to_yuv_nv16_planes(src, stride, range, matrix, before, after),
        (RgbFormat::Rgba, YuvSubsampling::S422, UvOrder::Vu) => rgba_to_yuv_nv61_planes(src, stride, range, matrix, before, after),
        (RgbFormat::Rgba, YuvSubsampling::S444, UvOrder::Uv) => rgba_to_yuv_nv24_planes(src, stride, range, matrix, before, after),
        (RgbFormat::Bgr, YuvSubsampling::S420, UvOrder::Uv) => bgr_to_yuv_nv12_planes(src, stride, range, matrix, before, after),
        (RgbFormat::Bgr, YuvSubsampling::S420, UvOrder::Vu) => bgr_to_yuv_nv21_planes(src, stride, range, matrix, before, after),
        (RgbFormat::Bgr, YuvSubsampling::S422, UvOrder::Uv) => bgr_to_yuv_nv16_planes(src, stride, range, matrix, before, after),
        (RgbFormat::Bgr, YuvSubsampling::S422, UvOrder::Vu) => bgr_to_yuv_nv61_planes(src, stride, range, matrix, before, after),
        (RgbFormat::Bgr, YuvSubsampling::S444, UvOrder::Uv) => bgr_to_yuv_nv24_planes(src, stride, range, matrix, before, after),
        (RgbFormat::Bgra, YuvSubsampling::S420, UvOrder::Uv) => bgra_to_yuv_nv12_planes(src, stride, range, matrix, before, after),
        (RgbFormat::Bgra, YuvSubsampling::S420, UvOrder::Vu) => bgra_to_yuv_nv21_planes(src, stride, range, matrix, before, after),
        (RgbFormat::Bgra, YuvSubsampling::S422, UvOrder::Uv) => bgra_to_yuv_nv16_planes(src, stride, range, matrix, before, after),
        (RgbFormat::Bgra, YuvSubsampling::S422, UvOrder::Vu) => bgra_to_yuv_nv61_planes(src, stride, range, matrix, before, after),
        (RgbFormat::Bgra, YuvSubsampling::S444, UvOrder::Uv) => bgra_to_yuv_nv24_planes(src, stride, range, matrix, before, after),
        _ => false,
    }
}

/// Turns pixels into a semi-planar image; none where no function does.
pub(crate) fn encode_semiplanar(
    rgb_format: RgbFormat,
    subsampling: YuvSubsampling,
    uv_order: UvOrder,
    y_plane: &mut [u8],
    y_stride: u32,
    uv_plane: &mut [u8],
    uv_stride: u32,
    width: u32,
    height: u32,
    src: &[u8],
    stride: u32,
    range: YuvRange,
    matrix: YuvStandardMatrix,
) -> (r: Option<Result<(), yuv::YuvError>>)
    requires
        2 * width <= u32::MAX,
        stride * height <= isize::MAX,
        subsampling == YuvSubsampling::S420 ==> bi_planar_odd_row(
            bi_planar(old(y_plane)@, y_stride, old(uv_plane)@, uv_stride, width, height),
            src@.len(),
            stride,
            rgb_format.bytes(),
        ),
    ensures
        r is Some <==> chroma_order_known(subsampling, uv_order),
        r is Some ==> (r->0 is Ok <==> (bi_planar_fits(
            bi_planar(old(y_plane)@, y_stride, old(uv_plane)@, uv_stride, width, height),
            subsampling,
        ) && plane_fits(src@.len(), stride, width * rgb_format.bytes(), height as int))),
        r is None || r->0 is Err ==> final(y_plane)@ == old(y_plane)@ && final(uv_plane)@ == old(uv_plane)@,
        final(y_plane)@.len() == old(y_plane)@.len(),
        final(uv_plane)@.len() == old(uv_plane)@.len(),
        r is Some && r->0 is Ok ==> semiplanar_planes(
            rgb_format,
            subsampling,
            uv_order,
            src@,
            stride,
            range,
            matrix,
            bi_planar(old(y_plane)@, y_stride, old(uv_plane)@, uv_stride, width, height),
            bi_planar(final(y_plane)@, y_stride, final(uv_plane)@, uv_stride, width, height),
        ),
{
    let converted = match (rgb_format, subsampling, uv_order) {
        (RgbFormat::Rgb, YuvSubsampling::S420, UvOrder::Uv) => rgb_to_yuv_nv12(
            y_plane, y_stride, uv_plane, uv_stride, width, height, src, stride, range, matrix),
        (RgbFormat::Rgb, YuvSubsampling::S420, UvOrder::Vu) => rgb_to_yuv_nv21(
            y_plane, y_stride, uv_plane, uv_stride, width, height, src, stride, range, matrix),
        (RgbFormat::Rgb, YuvSubsampling::S422, UvOrder::Uv) => rgb_to_yuv_nv16(
            y_plane, y_stride, uv_plane, uv_stride, width, height, src, stride, range, matrix),
        (RgbFormat::Rgb, YuvSubsampling::S422, UvOrder::Vu) => rgb_to_yuv_nv61(
            y_plane, y_stride, uv_plane, uv_stride, width, height, src, stride, range, matrix),
        (RgbFormat::Rgb, YuvSubsampling::S444, UvOrder::Uv) => rgb_to_yuv_nv24(
            y_plane, y_stride, uv_plane, uv_stride, width, height, src, stride, range, matrix),
        (RgbFormat::Rgba, YuvSubsampling::S420, UvOrder::Uv) => rgba_to_yuv_nv12(
            y_plane, y_stride, uv_plane, uv_stride, width, height, src, stride, range, matrix),
        (RgbFormat::Rgba, YuvSubsampling::S420, UvOrder::Vu) => rgba_to_yuv_nv21(
            y_plane, y_stride, uv_plane, uv_stride, width, height, src, stride, range, matrix),
        (RgbFormat::Rgba, YuvSubsampling::S422, UvOrder::Uv) => rgba_to_yuv_nv16(
            y_plane, y_stride, uv_plane, uv_stride, width, height, src, stride, range, matrix),
        (RgbFormat::Rgba, YuvSubsampling::S422, UvOrder::Vu) => rgba_to_yuv_nv61(
            y_plane, y_stride, uv_plane, uv_stride, width, height, src, stride, range, matrix),
        (RgbFormat::Rgba, YuvSubsampling::S444, UvOrder::Uv) => rgba_to_yuv_nv24(
            y_plane, y_stride, uv_plane, uv_stride, width, height, src, stride, range, matrix),
        (RgbFormat::Bgr, YuvSubsampling::S420, UvOrder::Uv) => bgr_to_yuv_nv12(
            y_plane, y_stride, uv_plane, uv_stride, width, height, src, stride, range, matrix),
        (RgbFormat::Bgr, YuvSubsampling::S420, UvOrder::Vu) => bgr_to_yuv_nv21(
            y_plane, y_stride, uv_plane, uv_stride, width, height, src, stride, range, matrix),
        (RgbFormat::Bgr, YuvSubsampling::S422, UvOrder::Uv) => bgr_to_yuv_nv16(
            y_plane, y_stride, uv_plane, uv_stride, width, height, src, stride, range, matrix),
        (RgbFormat::Bgr, YuvSubsampling::S422, UvOrder::Vu) => bgr_to_yuv_nv61(
            y_plane, y_stride, uv_plane, uv_stride, width, height, src, stride, range, matrix),
        (RgbFormat::Bgr, YuvSubsampling::S444, UvOrder::Uv) => bgr_to_yuv_nv24(
            y_plane, y_stride, uv_plane, uv_stride, width, height, src, stride, range, matrix),
        (RgbFormat::Bgra, YuvSubsampling::S420, UvOrder::Uv) => bgra_to_yuv_nv12(
            y_plane, y_stride, uv_plane, uv_stride, width, height, src, stride, range, matrix),
        (RgbFormat::Bgra, YuvSubsampling::S420, UvOrder::Vu) => bgra_to_yuv_nv21(
            y_plane, y_stride, uv_plane, uv_stride, width, height, src, stride, range, matrix),
        (RgbFormat::Bgra, YuvSubsampling::S422, UvOrder::Uv) => bgra_to_yuv_nv16(
            y_plane, y_stride, uv_plane, uv_stride, width, height, src, stride, range, matrix),
        (RgbFormat::Bgra, YuvSubsampling::S422, UvOrder::Vu) => bgra_to_yuv_nv61(
            y_plane, y_stride, uv_plane, uv_stride, width, height, src, stride, range, matrix),
        (RgbFormat::Bgra, YuvSubsampling::S444, UvOrder::Uv) => bgra_to_yuv_nv24(
            y_plane, y_stride, uv_plane, uv_stride, width, height, src, stride, range, matrix),
        _ => return None,
    };
    Some(converted)
}

} // verus!
