//! From packed RGB to planar YUV and to gray: one item for each function of the `yuv` crate, and
//! what each combination of pixel layout and subsampling selects among them.

use super::{planar, planar_fits, planar_odd_row, plane_fits, single_plane, Planar, RgbFormat, SinglePlane};
use super::{YuvRange, YuvStandardMatrix, YuvSubsampling};
use vstd::prelude::*;
use yuv::BufferStoreMut as Store;
use yuv::YuvStandardMatrix as Std;

verus! {

/// The outcomes of `yuv::rgb_to_yuv420`: `after` is an image that the call may leave where it found
/// `before`.
pub uninterp spec fn rgb_to_yuv420_planes(src: Seq<u8>, stride: u32, range: YuvRange, matrix: YuvStandardMatrix, before: Planar<u8>, after: Planar<u8>) -> bool;

/// Calls `yuv::rgb_to_yuv420` in its `Balanced` mode: RGB to 4:2:0 planes.
///
/// Claimed of it: it succeeds exactly when the source and the three planes hold the image, it
/// writes nothing when it fails, and it keeps the planes' lengths. Which bytes it writes depends
/// on the vector unit that it finds, so a success is only tied to the arguments by `rgb_to_yuv420_planes`.
#[verifier::external_body]
pub(crate) fn rgb_to_yuv420(
    y_plane: &mut [u8],
    y_stride: u32,
    u_plane: &mut [u8],
    u_stride: u32,
    v_plane: &mut [u8],
    v_stride: u32,
    width: u32,
    height: u32,
    src: &[u8],
    stride: u32,
    range: YuvRange,
    matrix: YuvStandardMatrix,
) -> (r: Result<(), yuv::YuvError>)
    requires
        stride * height <= isize::MAX,
        planar_odd_row(planar(old(y_plane)@, y_stride, old(u_plane)@, u_stride, old(v_plane)@, v_stride, width, height), src@.len(), stride, 3),
    ensures
        r is Ok <==> (planar_fits(planar(old(y_plane)@, y_stride, old(u_plane)@, u_stride, old(v_plane)@, v_stride, width, height), YuvSubsampling::S420)
            && plane_fits(src@.len(), stride, width * 3, height as int)),
        r is Err ==> final(y_plane)@ == old(y_plane)@ && final(u_plane)@ == old(u_plane)@
            && final(v_plane)@ == old(v_plane)@,
        final(y_plane)@.len() == old(y_plane)@.len(),
        final(u_plane)@.len() == old(u_plane)@.len(),
        final(v_plane)@.len() == old(v_plane)@.len(),
        r is Ok ==> rgb_to_yuv420_planes(src@, stride, range, matrix, planar(old(y_plane)@, y_stride, old(u_plane)@, u_stride, old(v_plane)@, v_stride, width, height), planar(final(y_plane)@, y_stride, final(u_plane)@, u_stride, final(v_plane)@, v_stride, width, height)),
{
    let range = match range {
        YuvRange::Limited => yuv::YuvRange::Limited,
        YuvRange::Full => yuv::YuvRange::Full,
    };
    let matrix = match matrix {
        YuvStandardMatrix::Bt601 => Std::Bt601,
        YuvStandardMatrix::Bt709 => Std::Bt709,
        YuvStandardMatrix::Bt2020 => Std::Bt2020,
        YuvStandardMatrix::Smpte240 => Std::Smpte240,
        YuvStandardMatrix::Fcc => Std::Fcc,
    };
    let (y_plane, u_plane, v_plane) = (Store::Borrowed(y_plane), Store::Borrowed(u_plane), Store::Borrowed(v_plane));
    let mut image = yuv::YuvPlanarImageMut { y_plane, y_stride, u_plane, u_stride, v_plane, v_stride, width, height };
    yuv::rgb_to_yuv420(&mut image, src, stride, range, matrix, yuv::YuvConversionMode::Balanced)
}

/// The outcomes of `yuv::rgb_to_yuv422`: `after` is an image that the call may leave where it found
/// `before`.
pub uninterp spec fn rgb_to_yuv422_planes(src: Seq<u8>, stride: u32, range: YuvRange, matrix: YuvStandardMatrix, before: Planar<u8>, after: Planar<u8>) -> bool;

/// Calls `yuv::rgb_to_yuv422` in its `Balanced` mode: RGB to 4:2:2 planes.
///
/// Claimed of it: it succeeds exactly when the source and the three planes hold the image, it
/// writes nothing when it fails, and it keeps the planes' lengths. Which bytes it writes depends
/// on the vector unit that it finds, so a success is only tied to the arguments by `rgb_to_yuv422_planes`.
#[verifier::external_body]
pub(crate) fn rgb_to_yuv422(
    y_plane: &mut [u8],
    y_stride: u32,
    u_plane: &mut [u8],
    u_stride: u32,
    v_plane: &mut [u8],
    v_stride: u32,
    width: u32,
    height: u32,
    src: &[u8],
    stride: u32,
    range: YuvRange,
    matrix: YuvStandardMatrix,
) -> (r: Result<(), yuv::YuvError>)
    requires
        stride * height <= isize::MAX,
    ensures
        r is Ok <==> (planar_fits(planar(old(y_plane)@, y_stride, old(u_plane)@, u_stride, old(v_plane)@, v_stride, width, height), YuvSubsampling::S422)
            && plane_fits(src@.len(), stride, width * 3, height as int)),
        r is Err ==> final(y_plane)@ == old(y_plane)@ && final(u_plane)@ == old(u_plane)@
            && final(v_plane)@ == old(v_plane)@,
        final(y_plane)@.len() == old(y_plane)@.len(),
        final(u_plane)@.len() == old(u_plane)@.len(),
        final(v_plane)@.len() == old(v_plane)@.len(),
        r is Ok ==> rgb_to_yuv422_planes(src@, stride, range, matrix, planar(old(y_plane)@, y_stride, old(u_plane)@, u_stride, old(v_plane)@, v_stride, width, height), planar(final(y_plane)@, y_stride, final(u_plane)@, u_stride, final(v_plane)@, v_stride, width, height)),
{
    let range = match range {
        YuvRange::Limited => yuv::YuvRange::Limited,
        YuvRange::Full => yuv::YuvRange::Full,
    };
    let matrix = match matrix {
        YuvStandardMatrix::Bt601 => Std::Bt601,
        YuvStandardMatrix::Bt709 => Std::Bt709,
        YuvStandardMatrix::Bt2020 => Std::Bt2020,
        YuvStandardMatrix::Smpte240 => Std::Smpte240,
        YuvStandardMatrix::Fcc => Std::Fcc,
    };
    let (y_plane, u_plane, v_plane) = (Store::Borrowed(y_plane), Store::Borrowed(u_plane), Store::Borrowed(v_plane));
    let mut image = yuv::YuvPlanarImageMut { y_plane, y_stride, u_plane, u_stride, v_plane, v_stride, width, height };
    yuv::rgb_to_yuv422(&mut image, src, stride, range, matrix, yuv::YuvConversionMode::Balanced)
}

/// The outcomes of `yuv::rgb_to_yuv444`: `after` is an image that the call may leave where it found
/// `before`.
pub uninterp spec fn rgb_to_yuv444_planes(src: Seq<u8>, stride: u32, range: YuvRange, matrix: YuvStandardMatrix, before: Planar<u8>, after: Planar<u8>) -> bool;

/// Calls `yuv::rgb_to_yuv444` in its `Balanced` mode: RGB to 4:4:4 planes.
///
/// Claimed of it: it succeeds exactly when the source and the three planes hold the image, it
/// writes nothing when it fails, and it keeps the planes' lengths. Which bytes it writes depends
/// on the vector unit that it finds, so a success is only tied to the arguments by `rgb_to_yuv444_planes`.
#[verifier::external_body]
pub(crate) fn rgb_to_yuv444(
    y_plane: &mut [u8],
    y_stride: u32,
    u_plane: &mut [u8],
    u_stride: u32,
    v_plane: &mut [u8],
    v_stride: u32,
    width: u32,
    height: u32,
    src: &[u8],
    stride: u32,
    range: YuvRange,
    matrix: YuvStandardMatrix,
) -> (r: Result<(), yuv::YuvError>)
    requires
        stride * height <= isize::MAX,
    ensures
        r is Ok <==> (planar_fits(planar(old(y_plane)@, y_stride, old(u_plane)@, u_stride, old(v_plane)@, v_stride, width, height), YuvSubsampling::S444)
            && plane_fits(src@.len(), stride, width * 3, height as int)),
        r is Err ==> final(y_plane)@ == old(y_plane)@ && final(u_plane)@ == old(u_plane)@
            && final(v_plane)@ == old(v_plane)@,
        final(y_plane)@.len() == old(y_plane)@.len(),
        final(u_plane)@.len() == old(u_plane)@.len(),
        final(v_plane)@.len() == old(v_plane)@.len(),
        r is Ok ==> rgb_to_yuv444_planes(src@, stride, range, matrix, planar(old(y_plane)@, y_stride, old(u_plane)@, u_stride, old(v_plane)@, v_stride, width, height), planar(final(y_plane)@, y_stride, final(u_plane)@, u_stride, final(v_plane)@, v_stride, width, height)),
{
    let range = match range {
        YuvRange::Limited => yuv::YuvRange::Limited,
        YuvRange::Full => yuv::YuvRange::Full,
    };
    let matrix = match matrix {
        YuvStandardMatrix::Bt601 => Std::Bt601,
        YuvStandardMatrix::Bt709 => Std::Bt709,
        YuvStandardMatrix::Bt2020 => Std::Bt2020,
        YuvStandardMatrix::Smpte240 => Std::Smpte240,
        YuvStandardMatrix::Fcc => Std::Fcc,
    };
    let (y_plane, u_plane, v_plane) = (Store::Borrowed(y_plane), Store::Borrowed(u_plane), Store::Borrowed(v_plane));
    let mut image = yuv::YuvPlanarImageMut { y_plane, y_stride, u_plane, u_stride, v_plane, v_stride, width, height };
    yuv::rgb_to_yuv444(&mut image, src, stride, range, matrix, yuv::YuvConversionMode::Balanced)
}

/// The outcomes of `yuv::rgba_to_yuv420`: `after` is an image that the call may leave where it found
/// `before`.
pub uninterp spec fn rgba_to_yuv420_planes(src: Seq<u8>, stride: u32, range: YuvRange, matrix: YuvStandardMatrix, before: Planar<u8>, after: Planar<u8>) -> bool;

/// Calls `yuv::rgba_to_yuv420` in its `Balanced` mode: RGBA to 4:2:0 planes.
///
/// Claimed of it: it succeeds exactly when the source and the three planes hold the image, it
/// writes nothing when it fails, and it keeps the planes' lengths. Which bytes it writes depends
/// on the vector unit that it finds, so a success is only tied to the arguments by `rgba_to_yuv420_planes`.
#[verifier::external_body]
pub(crate) fn rgba_to_yuv420(
    y_plane: &mut [u8],
    y_stride: u32,
    u_plane: &mut [u8],
    u_stride: u32,
    v_plane: &mut [u8],
    v_stride: u32,
    width: u32,
    height: u32,
    src: &[u8],
    stride: u32,
    range: YuvRange,
    matrix: YuvStandardMatrix,
) -> (r: Result<(), yuv::YuvError>)
    requires
        stride * height <= isize::MAX,
        planar_odd_row(planar(old(y_plane)@, y_stride, old(u_plane)@, u_stride, old(v_plane)@, v_stride, width, height), src@.len(), stride, 4),
    ensures
        r is Ok <==> (planar_fits(planar(old(y_plane)@, y_stride, old(u_plane)@, u_stride, old(v_plane)@, v_stride, width, height), YuvSubsampling::S420)
            && plane_fits(src@.len(), stride, width * 4, height as int)),
        r is Err ==> final(y_plane)@ == old(y_plane)@ && final(u_plane)@ == old(u_plane)@
            && final(v_plane)@ == old(v_plane)@,
        final(y_plane)@.len() == old(y_plane)@.len(),
        final(u_plane)@.len() == old(u_plane)@.len(),
        final(v_plane)@.len() == old(v_plane)@.len(),
        r is Ok ==> rgba_to_yuv420_planes(src@, stride, range, matrix, planar(old(y_plane)@, y_stride, old(u_plane)@, u_stride, old(v_plane)@, v_stride, width, height), planar(final(y_plane)@, y_stride, final(u_plane)@, u_stride, final(v_plane)@, v_stride, width, height)),
{
    let range = match range {
        YuvRange::Limited => yuv::YuvRange::Limited,
        YuvRange::Full => yuv::YuvRange::Full,
    };
    let matrix = match matrix {
        YuvStandardMatrix::Bt601 => Std::Bt601,
        YuvStandardMatrix::Bt709 => Std::Bt709,
        YuvStandardMatrix::Bt2020 => Std::Bt2020,
        YuvStandardMatrix::Smpte240 => Std::Smpte240,
        YuvStandardMatrix::Fcc => Std::Fcc,
    };
    let (y_plane, u_plane, v_plane) = (Store::Borrowed(y_plane), Store::Borrowed(u_plane), Store::Borrowed(v_plane));
    let mut image = yuv::YuvPlanarImageMut { y_plane, y_stride, u_plane, u_stride, v_plane, v_stride, width, height };
    yuv::rgba_to_yuv420(&mut image, src, stride, range, matrix, yuv::YuvConversionMode::Balanced)
}

/// The outcomes of `yuv::rgba_to_yuv422`: `after` is an image that the call may leave where it found
/// `before`.
pub uninterp spec fn rgba_to_yuv422_planes(src: Seq<u8>, stride: u32, range: YuvRange, matrix: YuvStandardMatrix, before: Planar<u8>, after: Planar<u8>) -> bool;

/// Calls `yuv::rgba_to_yuv422` in its `Balanced` mode: RGBA to 4:2:2 planes.
///
/// Claimed of it: it succeeds exactly when the source and the three planes hold the image, it
/// writes nothing when it fails, and it keeps the planes' lengths. Which bytes it writes depends
/// on the vector unit that it finds, so a success is only tied to the arguments by `rgba_to_yuv422_planes`.
#[verifier::external_body]
pub(crate) fn rgba_to_yuv422(
    y_plane: &mut [u8],
    y_stride: u32,
    u_plane: &mut [u8],
    u_stride: u32,
    v_plane: &mut [u8],
    v_stride: u32,
    width: u32,
    height: u32,
    src: &[u8],
    stride: u32,
    range: YuvRange,
    matrix: YuvStandardMatrix,
) -> (r: Result<(), yuv::YuvError>)
    requires
        stride * height <= isize::MAX,
    ensures
        r is Ok <==> (planar_fits(planar(old(y_plane)@, y_stride, old(u_plane)@, u_stride, old(v_plane)@, v_stride, width, height), YuvSubsampling::S422)
            && plane_fits(src@.len(), stride, width * 4, height as int)),
        r is Err ==> final(y_plane)@ == old(y_plane)@ && final(u_plane)@ == old(u_plane)@
            && final(v_plane)@ == old(v_plane)@,
        final(y_plane)@.len() == old(y_plane)@.len(),
        final(u_plane)@.len() == old(u_plane)@.len(),
        final(v_plane)@.len() == old(v_plane)@.len(),
        r is Ok ==> rgba_to_yuv422_planes(src@, stride, range, matrix, planar(old(y_plane)@, y_stride, old(u_plane)@, u_stride, old(v_plane)@, v_stride, width, height), planar(final(y_plane)@, y_stride, final(u_plane)@, u_stride, final(v_plane)@, v_stride, width, height)),
{
    let range = match range {
        YuvRange::Limited => yuv::YuvRange::Limited,
        YuvRange::Full => yuv::YuvRange::Full,
    };
    let matrix = match matrix {
        YuvStandardMatrix::Bt601 => Std::Bt601,
        YuvStandardMatrix::Bt709 => Std::Bt709,
        YuvStandardMatrix::Bt2020 => Std::Bt2020,
        YuvStandardMatrix::Smpte240 => Std::Smpte240,
        YuvStandardMatrix::Fcc => Std::Fcc,
    };
    let (y_plane, u_plane, v_plane) = (Store::Borrowed(y_plane), Store::Borrowed(u_plane), Store::Borrowed(v_plane));
    let mut image = yuv::YuvPlanarImageMut { y_plane, y_stride, u_plane, u_stride, v_plane, v_stride, width, height };
    yuv::rgba_to_yuv422(&mut image, src, stride, range, matrix, yuv::YuvConversionMode::Balanced)
}

/// The outcomes of `yuv::rgba_to_yuv444`: `after` is an image that the call may leave where it found
/// `before`.
pub uninterp spec fn rgba_to_yuv444_planes(src: Seq<u8>, stride: u32, range: YuvRange, matrix: YuvStandardMatrix, before: Planar<u8>, after: Planar<u8>) -> bool;

/// Calls `yuv::rgba_to_yuv444` in its `Balanced` mode: RGBA to 4:4:4 planes.
///
/// Claimed of it: it succeeds exactly when the source and the three planes hold the image, it
/// writes nothing when it fails, and it keeps the planes' lengths. Which bytes it writes depends
/// on the vector unit that it finds, so a success is only tied to the arguments by `rgba_to_yuv444_planes`.
#[verifier::external_body]
pub(crate) fn rgba_to_yuv444(
    y_plane: &mut [u8],
    y_stride: u32,
    u_plane: &mut [u8],
    u_stride: u32,
    v_plane: &mut [u8],
    v_stride: u32,
    width: u32,
    height: u32,
    src: &[u8],
    stride: u32,
    range: YuvRange,
    matrix: YuvStandardMatrix,
) -> (r: Result<(), yuv::YuvError>)
    requires
        stride * height <= isize::MAX,
    ensures
        r is Ok <==> (planar_fits(planar(old(y_plane)@, y_stride, old(u_plane)@, u_stride, old(v_plane)@, v_stride, width, height), YuvSubsampling::S444)
            && plane_fits(src@.len(), stride, width * 4, height as int)),
        r is Err ==> final(y_plane)@ == old(y_plane)@ && final(u_plane)@ == old(u_plane)@
            && final(v_plane)@ == old(v_plane)@,
        final(y_plane)@.len() == old(y_plane)@.len(),
        final(u_plane)@.len() == old(u_plane)@.len(),
        final(v_plane)@.len() == old(v_plane)@.len(),
        r is Ok ==> rgba_to_yuv444_planes(src@, stride, range, matrix, planar(old(y_plane)@, y_stride, old(u_plane)@, u_stride, old(v_plane)@, v_stride, width, height), planar(final(y_plane)@, y_stride, final(u_plane)@, u_stride, final(v_plane)@, v_stride, width, height)),
{
    let range = match range {
        YuvRange::Limited => yuv::YuvRange::Limited,
        YuvRange::Full => yuv::YuvRange::Full,
    };
    let matrix = match matrix {
        YuvStandardMatrix::Bt601 => Std::Bt601,
        YuvStandardMatrix::Bt709 => Std::Bt709,
        YuvStandardMatrix::Bt2020 => Std::Bt2020,
        YuvStandardMatrix::Smpte240 => Std::Smpte240,
        YuvStandardMatrix::Fcc => Std::Fcc,
    };
    let (y_plane, u_plane, v_plane) = (Store::Borrowed(y_plane), Store::Borrowed(u_plane), Store::Borrowed(v_plane));
    let mut image = yuv::YuvPlanarImageMut { y_plane, y_stride, u_plane, u_stride, v_plane, v_stride, width, height };
    yuv::rgba_to_yuv444(&mut image, src, stride, range, matrix, yuv::YuvConversionMode::Balanced)
}

/// The outcomes of `yuv::bgr_to_yuv420`: `after` is an image that the call may leave where it found
/// `before`.
pub uninterp spec fn bgr_to_yuv420_planes(src: Seq<u8>, stride: u32, range: YuvRange, matrix: YuvStandardMatrix, before: Planar<u8>, after: Planar<u8>) -> bool;

/// Calls `yuv::bgr_to_yuv420` in its `Balanced` mode: BGR to 4:2:0 planes.
///
/// Claimed of it: it succeeds exactly when the source and the three planes hold the image, it
/// writes nothing when it fails, and it keeps the planes' lengths. Which bytes it writes depends
/// on the vector unit that it finds, so a success is only tied to the arguments by `bgr_to_yuv420_planes`.
#[verifier::external_body]
pub(crate) fn bgr_to_yuv420(
    y_plane: &mut [u8],
    y_stride: u32,
    u_plane: &mut [u8],
    u_stride: u32,
    v_plane: &mut [u8],
    v_stride: u32,
    width: u32,
    height: u32,
    src: &[u8],
    stride: u32,
    range: YuvRange,
    matrix: YuvStandardMatrix,
) -> (r: Result<(), yuv::YuvError>)
    requires
        stride * height <= isize::MAX,
        planar_odd_row(planar(old(y_plane)@, y_stride, old(u_plane)@, u_stride, old(v_plane)@, v_stride, width, height), src@.len(), stride, 3),
    ensures
        r is Ok <==> (planar_fits(planar(old(y_plane)@, y_stride, old(u_plane)@, u_stride, old(v_plane)@, v_stride, width, height), YuvSubsampling::S420)
            && plane_fits(src@.len(), stride, width * 3, height as int)),
        r is Err ==> final(y_plane)@ == old(y_plane)@ && final(u_plane)@ == old(u_plane)@
            && final(v_plane)@ == old(v_plane)@,
        final(y_plane)@.len() == old(y_plane)@.len(),
        final(u_plane)@.len() == old(u_plane)@.len(),
        final(v_plane)@.len() == old(v_plane)@.len(),
        r is Ok ==> bgr_to_yuv420_planes(src@, stride, range, matrix, planar(old(y_plane)@, y_stride, old(u_plane)@, u_stride, old(v_plane)@, v_stride, width, height), planar(final(y_plane)@, y_stride, final(u_plane)@, u_stride, final(v_plane)@, v_stride, width, height)),
{
    let range = match range {
        YuvRange::Limited => yuv::YuvRange::Limited,
        YuvRange::Full => yuv::YuvRange::Full,
    };
    let matrix = match matrix {
        YuvStandardMatrix::Bt601 => Std::Bt601,
        YuvStandardMatrix::Bt709 => Std::Bt709,
        YuvStandardMatrix::Bt2020 => Std::Bt2020,
        YuvStandardMatrix::Smpte240 => Std::Smpte240,
        YuvStandardMatrix::Fcc => Std::Fcc,
    };
    let (y_plane, u_plane, v_plane) = (Store::Borrowed(y_plane), Store::Borrowed(u_plane), Store::Borrowed(v_plane));
    let mut image = yuv::YuvPlanarImageMut { y_plane, y_stride, u_plane, u_stride, v_plane, v_stride, width, height };
    yuv::bgr_to_yuv420(&mut image, src, stride, range, matrix, yuv::YuvConversionMode::Balanced)
}

/// The outcomes of `yuv::bgr_to_yuv422`: `after` is an image that the call may leave where it found
/// `before`.
pub uninterp spec fn bgr_to_yuv422_planes(src: Seq<u8>, stride: u32, range: YuvRange, matrix: YuvStandardMatrix, before: Planar<u8>, after: Planar<u8>) -> bool;

/// Calls `yuv::bgr_to_yuv422` in its `Balanced` mode: BGR to 4:2:2 planes.
///
/// Claimed of it: it succeeds exactly when the source and the three planes hold the image, it
/// writes nothing when it fails, and it keeps the planes' lengths. Which bytes it writes depends
/// on the vector unit that it finds, so a success is only tied to the arguments by `bgr_to_yuv422_planes`.
#[verifier::external_body]
pub(crate) fn bgr_to_yuv422(
    y_plane: &mut [u8],
    y_stride: u32,
    u_plane: &mut [u8],
    u_stride: u32,
    v_plane: &mut [u8],
    v_stride: u32,
    width: u32,
    height: u32,
    src: &[u8],
    stride: u32,
    range: YuvRange,
    matrix: YuvStandardMatrix,
) -> (r: Result<(), yuv::YuvError>)
    requires
        stride * height <= isize::MAX,
    ensures
        r is Ok <==> (planar_fits(planar(old(y_plane)@, y_stride, old(u_plane)@, u_stride, old(v_plane)@, v_stride, width, height), YuvSubsampling::S422)
            && plane_fits(src@.len(), stride, width * 3, height as int)),
        r is Err ==> final(y_plane)@ == old(y_plane)@ && final(u_plane)@ == old(u_plane)@
            && final(v_plane)@ == old(v_plane)@,
        final(y_plane)@.len() == old(y_plane)@.len(),
        final(u_plane)@.len() == old(u_plane)@.len(),
        final(v_plane)@.len() == old(v_plane)@.len(),
        r is Ok ==> bgr_to_yuv422_planes(src@, stride, range, matrix, planar(old(y_plane)@, y_stride, old(u_plane)@, u_stride, old(v_plane)@, v_stride, width, height), planar(final(y_plane)@, y_stride, final(u_plane)@, u_stride, final(v_plane)@, v_stride, width, height)),
{
    let range = match range {
        YuvRange::Limited => yuv::YuvRange::Limited,
        YuvRange::Full => yuv::YuvRange::Full,
    };
    let matrix = match matrix {
        YuvStandardMatrix::Bt601 => Std::Bt601,
        YuvStandardMatrix::Bt709 => Std::Bt709,
        YuvStandardMatrix::Bt2020 => Std::Bt2020,
        YuvStandardMatrix::Smpte240 => Std::Smpte240,
        YuvStandardMatrix::Fcc => Std::Fcc,
    };
    let (y_plane, u_plane, v_plane) = (Store::Borrowed(y_plane), Store::Borrowed(u_plane), Store::Borrowed(v_plane));
    let mut image = yuv::YuvPlanarImageMut { y_plane, y_stride, u_plane, u_stride, v_plane, v_stride, width, height };
    yuv::bgr_to_yuv422(&mut image, src, stride, range, matrix, yuv::YuvConversionMode::Balanced)
}

/// The outcomes of `yuv::bgr_to_yuv444`: `after` is an image that the call may leave where it found
/// `before`.
pub uninterp spec fn bgr_to_yuv444_planes(src: Seq<u8>, stride: u32, range: YuvRange, matrix: YuvStandardMatrix, before: Planar<u8>, after: Planar<u8>) -> bool;

/// Calls `yuv::bgr_to_yuv444` in its `Balanced` mode: BGR to 4:4:4 planes.
///
/// Claimed of it: it succeeds exactly when the source and the three planes hold the image, it
/// writes nothing when it fails, and it keeps the planes' lengths. Which bytes it writes depends
/// on the vector unit that it finds, so a success is only tied to the arguments by `bgr_to_yuv444_planes`.
#[verifier::external_body]
pub(crate) fn bgr_to_yuv444(
    y_plane: &mut [u8],
    y_stride: u32,
    u_plane: &mut [u8],
    u_stride: u32,
    v_plane: &mut [u8],
    v_stride: u32,
    width: u32,
    height: u32,
    src: &[u8],
    stride: u32,
    range: YuvRange,
    matrix: YuvStandardMatrix,
) -> (r: Result<(), yuv::YuvError>)
    requires
        stride * height <= isize::MAX,
    ensures
        r is Ok <==> (planar_fits(planar(old(y_plane)@, y_stride, old(u_plane)@, u_stride, old(v_plane)@, v_stride, width, height), YuvSubsampling::S444)
            && plane_fits(src@.len(), stride, width * 3, height as int)),
        r is Err ==> final(y_plane)@ == old(y_plane)@ && final(u_plane)@ == old(u_plane)@
            && final(v_plane)@ == old(v_plane)@,
        final(y_plane)@.len() == old(y_plane)@.len(),
        final(u_plane)@.len() == old(u_plane)@.len(),
        final(v_plane)@.len() == old(v_plane)@.len(),
        r is Ok ==> bgr_to_yuv444_planes(src@, stride, range, matrix, planar(old(y_plane)@, y_stride, old(u_plane)@, u_stride, old(v_plane)@, v_stride, width, height), planar(final(y_plane)@, y_stride, final(u_plane)@, u_stride, final(v_plane)@, v_stride, width, height)),
{
    let range = match range {
        YuvRange::Limited => yuv::YuvRange::Limited,
        YuvRange::Full => yuv::YuvRange::Full,
    };
    let matrix = match matrix {
        YuvStandardMatrix::Bt601 => Std::Bt601,
        YuvStandardMatrix::Bt709 => Std::Bt709,
        YuvStandardMatrix::Bt2020 => Std::Bt2020,
        YuvStandardMatrix::Smpte240 => Std::Smpte240,
        YuvStandardMatrix::Fcc => Std::Fcc,
    };
    let (y_plane, u_plane, v_plane) = (Store::Borrowed(y_plane), Store::Borrowed(u_plane), Store::Borrowed(v_plane));
    let mut image = yuv::YuvPlanarImageMut { y_plane, y_stride, u_plane, u_stride, v_plane, v_stride, width, height };
    yuv::bgr_to_yuv444(&mut image, src, stride, range, matrix, yuv::YuvConversionMode::Balanced)
}

/// The outcomes of `yuv::bgra_to_yuv420`: `after` is an image that the call may leave where it found
/// `before`.
pub uninterp spec fn bgra_to_yuv420_planes(src: Seq<u8>, stride: u32, range: YuvRange, matrix: YuvStandardMatrix, before: Planar<u8>, after: Planar<u8>) -> bool;

/// Calls `yuv::bgra_to_yuv420` in its `Balanced` mode: BGRA to 4:2:0 planes.
///
/// Claimed of it: it succeeds exactly when the source and the three planes hold the image, it
/// writes nothing when it fails, and it keeps the planes' lengths. Which bytes it writes depends
/// on the vector unit that it finds, so a success is only tied to the arguments by `bgra_to_yuv420_planes`.
#[verifier::external_body]
pub(crate) fn bgra_to_yuv420(
    y_plane: &mut [u8],
    y_stride: u32,
    u_plane: &mut [u8],
    u_stride: u32,
    v_plane: &mut [u8],
    v_stride: u32,
    width: u32,
    height: u32,
    src: &[u8],
    stride: u32,
    range: YuvRange,
    matrix: YuvStandardMatrix,
) -> (r: Result<(), yuv::YuvError>)
    requires
        stride * height <= isize::MAX,
        planar_odd_row(planar(old(y_plane)@, y_stride, old(u_plane)@, u_stride, old(v_plane)@, v_stride, width, height), src@.len(), stride, 4),
    ensures
        r is Ok <==> (planar_fits(planar(old(y_plane)@, y_stride, old(u_plane)@, u_stride, old(v_plane)@, v_stride, width, height), YuvSubsampling::S420)
            && plane_fits(src@.len(), stride, width * 4, height as int)),
        r is Err ==> final(y_plane)@ == old(y_plane)@ && final(u_plane)@ == old(u_plane)@
            && final(v_plane)@ == old(v_plane)@,
        final(y_plane)@.len() == old(y_plane)@.len(),
        final(u_plane)@.len() == old(u_plane)@.len(),
        final(v_plane)@.len() == old(v_plane)@.len(),
        r is Ok ==> bgra_to_yuv420_planes(src@, stride, range, matrix, planar(old(y_plane)@, y_stride, old(u_plane)@, u_stride, old(v_plane)@, v_stride, width, height), planar(final(y_plane)@, y_stride, final(u_plane)@, u_stride, final(v_plane)@, v_stride, width, height)),
{
    let range = match range {
        YuvRange::Limited => yuv::YuvRange::Limited,
        YuvRange::Full => yuv::YuvRange::Full,
    };
    let matrix = match matrix {
        YuvStandardMatrix::Bt601 => Std::Bt601,
        YuvStandardMatrix::Bt709 => Std::Bt709,
        YuvStandardMatrix::Bt2020 => Std::Bt2020,
        YuvStandardMatrix::Smpte240 => Std::Smpte240,
        YuvStandardMatrix::Fcc => Std::Fcc,
    };
    let (y_plane, u_plane, v_plane) = (Store::Borrowed(y_plane), Store::Borrowed(u_plane), Store::Borrowed(v_plane));
    let mut image = yuv::YuvPlanarImageMut { y_plane, y_stride, u_plane, u_stride, v_plane, v_stride, width, height };
    yuv::bgra_to_yuv420(&mut image, src, stride, range, matrix, yuv::YuvConversionMode::Balanced)
}

/// The outcomes of `yuv::bgra_to_yuv422`: `after` is an image that the call may leave where it found
/// `before`.
pub uninterp spec fn bgra_to_yuv422_planes(src: Seq<u8>, stride: u32, range: YuvRange, matrix: YuvStandardMatrix, before: Planar<u8>, after: Planar<u8>) -> bool;

/// Calls `yuv::bgra_to_yuv422` in its `Balanced` mode: BGRA to 4:2:2 planes.
///
/// Claimed of it: it succeeds exactly when the source and the three planes hold the image, it
/// writes nothing when it fails, and it keeps the planes' lengths. Which bytes it writes depends
/// on the vector unit that it finds, so a success is only tied to the arguments by `bgra_to_yuv422_planes`.
#[verifier::external_body]
pub(crate) fn bgra_to_yuv422(
    y_plane: &mut [u8],
    y_stride: u32,
    u_plane: &mut [u8],
    u_stride: u32,
    v_plane: &mut [u8],
    v_stride: u32,
    width: u32,
    height: u32,
    src: &[u8],
    stride: u32,
    range: YuvRange,
    matrix: YuvStandardMatrix,
) -> (r: Result<(), yuv::YuvError>)
    requires
        stride * height <= isize::MAX,
    ensures
        r is Ok <==> (planar_fits(planar(old(y_plane)@, y_stride, old(u_plane)@, u_stride, old(v_plane)@, v_stride, width, height), YuvSubsampling::S422)
            && plane_fits(src@.len(), stride, width * 4, height as int)),
        r is Err ==> final(y_plane)@ == old(y_plane)@ && final(u_plane)@ == old(u_plane)@
            && final(v_plane)@ == old(v_plane)@,
        final(y_plane)@.len() == old(y_plane)@.len(),
        final(u_plane)@.len() == old(u_plane)@.len(),
        final(v_plane)@.len() == old(v_plane)@.len(),
        r is Ok ==> bgra_to_yuv422_planes(src@, stride, range, matrix, planar(old(y_plane)@, y_stride, old(u_plane)@, u_stride, old(v_plane)@, v_stride, width, height), planar(final(y_plane)@, y_stride, final(u_plane)@, u_stride, final(v_plane)@, v_stride, width, height)),
{
    let range = match range {
        YuvRange::Limited => yuv::YuvRange::Limited,
        YuvRange::Full => yuv::YuvRange::Full,
    };
    let matrix = match matrix {
        YuvStandardMatrix::Bt601 => Std::Bt601,
        YuvStandardMatrix::Bt709 => Std::Bt709,
        YuvStandardMatrix::Bt2020 => Std::Bt2020,
        YuvStandardMatrix::Smpte240 => Std::Smpte240,
        YuvStandardMatrix::Fcc => Std::Fcc,
    };
    let (y_plane, u_plane, v_plane) = (Store::Borrowed(y_plane), Store::Borrowed(u_plane), Store::Borrowed(v_plane));
    let mut image = yuv::YuvPlanarImageMut { y_plane, y_stride, u_plane, u_stride, v_plane, v_stride, width, height };
    yuv::bgra_to_yuv422(&mut image, src, stride, range, matrix, yuv::YuvConversionMode::Balanced)
}

/// The outcomes of `yuv::bgra_to_yuv444`: `after` is an image that the call may leave where it found
/// `before`.
pub uninterp spec fn bgra_to_yuv444_planes(src: Seq<u8>, stride: u32, range: YuvRange, matrix: YuvStandardMatrix, before: Planar<u8>, after: Planar<u8>) -> bool;

/// Calls `yuv::bgra_to_yuv444` in its `Balanced` mode: BGRA to 4:4:4 planes.
///
/// Claimed of it: it succeeds exactly when the source and the three planes hold the image, it
/// writes nothing when it fails, and it keeps the planes' lengths. Which bytes it writes depends
/// on the vector unit that it finds, so a success is only tied to the arguments by `bgra_to_yuv444_planes`.
#[verifier::external_body]
pub(crate) fn bgra_to_yuv444(
    y_plane: &mut [u8],
    y_stride: u32,
    u_plane: &mut [u8],
    u_stride: u32,
    v_plane: &mut [u8],
    v_stride: u32,
    width: u32,
    height: u32,
    src: &[u8],
    stride: u32,
    range: YuvRange,
    matrix: YuvStandardMatrix,
) -> (r: Result<(), yuv::YuvError>)
    requires
        stride * height <= isize::MAX,
    ensures
        r is Ok <==> (planar_fits(planar(old(y_plane)@, y_stride, old(u_plane)@, u_stride, old(v_plane)@, v_stride, width, height), YuvSubsampling::S444)
            && plane_fits(src@.len(), stride, width * 4, height as int)),
        r is Err ==> final(y_plane)@ == old(y_plane)@ && final(u_plane)@ == old(u_plane)@
            && final(v_plane)@ == old(v_plane)@,
        final(y_plane)@.len() == old(y_plane)@.len(),
        final(u_plane)@.len() == old(u_plane)@.len(),
        final(v_plane)@.len() == old(v_plane)@.len(),
        r is Ok ==> bgra_to_yuv444_planes(src@, stride, range, matrix, planar(old(y_plane)@, y_stride, old(u_plane)@, u_stride, old(v_plane)@, v_stride, width, height), planar(final(y_plane)@, y_stride, final(u_plane)@, u_stride, final(v_plane)@, v_stride, width, height)),
{
    let range = match range {
        YuvRange::Limited => yuv::YuvRange::Limited,
        YuvRange::Full => yuv::YuvRange::Full,
    };
    let matrix = match matrix {
        YuvStandardMatrix::Bt601 => Std::Bt601,
        YuvStandardMatrix::Bt709 => Std::Bt709,
        YuvStandardMatrix::Bt2020 => Std::Bt2020,
        YuvStandardMatrix::Smpte240 => Std::Smpte240,
        YuvStandardMatrix::Fcc => Std::Fcc,
    };
    let (y_plane, u_plane, v_plane) = (Store::Borrowed(y_plane), Store::Borrowed(u_plane), Store::Borrowed(v_plane));
    let mut image = yuv::YuvPlanarImageMut { y_plane, y_stride, u_plane, u_stride, v_plane, v_stride, width, height };
    yuv::bgra_to_yuv444(&mut image, src, stride, range, matrix, yuv::YuvConversionMode::Balanced)
}

/// The outcomes of `yuv::rgb_to_yuv400`: `after` is an image that the call may leave where it found
/// `before`.
pub uninterp spec fn rgb_to_yuv400_plane(src: Seq<u8>, stride: u32, range: YuvRange, matrix: YuvStandardMatrix, before: SinglePlane, after: SinglePlane) -> bool;

/// Calls `yuv::rgb_to_yuv400`: RGB to gray.
///
/// Claimed of it: it succeeds exactly when the source and the gray plane hold the image, it
/// writes nothing when it fails, and it keeps the plane's length. Which bytes it writes depends
/// on the vector unit that it finds, so a success is only tied to the arguments by `rgb_to_yuv400_plane`.
#[verifier::external_body]
pub(crate) fn rgb_to_yuv400(
    y_plane: &mut [u8],
    y_stride: u32,
    width: u32,
    height: u32,
    src: &[u8],
    stride: u32,
    range: YuvRange,
    matrix: YuvStandardMatrix,
) -> (r: Result<(), yuv::YuvError>)
    requires
        stride * height <= isize::MAX,
    ensures
        r is Ok <==> (plane_fits(old(y_plane)@.len(), y_stride, width as int, height as int)
            && plane_fits(src@.len(), stride, width * 3, height as int)),
        r is Err ==> final(y_plane)@ == old(y_plane)@,
        final(y_plane)@.len() == old(y_plane)@.len(),
        r is Ok ==> rgb_to_yuv400_plane(src@, stride, range, matrix, single_plane(old(y_plane)@, y_stride, width, height), single_plane(final(y_plane)@, y_stride, width, height)),
{
    let range = match range {
        YuvRange::Limited => yuv::YuvRange::Limited,
        YuvRange::Full => yuv::YuvRange::Full,
    };
    let matrix = match matrix {
        YuvStandardMatrix::Bt601 => Std::Bt601,
        YuvStandardMatrix::Bt709 => Std::Bt709,
        YuvStandardMatrix::Bt2020 => Std::Bt2020,
        YuvStandardMatrix::Smpte240 => Std::Smpte240,
        YuvStandardMatrix::Fcc => Std::Fcc,
    };
    let mut image = yuv::YuvGrayImageMut { y_plane: Store::Borrowed(y_plane), y_stride, width, height };
    yuv::rgb_to_yuv400(&mut image, src, stride, range, matrix)
}

/// The outcomes of `yuv::rgba_to_yuv400`: `after` is an image that the call may leave where it found
/// `before`.
pub uninterp spec fn rgba_to_yuv400_plane(src: Seq<u8>, stride: u32, range: YuvRange, matrix: YuvStandardMatrix, before: SinglePlane, after: SinglePlane) -> bool;

/// Calls `yuv::rgba_to_yuv400`: RGBA to gray.
///
/// Claimed of it: it succeeds exactly when the source and the gray plane hold the image, it
/// writes nothing when it fails, and it keeps the plane's length. Which bytes it writes depends
/// on the vector unit that it finds, so a success is only tied to the arguments by `rgba_to_yuv400_plane`.
#[verifier::external_body]
pub(crate) fn rgba_to_yuv400(
    y_plane: &mut [u8],
    y_stride: u32,
    width: u32,
    height: u32,
    src: &[u8],
    stride: u32,
    range: YuvRange,
    matrix: YuvStandardMatrix,
) -> (r: Result<(), yuv::YuvError>)
    requires
        stride * height <= isize::MAX,
    ensures
        r is Ok <==> (plane_fits(old(y_plane)@.len(), y_stride, width as int, height as int)
            && plane_fits(src@.len(), stride, width * 4, height as int)),
        r is Err ==> final(y_plane)@ == old(y_plane)@,
        final(y_plane)@.len() == old(y_plane)@.len(),
        r is Ok ==> rgba_to_yuv400_plane(src@, stride, range, matrix, single_plane(old(y_plane)@, y_stride, width, height), single_plane(final(y_plane)@, y_stride, width, height)),
{
    let range = match range {
        YuvRange::Limited => yuv::YuvRange::Limited,
        YuvRange::Full => yuv::YuvRange::Full,
    };
    let matrix = match matrix {
        YuvStandardMatrix::Bt601 => Std::Bt601,
        YuvStandardMatrix::Bt709 => Std::Bt709,
        YuvStandardMatrix::Bt2020 => Std::Bt2020,
        YuvStandardMatrix::Smpte240 => Std::Smpte240,
        YuvStandardMatrix::Fcc => Std::Fcc,
    };
    let mut image = yuv::YuvGrayImageMut { y_plane: Store::Borrowed(y_plane), y_stride, width, height };
    yuv::rgba_to_yuv400(&mut image, src, stride, range, matrix)
}

/// The outcomes of `yuv::bgr_to_yuv400`: `after` is an image that the call may leave where it found
/// `before`.
pub uninterp spec fn bgr_to_yuv400_plane(src: Seq<u8>, stride: u32, range: YuvRange, matrix: YuvStandardMatrix, before: SinglePlane, after: SinglePlane) -> bool;

/// Calls `yuv::bgr_to_yuv400`: BGR to gray.
///
/// Claimed of it: it succeeds exactly when the source and the gray plane hold the image, it
/// writes nothing when it fails, and it keeps the plane's length. Which bytes it writes depends
/// on the vector unit that it finds, so a success is only tied to the arguments by `bgr_to_yuv400_plane`.
#[verifier::external_body]
pub(crate) fn bgr_to_yuv400(
    y_plane: &mut [u8],
    y_stride: u32,
    width: u32,
    height: u32,
    src: &[u8],
    stride: u32,
    range: YuvRange,
    matrix: YuvStandardMatrix,
) -> (r: Result<(), yuv::YuvError>)
    requires
        stride * height <= isize::MAX,
    ensures
        r is Ok <==> (plane_fits(old(y_plane)@.len(), y_stride, width as int, height as int)
            && plane_fits(src@.len(), stride, width * 3, height as int)),
        r is Err ==> final(y_plane)@ == old(y_plane)@,
        final(y_plane)@.len() == old(y_plane)@.len(),
        r is Ok ==> bgr_to_yuv400_plane(src@, stride, range, matrix, single_plane(old(y_plane)@, y_stride, width, height), single_plane(final(y_plane)@, y_stride, width, height)),
{
    let range = match range {
        YuvRange::Limited => yuv::YuvRange::Limited,
        YuvRange::Full => yuv::YuvRange::Full,
    };
    let matrix = match matrix {
        YuvStandardMatrix::Bt601 => Std::Bt601,
        YuvStandardMatrix::Bt709 => Std::Bt709,
        YuvStandardMatrix::Bt2020 => Std::Bt2020,
        YuvStandardMatrix::Smpte240 => Std::Smpte240,
        YuvStandardMatrix::Fcc => Std::Fcc,
    };
    let mut image = yuv::YuvGrayImageMut { y_plane: Store::Borrowed(y_plane), y_stride, width, height };
    yuv::bgr_to_yuv400(&mut image, src, stride, range, matrix)
}

/// The outcomes of `yuv::bgra_to_yuv400`: `after` is an image that the call may leave where it found
/// `before`.
pub uninterp spec fn bgra_to_yuv400_plane(src: Seq<u8>, stride: u32, range: YuvRange, matrix: YuvStandardMatrix, before: SinglePlane, after: SinglePlane) -> bool;

/// Calls `yuv::bgra_to_yuv400`: BGRA to gray.
///
/// Claimed of it: it succeeds exactly when the source and the gray plane hold the image, it
/// writes nothing when it fails, and it keeps the plane's length. Which bytes it writes depends
/// on the vector unit that it finds, so a success is only tied to the arguments by `bgra_to_yuv400_plane`.
#[verifier::external_body]
pub(crate) fn bgra_to_yuv400(
    y_plane: &mut [u8],
    y_stride: u32,
    width: u32,
    height: u32,
    src: &[u8],
    stride: u32,
    range: YuvRange,
    matrix: YuvStandardMatrix,
) -> (r: Result<(), yuv::YuvError>)
    requires
        stride * height <= isize::MAX,
    ensures
        r is Ok <==> (plane_fits(old(y_plane)@.len(), y_stride, width as int, height as int)
            && plane_fits(src@.len(), stride, width * 4, height as int)),
        r is Err ==> final(y_plane)@ == old(y_plane)@,
        final(y_plane)@.len() == old(y_plane)@.len(),
        r is Ok ==> bgra_to_yuv400_plane(src@, stride, range, matrix, single_plane(old(y_plane)@, y_stride, width, height), single_plane(final(y_plane)@, y_stride, width, height)),
{
    let range = match range {
        YuvRange::Limited => yuv::YuvRange::Limited,
        YuvRange::Full => yuv::YuvRange::Full,
    };
    let matrix = match matrix {
        YuvStandardMatrix::Bt601 => Std::Bt601,
        YuvStandardMatrix::Bt709 => Std::Bt709,
        YuvStandardMatrix::Bt2020 => Std::Bt2020,
        YuvStandardMatrix::Smpte240 => Std::Smpte240,
        YuvStandardMatrix::Fcc => Std::Fcc,
    };
    let mut image = yuv::YuvGrayImageMut { y_plane: Store::Borrowed(y_plane), y_stride, width, height };
    yuv::bgra_to_yuv400(&mut image, src, stride, range, matrix)
}

/// What becomes of packed pixels in a planar image, for each pixel layout and subsampling.
pub open spec fn planar_planes(
    rgb_format: RgbFormat,
    subsampling: YuvSubsampling,
    src: Seq<u8>,
    stride: u32,
    range: YuvRange,
    matrix: YuvStandardMatrix,
    before: Planar<u8>,
    after: Planar<u8>,
) -> bool {
    match (rgb_format, subsampling) {
        (RgbFormat::Rgb, YuvSubsampling::S420) => rgb_to_yuv420_planes(src, stride, range, matrix, before, after),
        (RgbFormat::Rgb, YuvSubsampling::S422) => rgb_to_yuv422_planes(src, stride, range, matrix, before, after),
        (RgbFormat::Rgb, YuvSubsampling::S444) => rgb_to_yuv444_planes(src, stride, range, matrix, before, after),
        (RgbFormat::Rgba, YuvSubsampling::S420) => rgba_to_yuv420_planes(src, stride, range, matrix, before, after),
        (RgbFormat::Rgba, YuvSubsampling::S422) => rgba_to_yuv422_planes(src, stride, range, matrix, before, after),
        (RgbFormat::Rgba, YuvSubsampling::S444) => rgba_to_yuv444_planes(src, stride, range, matrix, before, after),
        (RgbFormat::Bgr, YuvSubsampling::S420) => bgr_to_yuv420_planes(src, stride, range, matrix, before, after),
        (RgbFormat::Bgr, YuvSubsampling::S422) => bgr_to_yuv422_planes(src, stride, range, matrix, before, after),
        (RgbFormat::Bgr, YuvSubsampling::S444) => bgr_to_yuv444_planes(src, stride, range, matrix, before, after),
        (RgbFormat::Bgra, YuvSubsampling::S420) => bgra_to_yuv420_planes(src, stride, range, matrix, before, after),
        (RgbFormat::Bgra, YuvSubsampling::S422) => bgra_to_yuv422_planes(src, stride, range, matrix, before, after),
        (RgbFormat::Bgra, YuvSubsampling::S444) => bgra_to_yuv444_planes(src, stride, range, matrix, before, after),
        _ => false,
    }
}

/// What becomes of packed pixels in a gray image, for each pixel layout.
pub open spec fn gray_plane(
    rgb_format: RgbFormat,
    src: Seq<u8>,
    stride: u32,
    range: YuvRange,
    matrix: YuvStandardMatrix,
    before: SinglePlane,
    after: SinglePlane,
) -> bool {
    match rgb_format {
        RgbFormat::Rgb => rgb_to_yuv400_plane(src, stride, range, matrix, before, after),
        RgbFormat::Rgba => rgba_to_yuv400_plane(src, stride, range, matrix, before, after),
        RgbFormat::Bgr => bgr_to_yuv400_plane(src, stride, range, matrix, before, after),
        RgbFormat::Bgra => bgra_to_yuv400_plane(src, stride, range, matrix, before, after),
    }
}

/// Turns pixels into a planar image; none where no function does.
pub(crate) fn encode_planar(
    rgb_format: RgbFormat,
    subsampling: YuvSubsampling,
    y_plane: &mut [u8],
    y_stride: u32,
    u_plane: &mut [u8],
    u_stride: u32,
    v_plane: &mut [u8],
    v_stride: u32,
    width: u32,
    height: u32,
    src: &[u8],
    stride: u32,
    range: YuvRange,
    matrix: YuvStandardMatrix,
) -> (r: Option<Result<(), yuv::YuvError>>)
    requires
        stride * height <= isize::MAX,
        subsampling == YuvSubsampling::S420 ==> planar_odd_row(
            planar(old(y_plane)@, y_stride, old(u_plane)@, u_stride, old(v_plane)@, v_stride, width, height),
            src@.len(),
            stride,
            rgb_format.bytes(),
        ),
    ensures
        r is Some <==> subsampling != YuvSubsampling::S400,
        r is Some ==> (r->0 is Ok <==> (planar_fits(
            planar(old(y_plane)@, y_stride, old(u_plane)@, u_stride, old(v_plane)@, v_stride, width, height),
            subsampling,
        ) && plane_fits(src@.len(), stride, width * rgb_format.bytes(), height as int))),
        r is None || r->0 is Err ==> final(y_plane)@ == old(y_plane)@ && final(u_plane)@ == old(u_plane)@
            && final(v_plane)@ == old(v_plane)@,
        final(y_plane)@.len() == old(y_plane)@.len(),
        final(u_plane)@.len() == old(u_plane)@.len(),
        final(v_plane)@.len() == old(v_plane)@.len(),
        r is Some && r->0 is Ok ==> planar_planes(
            rgb_format,
            subsampling,
            src@,
            stride,
            range,
            matrix,
            planar(old(y_plane)@, y_stride, old(u_plane)@, u_stride, old(v_plane)@, v_stride, width, height),
            planar(final(y_plane)@, y_stride, final(u_plane)@, u_stride, final(v_plane)@, v_stride, width, height),
        ),
{
    let converted = match (rgb_format, subsampling) {
        (RgbFormat::Rgb, YuvSubsampling::S420) => rgb_to_yuv420(
            y_plane, y_stride, u_plane, u_stride, v_plane, v_stride, width, height, src, stride, range, matrix),
        (RgbFormat::Rgb, YuvSubsampling::S422) => rgb_to_yuv422(
            y_plane, y_stride, u_plane, u_stride, v_plane, v_stride, width, height, src, stride, range, matrix),
        (RgbFormat::Rgb, YuvSubsampling::S444) => rgb_to_yuv444(
            y_plane, y_stride, u_plane, u_stride, v_plane, v_stride, width, height, src, stride, range, matrix),
        (RgbFormat::Rgba, YuvSubsampling::S420) => rgba_to_yuv420(
            y_plane, y_stride, u_plane, u_stride, v_plane, v_stride, width, height, src, stride, range, matrix),
        (RgbFormat::Rgba, YuvSubsampling::S422) => rgba_to_yuv422(
            y_plane, y_stride, u_plane, u_stride, v_plane, v_stride, width, height, src, stride, range, matrix),
        (RgbFormat::Rgba, YuvSubsampling::S444) => rgba_to_yuv444(
            y_plane, y_stride, u_plane, u_stride, v_plane, v_stride, width, height, src, stride, range, matrix),
        (RgbFormat::Bgr, YuvSubsampling::S420) => bgr_to_yuv420(
            y_plane, y_stride, u_plane, u_stride, v_plane, v_stride, width, height, src, stride, range, matrix),
        (RgbFormat::Bgr, YuvSubsampling::S422) => bgr_to_yuv422(
            y_plane, y_stride, u_plane, u_stride, v_plane, v_stride, width, height, src, stride, range, matrix),
        (RgbFormat::Bgr, YuvSubsampling::S444) => bgr_to_yuv444(
            y_plane, y_stride, u_plane, u_stride, v_plane, v_stride, width, height, src, stride, range, matrix),
        (RgbFormat::Bgra, YuvSubsampling::S420) => bgra_to_yuv420(
            y_plane, y_stride, u_plane, u_stride, v_plane, v_stride, width, height, src, stride, range, matrix),
        (RgbFormat::Bgra, YuvSubsampling::S422) => bgra_to_yuv422(
            y_plane, y_stride, u_plane, u_stride, v_plane, v_stride, width, height, src, stride, range, matrix),
        (RgbFormat::Bgra, YuvSubsampling::S444) => bgra_to_yuv444(
            y_plane, y_stride, u_plane, u_stride, v_plane, v_stride, width, height, src, stride, range, matrix),
        _ => return None,
    };
    Some(converted)
}

/// Turns pixels into a gray image.
pub(crate) fn encode_gray(
    rgb_format: RgbFormat,
    y_plane: &mut [u8],
    y_stride: u32,
    width: u32,
    height: u32,
    src: &[u8],
    stride: u32,
    range: YuvRange,
    matrix: YuvStandardMatrix,
) -> (r: Result<(), yuv::YuvError>)
    requires
        stride * height <= isize::MAX,
    ensures
        r is Ok <==> (plane_fits(old(y_plane)@.len(), y_stride, width as int, height as int)
            && plane_fits(src@.len(), stride, width * rgb_format.bytes(), height as int)),
        r is Err ==> final(y_plane)@ == old(y_plane)@,
        final(y_plane)@.len() == old(y_plane)@.len(),
        r is Ok ==> gray_plane(
            rgb_format,
            src@,
            stride,
            range,
            matrix,
            single_plane(old(y_plane)@, y_stride, width, height),
            single_plane(final(y_plane)@, y_stride, width, height),
        ),
{
    match rgb_format {
        RgbFormat::Rgb => rgb_to_yuv400(y_plane, y_stride, width, height, src, stride, range, matrix),
        RgbFormat::Rgba => rgba_to_yuv400(y_plane, y_stride, width, height, src, stride, range, matrix),
        RgbFormat::Bgr => bgr_to_yuv400(y_plane, y_stride, width, height, src, stride, range, matrix),
        RgbFormat::Bgra => bgra_to_yuv400(y_plane, y_stride, width, height, src, stride, range, matrix),
    }
}

} // verus!
