//! From planar YUV, with or without an alpha plane, to packed RGB: one item for each function of
//! the `yuv` crate, and what each combination of chroma and pixel layout selects among them.

use super::{plane_fits, planar, planar_alpha, planar_alpha_fits, planar_fits, Planar, PlanarAlpha, RgbFormat};
use super::{YuvRange, YuvStandardMatrix, YuvSubsampling};
use vstd::prelude::*;
use yuv::YuvStandardMatrix as Std;

verus! {

/// The outcomes of `yuv::yuv420_to_rgb`: `after` is a destination that the call may leave where it found
/// `before`.
pub uninterp spec fn yuv420_to_rgb_pixels(image: Planar<u8>, range: YuvRange, matrix: YuvStandardMatrix, stride: u32, before: Seq<u8>, after: Seq<u8>) -> bool;

/// Calls `yuv::yuv420_to_rgb`: 4:2:0 to RGB.
///
/// Claimed of it: it succeeds exactly when the three planes and the destination hold the image,
/// it writes nothing when it fails, and it keeps the destination's length. Which bytes it writes
/// depends on the vector unit that it finds, so a success is only tied to the arguments by
/// `yuv420_to_rgb_pixels`.
#[verifier::external_body]
pub(crate) fn yuv420_to_rgb(
    y_plane: &[u8],
    y_stride: u32,
    u_plane: &[u8],
    u_stride: u32,
    v_plane: &[u8],
    v_stride: u32,
    width: u32,
    height: u32,
    dst: &mut [u8],
    stride: u32,
    range: YuvRange,
    matrix: YuvStandardMatrix,
) -> (r: Result<(), yuv::YuvError>)
    requires
        stride * height <= isize::MAX,
    ensures
        r is Ok <==> (planar_fits(planar(y_plane@, y_stride, u_plane@, u_stride, v_plane@, v_stride, width, height), YuvSubsampling::S420)
            && plane_fits(old(dst)@.len(), stride, width * 3, height as int)),
        r is Err ==> final(dst)@ == old(dst)@,
        final(dst)@.len() == old(dst)@.len(),
        r is Ok ==> yuv420_to_rgb_pixels(planar(y_plane@, y_stride, u_plane@, u_stride, v_plane@, v_stride, width, height), range, matrix, stride, old(dst)@, final(dst)@),
{
    let range = match range {
        YuvRange::Limited => yuv::YuvRange::Limited,
        YuvRange::Full => yuv::YuvRange::Full,
    };
    let matrix = match matrix {
        YuvStandardMatrix::Bt601 => Std::Bt601,
        YuvStandardMatrix::Bt709 => Std::Bt709,
        YuvStandardMatrix::Bt2020 => Std::Bt2020,
        YuvStandardMatrix::Smpte240 => Std::Smpte240,
        YuvStandardMatrix::Fcc => Std::Fcc,
    };
    let image = yuv::YuvPlanarImage { y_plane, y_stride, u_plane, u_stride, v_plane, v_stride, width, height };
    yuv::yuv420_to_rgb(&image, dst, stride, range, matrix)
}

/// The outcomes of `yuv::yuv420_to_rgba`: `after` is a destination that the call may leave where it found
/// `before`.
pub uninterp spec fn yuv420_to_rgba_pixels(image: Planar<u8>, range: YuvRange, matrix: YuvStandardMatrix, stride: u32, before: Seq<u8>, after: Seq<u8>) -> bool;

/// Calls `yuv::yuv420_to_rgba`: 4:2:0 to RGBA.
///
/// Claimed of it: it succeeds exactly when the three planes and the destination hold the image,
/// it writes nothing when it fails, and it keeps the destination's length. Which bytes it writes
/// depends on the vector unit that it finds, so a success is only tied to the arguments by
/// `yuv420_to_rgba_pixels`.
#[verifier::external_body]
pub(crate) fn yuv420_to_rgba(
    y_plane: &[u8],
    y_stride: u32,
    u_plane: &[u8],
    u_stride: u32,
    v_plane: &[u8],
    v_stride: u32,
    width: u32,
    height: u32,
    dst: &mut [u8],
    stride: u32,
    range: YuvRange,
    matrix: YuvStandardMatrix,
) -> (r: Result<(), yuv::YuvError>)
    requires
        stride * height <= isize::MAX,
    ensures
        r is Ok <==> (planar_fits(planar(y_plane@, y_stride, u_plane@, u_stride, v_plane@, v_stride, width, height), YuvSubsampling::S420)
            && plane_fits(old(dst)@.len(), stride, width * 4, height as int)),
        r is Err ==> final(dst)@ == old(dst)@,
        final(dst)@.len() == old(dst)@.len(),
        r is Ok ==> yuv420_to_rgba_pixels(planar(y_plane@, y_stride, u_plane@, u_stride, v_plane@, v_stride, width, height), range, matrix, stride, old(dst)@, final(dst)@),
{
    let range = match range {
        YuvRange::Limited => yuv::YuvRange::Limited,
        YuvRange::Full => yuv::YuvRange::Full,
    };
    let matrix = match matrix {
        YuvStandardMatrix::Bt601 => Std::Bt601,
        YuvStandardMatrix::Bt709 => Std::Bt709,
        YuvStandardMatrix::Bt2020 => Std::Bt2020,
        YuvStandardMatrix::Smpte240 => Std::Smpte240,
        YuvStandardMatrix::Fcc => Std::Fcc,
    };
    let image = yuv::YuvPlanarImage { y_plane, y_stride, u_plane, u_stride, v_plane, v_stride, width, height };
    yuv::yuv420_to_rgba(&image, dst, stride, range, matrix)
}

/// The outcomes of `yuv::yuv420_to_bgr`: `after` is a destination that the call may leave where it found
/// `before`.
pub uninterp spec fn yuv420_to_bgr_pixels(image: Planar<u8>, range: YuvRange, matrix: YuvStandardMatrix, stride: u32, before: Seq<u8>, after: Seq<u8>) -> bool;

/// Calls `yuv::yuv420_to_bgr`: 4:2:0 to BGR.
///
/// Claimed of it: it succeeds exactly when the three planes and the destination hold the image,
/// it writes nothing when it fails, and it keeps the destination's length. Which bytes it writes
/// depends on the vector unit that it finds, so a success is only tied to the arguments by
/// `yuv420_to_bgr_pixels`.
#[verifier::external_body]
pub(crate) fn yuv420_to_bgr(
    y_plane: &[u8],
    y_stride: u32,
    u_plane: &[u8],
    u_stride: u32,
    v_plane: &[u8],
    v_stride: u32,
    width: u32,
    height: u32,
    dst: &mut [u8],
    stride: u32,
    range: YuvRange,
    matrix: YuvStandardMatrix,
) -> (r: Result<(), yuv::YuvError>)
    requires
        stride * height <= isize::MAX,
    ensures
        r is Ok <==> (planar_fits(planar(y_plane@, y_stride, u_plane@, u_stride, v_plane@, v_stride, width, height), YuvSubsampling::S420)
            && plane_fits(old(dst)@.len(), stride, width * 3, height as int)),
        r is Err ==> final(dst)@ == old(dst)@,
        final(dst)@.len() == old(dst)@.len(),
        r is Ok ==> yuv420_to_bgr_pixels(planar(y_plane@, y_stride, u_plane@, u_stride, v_plane@, v_stride, width, height), range, matrix, stride, old(dst)@, final(dst)@),
{
    let range = match range {
        YuvRange::Limited => yuv::YuvRange::Limited,
        YuvRange::Full => yuv::YuvRange::Full,
    };
    let matrix = match matrix {
        YuvStandardMatrix::Bt601 => Std::Bt601,
        YuvStandardMatrix::Bt709 => Std::Bt709,
        YuvStandardMatrix::Bt2020 => Std::Bt2020,
        YuvStandardMatrix::Smpte240 => Std::Smpte240,
        YuvStandardMatrix::Fcc => Std::Fcc,
    };
    let image = yuv::YuvPlanarImage { y_plane, y_stride, u_plane, u_stride, v_plane, v_stride, width, height };
    yuv::yuv420_to_bgr(&image, dst, stride, range, matrix)
}

/// The outcomes of `yuv::yuv420_to_bgra`: `after` is a destination that the call may leave where it found
/// `before`.
pub uninterp spec fn yuv420_to_bgra_pixels(image: Planar<u8>, range: YuvRange, matrix: YuvStandardMatrix, stride: u32, before: Seq<u8>, after: Seq<u8>) -> bool;

/// Calls `yuv::yuv420_to_bgra`: 4:2:0 to BGRA.
///
/// Claimed of it: it succeeds exactly when the three planes and the destination hold the image,
/// it writes nothing when it fails, and it keeps the destination's length. Which bytes it writes
/// depends on the vector unit that it finds, so a success is only tied to the arguments by
/// `yuv420_to_bgra_pixels`.
#[verifier::external_body]
pub(crate) fn yuv420_to_bgra(
    y_plane: &[u8],
    y_stride: u32,
    u_plane: &[u8],
    u_stride: u32,
    v_plane: &[u8],
    v_stride: u32,
    width: u32,
    height: u32,
    dst: &mut [u8],
    stride: u32,
    range: YuvRange,
    matrix: YuvStandardMatrix,
) -> (r: Result<(), yuv::YuvError>)
    requires
        stride * height <= isize::MAX,
    ensures
        r is Ok <==> (planar_fits(planar(y_plane@, y_stride, u_plane@, u_stride, v_plane@, v_stride, width, height), YuvSubsampling::S420)
            && plane_fits(old(dst)@.len(), stride, width * 4, height as int)),
        r is Err ==> final(dst)@ == old(dst)@,
        final(dst)@.len() == old(dst)@.len(),
        r is Ok ==> yuv420_to_bgra_pixels(planar(y_plane@, y_stride, u_plane@, u_stride, v_plane@, v_stride, width, height), range, matrix, stride, old(dst)@, final(dst)@),
{
    let range = match range {
        YuvRange::Limited => yuv::YuvRange::Limited,
        YuvRange::Full => yuv::YuvRange::Full,
    };
    let matrix = match matrix {
        YuvStandardMatrix::Bt601 => Std::Bt601,
        YuvStandardMatrix::Bt709 => Std::Bt709,
        YuvStandardMatrix::Bt2020 => Std::Bt2020,
        YuvStandardMatrix::Smpte240 => Std::Smpte240,
        YuvStandardMatrix::Fcc => Std::Fcc,
    };
    let image = yuv::YuvPlanarImage { y_plane, y_stride, u_plane, u_stride, v_plane, v_stride, width, height };
    yuv::yuv420_to_bgra(&image, dst, stride, range, matrix)
}

/// The outcomes of `yuv::yuv422_to_rgb`: `after` is a destination that the call may leave where it found
/// `before`.
pub uninterp spec fn yuv422_to_rgb_pixels(image: Planar<u8>, range: YuvRange, matrix: YuvStandardMatrix, stride: u32, before: Seq<u8>, after: Seq<u8>) -> bool;

/// Calls `yuv::yuv422_to_rgb`: 4:2:2 to RGB.
///
/// Claimed of it: it succeeds exactly when the three planes and the destination hold the image,
/// it writes nothing when it fails, and it keeps the destination's length. Which bytes it writes
/// depends on the vector unit that it finds, so a success is only tied to the arguments by
/// `yuv422_to_rgb_pixels`.
#[verifier::external_body]
pub(crate) fn yuv422_to_rgb(
    y_plane: &[u8],
    y_stride: u32,
    u_plane: &[u8],
    u_stride: u32,
    v_plane: &[u8],
    v_stride: u32,
    width: u32,
    height: u32,
    dst: &mut [u8],
    stride: u32,
    range: YuvRange,
    matrix: YuvStandardMatrix,
) -> (r: Result<(), yuv::YuvError>)
    requires
        stride * height <= isize::MAX,
    ensures
        r is Ok <==> (planar_fits(planar(y_plane@, y_stride, u_plane@, u_stride, v_plane@, v_stride, width, height), YuvSubsampling::S422)
            && plane_fits(old(dst)@.len(), stride, width * 3, height as int)),
        r is Err ==> final(dst)@ == old(dst)@,
        final(dst)@.len() == old(dst)@.len(),
        r is Ok ==> yuv422_to_rgb_pixels(planar(y_plane@, y_stride, u_plane@, u_stride, v_plane@, v_stride, width, height), range, matrix, stride, old(dst)@, final(dst)@),
{
    let range = match range {
        YuvRange::Limited => yuv::YuvRange::Limited,
        YuvRange::Full => yuv::YuvRange::Full,
    };
    let matrix = match matrix {
        YuvStandardMatrix::Bt601 => Std::Bt601,
        YuvStandardMatrix::Bt709 => Std::Bt709,
        YuvStandardMatrix::Bt2020 => Std::Bt2020,
        YuvStandardMatrix::Smpte240 => Std::Smpte240,
        YuvStandardMatrix::Fcc => Std::Fcc,
    };
    let image = yuv::YuvPlanarImage { y_plane, y_stride, u_plane, u_stride, v_plane, v_stride, width, height };
    yuv::yuv422_to_rgb(&image, dst, stride, range, matrix)
}

/// The outcomes of `yuv::yuv422_to_rgba`: `after` is a destination that the call may leave where it found
/// `before`.
pub uninterp spec fn yuv422_to_rgba_pixels(image: Planar<u8>, range: YuvRange, matrix: YuvStandardMatrix, stride: u32, before: Seq<u8>, after: Seq<u8>) -> bool;

/// Calls `yuv::yuv422_to_rgba`: 4:2:2 to RGBA.
///
/// Claimed of it: it succeeds exactly when the three planes and the destination hold the image,
/// it writes nothing when it fails, and it keeps the destination's length. Which bytes it writes
/// depends on the vector unit that it finds, so a success is only tied to the arguments by
/// `yuv422_to_rgba_pixels`.
#[verifier::external_body]
pub(crate) fn yuv422_to_rgba(
    y_plane: &[u8],
    y_stride: u32,
    u_plane: &[u8],
    u_stride: u32,
    v_plane: &[u8],
    v_stride: u32,
    width: u32,
    height: u32,
    dst: &mut [u8],
    stride: u32,
    range: YuvRange,
    matrix: YuvStandardMatrix,
) -> (r: Result<(), yuv::YuvError>)
    requires
        stride * height <= isize::MAX,
    ensures
        r is Ok <==> (planar_fits(planar(y_plane@, y_stride, u_plane@, u_stride, v_plane@, v_stride, width, height), YuvSubsampling::S422)
            && plane_fits(old(dst)@.len(), stride, width * 4, height as int)),
        r is Err ==> final(dst)@ == old(dst)@,
        final(dst)@.len() == old(dst)@.len(),
        r is Ok ==> yuv422_to_rgba_pixels(planar(y_plane@, y_stride, u_plane@, u_stride, v_plane@, v_stride, width, height), range, matrix, stride, old(dst)@, final(dst)@),
{
    let range = match range {
        YuvRange::Limited => yuv::YuvRange::Limited,
        YuvRange::Full => yuv::YuvRange::Full,
    };
    let matrix = match matrix {
        YuvStandardMatrix::Bt601 => Std::Bt601,
        YuvStandardMatrix::Bt709 => Std::Bt709,
        YuvStandardMatrix::Bt2020 => Std::Bt2020,
        YuvStandardMatrix::Smpte240 => Std::Smpte240,
        YuvStandardMatrix::Fcc => Std::Fcc,
    };
    let image = yuv::YuvPlanarImage { y_plane, y_stride, u_plane, u_stride, v_plane, v_stride, width, height };
    yuv::yuv422_to_rgba(&image, dst, stride, range, matrix)
}

/// The outcomes of `yuv::yuv422_to_bgr`: `after` is a destination that the call may leave where it found
/// `before`.
pub uninterp spec fn yuv422_to_bgr_pixels(image: Planar<u8>, range: YuvRange, matrix: YuvStandardMatrix, stride: u32, before: Seq<u8>, after: Seq<u8>) -> bool;

/// Calls `yuv::yuv422_to_bgr`: 4:2:2 to BGR.
///
/// Claimed of it: it succeeds exactly when the three planes and the destination hold the image,
/// it writes nothing when it fails, and it keeps the destination's length. Which bytes it writes
/// depends on the vector unit that it finds, so a success is only tied to the arguments by
/// `yuv422_to_bgr_pixels`.
#[verifier::external_body]
pub(crate) fn yuv422_to_bgr(
    y_plane: &[u8],
    y_stride: u32,
    u_plane: &[u8],
    u_stride: u32,
    v_plane: &[u8],
    v_stride: u32,
    width: u32,
    height: u32,
    dst: &mut [u8],
    stride: u32,
    range: YuvRange,
    matrix: YuvStandardMatrix,
) -> (r: Result<(), yuv::YuvError>)
    requires
        stride * height <= isize::MAX,
    ensures
        r is Ok <==> (planar_fits(planar(y_plane@, y_stride, u_plane@, u_stride, v_plane@, v_stride, width, height), YuvSubsampling::S422)
            && plane_fits(old(dst)@.len(), stride, width * 3, height as int)),
        r is Err ==> final(dst)@ == old(dst)@,
        final(dst)@.len() == old(dst)@.len(),
        r is Ok ==> yuv422_to_bgr_pixels(planar(y_plane@, y_stride, u_plane@, u_stride, v_plane@, v_stride, width, height), range, matrix, stride, old(dst)@, final(dst)@),
{
    let range = match range {
        YuvRange::Limited => yuv::YuvRange::Limited,
        YuvRange::Full => yuv::YuvRange::Full,
    };
    let matrix = match matrix {
        YuvStandardMatrix::Bt601 => Std::Bt601,
        YuvStandardMatrix::Bt709 => Std::Bt709,
        YuvStandardMatrix::Bt2020 => Std::Bt2020,
        YuvStandardMatrix::Smpte240 => Std::Smpte240,
        YuvStandardMatrix::Fcc => Std::Fcc,
    };
    let image = yuv::YuvPlanarImage { y_plane, y_stride, u_plane, u_stride, v_plane, v_stride, width, height };
    yuv::yuv422_to_bgr(&image, dst, stride, range, matrix)
}

/// The outcomes of `yuv::yuv422_to_bgra`: `after` is a destination that the call may leave where it found
/// `before`.
pub uninterp spec fn yuv422_to_bgra_pixels(image: Planar<u8>, range: YuvRange, matrix: YuvStandardMatrix, stride: u32, before: Seq<u8>, after: Seq<u8>) -> bool;

/// Calls `yuv::yuv422_to_bgra`: 4:2:2 to BGRA.
///
/// Claimed of it: it succeeds exactly when the three planes and the destination hold the image,
/// it writes nothing when it fails, and it keeps the destination's length. Which bytes it writes
/// depends on the vector unit that it finds, so a success is only tied to the arguments by
/// `yuv422_to_bgra_pixels`.
#[verifier::external_body]
pub(crate) fn yuv422_to_bgra(
    y_plane: &[u8],
    y_stride: u32,
    u_plane: &[u8],
    u_stride: u32,
    v_plane: &[u8],
    v_stride: u32,
    width: u32,
    height: u32,
    dst: &mut [u8],
    stride: u32,
    range: YuvRange,
    matrix: YuvStandardMatrix,
) -> (r: Result<(), yuv::YuvError>)
    requires
        stride * height <= isize::MAX,
    ensures
        r is Ok <==> (planar_fits(planar(y_plane@, y_stride, u_plane@, u_stride, v_plane@, v_stride, width, height), YuvSubsampling::S422)
            && plane_fits(old(dst)@.len(), stride, width * 4, height as int)),
        r is Err ==> final(dst)@ == old(dst)@,
        final(dst)@.len() == old(dst)@.len(),
        r is Ok ==> yuv422_to_bgra_pixels(planar(y_plane@, y_stride, u_plane@, u_stride, v_plane@, v_stride, width, height), range, matrix, stride, old(dst)@, final(dst)@),
{
    let range = match range {
        YuvRange::Limited => yuv::YuvRange::Limited,
        YuvRange::Full => yuv::YuvRange::Full,
    };
    let matrix = match matrix {
        YuvStandardMatrix::Bt601 => Std::Bt601,
        YuvStandardMatrix::Bt709 => Std::Bt709,
        YuvStandardMatrix::Bt2020 => Std::Bt2020,
        YuvStandardMatrix::Smpte240 => Std::Smpte240,
        YuvStandardMatrix::Fcc => Std::Fcc,
    };
    let image = yuv::YuvPlanarImage { y_plane, y_stride, u_plane, u_stride, v_plane, v_stride, width, height };
    yuv::yuv422_to_bgra(&image, dst, stride, range, matrix)
}

/// The outcomes of `yuv::yuv444_to_rgb`: `after` is a destination that the call may leave where it found
/// `before`.
pub uninterp spec fn yuv444_to_rgb_pixels(image: Planar<u8>, range: YuvRange, matrix: YuvStandardMatrix, stride: u32, before: Seq<u8>, after: Seq<u8>) -> bool;

/// Calls `yuv::yuv444_to_rgb`: 4:4:4 to RGB.
///
/// Claimed of it: it succeeds exactly when the three planes and the destination hold the image,
/// it writes nothing when it fails, and it keeps the destination's length. Which bytes it writes
/// depends on the vector unit that it finds, so a success is only tied to the arguments by
/// `yuv444_to_rgb_pixels`.
#[verifier::external_body]
pub(crate) fn yuv444_to_rgb(
    y_plane: &[u8],
    y_stride: u32,
    u_plane: &[u8],
    u_stride: u32,
    v_plane: &[u8],
    v_stride: u32,
    width: u32,
    height: u32,
    dst: &mut [u8],
    stride: u32,
    range: YuvRange,
    matrix: YuvStandardMatrix,
) -> (r: Result<(), yuv::YuvError>)
    requires
        stride * height <= isize::MAX,
    ensures
        r is Ok <==> (planar_fits(planar(y_plane@, y_stride, u_plane@, u_stride, v_plane@, v_stride, width, height), YuvSubsampling::S444)
            && plane_fits(old(dst)@.len(), stride, width * 3, height as int)),
        r is Err ==> final(dst)@ == old(dst)@,
        final(dst)@.len() == old(dst)@.len(),
        r is Ok ==> yuv444_to_rgb_pixels(planar(y_plane@, y_stride, u_plane@, u_stride, v_plane@, v_stride, width, height), range, matrix, stride, old(dst)@, final(dst)@),
{
    let range = match range {
        YuvRange::Limited => yuv::YuvRange::Limited,
        YuvRange::Full => yuv::YuvRange::Full,
    };
    let matrix = match matrix {
        YuvStandardMatrix::Bt601 => Std::Bt601,
        YuvStandardMatrix::Bt709 => Std::Bt709,
        YuvStandardMatrix::Bt2020 => Std::Bt2020,
        YuvStandardMatrix::Smpte240 => Std::Smpte240,
        YuvStandardMatrix::Fcc => Std::Fcc,
    };
    let image = yuv::YuvPlanarImage { y_plane, y_stride, u_plane, u_stride, v_plane, v_stride, width, height };
    yuv::yuv444_to_rgb(&image, dst, stride, range, matrix)
}

/// The outcomes of `yuv::yuv444_to_rgba`: `after` is a destination that the call may leave where it found
/// `before`.
pub uninterp spec fn yuv444_to_rgba_pixels(image: Planar<u8>, range: YuvRange, matrix: YuvStandardMatrix, stride: u32, before: Seq<u8>, after: Seq<u8>) -> bool;

/// Calls `yuv::yuv444_to_rgba`: 4:4:4 to RGBA.
///
/// Claimed of it: it succeeds exactly when the three planes and the destination hold the image,
/// it writes nothing when it fails, and it keeps the destination's length. Which bytes it writes
/// depends on the vector unit that it finds, so a success is only tied to the arguments by
/// `yuv444_to_rgba_pixels`.
#[verifier::external_body]
pub(crate) fn yuv444_to_rgba(
    y_plane: &[u8],
    y_stride: u32,
    u_plane: &[u8],
    u_stride: u32,
    v_plane: &[u8],
    v_stride: u32,
    width: u32,
    height: u32,
    dst: &mut [u8],
    stride: u32,
    range: YuvRange,
    matrix: YuvStandardMatrix,
) -> (r: Result<(), yuv::YuvError>)
    requires
        stride * height <= isize::MAX,
    ensures
        r is Ok <==> (planar_fits(planar(y_plane@, y_stride, u_plane@, u_stride, v_plane@, v_stride, width, height), YuvSubsampling::S444)
            && plane_fits(old(dst)@.len(), stride, width * 4, height as int)),
        r is Err ==> final(dst)@ == old(dst)@,
        final(dst)@.len() == old(dst)@.len(),
        r is Ok ==> yuv444_to_rgba_pixels(planar(y_plane@, y_stride, u_plane@, u_stride, v_plane@, v_stride, width, height), range, matrix, stride, old(dst)@, final(dst)@),
{
    let range = match range {
        YuvRange::Limited => yuv::YuvRange::Limited,
        YuvRange::Full => yuv::YuvRange::Full,
    };
    let matrix = match matrix {
        YuvStandardMatrix::Bt601 => Std::Bt601,
        YuvStandardMatrix::Bt709 => Std::Bt709,
        YuvStandardMatrix::Bt2020 => Std::Bt2020,
        YuvStandardMatrix::Smpte240 => Std::Smpte240,
        YuvStandardMatrix::Fcc => Std::Fcc,
    };
    let image = yuv::YuvPlanarImage { y_plane, y_stride, u_plane, u_stride, v_plane, v_stride, width, height };
    yuv::yuv444_to_rgba(&image, dst, stride, range, matrix)
}

/// The outcomes of `yuv::yuv444_to_bgr`: `after` is a destination that the call may leave where it found
/// `before`.
pub uninterp spec fn yuv444_to_bgr_pixels(image: Planar<u8>, range: YuvRange, matrix: YuvStandardMatrix, stride: u32, before: Seq<u8>, after: Seq<u8>) -> bool;

/// Calls `yuv::yuv444_to_bgr`: 4:4:4 to BGR.
///
/// Claimed of it: it succeeds exactly when the three planes and the destination hold the image,
/// it writes nothing when it fails, and it keeps the destination's length. Which bytes it writes
/// depends on the vector unit that it finds, so a success is only tied to the arguments by
/// `yuv444_to_bgr_pixels`.
#[verifier::external_body]
pub(crate) fn yuv444_to_bgr(
    y_plane: &[u8],
    y_stride: u32,
    u_plane: &[u8],
    u_stride: u32,
    v_plane: &[u8],
    v_stride: u32,
    width: u32,
    height: u32,
    dst: &mut [u8],
    stride: u32,
    range: YuvRange,
    matrix: YuvStandardMatrix,
) -> (r: Result<(), yuv::YuvError>)
    requires
        stride * height <= isize::MAX,
    ensures
        r is Ok <==> (planar_fits(planar(y_plane@, y_stride, u_plane@, u_stride, v_plane@, v_stride, width, height), YuvSubsampling::S444)
            && plane_fits(old(dst)@.len(), stride, width * 3, height as int)),
        r is Err ==> final(dst)@ == old(dst)@,
        final(dst)@.len() == old(dst)@.len(),
        r is Ok ==> yuv444_to_bgr_pixels(planar(y_plane@, y_stride, u_plane@, u_stride, v_plane@, v_stride, width, height), range, matrix, stride, old(dst)@, final(dst)@),
{
    let range = match range {
        YuvRange::Limited => yuv::YuvRange::Limited,
        YuvRange::Full => yuv::YuvRange::Full,
    };
    let matrix = match matrix {
        YuvStandardMatrix::Bt601 => Std::Bt601,
        YuvStandardMatrix::Bt709 => Std::Bt709,
        YuvStandardMatrix::Bt2020 => Std::Bt2020,
        YuvStandardMatrix::Smpte240 => Std::Smpte240,
        YuvStandardMatrix::Fcc => Std::Fcc,
    };
    let image = yuv::YuvPlanarImage { y_plane, y_stride, u_plane, u_stride, v_plane, v_stride, width, height };
    yuv::yuv444_to_bgr(&image, dst, stride, range, matrix)
}

/// The outcomes of `yuv::yuv444_to_bgra`: `after` is a destination that the call may leave where it found
/// `before`.
pub uninterp spec fn yuv444_to_bgra_pixels(image: Planar<u8>, range: YuvRange, matrix: YuvStandardMatrix, stride: u32, before: Seq<u8>, after: Seq<u8>) -> bool;

/// Calls `yuv::yuv444_to_bgra`: 4:4:4 to BGRA.
///
/// Claimed of it: it succeeds exactly when the three planes and the destination hold the image,
/// it writes nothing when it fails, and it keeps the destination's length. Which bytes it writes
/// depends on the vector unit that it finds, so a success is only tied to the arguments by
/// `yuv444_to_bgra_pixels`.
#[verifier::external_body]
pub(crate) fn yuv444_to_bgra(
    y_plane: &[u8],
    y_stride: u32,
    u_plane: &[u8],
    u_stride: u32,
    v_plane: &[u8],
    v_stride: u32,
    width: u32,
    height: u32,
    dst: &mut [u8],
    stride: u32,
    range: YuvRange,
    matrix: YuvStandardMatrix,
) -> (r: Result<(), yuv::YuvError>)
    requires
        stride * height <= isize::MAX,
    ensures
        r is Ok <==> (planar_fits(planar(y_plane@, y_stride, u_plane@, u_stride, v_plane@, v_stride, width, height), YuvSubsampling::S444)
            && plane_fits(old(dst)@.len(), stride, width * 4, height as int)),
        r is Err ==> final(dst)@ == old(dst)@,
        final(dst)@.len() == old(dst)@.len(),
        r is Ok ==> yuv444_to_bgra_pixels(planar(y_plane@, y_stride, u_plane@, u_stride, v_plane@, v_stride, width, height), range, matrix, stride, old(dst)@, final(dst)@),
{
    let range = match range {
        YuvRange::Limited => yuv::YuvRange::Limited,
        YuvRange::Full => yuv::YuvRange::Full,
    };
    let matrix = match matrix {
        YuvStandardMatrix::Bt601 => Std::Bt601,
        YuvStandardMatrix::Bt709 => Std::Bt709,
        YuvStandardMatrix::Bt2020 => Std::Bt2020,
        YuvStandardMatrix::Smpte240 => Std::Smpte240,
        YuvStandardMatrix::Fcc => Std::Fcc,
    };
    let image = yuv::YuvPlanarImage { y_plane, y_stride, u_plane, u_stride, v_plane, v_stride, width, height };
    yuv::yuv444_to_bgra(&image, dst, stride, range, matrix)
}

/// The outcomes of `yuv::i010_to_rgb`: `after` is a destination that the call may leave where it found
/// `before`.
pub uninterp spec fn i010_to_rgb_pixels(image: Planar<u16>, range: YuvRange, matrix: YuvStandardMatrix, stride: u32, before: Seq<u8>, after: Seq<u8>) -> bool;

/// Calls `yuv::i010_to_rgb`: I010 samples to RGB.
///
/// Claimed of it: it succeeds exactly when the three planes and the destination hold the image,
/// it writes nothing when it fails, and it keeps the destination's length. Which bytes it writes
/// depends on the vector unit that it finds, so a success is only tied to the arguments by
/// `i010_to_rgb_pixels`.
#[verifier::external_body]
pub(crate) fn i010_to_rgb(
    y_plane: &[u16],
    y_stride: u32,
    u_plane: &[u16],
    u_stride: u32,
    v_plane: &[u16],
    v_stride: u32,
    width: u32,
    height: u32,
    dst: &mut [u8],
    stride: u32,
    range: YuvRange,
    matrix: YuvStandardMatrix,
) -> (r: Result<(), yuv::YuvError>)
    requires
        stride * height <= isize::MAX,
    ensures
        r is Ok <==> (planar_fits(planar(y_plane@, y_stride, u_plane@, u_stride, v_plane@, v_stride, width, height), YuvSubsampling::S420)
            && plane_fits(old(dst)@.len(), stride, width * 3, height as int)),
        r is Err ==> final(dst)@ == old(dst)@,
        final(dst)@.len() == old(dst)@.len(),
        r is Ok ==> i010_to_rgb_pixels(planar(y_plane@, y_stride, u_plane@, u_stride, v_plane@, v_stride, width, height), range, matrix, stride, old(dst)@, final(dst)@),
{
    let range = match range {
        YuvRange::Limited => yuv::YuvRange::Limited,
        YuvRange::Full => yuv::YuvRange::Full,
    };
    let matrix = match matrix {
        YuvStandardMatrix::Bt601 => Std::Bt601,
        YuvStandardMatrix::Bt709 => Std::Bt709,
        YuvStandardMatrix::Bt2020 => Std::Bt2020,
        YuvStandardMatrix::Smpte240 => Std::Smpte240,
        YuvStandardMatrix::Fcc => Std::Fcc,
    };
    let image = yuv::YuvPlanarImage { y_plane, y_stride, u_plane, u_stride, v_plane, v_stride, width, height };
    yuv::i010_to_rgb(&image, dst, stride, range, matrix)
}

/// The outcomes of `yuv::i010_to_rgba`: `after` is a destination that the call may leave where it found
/// `before`.
pub uninterp spec fn i010_to_rgba_pixels(image: Planar<u16>, range: YuvRange, matrix: YuvStandardMatrix, stride: u32, before: Seq<u8>, after: Seq<u8>) -> bool;

/// Calls `yuv::i010_to_rgba`: I010 samples to RGBA.
///
/// Claimed of it: it succeeds exactly when the three planes and the destination hold the image,
/// it writes nothing when it fails, and it keeps the destination's length. Which bytes it writes
/// depends on the vector unit that it finds, so a success is only tied to the arguments by
/// `i010_to_rgba_pixels`.
#[verifier::external_body]
pub(crate) fn i010_to_rgba(
    y_plane: &[u16],
    y_stride: u32,
    u_plane: &[u16],
    u_stride: u32,
    v_plane: &[u16],
    v_stride: u32,
    width: u32,
    height: u32,
    dst: &mut [u8],
    stride: u32,
    range: YuvRange,
    matrix: YuvStandardMatrix,
) -> (r: Result<(), yuv::YuvError>)
    requires
        stride * height <= isize::MAX,
    ensures
        r is Ok <==> (planar_fits(planar(y_plane@, y_stride, u_plane@, u_stride, v_plane@, v_stride, width, height), YuvSubsampling::S420)
            && plane_fits(old(dst)@.len(), stride, width * 4, height as int)),
        r is Err ==> final(dst)@ == old(dst)@,
        final(dst)@.len() == old(dst)@.len(),
        r is Ok ==> i010_to_rgba_pixels(planar(y_plane@, y_stride, u_plane@, u_stride, v_plane@, v_stride, width, height), range, matrix, stride, old(dst)@, final(dst)@),
{
    let range = match range {
        YuvRange::Limited => yuv::YuvRange::Limited,
        YuvRange::Full => yuv::YuvRange::Full,
    };
    let matrix = match matrix {
        YuvStandardMatrix::Bt601 => Std::Bt601,
        YuvStandardMatrix::Bt709 => Std::Bt709,
        YuvStandardMatrix::Bt2020 => Std::Bt2020,
        YuvStandardMatrix::Smpte240 => Std::Smpte240,
        YuvStandardMatrix::Fcc => Std::Fcc,
    };
    let image = yuv::YuvPlanarImage { y_plane, y_stride, u_plane, u_stride, v_plane, v_stride, width, height };
    yuv::i010_to_rgba(&image, dst, stride, range, matrix)
}

/// The outcomes of `yuv::i010_to_bgr`: `after` is a destination that the call may leave where it found
/// `before`.
pub uninterp spec fn i010_to_bgr_pixels(image: Planar<u16>, range: YuvRange, matrix: YuvStandardMatrix, stride: u32, before: Seq<u8>, after: Seq<u8>) -> bool;

/// Calls `yuv::i010_to_bgr`: I010 samples to BGR.
///
/// Claimed of it: it succeeds exactly when the three planes and the destination hold the image,
/// it writes nothing when it fails, and it keeps the destination's length. Which bytes it writes
/// depends on the vector unit that it finds, so a success is only tied to the arguments by
/// `i010_to_bgr_pixels`.
#[verifier::external_body]
pub(crate) fn i010_to_bgr(
    y_plane: &[u16],
    y_stride: u32,
    u_plane: &[u16],
    u_stride: u32,
    v_plane: &[u16],
    v_stride: u32,
    width: u32,
    height: u32,
    dst: &mut [u8],
    stride: u32,
    range: YuvRange,
    matrix: YuvStandardMatrix,
) -> (r: Result<(), yuv::YuvError>)
    requires
        stride * height <= isize::MAX,
    ensures
        r is Ok <==> (planar_fits(planar(y_plane@, y_stride, u_plane@, u_stride, v_plane@, v_stride, width, height), YuvSubsampling::S420)
            && plane_fits(old(dst)@.len(), stride, width * 3, height as int)),
        r is Err ==> final(dst)@ == old(dst)@,
        final(dst)@.len() == old(dst)@.len(),
        r is Ok ==> i010_to_bgr_pixels(planar(y_plane@, y_stride, u_plane@, u_stride, v_plane@, v_stride, width, height), range, matrix, stride, old(dst)@, final(dst)@),
{
    let range = match range {
        YuvRange::Limited => yuv::YuvRange::Limited,
        YuvRange::Full => yuv::YuvRange::Full,
    };
    let matrix = match matrix {
        YuvStandardMatrix::Bt601 => Std::Bt601,
        YuvStandardMatrix::Bt709 => Std::Bt709,
        YuvStandardMatrix::Bt2020 => Std::Bt2020,
        YuvStandardMatrix::Smpte240 => Std::Smpte240,
        YuvStandardMatrix::Fcc => Std::Fcc,
    };
    let image = yuv::YuvPlanarImage { y_plane, y_stride, u_plane, u_stride, v_plane, v_stride, width, height };
    yuv::i010_to_bgr(&image, dst, stride, range, matrix)
}

/// The outcomes of `yuv::i010_to_bgra`: `after` is a destination that the call may leave where it found
/// `before`.
pub uninterp spec fn i010_to_bgra_pixels(image: Planar<u16>, range: YuvRange, matrix: YuvStandardMatrix, stride: u32, before: Seq<u8>, after: Seq<u8>) -> bool;

/// Calls `yuv::i010_to_bgra`: I010 samples to BGRA.
///
/// Claimed of it: it succeeds exactly when the three planes and the destination hold the image,
/// it writes nothing when it fails, and it keeps the destination's length. Which bytes it writes
/// depends on the vector unit that it finds, so a success is only tied to the arguments by
/// `i010_to_bgra_pixels`.
#[verifier::external_body]
pub(crate) fn i010_to_bgra(
    y_plane: &[u16],
    y_stride: u32,
    u_plane: &[u16],
    u_stride: u32,
    v_plane: &[u16],
    v_stride: u32,
    width: u32,
    height: u32,
    dst: &mut [u8],
    stride: u32,
    range: YuvRange,
    matrix: YuvStandardMatrix,
) -> (r: Result<(), yuv::YuvError>)
    requires
        stride * height <= isize::MAX,
    ensures
        r is Ok <==> (planar_fits(planar(y_plane@, y_stride, u_plane@, u_stride, v_plane@, v_stride, width, height), YuvSubsampling::S420)
            && plane_fits(old(dst)@.len(), stride, width * 4, height as int)),
        r is Err ==> final(dst)@ == old(dst)@,
        final(dst)@.len() == old(dst)@.len(),
        r is Ok ==> i010_to_bgra_pixels(planar(y_plane@, y_stride, u_plane@, u_stride, v_plane@, v_stride, width, height), range, matrix, stride, old(dst)@, final(dst)@),
{
    let range = match range {
        YuvRange::Limited => yuv::YuvRange::Limited,
        YuvRange::Full => yuv::YuvRange::Full,
    };
    let matrix = match matrix {
        YuvStandardMatrix::Bt601 => Std::Bt601,
        YuvStandardMatrix::Bt709 => Std::Bt709,
        YuvStandardMatrix::Bt2020 => Std::Bt2020,
        YuvStandardMatrix::Smpte240 => Std::Smpte240,
        YuvStandardMatrix::Fcc => Std::Fcc,
    };
    let image = yuv::YuvPlanarImage { y_plane, y_stride, u_plane, u_stride, v_plane, v_stride, width, height };
    yuv::i010_to_bgra(&image, dst, stride, range, matrix)
}

/// The outcomes of `yuv::i210_to_rgb`: `after` is a destination that the call may leave where it found
/// `before`.
pub uninterp spec fn i210_to_rgb_pixels(image: Planar<u16>, range: YuvRange, matrix: YuvStandardMatrix, stride: u32, before: Seq<u8>, after: Seq<u8>) -> bool;

/// Calls `yuv::i210_to_rgb`: I210 samples to RGB.
///
/// Claimed of it: it succeeds exactly when the three planes and the destination hold the image,
/// it writes nothing when it fails, and it keeps the destination's length. Which bytes it writes
/// depends on the vector unit that it finds, so a success is only tied to the arguments by
/// `i210_to_rgb_pixels`.
#[verifier::external_body]
pub(crate) fn i210_to_rgb(
    y_plane: &[u16],
    y_stride: u32,
    u_plane: &[u16],
    u_stride: u32,
    v_plane: &[u16],
    v_stride: u32,
    width: u32,
    height: u32,
    dst: &mut [u8],
    stride: u32,
    range: YuvRange,
    matrix: YuvStandardMatrix,
) -> (r: Result<(), yuv::YuvError>)
    requires
        stride * height <= isize::MAX,
    ensures
        r is Ok <==> (planar_fits(planar(y_plane@, y_stride, u_plane@, u_stride, v_plane@, v_stride, width, height), YuvSubsampling::S422)
            && plane_fits(old(dst)@.len(), stride, width * 3, height as int)),
        r is Err ==> final(dst)@ == old(dst)@,
        final(dst)@.len() == old(dst)@.len(),
        r is Ok ==> i210_to_rgb_pixels(planar(y_plane@, y_stride, u_plane@, u_stride, v_plane@, v_stride, width, height), range, matrix, stride, old(dst)@, final(dst)@),
{
    let range = match range {
        YuvRange::Limited => yuv::YuvRange::Limited,
        YuvRange::Full => yuv::YuvRange::Full,
    };
    let matrix = match matrix {
        YuvStandardMatrix::Bt601 => Std::Bt601,
        YuvStandardMatrix::Bt709 => Std::Bt709,
        YuvStandardMatrix::Bt2020 => Std::Bt2020,
        YuvStandardMatrix::Smpte240 => Std::Smpte240,
        YuvStandardMatrix::Fcc => Std::Fcc,
    };
    let image = yuv::YuvPlanarImage { y_plane, y_stride, u_plane, u_stride, v_plane, v_stride, width, height };
    yuv::i210_to_rgb(&image, dst, stride, range, matrix)
}

/// The outcomes of `yuv::i210_to_rgba`: `after` is a destination that the call may leave where it found
/// `before`.
pub uninterp spec fn i210_to_rgba_pixels(image: Planar<u16>, range: YuvRange, matrix: YuvStandardMatrix, stride: u32, before: Seq<u8>, after: Seq<u8>) -> bool;

/// Calls `yuv::i210_to_rgba`: I210 samples to RGBA.
///
/// Claimed of it: it succeeds exactly when the three planes and the destination hold the image,
/// it writes nothing when it fails, and it keeps the destination's length. Which bytes it writes
/// depends on the vector unit that it finds, so a success is only tied to the arguments by
/// `i210_to_rgba_pixels`.
#[verifier::external_body]
pub(crate) fn i210_to_rgba(
    y_plane: &[u16],
    y_stride: u32,
    u_plane: &[u16],
    u_stride: u32,
    v_plane: &[u16],
    v_stride: u32,
    width: u32,
    height: u32,
    dst: &mut [u8],
    stride: u32,
    range: YuvRange,
    matrix: YuvStandardMatrix,
) -> (r: Result<(), yuv::YuvError>)
    requires
        stride * height <= isize::MAX,
    ensures
        r is Ok <==> (planar_fits(planar(y_plane@, y_stride, u_plane@, u_stride, v_plane@, v_stride, width, height), YuvSubsampling::S422)
            && plane_fits(old(dst)@.len(), stride, width * 4, height as int)),
        r is Err ==> final(dst)@ == old(dst)@,
        final(dst)@.len() == old(dst)@.len(),
        r is Ok ==> i210_to_rgba_pixels(planar(y_plane@, y_stride, u_plane@, u_stride, v_plane@, v_stride, width, height), range, matrix, stride, old(dst)@, final(dst)@),
{
    let range = match range {
        YuvRange::Limited => yuv::YuvRange::Limited,
        YuvRange::Full => yuv::YuvRange::Full,
    };
    let matrix = match matrix {
        YuvStandardMatrix::Bt601 => Std::Bt601,
        YuvStandardMatrix::Bt709 => Std::Bt709,
        YuvStandardMatrix::Bt2020 => Std::Bt2020,
        YuvStandardMatrix::Smpte240 => Std::Smpte240,
        YuvStandardMatrix::Fcc => Std::Fcc,
    };
    let image = yuv::YuvPlanarImage { y_plane, y_stride, u_plane, u_stride, v_plane, v_stride, width, height };
    yuv::i210_to_rgba(&image, dst, stride, range, matrix)
}

/// The outcomes of `yuv::i210_to_bgr`: `after` is a destination that the call may leave where it found
/// `before`.
pub uninterp spec fn i210_to_bgr_pixels(image: Planar<u16>, range: YuvRange, matrix: YuvStandardMatrix, stride: u32, before: Seq<u8>, after: Seq<u8>) -> bool;

/// Calls `yuv::i210_to_bgr`: I210 samples to BGR.
///
/// Claimed of it: it succeeds exactly when the three planes and the destination hold the image,
/// it writes nothing when it fails, and it keeps the destination's length. Which bytes it writes
/// depends on the vector unit that it finds, so a success is only tied to the arguments by
/// `i210_to_bgr_pixels`.
#[verifier::external_body]
pub(crate) fn i210_to_bgr(
    y_plane: &[u16],
    y_stride: u32,
    u_plane: &[u16],
    u_stride: u32,
    v_plane: &[u16],
    v_stride: u32,
    width: u32,
    height: u32,
    dst: &mut [u8],
    stride: u32,
    range: YuvRange,
    matrix: YuvStandardMatrix,
) -> (r: Result<(), yuv::YuvError>)
    requires
        stride * height <= isize::MAX,
    ensures
        r is Ok <==> (planar_fits(planar(y_plane@, y_stride, u_plane@, u_stride, v_plane@, v_stride, width, height), YuvSubsampling::S422)
            && plane_fits(old(dst)@.len(), stride, width * 3, height as int)),
        r is Err ==> final(dst)@ == old(dst)@,
        final(dst)@.len() == old(dst)@.len(),
        r is Ok ==> i210_to_bgr_pixels(planar(y_plane@, y_stride, u_plane@, u_stride, v_plane@, v_stride, width, height), range, matrix, stride, old(dst)@, final(dst)@),
{
    let range = match range {
        YuvRange::Limited => yuv::YuvRange::Limited,
        YuvRange::Full => yuv::YuvRange::Full,
    };
    let matrix = match matrix {
        YuvStandardMatrix::Bt601 => Std::Bt601,
        YuvStandardMatrix::Bt709 => Std::Bt709,
        YuvStandardMatrix::Bt2020 => Std::Bt2020,
        YuvStandardMatrix::Smpte240 => Std::Smpte240,
        YuvStandardMatrix::Fcc => Std::Fcc,
    };
    let image = yuv::YuvPlanarImage { y_plane, y_stride, u_plane, u_stride, v_plane, v_stride, width, height };
    yuv::i210_to_bgr(&image, dst, stride, range, matrix)
}

/// The outcomes of `yuv::i210_to_bgra`: `after` is a destination that the call may leave where it found
/// `before`.
pub uninterp spec fn i210_to_bgra_pixels(image: Planar<u16>, range: YuvRange, matrix: YuvStandardMatrix, stride: u32, before: Seq<u8>, after: Seq<u8>) -> bool;

/// Calls `yuv::i210_to_bgra`: I210 samples to BGRA.
///
/// Claimed of it: it succeeds exactly when the three planes and the destination hold the image,
/// it writes nothing when it fails, and it keeps the destination's length. Which bytes it writes
/// depends on the vector unit that it finds, so a success is only tied to the arguments by
/// `i210_to_bgra_pixels`.
#[verifier::external_body]
pub(crate) fn i210_to_bgra(
    y_plane: &[u16],
    y_stride: u32,
    u_plane: &[u16],
    u_stride: u32,
    v_plane: &[u16],
    v_stride: u32,
    width: u32,
    height: u32,
    dst: &mut [u8],
    stride: u32,
    range: YuvRange,
    matrix: YuvStandardMatrix,
) -> (r: Result<(), yuv::YuvError>)
    requires
        stride * height <= isize::MAX,
    ensures
        r is Ok <==> (planar_fits(planar(y_plane@, y_stride, u_plane@, u_stride, v_plane@, v_stride, width, height), YuvSubsampling::S422)
            && plane_fits(old(dst)@.len(), stride, width * 4, height as int)),
        r is Err ==> final(dst)@ == old(dst)@,
        final(dst)@.len() == old(dst)@.len(),
        r is Ok ==> i210_to_bgra_pixels(planar(y_plane@, y_stride, u_plane@, u_stride, v_plane@, v_stride, width, height), range, matrix, stride, old(dst)@, final(dst)@),
{
    let range = match range {
        YuvRange::Limited => yuv::YuvRange::Limited,
        YuvRange::Full => yuv::YuvRange::Full,
    };
    let matrix = match matrix {
        YuvStandardMatrix::Bt601 => Std::Bt601,
        YuvStandardMatrix::Bt709 => Std::Bt709,
        YuvStandardMatrix::Bt2020 => Std::Bt2020,
        YuvStandardMatrix::Smpte240 => Std::Smpte240,
        YuvStandardMatrix::Fcc => Std::Fcc,
    };
    let image = yuv::YuvPlanarImage { y_plane, y_stride, u_plane, u_stride, v_plane, v_stride, width, height };
    yuv::i210_to_bgra(&image, dst, stride, range, matrix)
}

/// The outcomes of `yuv::i410_to_rgba`: `after` is a destination that the call may leave where it found
/// `before`.
pub uninterp spec fn i410_to_rgba_pixels(image: Planar<u16>, range: YuvRange, matrix: YuvStandardMatrix, stride: u32, before: Seq<u8>, after: Seq<u8>) -> bool;

/// Calls `yuv::i410_to_rgba`: I410 samples to RGBA.
///
/// Claimed of it: it succeeds exactly when the three planes and the destination hold the image,
/// it writes nothing when it fails, and it keeps the destination's length. Which bytes it writes
/// depends on the vector unit that it finds, so a success is only tied to the arguments by
/// `i410_to_rgba_pixels`.
#[verifier::external_body]
pub(crate) fn i410_to_rgba(
    y_plane: &[u16],
    y_stride: u32,
    u_plane: &[u16],
    u_stride: u32,
    v_plane: &[u16],
    v_stride: u32,
    width: u32,
    height: u32,
    dst: &mut [u8],
    stride: u32,
    range: YuvRange,
    matrix: YuvStandardMatrix,
) -> (r: Result<(), yuv::YuvError>)
    requires
        stride * height <= isize::MAX,
    ensures
        r is Ok <==> (planar_fits(planar(y_plane@, y_stride, u_plane@, u_stride, v_plane@, v_stride, width, height), YuvSubsampling::S444)
            && plane_fits(old(dst)@.len(), stride, width * 4, height as int)),
        r is Err ==> final(dst)@ == old(dst)@,
        final(dst)@.len() == old(dst)@.len(),
        r is Ok ==> i410_to_rgba_pixels(planar(y_plane@, y_stride, u_plane@, u_stride, v_plane@, v_stride, width, height), range, matrix, stride, old(dst)@, final(dst)@),
{
    let range = match range {
        YuvRange::Limited => yuv::YuvRange::Limited,
        YuvRange::Full => yuv::YuvRange::Full,
    };
    let matrix = match matrix {
        YuvStandardMatrix::Bt601 => Std::Bt601,
        YuvStandardMatrix::Bt709 => Std::Bt709,
        YuvStandardMatrix::Bt2020 => Std::Bt2020,
        YuvStandardMatrix::Smpte240 => Std::Smpte240,
        YuvStandardMatrix::Fcc => Std::Fcc,
    };
    let image = yuv::YuvPlanarImage { y_plane, y_stride, u_plane, u_stride, v_plane, v_stride, width, height };
    yuv::i410_to_rgba(&image, dst, stride, range, matrix)
}

/// The outcomes of `yuv::yuv420_alpha_to_rgba` without premultiplication: `after` is a destination that the call
/// may leave where it found `before`.
pub uninterp spec fn yuv420_alpha_to_rgba_pixels(image: PlanarAlpha, range: YuvRange, matrix: YuvStandardMatrix, stride: u32, before: Seq<u8>, after: Seq<u8>) -> bool;

/// Calls `yuv::yuv420_alpha_to_rgba` without premultiplication: 4:2:0 with alpha to RGBA.
///
/// Claimed of it: it succeeds exactly when the four planes and the destination hold the image, it
/// writes nothing when it fails, and it keeps the destination's length. Which bytes it writes
/// depends on the vector unit that it finds, so a success is only tied to the arguments by
/// `yuv420_alpha_to_rgba_pixels`.
#[verifier::external_body]
pub(crate) fn yuv420_alpha_to_rgba(
    y_plane: &[u8],
    y_stride: u32,
    u_plane: &[u8],
    u_stride: u32,
    v_plane: &[u8],
    v_stride: u32,
    a_plane: &[u8],
    a_stride: u32,
    width: u32,
    height: u32,
    dst: &mut [u8],
    stride: u32,
    range: YuvRange,
    matrix: YuvStandardMatrix,
) -> (r: Result<(), yuv::YuvError>)
    requires
        stride * height <= isize::MAX,
    ensures
        r is Ok <==> (planar_alpha_fits(planar_alpha(y_plane@, y_stride, u_plane@, u_stride, v_plane@, v_stride, a_plane@, a_stride, width, height), YuvSubsampling::S420)
            && plane_fits(old(dst)@.len(), stride, width * 4, height as int)),
        r is Err ==> final(dst)@ == old(dst)@,
        final(dst)@.len() == old(dst)@.len(),
        r is Ok ==> yuv420_alpha_to_rgba_pixels(planar_alpha(y_plane@, y_stride, u_plane@, u_stride, v_plane@, v_stride, a_plane@, a_stride, width, height), range, matrix, stride, old(dst)@, final(dst)@),
{
    let range = match range {
        YuvRange::Limited => yuv::YuvRange::Limited,
        YuvRange::Full => yuv::YuvRange::Full,
    };
    let matrix = match matrix {
        YuvStandardMatrix::Bt601 => Std::Bt601,
        YuvStandardMatrix::Bt709 => Std::Bt709,
        YuvStandardMatrix::Bt2020 => Std::Bt2020,
        YuvStandardMatrix::Smpte240 => Std::Smpte240,
        YuvStandardMatrix::Fcc => Std::Fcc,
    };
    let image = yuv::YuvPlanarImageWithAlpha { y_plane, y_stride, u_plane, u_stride, v_plane, v_stride, a_plane, a_stride, width, height };
    yuv::yuv420_alpha_to_rgba(&image, dst, stride, range, matrix, false)
}

/// The outcomes of `yuv::yuv422_alpha_to_rgba` without premultiplication: `after` is a destination that the call
/// may leave where it found `before`.
pub uninterp spec fn yuv422_alpha_to_rgba_pixels(image: PlanarAlpha, range: YuvRange, matrix: YuvStandardMatrix, stride: u32, before: Seq<u8>, after: Seq<u8>) -> bool;

/// Calls `yuv::yuv422_alpha_to_rgba` without premultiplication: 4:2:2 with alpha to RGBA.
///
/// Claimed of it: it succeeds exactly when the four planes and the destination hold the image, it
/// writes nothing when it fails, and it keeps the destination's length. Which bytes it writes
/// depends on the vector unit that it finds, so a success is only tied to the arguments by
/// `yuv422_alpha_to_rgba_pixels`.
#[verifier::external_body]
pub(crate) fn yuv422_alpha_to_rgba(
    y_plane: &[u8],
    y_stride: u32,
    u_plane: &[u8],
    u_stride: u32,
    v_plane: &[u8],
    v_stride: u32,
    a_plane: &[u8],
    a_stride: u32,
    width: u32,
    height: u32,
    dst: &mut [u8],
    stride: u32,
    range: YuvRange,
    matrix: YuvStandardMatrix,
) -> (r: Result<(), yuv::YuvError>)
    requires
        stride * height <= isize::MAX,
    ensures
        r is Ok <==> (planar_alpha_fits(planar_alpha(y_plane@, y_stride, u_plane@, u_stride, v_plane@, v_stride, a_plane@, a_stride, width, height), YuvSubsampling::S422)
            && plane_fits(old(dst)@.len(), stride, width * 4, height as int)),
        r is Err ==> final(dst)@ == old(dst)@,
        final(dst)@.len() == old(dst)@.len(),
        r is Ok ==> yuv422_alpha_to_rgba_pixels(planar_alpha(y_plane@, y_stride, u_plane@, u_stride, v_plane@, v_stride, a_plane@, a_stride, width, height), range, matrix, stride, old(dst)@, final(dst)@),
{
    let range = match range {
        YuvRange::Limited => yuv::YuvRange::Limited,
        YuvRange::Full => yuv::YuvRange::Full,
    };
    let matrix = match matrix {
        YuvStandardMatrix::Bt601 => Std::Bt601,
        YuvStandardMatrix::Bt709 => Std::Bt709,
        YuvStandardMatrix::Bt2020 => Std::Bt2020,
        YuvStandardMatrix::Smpte240 => Std::Smpte240,
        YuvStandardMatrix::Fcc => Std::Fcc,
    };
    let image = yuv::YuvPlanarImageWithAlpha { y_plane, y_stride, u_plane, u_stride, v_plane, v_stride, a_plane, a_stride, width, height };
    yuv::yuv422_alpha_to_rgba(&image, dst, stride, range, matrix, false)
}

/// The outcomes of `yuv::yuv444_alpha_to_rgba` without premultiplication: `after` is a destination that the call
/// may leave where it found `before`.
pub uninterp spec fn yuv444_alpha_to_rgba_pixels(image: PlanarAlpha, range: YuvRange, matrix: YuvStandardMatrix, stride: u32, before: Seq<u8>, after: Seq<u8>) -> bool;

/// Calls `yuv::yuv444_alpha_to_rgba` without premultiplication: 4:4:4 with alpha to RGBA.
///
/// Claimed of it: it succeeds exactly when the four planes and the destination hold the image, it
/// writes nothing when it fails, and it keeps the destination's length. Which bytes it writes
/// depends on the vector unit that it finds, so a success is only tied to the arguments by
/// `yuv444_alpha_to_rgba_pixels`.
#[verifier::external_body]
pub(crate) fn yuv444_alpha_to_rgba(
    y_plane: &[u8],
    y_stride: u32,
    u_plane: &[u8],
    u_stride: u32,
    v_plane: &[u8],
    v_stride: u32,
    a_plane: &[u8],
    a_stride: u32,
    width: u32,
    height: u32,
    dst: &mut [u8],
    stride: u32,
    range: YuvRange,
    matrix: YuvStandardMatrix,
) -> (r: Result<(), yuv::YuvError>)
    requires
        stride * height <= isize::MAX,
    ensures
        r is Ok <==> (planar_alpha_fits(planar_alpha(y_plane@, y_stride, u_plane@, u_stride, v_plane@, v_stride, a_plane@, a_stride, width, height), YuvSubsampling::S444)
            && plane_fits(old(dst)@.len(), stride, width * 4, height as int)),
        r is Err ==> final(dst)@ == old(dst)@,
        final(dst)@.len() == old(dst)@.len(),
        r is Ok ==> yuv444_alpha_to_rgba_pixels(planar_alpha(y_plane@, y_stride, u_plane@, u_stride, v_plane@, v_stride, a_plane@, a_stride, width, height), range, matrix, stride, old(dst)@, final(dst)@),
{
    let range = match range {
        YuvRange::Limited => yuv::YuvRange::Limited,
        YuvRange::Full => yuv::YuvRange::Full,
    };
    let matrix = match matrix {
        YuvStandardMatrix::Bt601 => Std::Bt601,
        YuvStandardMatrix::Bt709 => Std::Bt709,
        YuvStandardMatrix::Bt2020 => Std::Bt2020,
        YuvStandardMatrix::Smpte240 => Std::Smpte240,
        YuvStandardMatrix::Fcc => Std::Fcc,
    };
    let image = yuv::YuvPlanarImageWithAlpha { y_plane, y_stride, u_plane, u_stride, v_plane, v_stride, a_plane, a_stride, width, height };
    yuv::yuv444_alpha_to_rgba(&image, dst, stride, range, matrix, false)
}

/// What an 8-bit planar image becomes, for each subsampling and pixel layout.
pub open spec fn planar_pixels(
    subsampling: YuvSubsampling,
    rgb_format: RgbFormat,
    image: Planar<u8>,
    range: YuvRange,
    matrix: YuvStandardMatrix,
    stride: u32,
    before: Seq<u8>,
    after: Seq<u8>,
) -> bool {
    match (subsampling, rgb_format) {
        (YuvSubsampling::S420, RgbFormat::Rgb) => yuv420_to_rgb_pixels(image, range, matrix, stride, before, after),
        (YuvSubsampling::S420, RgbFormat::Rgba) => yuv420_to_rgba_pixels(image, range, matrix, stride, before, after),
        (YuvSubsampling::S420, RgbFormat::Bgr) => yuv420_to_bgr_pixels(image, range, matrix, stride, before, after),
        (YuvSubsampling::S420, RgbFormat::Bgra) => yuv420_to_bgra_pixels(image, range, matrix, stride, before, after),
        (YuvSubsampling::S422, RgbFormat::Rgb) => yuv422_to_rgb_pixels(image, range, matrix, stride, before, after),
        (YuvSubsampling::S422, RgbFormat::Rgba) => yuv422_to_rgba_pixels(image, range, matrix, stride, before, after),
        (YuvSubsampling::S422, RgbFormat::Bgr) => yuv422_to_bgr_pixels(image, range, matrix, stride, before, after),
        (YuvSubsampling::S422, RgbFormat::Bgra) => yuv422_to_bgra_pixels(image, range, matrix, stride, before, after),
        (YuvSubsampling::S444, RgbFormat::Rgb) => yuv444_to_rgb_pixels(image, range, matrix, stride, before, after),
        (YuvSubsampling::S444, RgbFormat::Rgba) => yuv444_to_rgba_pixels(image, range, matrix, stride, before, after),
        (YuvSubsampling::S444, RgbFormat::Bgr) => yuv444_to_bgr_pixels(image, range, matrix, stride, before, after),
        (YuvSubsampling::S444, RgbFormat::Bgra) => yuv444_to_bgra_pixels(image, range, matrix, stride, before, after),
        _ => false,
    }
}

/// What a 10-bit planar image becomes, for each subsampling and pixel layout.
pub open spec fn planar_pixels_10bit(
    subsampling: YuvSubsampling,
    rgb_format: RgbFormat,
    image: Planar<u16>,
    range: YuvRange,
    matrix: YuvStandardMatrix,
    stride: u32,
    before: Seq<u8>,
    after: Seq<u8>,
) -> bool {
    match (subsampling, rgb_format) {
        (YuvSubsampling::S420, RgbFormat::Rgb) => i010_to_rgb_pixels(image, range, matrix, stride, before, after),
        (YuvSubsampling::S420, RgbFormat::Rgba) => i010_to_rgba_pixels(image, range, matrix, stride, before, after),
        (YuvSubsampling::S420, RgbFormat::Bgr) => i010_to_bgr_pixels(image, range, matrix, stride, before, after),
        (YuvSubsampling::S420, RgbFormat::Bgra) => i010_to_bgra_pixels(image, range, matrix, stride, before, after),
        (YuvSubsampling::S422, RgbFormat::Rgb) => i210_to_rgb_pixels(image, range, matrix, stride, before, after),
        (YuvSubsampling::S422, RgbFormat::Rgba) => i210_to_rgba_pixels(image, range, matrix, stride, before, after),
        (YuvSubsampling::S422, RgbFormat::Bgr) => i210_to_bgr_pixels(image, range, matrix, stride, before, after),
        (YuvSubsampling::S422, RgbFormat::Bgra) => i210_to_bgra_pixels(image, range, matrix, stride, before, after),
        (YuvSubsampling::S444, RgbFormat::Rgba) => i410_to_rgba_pixels(image, range, matrix, stride, before, after),
        _ => false,
    }
}

/// What a planar image with alpha becomes, for each subsampling.
pub open spec fn planar_alpha_pixels(
    subsampling: YuvSubsampling,
    image: PlanarAlpha,
    range: YuvRange,
    matrix: YuvStandardMatrix,
    stride: u32,
    before: Seq<u8>,
    after: Seq<u8>,
) -> bool {
    match subsampling {
        YuvSubsampling::S420 => yuv420_alpha_to_rgba_pixels(image, range, matrix, stride, before, after),
        YuvSubsampling::S422 => yuv422_alpha_to_rgba_pixels(image, range, matrix, stride, before, after),
        YuvSubsampling::S444 => yuv444_alpha_to_rgba_pixels(image, range, matrix, stride, before, after),
        _ => false,
    }
}

/// Turns an 8-bit planar image into pixels; none where no function does.
pub(crate) fn decode_planar(
    subsampling: YuvSubsampling,
    rgb_format: RgbFormat,
    y_plane: &[u8],
    y_stride: u32,
    u_plane: &[u8],
    u_stride: u32,
    v_plane: &[u8],
    v_stride: u32,
    width: u32,
    height: u32,
    dst: &mut [u8],
    stride: u32,
    range: YuvRange,
    matrix: YuvStandardMatrix,
) -> (r: Option<Result<(), yuv::YuvError>>)
    requires
        stride * height <= isize::MAX,
    ensures
        r is Some <==> subsampling != YuvSubsampling::S400,
        r is Some ==> (r->0 is Ok <==> (planar_fits(
            planar(y_plane@, y_stride, u_plane@, u_stride, v_plane@, v_stride, width, height),
            subsampling,
        ) && plane_fits(old(dst)@.len(), stride, width * rgb_format.bytes(), height as int))),
        r is None || r->0 is Err ==> final(dst)@ == old(dst)@,
        final(dst)@.len() == old(dst)@.len(),
        r is Some && r->0 is Ok ==> planar_pixels(
            subsampling,
            rgb_format,
            planar(y_plane@, y_stride, u_plane@, u_stride, v_plane@, v_stride, width, height),
            range,
            matrix,
            stride,
            old(dst)@,
            final(dst)@,
        ),
{
    let converted = match (subsampling, rgb_format) {
        (YuvSubsampling::S420, RgbFormat::Rgb) => yuv420_to_rgb(
            y_plane, y_stride, u_plane, u_stride, v_plane, v_stride, width, height, dst, stride, range, matrix),
        (YuvSubsampling::S420, RgbFormat::Rgba) => yuv420_to_rgba(
            y_plane, y_stride, u_plane, u_stride, v_plane, v_stride, width, height, dst, stride, range, matrix),
        (YuvSubsampling::S420, RgbFormat::Bgr) => yuv420_to_bgr(
            y_plane, y_stride, u_plane, u_stride, v_plane, v_stride, width, height, dst, stride, range, matrix),
        (YuvSubsampling::S420, RgbFormat::Bgra) => yuv420_to_bgra(
            y_plane, y_stride, u_plane, u_stride, v_plane, v_stride, width, height, dst, stride, range, matrix),
        (YuvSubsampling::S422, RgbFormat::Rgb) => yuv422_to_rgb(
            y_plane, y_stride, u_plane, u_stride, v_plane, v_stride, width, height, dst, stride, range, matrix),
        (YuvSubsampling::S422, RgbFormat::Rgba) => yuv422_to_rgba(
            y_plane, y_stride, u_plane, u_stride, v_plane, v_stride, width, height, dst, stride, range, matrix),
        (YuvSubsampling::S422, RgbFormat::Bgr) => yuv422_to_bgr(
            y_plane, y_stride, u_plane, u_stride, v_plane, v_stride, width, height, dst, stride, range, matrix),
        (YuvSubsampling::S422, RgbFormat::Bgra) => yuv422_to_bgra(
            y_plane, y_stride, u_plane, u_stride, v_plane, v_stride, width, height, dst, stride, range, matrix),
        (YuvSubsampling::S444, RgbFormat::Rgb) => yuv444_to_rgb(
            y_plane, y_stride, u_plane, u_stride, v_plane, v_stride, width, height, dst, stride, range, matrix),
        (YuvSubsampling::S444, RgbFormat::Rgba) => yuv444_to_rgba(
            y_plane, y_stride, u_plane, u_stride, v_plane, v_stride, width, height, dst, stride, range, matrix),
        (YuvSubsampling::S444, RgbFormat::Bgr) => yuv444_to_bgr(
            y_plane, y_stride, u_plane, u_stride, v_plane, v_stride, width, height, dst, stride, range, matrix),
        (YuvSubsampling::S444, RgbFormat::Bgra) => yuv444_to_bgra(
            y_plane, y_stride, u_plane, u_stride, v_plane, v_stride, width, height, dst, stride, range, matrix),
        _ => return None,
    };
    Some(converted)
}

/// Turns a 10-bit planar image into pixels; none where no function does.
pub(crate) fn decode_planar_10bit(
    subsampling: YuvSubsampling,
    rgb_format: RgbFormat,
    y_plane: &[u16],
    y_stride: u32,
    u_plane: &[u16],
    u_stride: u32,
    v_plane: &[u16],
    v_stride: u32,
    width: u32,
    height: u32,
    dst: &mut [u8],
    stride: u32,
    range: YuvRange,
    matrix: YuvStandardMatrix,
) -> (r: Option<Result<(), yuv::YuvError>>)
    requires
        stride * height <= isize::MAX,
    ensures
        r is Some <==> (subsampling != YuvSubsampling::S400
            && (subsampling == YuvSubsampling::S444 ==> rgb_format == RgbFormat::Rgba)),
        r is Some ==> (r->0 is Ok <==> (planar_fits(
            planar(y_plane@, y_stride, u_plane@, u_stride, v_plane@, v_stride, width, height),
            subsampling,
        ) && plane_fits(old(dst)@.len(), stride, width * rgb_format.bytes(), height as int))),
        r is None || r->0 is Err ==> final(dst)@ == old(dst)@,
        final(dst)@.len() == old(dst)@.len(),
        r is Some && r->0 is Ok ==> planar_pixels_10bit(
            subsampling,
            rgb_format,
            planar(y_plane@, y_stride, u_plane@, u_stride, v_plane@, v_stride, width, height),
            range,
            matrix,
            stride,
            old(dst)@,
            final(dst)@,
        ),
{
    let converted = match (subsampling, rgb_format) {
        (YuvSubsampling::S420, RgbFormat::Rgb) => i010_to_rgb(
            y_plane, y_stride, u_plane, u_stride, v_plane, v_stride, width, height, dst, stride, range, matrix),
        (YuvSubsampling::S420, RgbFormat::Rgba) => i010_to_rgba(
            y_plane, y_stride, u_plane, u_stride, v_plane, v_stride, width, height, dst, stride, range, matrix),
        (YuvSubsampling::S420, RgbFormat::Bgr) => i010_to_bgr(
            y_plane, y_stride, u_plane, u_stride, v_plane, v_stride, width, height, dst, stride, range, matrix),
        (YuvSubsampling::S420, RgbFormat::Bgra) => i010_to_bgra(
            y_plane, y_stride, u_plane, u_stride, v_plane, v_stride, width, height, dst, stride, range, matrix),
        (YuvSubsampling::S422, RgbFormat::Rgb) => i210_to_rgb(
            y_plane, y_stride, u_plane, u_stride, v_plane, v_stride, width, height, dst, stride, range, matrix),
        (YuvSubsampling::S422, RgbFormat::Rgba) => i210_to_rgba(
            y_plane, y_stride, u_plane, u_stride, v_plane, v_stride, width, height, dst, stride, range, matrix),
        (YuvSubsampling::S422, RgbFormat::Bgr) => i210_to_bgr(
            y_plane, y_stride, u_plane, u_stride, v_plane, v_stride, width, height, dst, stride, range, matrix),
        (YuvSubsampling::S422, RgbFormat::Bgra) => i210_to_bgra(
            y_plane, y_stride, u_plane, u_stride, v_plane, v_stride, width, height, dst, stride, range, matrix),
        (YuvSubsampling::S444, RgbFormat::Rgba) => i410_to_rgba(
            y_plane, y_stride, u_plane, u_stride, v_plane, v_stride, width, height, dst, stride, range, matrix),
        _ => return None,
    };
    Some(converted)
}

/// Turns a planar image with alpha into RGBA; none where no function does.
pub(crate) fn decode_planar_alpha(
    subsampling: YuvSubsampling,
    y_plane: &[u8],
    y_stride: u32,
    u_plane: &[u8],
    u_stride: u32,
    v_plane: &[u8],
    v_stride: u32,
    a_plane: &[u8],
    a_stride: u32,
    width: u32,
    height: u32,
    dst: &mut [u8],
    stride: u32,
    range: YuvRange,
    matrix: YuvStandardMatrix,
) -> (r: Option<Result<(), yuv::YuvError>>)
    requires
        stride * height <= isize::MAX,
    ensures
        r is Some <==> subsampling != YuvSubsampling::S400,
        r is Some ==> (r->0 is Ok <==> (planar_alpha_fits(
            planar_alpha(y_plane@, y_stride, u_plane@, u_stride, v_plane@, v_stride, a_plane@, a_stride, width, height),
            subsampling,
        ) && plane_fits(old(dst)@.len(), stride, width * 4, height as int))),
        r is None || r->0 is Err ==> final(dst)@ == old(dst)@,
        final(dst)@.len() == old(dst)@.len(),
        r is Some && r->0 is Ok ==> planar_alpha_pixels(
            subsampling,
            planar_alpha(y_plane@, y_stride, u_plane@, u_stride, v_plane@, v_stride, a_plane@, a_stride, width, height),
            range,
            matrix,
            stride,
            old(dst)@,
            final(dst)@,
        ),
{
    let converted = match subsampling {
        YuvSubsampling::S420 => yuv420_alpha_to_rgba(
            y_plane, y_stride, u_plane, u_stride, v_plane, v_stride, a_plane, a_stride, width, height, dst, stride, range, matrix),
        YuvSubsampling::S422 => yuv422_alpha_to_rgba(
            y_plane, y_stride, u_plane, u_stride, v_plane, v_stride, a_plane, a_stride, width, height, dst, stride, range, matrix),
        YuvSubsampling::S444 => yuv444_alpha_to_rgba(
            y_plane, y_stride, u_plane, u_stride, v_plane, v_stride, a_plane, a_stride, width, height, dst, stride, range, matrix),
        _ => return None,
    };
    Some(converted)
}

} // verus!
