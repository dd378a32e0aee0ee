//! Channel shuffles between packed pixel layouts: one item for each function of the `yuv` crate.

use super::{plane_fits, RgbFormat};
use vstd::prelude::*;

verus! {

/// Where the red, green, blue and alpha bytes of a pixel stand: the byte at `channel` (0 to 3 for
/// red, green, blue, alpha) is the `channel_offset`-th of its pixel.
pub open spec fn channel_offset(format: RgbFormat, channel: int) -> int {
    match format {
        RgbFormat::Rgb | RgbFormat::Rgba => channel,
        RgbFormat::Bgr | RgbFormat::Bgra => if channel == 3 { 3 } else { 2 - channel },
    }
}

/// The byte of one channel of the pixel that starts at `at`: opaque where the layout has no alpha.
pub open spec fn channel_byte(format: RgbFormat, data: Seq<u8>, at: int, channel: int) -> u8 {
    if channel == 3 && format.bytes() == 3 {
        255
    } else {
        data[at + channel_offset(format, channel)]
    }
}

/// How many rows a shuffle walks: the whole rows that both buffers have.
pub open spec fn shuffled_rows(src_len: nat, src_stride: u32, dst_len: nat, dst_stride: u32) -> int {
    let from = src_len as int / src_stride as int;
    let to = dst_len as int / dst_stride as int;
    if from <= to { from } else { to }
}

/// The byte at `i` of the destination after a shuffle.
pub open spec fn shuffled_byte(
    from: RgbFormat,
    to: RgbFormat,
    src: Seq<u8>,
    src_stride: u32,
    before: Seq<u8>,
    dst_stride: u32,
    width: u32,
    i: int,
) -> u8 {
    let row = i / dst_stride as int;
    let column = i % dst_stride as int;
    if row < shuffled_rows(src.len(), src_stride, before.len(), dst_stride) && column < width
        * to.bytes() {
        let at = row * src_stride + (column / to.bytes()) * from.bytes();
        channel_byte(from, src, at, channel_offset(to, column % to.bytes()))
    } else {
        before[i]
    }
}

/// The destination after a shuffle of `src` into it: pixel by pixel, channel by channel, and with
/// everything past the pixels of a row as it was.
pub open spec fn shuffled(
    from: RgbFormat,
    to: RgbFormat,
    src: Seq<u8>,
    src_stride: u32,
    before: Seq<u8>,
    dst_stride: u32,
    width: u32,
) -> Seq<u8> {
    Seq::new(
        before.len(),
        |i: int| shuffled_byte(from, to, src, src_stride, before, dst_stride, width, i),
    )
}

/// Calls `yuv::rgb_to_rgba`.
///
/// Claimed of it: it succeeds exactly when both buffers hold the image, and then moves every
/// channel of every pixel to its place, row by whole row, with opaque alpha; it writes nothing when it fails.
#[verifier::external_body]
pub(crate) fn rgb_to_rgba(src: &[u8], src_stride: u32, dst: &mut [u8], dst_stride: u32, width: u32, height: u32) -> (r: Result<(), yuv::YuvError>)
    requires
        src_stride * height <= isize::MAX,
        dst_stride * height <= isize::MAX,
    ensures
        r is Ok <==> (plane_fits(src@.len(), src_stride, width * 3, height as int)
            && plane_fits(old(dst)@.len(), dst_stride, width * 4, height as int)),
        r is Err ==> final(dst)@ == old(dst)@,
        r is Ok ==> final(dst)@ == shuffled(RgbFormat::Rgb, RgbFormat::Rgba, src@, src_stride, old(dst)@, dst_stride, width),
{
    yuv::rgb_to_rgba(src, src_stride, dst, dst_stride, width, height)
}

/// Calls `yuv::rgb_to_bgr`.
///
/// Claimed of it: it succeeds exactly when both buffers hold the image, and then moves every
/// channel of every pixel to its place, row by whole row; it writes nothing when it fails.
#[verifier::external_body]
pub(crate) fn rgb_to_bgr(src: &[u8], src_stride: u32, dst: &mut [u8], dst_stride: u32, width: u32, height: u32) -> (r: Result<(), yuv::YuvError>)
    requires
        src_stride * height <= isize::MAX,
        dst_stride * height <= isize::MAX,
    ensures
        r is Ok <==> (plane_fits(src@.len(), src_stride, width * 3, height as int)
            && plane_fits(old(dst)@.len(), dst_stride, width * 3, height as int)),
        r is Err ==> final(dst)@ == old(dst)@,
        r is Ok ==> final(dst)@ == shuffled(RgbFormat::Rgb, RgbFormat::Bgr, src@, src_stride, old(dst)@, dst_stride, width),
{
    yuv::rgb_to_bgr(src, src_stride, dst, dst_stride, width, height)
}

/// Calls `yuv::rgb_to_bgra`.
///
/// Claimed of it: it succeeds exactly when both buffers hold the image, and then moves every
/// channel of every pixel to its place, row by whole row, with opaque alpha; it writes nothing when it fails.
#[verifier::external_body]
pub(crate) fn rgb_to_bgra(src: &[u8], src_stride: u32, dst: &mut [u8], dst_stride: u32, width: u32, height: u32) -> (r: Result<(), yuv::YuvError>)
    requires
        src_stride * height <= isize::MAX,
        dst_stride * height <= isize::MAX,
    ensures
        r is Ok <==> (plane_fits(src@.len(), src_stride, width * 3, height as int)
            && plane_fits(old(dst)@.len(), dst_stride, width * 4, height as int)),
        r is Err ==> final(dst)@ == old(dst)@,
        r is Ok ==> final(dst)@ == shuffled(RgbFormat::Rgb, RgbFormat::Bgra, src@, src_stride, old(dst)@, dst_stride, width),
{
    yuv::rgb_to_bgra(src, src_stride, dst, dst_stride, width, height)
}

/// Calls `yuv::rgba_to_rgb`.
///
/// Claimed of it: it succeeds exactly when both buffers hold the image, and then moves every
/// channel of every pixel to its place, row by whole row; it writes nothing when it fails.
#[verifier::external_body]
pub(crate) fn rgba_to_rgb(src: &[u8], src_stride: u32, dst: &mut [u8], dst_stride: u32, width: u32, height: u32) -> (r: Result<(), yuv::YuvError>)
    requires
        src_stride * height <= isize::MAX,
        dst_stride * height <= isize::MAX,
    ensures
        r is Ok <==> (plane_fits(src@.len(), src_stride, width * 4, height as int)
            && plane_fits(old(dst)@.len(), dst_stride, width * 3, height as int)),
        r is Err ==> final(dst)@ == old(dst)@,
        r is Ok ==> final(dst)@ == shuffled(RgbFormat::Rgba, RgbFormat::Rgb, src@, src_stride, old(dst)@, dst_stride, width),
{
    yuv::rgba_to_rgb(src, src_stride, dst, dst_stride, width, height)
}

/// Calls `yuv::rgba_to_bgr`.
///
/// Claimed of it: it succeeds exactly when both buffers hold the image, and then moves every
/// channel of every pixel to its place, row by whole row; it writes nothing when it fails.
#[verifier::external_body]
pub(crate) fn rgba_to_bgr(src: &[u8], src_stride: u32, dst: &mut [u8], dst_stride: u32, width: u32, height: u32) -> (r: Result<(), yuv::YuvError>)
    requires
        src_stride * height <= isize::MAX,
        dst_stride * height <= isize::MAX,
    ensures
        r is Ok <==> (plane_fits(src@.len(), src_stride, width * 4, height as int)
            && plane_fits(old(dst)@.len(), dst_stride, width * 3, height as int)),
        r is Err ==> final(dst)@ == old(dst)@,
        r is Ok ==> final(dst)@ == shuffled(RgbFormat::Rgba, RgbFormat::Bgr, src@, src_stride, old(dst)@, dst_stride, width),
{
    yuv::rgba_to_bgr(src, src_stride, dst, dst_stride, width, height)
}

/// Calls `yuv::rgba_to_bgra`.
///
/// Claimed of it: it succeeds exactly when both buffers hold the image, and then moves every
/// channel of every pixel to its place, row by whole row; it writes nothing when it fails.
#[verifier::external_body]
pub(crate) fn rgba_to_bgra(src: &[u8], src_stride: u32, dst: &mut [u8], dst_stride: u32, width: u32, height: u32) -> (r: Result<(), yuv::YuvError>)
    requires
        src_stride * height <= isize::MAX,
        dst_stride * height <= isize::MAX,
    ensures
        r is Ok <==> (plane_fits(src@.len(), src_stride, width * 4, height as int)
            && plane_fits(old(dst)@.len(), dst_stride, width * 4, height as int)),
        r is Err ==> final(dst)@ == old(dst)@,
        r is Ok ==> final(dst)@ == shuffled(RgbFormat::Rgba, RgbFormat::Bgra, src@, src_stride, old(dst)@, dst_stride, width),
{
    yuv::rgba_to_bgra(src, src_stride, dst, dst_stride, width, height)
}

/// Calls `yuv::bgr_to_rgb`.
///
/// Claimed of it: it succeeds exactly when both buffers hold the image, and then moves every
/// channel of every pixel to its place, row by whole row; it writes nothing when it fails.
#[verifier::external_body]
pub(crate) fn bgr_to_rgb(src: &[u8], src_stride: u32, dst: &mut [u8], dst_stride: u32, width: u32, height: u32) -> (r: Result<(), yuv::YuvError>)
    requires
        src_stride * height <= isize::MAX,
        dst_stride * height <= isize::MAX,
    ensures
        r is Ok <==> (plane_fits(src@.len(), src_stride, width * 3, height as int)
            && plane_fits(old(dst)@.len(), dst_stride, width * 3, height as int)),
        r is Err ==> final(dst)@ == old(dst)@,
        r is Ok ==> final(dst)@ == shuffled(RgbFormat::Bgr, RgbFormat::Rgb, src@, src_stride, old(dst)@, dst_stride, width),
{
    yuv::bgr_to_rgb(src, src_stride, dst, dst_stride, width, height)
}

/// Calls `yuv::bgr_to_rgba`.
///
/// Claimed of it: it succeeds exactly when both buffers hold the image, and then moves every
/// channel of every pixel to its place, row by whole row, with opaque alpha; it writes nothing when it fails.
#[verifier::external_body]
pub(crate) fn bgr_to_rgba(src: &[u8], src_stride: u32, dst: &mut [u8], dst_stride: u32, width: u32, height: u32) -> (r: Result<(), yuv::YuvError>)
    requires
        src_stride * height <= isize::MAX,
        dst_stride * height <= isize::MAX,
    ensures
        r is Ok <==> (plane_fits(src@.len(), src_stride, width * 3, height as int)
            && plane_fits(old(dst)@.len(), dst_stride, width * 4, height as int)),
        r is Err ==> final(dst)@ == old(dst)@,
        r is Ok ==> final(dst)@ == shuffled(RgbFormat::Bgr, RgbFormat::Rgba, src@, src_stride, old(dst)@, dst_stride, width),
{
    yuv::bgr_to_rgba(src, src_stride, dst, dst_stride, width, height)
}

/// Calls `yuv::bgr_to_bgra`.
///
/// Claimed of it: it succeeds exactly when both buffers hold the image, and then moves every
/// channel of every pixel to its place, row by whole row, with opaque alpha; it writes nothing when it fails.
#[verifier::external_body]
pub(crate) fn bgr_to_bgra(src: &[u8], src_stride: u32, dst: &mut [u8], dst_stride: u32, width: u32, height: u32) -> (r: Result<(), yuv::YuvError>)
    requires
        src_stride * height <= isize::MAX,
        dst_stride * height <= isize::MAX,
    ensures
        r is Ok <==> (plane_fits(src@.len(), src_stride, width * 3, height as int)
            && plane_fits(old(dst)@.len(), dst_stride, width * 4, height as int)),
        r is Err ==> final(dst)@ == old(dst)@,
        r is Ok ==> final(dst)@ == shuffled(RgbFormat::Bgr, RgbFormat::Bgra, src@, src_stride, old(dst)@, dst_stride, width),
{
    yuv::bgr_to_bgra(src, src_stride, dst, dst_stride, width, height)
}

/// Calls `yuv::bgra_to_rgb`.
///
/// Claimed of it: it succeeds exactly when both buffers hold the image, and then moves every
/// channel of every pixel to its place, row by whole row; it writes nothing when it fails.
#[verifier::external_body]
pub(crate) fn bgra_to_rgb(src: &[u8], src_stride: u32, dst: &mut [u8], dst_stride: u32, width: u32, height: u32) -> (r: Result<(), yuv::YuvError>)
    requires
        src_stride * height <= isize::MAX,
        dst_stride * height <= isize::MAX,
    ensures
        r is Ok <==> (plane_fits(src@.len(), src_stride, width * 4, height as int)
            && plane_fits(old(dst)@.len(), dst_stride, width * 3, height as int)),
        r is Err ==> final(dst)@ == old(dst)@,
        r is Ok ==> final(dst)@ == shuffled(RgbFormat::Bgra, RgbFormat::Rgb, src@, src_stride, old(dst)@, dst_stride, width),
{
    yuv::bgra_to_rgb(src, src_stride, dst, dst_stride, width, height)
}

/// Calls `yuv::bgra_to_rgba`.
///
/// Claimed of it: it succeeds exactly when both buffers hold the image, and then moves every
/// channel of every pixel to its place, row by whole row; it writes nothing when it fails.
#[verifier::external_body]
pub(crate) fn bgra_to_rgba(src: &[u8], src_stride: u32, dst: &mut [u8], dst_stride: u32, width: u32, height: u32) -> (r: Result<(), yuv::YuvError>)
    requires
        src_stride * height <= isize::MAX,
        dst_stride * height <= isize::MAX,
    ensures
        r is Ok <==> (plane_fits(src@.len(), src_stride, width * 4, height as int)
            && plane_fits(old(dst)@.len(), dst_stride, width * 4, height as int)),
        r is Err ==> final(dst)@ == old(dst)@,
        r is Ok ==> final(dst)@ == shuffled(RgbFormat::Bgra, RgbFormat::Rgba, src@, src_stride, old(dst)@, dst_stride, width),
{
    yuv::bgra_to_rgba(src, src_stride, dst, dst_stride, width, height)
}

/// Calls `yuv::bgra_to_bgr`.
///
/// Claimed of it: it succeeds exactly when both buffers hold the image, and then moves every
/// channel of every pixel to its place, row by whole row; it writes nothing when it fails.
#[verifier::external_body]
pub(crate) fn bgra_to_bgr(src: &[u8], src_stride: u32, dst: &mut [u8], dst_stride: u32, width: u32, height: u32) -> (r: Result<(), yuv::YuvError>)
    requires
        src_stride * height <= isize::MAX,
        dst_stride * height <= isize::MAX,
    ensures
        r is Ok <==> (plane_fits(src@.len(), src_stride, width * 4, height as int)
            && plane_fits(old(dst)@.len(), dst_stride, width * 3, height as int)),
        r is Err ==> final(dst)@ == old(dst)@,
        r is Ok ==> final(dst)@ == shuffled(RgbFormat::Bgra, RgbFormat::Bgr, src@, src_stride, old(dst)@, dst_stride, width),
{
    yuv::bgra_to_bgr(src, src_stride, dst, dst_stride, width, height)
}

/// Moves pixels from one layout to another; none where both layouts are the same.
pub(crate) fn shuffle(
    from: RgbFormat,
    to: RgbFormat,
    src: &[u8],
    src_stride: u32,
    dst: &mut [u8],
    dst_stride: u32,
    width: u32,
    height: u32,
) -> (r: Option<Result<(), yuv::YuvError>>)
    requires
        src_stride * height <= isize::MAX,
        dst_stride * height <= isize::MAX,
    ensures
        r is Some <==> from != to,
        r is Some ==> (r->0 is Ok <==> (plane_fits(
            src@.len(),
            src_stride,
            width * from.bytes(),
            height as int,
        ) && plane_fits(old(dst)@.len(), dst_stride, width * to.bytes(), height as int))),
        r is None || r->0 is Err ==> final(dst)@ == old(dst)@,
        r is Some && r->0 is Ok ==> final(dst)@ == shuffled(
            from,
            to,
            src@,
            src_stride,
            old(dst)@,
            dst_stride,
            width,
        ),
{
    let converted = match (from, to) {
        (RgbFormat::Rgb, RgbFormat::Rgba) => rgb_to_rgba(src, src_stride, dst, dst_stride, width, height),
        (RgbFormat::Rgb, RgbFormat::Bgr) => rgb_to_bgr(src, src_stride, dst, dst_stride, width, height),
        (RgbFormat::Rgb, RgbFormat::Bgra) => rgb_to_bgra(src, src_stride, dst, dst_stride, width, height),
        (RgbFormat::Rgba, RgbFormat::Rgb) => rgba_to_rgb(src, src_stride, dst, dst_stride, width, height),
        (RgbFormat::Rgba, RgbFormat::Bgr) => rgba_to_bgr(src, src_stride, dst, dst_stride, width, height),
        (RgbFormat::Rgba, RgbFormat::Bgra) => rgba_to_bgra(src, src_stride, dst, dst_stride, width, height),
        (RgbFormat::Bgr, RgbFormat::Rgb) => bgr_to_rgb(src, src_stride, dst, dst_stride, width, height),
        (RgbFormat::Bgr, RgbFormat::Rgba) => bgr_to_rgba(src, src_stride, dst, dst_stride, width, height),
        (RgbFormat::Bgr, RgbFormat::Bgra) => bgr_to_bgra(src, src_stride, dst, dst_stride, width, height),
        (RgbFormat::Bgra, RgbFormat::Rgb) => bgra_to_rgb(src, src_stride, dst, dst_stride, width, height),
        (RgbFormat::Bgra, RgbFormat::Rgba) => bgra_to_rgba(src, src_stride, dst, dst_stride, width, height),
        (RgbFormat::Bgra, RgbFormat::Bgr) => bgra_to_bgr(src, src_stride, dst, dst_stride, width, height),
        _ => return None,
    };
    Some(converted)
}

} // verus!
