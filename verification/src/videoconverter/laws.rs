//! What holds of conversions as a whole.

use super::error::{ConversionStep, Verdict};
use super::params::{ConversionParams, RgbToYuvParams, YuvToRgbParams};
use crate::video::{VideoFrame, VideoInfo, VideoPlane};
use crate::yuvops::{RgbFormat, YuvRange, YuvStandardMatrix, YuvSubsampling};
use vstd::arithmetic::div_mod::{
    lemma_fundamental_div_mod, lemma_fundamental_div_mod_converse, lemma_mod_bound,
};
use vstd::prelude::*;

verus! {

/// A frame of a format: it has the format's planes, and every component lies in one of them.
pub open spec fn frame_of(frame: VideoFrame, info: VideoInfo) -> bool {
    &&& frame.info == info
    &&& frame.planes.len() == info.n_planes
    &&& 1 <= info.n_planes
    &&& info.n_planes >= 3 ==> info.components.len() >= 3
    &&& forall|i: int| 0 <= i < info.components.len() ==> (#[trigger] info.components[i]).plane
        < info.n_planes
}

/// A conversion that was found to be supported is never refused: on frames of the two formats it
/// succeeds, or fails only because a buffer does not hold the image.
pub proof fn law_supported_conversions_are_not_refused(
    in_info: VideoInfo,
    out_info: VideoInfo,
    src: VideoFrame,
    dest: VideoFrame,
)
    requires
        super::converter::conversion_defined(in_info, out_info),
        super::params::conversion_spec(in_info, out_info) is Some,
        frame_of(src, in_info),
        frame_of(dest, out_info),
    ensures
        !(super::converter::conversion_verdict(
            super::params::conversion_spec(in_info, out_info)->0,
            src,
            dest,
        ) is Refused),
{
    let params = super::params::conversion_spec(in_info, out_info)->0;
    assert(in_info.n_planes >= 3 ==> in_info.components[0].plane < in_info.n_planes
        && in_info.components[1].plane < in_info.n_planes && in_info.components[2].plane
        < in_info.n_planes);
}

/// A frame of a format as it is mapped: components have all of the frame's rows or half of them,
/// and their planes hold them; the first plane holds all rows and, where their number is odd, less
/// than one row more; luma and chroma stand in planes of their own, where there are several;
/// samples of two bytes start at even places; and sizes are counted by signed 32-bit numbers.
pub open spec fn mapped_frame(frame: VideoFrame, info: VideoInfo) -> bool {
    let h = info.height;
    &&& frame_of(frame, info)
    &&& info.width < i32::MAX
    &&& forall|i: int|
        0 <= i < frame.planes.len() ==> (#[trigger] frame.planes[i]).stride * h <= i32::MAX
    &&& frame.planes[0].stride * h <= frame.planes[0].data@.len()
    &&& h % 2 == 1 ==> frame.planes[0].data@.len() < frame.planes[0].stride * (h + 1)
    &&& forall|i: int|
        0 <= i < info.components.len() ==> {
            let component = #[trigger] info.components[i];
            let plane = frame.planes[component.plane as int];
            &&& component.height == h || component.height == (h + 1) / 2
            &&& plane.stride * component.height <= plane.data@.len()
            &&& component.depth > 8 ==> plane.stride % 2 == 0
        }
    &&& info.n_planes >= 2 ==> {
        &&& info.components.len() >= 2
        &&& info.components[0].height == h
        &&& info.components[0].plane != info.components[1].plane
        &&& info.components[0].depth == info.components[1].depth
    }
    &&& info.n_planes == 2 ==> info.components[0].plane == 0
}

/// The two chroma components of three or more planes stand in planes of their own, alike.
pub open spec fn chroma_apart(info: VideoInfo) -> bool {
    info.n_planes >= 3 ==> {
        &&& info.components[0].plane != info.components[2].plane
        &&& info.components[1].plane != info.components[2].plane
        &&& info.components[1].height == info.components[2].height
    }
}

/// Behind the pairs of rows, what is left of an odd number of rows is at least one row.
proof fn lemma_odd_row(len: nat, stride: u32, rows: u32)
    requires
        rows % 2 == 1,
        stride * rows <= len < stride * (rows + 1),
    ensures
        stride <= len as int % (2 * stride),
{
    let pairs = rows as int / 2;
    let rest = len - pairs * (2 * stride);
    assert(stride <= rest < 2 * stride) by (nonlinear_arith)
        requires
            rows == 2 * pairs + 1,
            stride * rows <= len < stride * (rows + 1),
            rest == len - pairs * (2 * stride),
    ;
    lemma_fundamental_div_mod_converse(len as int, 2 * stride as int, pairs, rest);
}

/// Fewer rows are no longer.
proof fn lemma_fewer_rows(stride: u32, rows: u32, more: u32)
    requires
        rows <= more,
    ensures
        0 <= stride * rows <= stride * more,
{
    assert(0 <= stride * rows <= stride * more) by (nonlinear_arith)
        requires
            0 <= rows <= more,
            0 <= stride,
    ;
}

/// Frames of two formats, as they are mapped, can always be given to the conversion that was found
/// for the formats. It succeeds, or fails because a buffer does not hold the image, and fails in no
/// other way.
pub proof fn law_mapped_frames_are_converted(
    in_info: VideoInfo,
    out_info: VideoInfo,
    src: VideoFrame,
    dest: VideoFrame,
)
    requires
        super::converter::conversion_defined(in_info, out_info),
        super::params::conversion_spec(in_info, out_info) is Some,
        in_info.width == out_info.width,
        in_info.height == out_info.height,
        mapped_frame(src, in_info),
        mapped_frame(dest, out_info),
        chroma_apart(out_info),
    ensures
        ({
            let params = super::params::conversion_spec(in_info, out_info)->0;
            let verdict = super::converter::conversion_verdict(params, src, dest);
            &&& super::converter::convertible(params, src, dest)
            &&& verdict is Done || verdict is Rejected
        }),
{
    law_supported_conversions_are_not_refused(in_info, out_info, src, dest);
    let h = out_info.height;
    assert(src.planes[0].stride * h <= i32::MAX);
    assert(dest.planes[0].stride * h <= i32::MAX);
    match super::params::conversion_spec(in_info, out_info)->0 {
        ConversionParams::YuvToRgb(YuvToRgbParams::SemiPlanar { subsampling, bit_depth, .. }) => {
            let y = src.planes[0];
            let uv = src.planes[1];
            let pixels = dest.planes[0];
            assert(in_info.components[1].plane == 1);
            assert(uv.stride * in_info.components[1].height <= uv.data@.len());
            if h % 2 == 1 && subsampling == YuvSubsampling::S420 {
                let chroma_rows = in_info.components[1].height;
                lemma_odd_row(pixels.data@.len(), pixels.stride, h);
                lemma_fewer_rows(uv.stride, 1, chroma_rows);
                if bit_depth == 8 {
                    lemma_odd_row(y.data@.len(), y.stride, h);
                } else {
                    let y_samples = (y.stride / 2) as u32;
                    let uv_samples = (uv.stride / 2) as u32;
                    assert(y.stride % 2 == 0 && uv.stride % 2 == 0) by {
                        assert(in_info.components[0].depth > 8);
                    }
                    lemma_sample_rows(y.stride, h as int);
                    lemma_sample_rows(y.stride, h + 1);
                    lemma_sample_rows(uv.stride, chroma_rows as int);
                    lemma_fewer_rows(uv_samples, 1, chroma_rows);
                    lemma_odd_row(y.data@.len() / 2, y_samples, h);
                }
            }
        },
        ConversionParams::RgbToYuv(RgbToYuvParams::SemiPlanar { subsampling, .. }) => {
            let chroma = out_info.components[1];
            let rows = super::convert::filled_chroma_rows(subsampling, h);
            assert(chroma.plane == 1);
            lemma_fewer_rows(dest.planes[1].stride, rows, chroma.height);
            lemma_fewer_rows(dest.planes[1].stride, rows, h);
        },
        ConversionParams::RgbToYuv(RgbToYuvParams::Planar { subsampling, .. }) => {
            let chroma = out_info.components[1];
            let rows = super::convert::filled_chroma_rows(subsampling, h);
            let u = dest.planes[chroma.plane as int];
            let v = dest.planes[out_info.components[2].plane as int];
            assert(dest.planes[out_info.components[0].plane as int].stride * h <= i32::MAX);
            lemma_fewer_rows(u.stride, rows, chroma.height);
            lemma_fewer_rows(u.stride, rows, h);
            lemma_fewer_rows(v.stride, rows, chroma.height);
            lemma_fewer_rows(v.stride, rows, h);
        },
        _ => {},
    }
}

/// Rows with an even number of bytes hold half as many samples of two bytes.
proof fn lemma_sample_rows(stride: u32, rows: int)
    requires
        stride % 2 == 0,
    ensures
        stride * rows == 2 * ((stride / 2) * rows),
{
    let half = stride as int / 2;
    assert(stride * rows == 2 * (half * rows)) by (nonlinear_arith)
        requires
            stride == 2 * half,
    ;
}

/// Packed pixels never become a 4:2:0 image with an odd height: its last chroma row is not among
/// the rows that are filled.
pub proof fn law_odd_height_420_is_rejected(
    params: RgbToYuvParams,
    src: VideoFrame,
    dest: VideoFrame,
)
    requires
        dest.info.height % 2 == 1,
        super::converter::convertible(ConversionParams::RgbToYuv(params), src, dest),
        params matches RgbToYuvParams::SemiPlanar { subsampling, .. } ==> subsampling
            == YuvSubsampling::S420,
        params matches RgbToYuvParams::Planar { subsampling, .. } ==> subsampling
            == YuvSubsampling::S420,
        !(params is Grayscale),
    ensures
        super::converter::conversion_verdict(ConversionParams::RgbToYuv(params), src, dest)
            == Verdict::Rejected(
            if params is SemiPlanar {
                ConversionStep::RgbToSemiPlanar
            } else {
                ConversionStep::RgbToPlanar
            },
        ),
{
    let h = dest.info.height;
    assert((h + 1) / 2 - 1 == h / 2);
}

/// Two frames of one size that differ by the places of their chroma planes alone.
pub open spec fn chroma_swapped(a: VideoFrame, b: VideoFrame) -> bool {
    &&& a.info.width == b.info.width
    &&& a.info.height == b.info.height
    &&& a.planes.len() == 3
    &&& b.planes.len() == 3
    &&& same_plane(a.planes[0], b.planes[0])
    &&& same_plane(a.planes[1], b.planes[2])
    &&& same_plane(a.planes[2], b.planes[1])
}

/// Two planes with the same bytes.
pub open spec fn same_plane(a: VideoPlane, b: VideoPlane) -> bool {
    a.stride == b.stride && a.data@ == b.data@
}

/// Conversions to I420 and to YV12 differ by the places of the chroma planes alone: both are
/// possible, succeed or fail alike, and whatever one of them may leave in a frame, the other may
/// leave in the frame with swapped planes, and nothing else.
pub proof fn law_chroma_order_swaps_planes(
    rgb_format: RgbFormat,
    subsampling: YuvSubsampling,
    range: YuvRange,
    matrix: YuvStandardMatrix,
    src: VideoFrame,
    i420: (VideoFrame, VideoFrame),
    yv12: (VideoFrame, VideoFrame),
)
    requires
        chroma_swapped(i420.0, yv12.0),
        chroma_swapped(i420.1, yv12.1),
    ensures
        ({
            let straight = ConversionParams::RgbToYuv(
                RgbToYuvParams::Planar {
                    rgb_format,
                    subsampling,
                    plane_order: (0, 1, 2),
                    range,
                    matrix,
                },
            );
            let swapped = ConversionParams::RgbToYuv(
                RgbToYuvParams::Planar {
                    rgb_format,
                    subsampling,
                    plane_order: (0, 2, 1),
                    range,
                    matrix,
                },
            );
            &&& super::converter::convertible(straight, src, i420.0)
                == super::converter::convertible(swapped, src, yv12.0)
            &&& super::converter::conversion_verdict(straight, src, i420.0)
                == super::converter::conversion_verdict(swapped, src, yv12.0)
            &&& super::converter::conversion_outcome(straight, src, i420.0, i420.1)
                == super::converter::conversion_outcome(swapped, src, yv12.0, yv12.1)
        }),
{
    let w = i420.0.info.width;
    let h = i420.0.info.height;
    assert(super::convert::planar_target(i420.0, (0, 1, 2), w, h, subsampling)
        == super::convert::planar_target(yv12.0, (0, 2, 1), w, h, subsampling));
    assert(super::convert::planar_target(i420.1, (0, 1, 2), w, h, subsampling)
        == super::convert::planar_target(yv12.1, (0, 2, 1), w, h, subsampling));
}

proof fn lemma_split(i: int, d: int, q: int, r: int)
    requires
        0 < d,
        0 <= r < d,
        i == q * d + r,
    ensures
        i / d == q,
        i % d == r,
{
    lemma_fundamental_div_mod_converse(i, d, q, r);
}

proof fn lemma_index_below(row: int, rows: int, stride: int, column: int)
    requires
        0 <= row < rows,
        0 <= column < stride,
    ensures
        0 <= row * stride + column < stride * rows,
{
    assert(row * stride + column < stride * rows) by (nonlinear_arith)
        requires
            0 <= row < rows,
            0 <= column < stride,
    ;
    assert(0 <= row * stride) by (nonlinear_arith)
        requires
            0 <= row,
            0 <= stride,
    ;
}

/// Pixels that are moved to another layout and back come back as they were, as long as no alpha
/// is dropped on the way: between whole buffers, nothing of the first one changes.
pub proof fn law_layout_round_trip(
    from: RgbFormat,
    to: RgbFormat,
    src: Seq<u8>,
    src_stride: u32,
    dst: Seq<u8>,
    dst_stride: u32,
    width: u32,
    height: u32,
)
    requires
        from.bytes() == 4 ==> to.bytes() == 4,
        0 < width,
        width * from.bytes() <= src_stride,
        width * to.bytes() <= dst_stride,
        src.len() == src_stride * height,
        dst.len() == dst_stride * height,
    ensures
        crate::yuvops::shuffle::shuffled(
            to,
            from,
            crate::yuvops::shuffle::shuffled(from, to, src, src_stride, dst, dst_stride, width),
            dst_stride,
            src,
            src_stride,
            width,
        ) == src,
{
    let there = crate::yuvops::shuffle::shuffled(
        from,
        to,
        src,
        src_stride,
        dst,
        dst_stride,
        width,
    );
    let back = crate::yuvops::shuffle::shuffled(
        to,
        from,
        there,
        dst_stride,
        src,
        src_stride,
        width,
    );
    let (ss, ds, h) = (src_stride as int, dst_stride as int, height as int);
    let (fb, tb) = (from.bytes(), to.bytes());
    assert(0 < ss && 0 < ds) by (nonlinear_arith)
        requires
            0 < width,
            3 <= fb <= 4,
            3 <= tb <= 4,
            width * fb <= ss,
            width * tb <= ds,
    ;
    assert(ss * h == h * ss && ds * h == h * ds) by (nonlinear_arith);
    lemma_split(src.len() as int, ss, h, 0);
    lemma_split(dst.len() as int, ds, h, 0);
    assert forall|i: int| 0 <= i < src.len() implies back[i] == src[i] by {
        let row = i / ss;
        let column = i % ss;
        lemma_fundamental_div_mod(i, ss);
        lemma_mod_bound(i, ss);
        assert(0 <= row < h) by (nonlinear_arith)
            requires
                i == ss * row + column,
                0 <= column < ss,
                0 <= i < ss * h,
                0 < ss,
        ;
        if column < width * fb {
            let pixel = column / fb;
            let place = column % fb;
            lemma_fundamental_div_mod(column, fb);
            assert(0 <= pixel < width) by (nonlinear_arith)
                requires
                    column == fb * pixel + place,
                    0 <= place < fb,
                    0 <= column < width * fb,
                    0 < fb,
            ;
            let channel = crate::yuvops::shuffle::channel_offset(from, place);
            let offset = crate::yuvops::shuffle::channel_offset(to, channel);
            let j_column = pixel * tb + offset;
            let j = row * ds + j_column;
            assert(0 <= offset < tb);
            assert(0 <= j_column < width * tb) by (nonlinear_arith)
                requires
                    j_column == pixel * tb + offset,
                    0 <= pixel < width,
                    0 <= offset < tb,
            ;
            lemma_split(j, ds, row, j_column);
            lemma_split(j_column, tb, pixel, offset);
            lemma_index_below(row, h, ds, j_column);
            assert(there[j] == crate::yuvops::shuffle::shuffled_byte(
                from,
                to,
                src,
                src_stride,
                dst,
                dst_stride,
                width,
                j,
            ));
            assert(crate::yuvops::shuffle::channel_offset(to, offset) == channel);
            assert(crate::yuvops::shuffle::channel_offset(from, channel) == place);
            assert(pixel * fb == fb * pixel) by (nonlinear_arith);
            assert(row * ss == ss * row) by (nonlinear_arith);
            assert(there[j] == src[row * ss + pixel * fb + place]);
            assert(back[i] == there[j]);
        }
    }
    assert(back =~= src);
}

/// A shuffle moves every byte of a pixel to where its letter stands in the other layout: red, green
/// and blue are what they were, and so is alpha, which is opaque where it was not there. This holds of
/// every pixel of every row that both buffers have.
pub proof fn law_letters_are_moved_to_their_places(
    from: RgbFormat,
    to: RgbFormat,
    src: Seq<u8>,
    src_stride: u32,
    before: Seq<u8>,
    dst_stride: u32,
    width: u32,
    row: int,
    x: int,
    i: int,
    j: int,
)
    requires
        0 <= x < width,
        width * crate::yuvops::rgb_letters(to).len() <= dst_stride,
        0 <= row,
        (row + 1) * src_stride <= src.len(),
        (row + 1) * dst_stride <= before.len(),
        0 < src_stride,
        0 <= j < crate::yuvops::rgb_letters(to).len(),
    ensures
        ({
            let after = crate::yuvops::shuffle::shuffled(
                from,
                to,
                src,
                src_stride,
                before,
                dst_stride,
                width,
            );
            let a = crate::yuvops::rgb_letters(from);
            let b = crate::yuvops::rgb_letters(to);
            let put = after[row * dst_stride + x * b.len() + j];
            &&& after.len() == before.len()
            &&& 0 <= i < a.len() && a[i] == b[j] ==> put == src[row * src_stride + x * a.len() + i]
            &&& !a.contains(b[j]) ==> put == 255
        }),
{
    let (ss, ds) = (src_stride as int, dst_stride as int);
    let (fb, tb) = (from.bytes(), to.bytes());
    let a = crate::yuvops::rgb_letters(from);
    let b = crate::yuvops::rgb_letters(to);
    assert(a.len() == fb && b.len() == tb);
    let column = x * tb + j;
    let at = row * ds + column;
    assert(0 <= column < width * tb) by (nonlinear_arith)
        requires
            column == x * tb + j,
            0 <= x < width,
            0 <= j < tb,
    ;
    lemma_split(column, tb, x, j);
    lemma_split(at, ds, row, column);
    lemma_index_below(row, row + 1, ds, column);
    assert(ds * (row + 1) == (row + 1) * ds) by (nonlinear_arith);
    assert(row < src.len() as int / ss) by {
        lemma_fundamental_div_mod(src.len() as int, ss);
        lemma_mod_bound(src.len() as int, ss);
        let q = src.len() as int / ss;
        assert(row + 1 <= q) by (nonlinear_arith)
            requires
                (row + 1) * ss <= src.len(),
                src.len() == ss * q + src.len() as int % ss,
                0 <= src.len() as int % ss < ss,
        ;
    }
    assert(row < before.len() as int / ds) by {
        lemma_fundamental_div_mod(before.len() as int, ds);
        lemma_mod_bound(before.len() as int, ds);
        let q = before.len() as int / ds;
        assert(row + 1 <= q) by (nonlinear_arith)
            requires
                (row + 1) * ds <= before.len(),
                before.len() == ds * q + before.len() as int % ds,
                0 <= before.len() as int % ds < ds,
        ;
    }
    let channel = crate::yuvops::shuffle::channel_offset(to, j);
    if !a.contains(b[j]) {
        assert(a[0] == 'R' || a[2] == 'R');
        assert(a[1] == 'G');
        assert(a[0] == 'B' || a[2] == 'B');
        assert(b[j] == 'A');
    }
}

/// What is past the pixels of a row, and past the rows, is what it was.
pub proof fn law_shuffles_keep_what_pads(
    from: RgbFormat,
    to: RgbFormat,
    src: Seq<u8>,
    src_stride: u32,
    before: Seq<u8>,
    dst_stride: u32,
    width: u32,
    row: int,
    column: int,
)
    requires
        0 <= row,
        width * crate::yuvops::rgb_letters(to).len() <= column < dst_stride,
        row * dst_stride + column < before.len(),
    ensures
        crate::yuvops::shuffle::shuffled(
            from,
            to,
            src,
            src_stride,
            before,
            dst_stride,
            width,
        )[row * dst_stride + column] == before[row * dst_stride + column],
{
    let ds = dst_stride as int;
    assert(0 <= width * crate::yuvops::rgb_letters(to).len()) by (nonlinear_arith)
        requires
            0 <= width,
            0 <= crate::yuvops::rgb_letters(to).len(),
    ;
    assert(0 <= row * ds) by (nonlinear_arith)
        requires
            0 <= row,
            0 <= ds,
    ;
    lemma_split(row * ds + column, ds, row, column);
    assert(crate::yuvops::rgb_letters(to).len() == to.bytes());
}

} // verus!
