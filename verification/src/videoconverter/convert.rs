//! The conversions themselves.

use super::error::{ConversionError, ConversionStep, PlaneRole, Verdict};
use crate::video::VideoFrame;
use crate::yuvops::decode_packed::{decode_gray, decode_packed};
use crate::yuvops::decode_planar::{decode_planar, decode_planar_10bit, decode_planar_alpha};
use crate::yuvops::decode_semiplanar::{decode_semiplanar, decode_semiplanar_10bit};
use crate::yuvops::encode_planar::{encode_gray, encode_planar};
use crate::yuvops::encode_semiplanar::encode_semiplanar;
use crate::yuvops::shuffle::shuffle;
use crate::yuvops::{
    BiPlanar, PackedOrder, Planar, PlanarAlpha, RgbFormat, SinglePlane, UvOrder, YuvRange,
    YuvStandardMatrix, YuvSubsampling,
};
use vstd::prelude::*;

verus! {

/// Pairs of bytes as 16-bit samples, the low byte first; an odd byte at the end is left out.
pub open spec fn samples(data: Seq<u8>) -> Seq<u16> {
    Seq::new(data.len() / 2, |i: int| (data[2 * i] + 256 * data[2 * i + 1]) as u16)
}

/// Reads pairs of bytes as 16-bit samples.
pub fn read_samples(data: &[u8]) -> (out: Vec<u16>)
    ensures
        out@ == samples(data@),
{
    let len: usize = data.len();
    let n: usize = len / 2;
    let mut out: Vec<u16> = Vec::new();
    let mut i: usize = 0;
    while i < n
        invariant
            len == data@.len(),
            n == len / 2,
            i <= n,
            out@.len() == i,
            forall|k: int| 0 <= k < i ==> out@[k] == samples(data@)[k],
        decreases n - i,
    {
        let low: u16 = data[2 * i] as u16;
        let high: u16 = data[2 * i + 1] as u16;
        out.push(low + 256 * high);
        i = i + 1;
    }
    out
}

/// The planes 0 and 1 of a frame as a semi-planar image of the given size.
pub open spec fn semiplanar_image(frame: VideoFrame, width: u32, height: u32) -> BiPlanar<u8> {
    crate::yuvops::bi_planar(
        frame.planes[0].data@,
        frame.planes[0].stride,
        frame.planes[1].data@,
        frame.planes[1].stride,
        width,
        height,
    )
}

/// The same of 16-bit samples.
pub open spec fn semiplanar_image_10bit(frame: VideoFrame, width: u32, height: u32) -> BiPlanar<
    u16,
> {
    crate::yuvops::bi_planar(
        samples(frame.planes[0].data@),
        frame.planes[0].stride / 2,
        samples(frame.planes[1].data@),
        frame.planes[1].stride / 2,
        width,
        height,
    )
}

/// Whether a frame's first plane holds packed pixels of the given size.
pub open spec fn pixels_fit(
    frame: VideoFrame,
    rgb_format: RgbFormat,
    width: u32,
    height: u32,
) -> bool {
    crate::yuvops::plane_fits(
        frame.planes[0].data@.len(),
        frame.planes[0].stride,
        width * rgb_format.bytes(),
        height as int,
    )
}

/// What becomes of a conversion from a semi-planar frame.
pub open spec fn semiplanar_verdict(
    src: VideoFrame,
    dest: VideoFrame,
    width: u32,
    height: u32,
    subsampling: YuvSubsampling,
    uv_order: UvOrder,
    rgb_format: RgbFormat,
    bit_depth: u32,
) -> Verdict {
    if bit_depth != 8 && bit_depth != 10 {
        Verdict::Refused(ConversionError::UnsupportedBitDepth(bit_depth))
    } else if src.planes.len() == 0 {
        Verdict::Refused(ConversionError::MissingPlane(PlaneRole::Y))
    } else if src.planes.len() == 1 {
        Verdict::Refused(ConversionError::MissingPlane(PlaneRole::Uv))
    } else if !super::params::semiplanar_supported(subsampling, uv_order, bit_depth) {
        Verdict::Refused(
            ConversionError::UnsupportedSemiPlanar { bit_depth, subsampling, uv_order, rgb_format },
        )
    } else if !pixels_fit(dest, rgb_format, width, height) {
        Verdict::Rejected(semiplanar_step(bit_depth))
    } else if bit_depth == 8 && !crate::yuvops::bi_planar_fits(
        semiplanar_image(src, width, height),
        subsampling,
    ) {
        Verdict::Rejected(ConversionStep::SemiPlanar8ToRgb)
    } else if bit_depth == 10 && !crate::yuvops::bi_planar_fits(
        semiplanar_image_10bit(src, width, height),
        subsampling,
    ) {
        Verdict::Rejected(ConversionStep::SemiPlanar10ToRgb)
    } else {
        Verdict::Done
    }
}

pub open spec fn semiplanar_step(bit_depth: u32) -> ConversionStep {
    if bit_depth == 8 {
        ConversionStep::SemiPlanar8ToRgb
    } else {
        ConversionStep::SemiPlanar10ToRgb
    }
}

/// Converts a semi-planar frame (NV12, NV21, NV16, NV61, NV24, P010) into packed pixels.
pub fn convert_semiplanar_yuv_to_rgb(
    frame: &VideoFrame,
    dest: &mut VideoFrame,
    width: u32,
    height: u32,
    range: YuvRange,
    matrix: YuvStandardMatrix,
    subsampling: YuvSubsampling,
    uv_order: UvOrder,
    rgb_format: RgbFormat,
    bit_depth: u32,
) -> (r: Result<(), ConversionError>)
    requires
        old(dest).planes.len() >= 1,
        2 * width <= u32::MAX,
        old(dest).planes[0].stride * height <= isize::MAX,
        frame.planes.len() >= 2 && subsampling == YuvSubsampling::S420 && bit_depth == 8
            ==> crate::yuvops::bi_planar_odd_row(
            semiplanar_image(*frame, width, height),
            old(dest).planes[0].data@.len(),
            old(dest).planes[0].stride,
            rgb_format.bytes(),
        ),
        frame.planes.len() >= 2 && subsampling == YuvSubsampling::S420 && bit_depth == 10
            ==> crate::yuvops::bi_planar_odd_row(
            semiplanar_image_10bit(*frame, width, height),
            old(dest).planes[0].data@.len(),
            old(dest).planes[0].stride,
            rgb_format.bytes(),
        ),
    ensures
        super::error::follows(
            r,
            semiplanar_verdict(
                *frame,
                *old(dest),
                width,
                height,
                subsampling,
                uv_order,
                rgb_format,
                bit_depth,
            ),
        ),
        r is Err ==> crate::video::same_but(*old(dest), *final(dest), Set::empty()),
        crate::video::same_but(*old(dest), *final(dest), set![0]),
        r is Ok && bit_depth == 8 ==> crate::yuvops::decode_semiplanar::semiplanar_pixels(
            subsampling,
            uv_order,
            rgb_format,
            semiplanar_image(*frame, width, height),
            range,
            matrix,
            old(dest).planes[0].stride,
            old(dest).planes[0].data@,
            final(dest).planes[0].data@,
        ),
        r is Ok && bit_depth == 10 ==> crate::yuvops::decode_semiplanar::semiplanar_pixels_10bit(
            subsampling,
            uv_order,
            rgb_format,
            semiplanar_image_10bit(*frame, width, height),
            range,
            matrix,
            old(dest).planes[0].stride,
            old(dest).planes[0].data@,
            final(dest).planes[0].data@,
        ),
{
    let rgb_stride: u32 = dest.planes[0].stride;
    if bit_depth == 8 {
        if frame.planes.len() < 1 {
            return Err(ConversionError::MissingPlane(PlaneRole::Y));
        }
        if frame.planes.len() < 2 {
            return Err(ConversionError::MissingPlane(PlaneRole::Uv));
        }
        let converted = decode_semiplanar(
            subsampling,
            uv_order,
            rgb_format,
            frame.planes[0].data.as_slice(),
            frame.planes[0].stride,
            frame.planes[1].data.as_slice(),
            frame.planes[1].stride,
            width,
            height,
            dest.planes[0].data.as_mut_slice(),
            rgb_stride,
            range,
            matrix,
        );
        match converted {
            Some(Ok(())) => Ok(()),
            Some(Err(e)) => Err(ConversionError::Failed(ConversionStep::SemiPlanar8ToRgb, e)),
            None => Err(
                ConversionError::UnsupportedSemiPlanar {
                    bit_depth,
                    subsampling,
                    uv_order,
                    rgb_format,
                },
            ),
        }
    } else if bit_depth == 10 {
        if frame.planes.len() < 1 {
            return Err(ConversionError::MissingPlane(PlaneRole::Y));
        }
        if frame.planes.len() < 2 {
            return Err(ConversionError::MissingPlane(PlaneRole::Uv));
        }
        let y_plane = read_samples(frame.planes[0].data.as_slice());
        let uv_plane = read_samples(frame.planes[1].data.as_slice());
        let converted = decode_semiplanar_10bit(
            subsampling,
            uv_order,
            rgb_format,
            y_plane.as_slice(),
            frame.planes[0].stride / 2,
            uv_plane.as_slice(),
            frame.planes[1].stride / 2,
            width,
            height,
            dest.planes[0].data.as_mut_slice(),
            rgb_stride,
            range,
            matrix,
        );
        match converted {
            Some(Ok(())) => Ok(()),
            Some(Err(e)) => Err(ConversionError::Failed(ConversionStep::SemiPlanar10ToRgb, e)),
            None => Err(
                ConversionError::UnsupportedSemiPlanar {
                    bit_depth,
                    subsampling,
                    uv_order,
                    rgb_format,
                },
            ),
        }
    } else {
        Err(ConversionError::UnsupportedBitDepth(bit_depth))
    }
}

/// The planes of a frame that hold luma and chroma as a planar image of the given size.
pub open spec fn planar_image(
    frame: VideoFrame,
    order: (usize, usize, usize),
    width: u32,
    height: u32,
) -> Planar<u8> {
    crate::yuvops::planar(
        frame.planes[order.0 as int].data@,
        frame.planes[order.0 as int].stride,
        frame.planes[order.1 as int].data@,
        frame.planes[order.1 as int].stride,
        frame.planes[order.2 as int].data@,
        frame.planes[order.2 as int].stride,
        width,
        height,
    )
}

/// The same of 16-bit samples.
pub open spec fn planar_image_10bit(
    frame: VideoFrame,
    order: (usize, usize, usize),
    width: u32,
    height: u32,
) -> Planar<u16> {
    crate::yuvops::planar(
        samples(frame.planes[order.0 as int].data@),
        frame.planes[order.0 as int].stride / 2,
        samples(frame.planes[order.1 as int].data@),
        frame.planes[order.1 as int].stride / 2,
        samples(frame.planes[order.2 as int].data@),
        frame.planes[order.2 as int].stride / 2,
        width,
        height,
    )
}

/// The first of the three planes that a frame lacks.
pub open spec fn missing_plane(frame: VideoFrame, order: (usize, usize, usize)) -> Option<
    PlaneRole,
> {
    if frame.planes.len() <= order.0 {
        Some(PlaneRole::Y)
    } else if frame.planes.len() <= order.1 {
        Some(PlaneRole::U)
    } else if frame.planes.len() <= order.2 {
        Some(PlaneRole::V)
    } else {
        None
    }
}

fn find_missing_plane(frame: &VideoFrame, order: (usize, usize, usize)) -> (missing: Option<
    PlaneRole,
>)
    ensures
        missing == missing_plane(*frame, order),
{
    let n: usize = frame.planes.len();
    if n <= order.0 {
        Some(PlaneRole::Y)
    } else if n <= order.1 {
        Some(PlaneRole::U)
    } else if n <= order.2 {
        Some(PlaneRole::V)
    } else {
        None
    }
}

/// What becomes of a conversion from a planar frame.
pub open spec fn planar_verdict(
    src: VideoFrame,
    dest: VideoFrame,
    width: u32,
    height: u32,
    order: (usize, usize, usize),
    subsampling: YuvSubsampling,
    rgb_format: RgbFormat,
    bit_depth: u32,
) -> Verdict {
    let step = if bit_depth == 8 {
        ConversionStep::Planar8ToRgb
    } else {
        ConversionStep::Planar10ToRgb
    };
    if bit_depth != 8 && bit_depth != 10 {
        Verdict::Refused(ConversionError::UnsupportedBitDepth(bit_depth))
    } else if missing_plane(src, order) is Some {
        Verdict::Refused(ConversionError::MissingPlane(missing_plane(src, order)->0))
    } else if !super::params::planar_supported(subsampling, rgb_format, bit_depth) {
        Verdict::Refused(
            ConversionError::UnsupportedPlanar { bit_depth, subsampling, rgb_format },
        )
    } else if !pixels_fit(dest, rgb_format, width, height) {
        Verdict::Rejected(step)
    } else if bit_depth == 8 && !crate::yuvops::planar_fits(
        planar_image(src, order, width, height),
        subsampling,
    ) {
        Verdict::Rejected(step)
    } else if bit_depth == 10 && !crate::yuvops::planar_fits(
        planar_image_10bit(src, order, width, height),
        subsampling,
    ) {
        Verdict::Rejected(step)
    } else {
        Verdict::Done
    }
}

/// Converts a planar frame (I420, YV12, Y42B, Y444, I420_10LE, I422_10LE) into packed pixels.
pub fn convert_planar_yuv_to_rgb(
    frame: &VideoFrame,
    dest: &mut VideoFrame,
    width: u32,
    height: u32,
    range: YuvRange,
    matrix: YuvStandardMatrix,
    plane_order: (usize, usize, usize),
    subsampling: YuvSubsampling,
    rgb_format: RgbFormat,
    bit_depth: u32,
) -> (r: Result<(), ConversionError>)
    requires
        old(dest).planes.len() >= 1,
        old(dest).planes[0].stride * height <= isize::MAX,
    ensures
        super::error::follows(
            r,
            planar_verdict(
                *frame,
                *old(dest),
                width,
                height,
                plane_order,
                subsampling,
                rgb_format,
                bit_depth,
            ),
        ),
        r is Err ==> crate::video::same_but(*old(dest), *final(dest), Set::empty()),
        crate::video::same_but(*old(dest), *final(dest), set![0]),
        r is Ok && bit_depth == 8 ==> crate::yuvops::decode_planar::planar_pixels(
            subsampling,
            rgb_format,
            planar_image(*frame, plane_order, width, height),
            range,
            matrix,
            old(dest).planes[0].stride,
            old(dest).planes[0].data@,
            final(dest).planes[0].data@,
        ),
        r is Ok && bit_depth == 10 ==> crate::yuvops::decode_planar::planar_pixels_10bit(
            subsampling,
            rgb_format,
            planar_image_10bit(*frame, plane_order, width, height),
            range,
            matrix,
            old(dest).planes[0].stride,
            old(dest).planes[0].data@,
            final(dest).planes[0].data@,
        ),
{
    let (y_idx, u_idx, v_idx) = plane_order;
    let rgb_stride: u32 = dest.planes[0].stride;
    if bit_depth == 8 {
        if let Some(role) = find_missing_plane(frame, plane_order) {
            return Err(ConversionError::MissingPlane(role));
        }
        let converted = decode_planar(
            subsampling,
            rgb_format,
            frame.planes[y_idx].data.as_slice(),
            frame.planes[y_idx].stride,
            frame.planes[u_idx].data.as_slice(),
            frame.planes[u_idx].stride,
            frame.planes[v_idx].data.as_slice(),
            frame.planes[v_idx].stride,
            width,
            height,
            dest.planes[0].data.as_mut_slice(),
            rgb_stride,
            range,
            matrix,
        );
        match converted {
            Some(Ok(())) => Ok(()),
            Some(Err(e)) => Err(ConversionError::Failed(ConversionStep::Planar8ToRgb, e)),
            None => Err(ConversionError::UnsupportedPlanar { bit_depth, subsampling, rgb_format }),
        }
    } else if bit_depth == 10 {
        if let Some(role) = find_missing_plane(frame, plane_order) {
            return Err(ConversionError::MissingPlane(role));
        }
        let y_plane = read_samples(frame.planes[y_idx].data.as_slice());
        let u_plane = read_samples(frame.planes[u_idx].data.as_slice());
        let v_plane = read_samples(frame.planes[v_idx].data.as_slice());
        let converted = decode_planar_10bit(
            subsampling,
            rgb_format,
            y_plane.as_slice(),
            frame.planes[y_idx].stride / 2,
            u_plane.as_slice(),
            frame.planes[u_idx].stride / 2,
            v_plane.as_slice(),
            frame.planes[v_idx].stride / 2,
            width,
            height,
            dest.planes[0].data.as_mut_slice(),
            rgb_stride,
            range,
            matrix,
        );
        match converted {
            Some(Ok(())) => Ok(()),
            Some(Err(e)) => Err(ConversionError::Failed(ConversionStep::Planar10ToRgb, e)),
            None => Err(ConversionError::UnsupportedPlanar { bit_depth, subsampling, rgb_format }),
        }
    } else {
        Err(ConversionError::UnsupportedBitDepth(bit_depth))
    }
}

/// The planes of a frame that hold luma, chroma and, last, alpha.
pub open spec fn planar_alpha_image(
    frame: VideoFrame,
    order: (usize, usize, usize),
    width: u32,
    height: u32,
) -> PlanarAlpha {
    PlanarAlpha {
        colour: planar_image(frame, order, width, height),
        a: frame.planes[3].data@,
        a_stride: frame.planes[3].stride,
    }
}

/// What becomes of a conversion from a planar frame with alpha.
pub open spec fn planar_alpha_verdict(
    src: VideoFrame,
    dest: VideoFrame,
    width: u32,
    height: u32,
    order: (usize, usize, usize),
    subsampling: YuvSubsampling,
    rgb_format: RgbFormat,
    bit_depth: u32,
) -> Verdict {
    if bit_depth != 8 || rgb_format != RgbFormat::Rgba {
        Verdict::Refused(ConversionError::UnsupportedPlanarAlpha { bit_depth, rgb_format })
    } else if missing_plane(src, order) is Some {
        Verdict::Refused(ConversionError::MissingPlane(missing_plane(src, order)->0))
    } else if src.planes.len() <= 3 {
        Verdict::Refused(ConversionError::MissingPlane(PlaneRole::A))
    } else if subsampling == YuvSubsampling::S400 {
        Verdict::Refused(ConversionError::UnsupportedPlanarAlphaSubsampling(subsampling))
    } else if pixels_fit(dest, rgb_format, width, height) && crate::yuvops::planar_alpha_fits(
        planar_alpha_image(src, order, width, height),
        subsampling,
    ) {
        Verdict::Done
    } else {
        Verdict::Rejected(ConversionStep::PlanarAlphaToRgba)
    }
}

/// Converts a planar frame with alpha (A420, A422, A444) into RGBA with straight alpha. The alpha
/// plane is the fourth.
pub fn convert_planar_yuva_to_rgba(
    frame: &VideoFrame,
    dest: &mut VideoFrame,
    width: u32,
    height: u32,
    range: YuvRange,
    matrix: YuvStandardMatrix,
    plane_order: (usize, usize, usize),
    subsampling: YuvSubsampling,
    rgb_format: RgbFormat,
    bit_depth: u32,
) -> (r: Result<(), ConversionError>)
    requires
        bit_depth == 8 && rgb_format == RgbFormat::Rgba ==> old(dest).planes.len() >= 1
            && old(dest).planes[0].stride * height <= isize::MAX,
    ensures
        super::error::follows(
            r,
            planar_alpha_verdict(
                *frame,
                *old(dest),
                width,
                height,
                plane_order,
                subsampling,
                rgb_format,
                bit_depth,
            ),
        ),
        r is Err ==> crate::video::same_but(*old(dest), *final(dest), Set::empty()),
        crate::video::same_but(*old(dest), *final(dest), set![0]),
        r is Ok ==> crate::yuvops::decode_planar::planar_alpha_pixels(
            subsampling,
            planar_alpha_image(*frame, plane_order, width, height),
            range,
            matrix,
            old(dest).planes[0].stride,
            old(dest).planes[0].data@,
            final(dest).planes[0].data@,
        ),
{
    if bit_depth != 8 || rgb_format != RgbFormat::Rgba {
        return Err(ConversionError::UnsupportedPlanarAlpha { bit_depth, rgb_format });
    }
    let (y_idx, u_idx, v_idx) = plane_order;
    let rgba_stride: u32 = dest.planes[0].stride;
    if let Some(role) = find_missing_plane(frame, plane_order) {
        return Err(ConversionError::MissingPlane(role));
    }
    if frame.planes.len() <= 3 {
        return Err(ConversionError::MissingPlane(PlaneRole::A));
    }
    let converted = decode_planar_alpha(
        subsampling,
        frame.planes[y_idx].data.as_slice(),
        frame.planes[y_idx].stride,
        frame.planes[u_idx].data.as_slice(),
        frame.planes[u_idx].stride,
        frame.planes[v_idx].data.as_slice(),
        frame.planes[v_idx].stride,
        frame.planes[3].data.as_slice(),
        frame.planes[3].stride,
        width,
        height,
        dest.planes[0].data.as_mut_slice(),
        rgba_stride,
        range,
        matrix,
    );
    match converted {
        Some(Ok(())) => Ok(()),
        Some(Err(e)) => Err(ConversionError::Failed(ConversionStep::PlanarAlphaToRgba, e)),
        None => Err(ConversionError::UnsupportedPlanarAlphaSubsampling(subsampling)),
    }
}

/// The first plane of a frame as an image of the given size.
pub open spec fn first_plane_image(frame: VideoFrame, width: u32, height: u32) -> SinglePlane {
    crate::yuvops::single_plane(frame.planes[0].data@, frame.planes[0].stride, width, height)
}

/// What becomes of a conversion from a packed frame.
pub open spec fn packed_verdict(
    src: VideoFrame,
    dest: VideoFrame,
    width: u32,
    height: u32,
) -> Verdict {
    if src.planes.len() == 0 {
        Verdict::Refused(ConversionError::MissingPlane(PlaneRole::Yuy))
    } else if crate::yuvops::packed_fits(first_plane_image(src, width, height)) && pixels_fit(
        dest,
        RgbFormat::Rgb,
        width,
        height,
    ) {
        Verdict::Done
    } else {
        Verdict::Rejected(ConversionStep::PackedToRgb)
    }
}

/// Converts a packed frame (YUY2, UYVY, VYUY, YVYU) into RGB.
pub fn convert_packed_yuv_to_rgb(
    frame: &VideoFrame,
    dest: &mut VideoFrame,
    width: u32,
    height: u32,
    range: YuvRange,
    matrix: YuvStandardMatrix,
    packed_order: PackedOrder,
) -> (r: Result<(), ConversionError>)
    requires
        frame.planes.len() >= 1 ==> old(dest).planes.len() >= 1 && old(dest).planes[0].stride
            * height <= isize::MAX,
        2 * width + 2 <= usize::MAX,
    ensures
        super::error::follows(r, packed_verdict(*frame, *old(dest), width, height)),
        r is Err ==> crate::video::same_but(*old(dest), *final(dest), Set::empty()),
        crate::video::same_but(*old(dest), *final(dest), set![0]),
        r is Ok ==> crate::yuvops::decode_packed::packed_pixels(
            packed_order,
            first_plane_image(*frame, width, height),
            range,
            matrix,
            old(dest).planes[0].stride,
            old(dest).planes[0].data@,
            final(dest).planes[0].data@,
        ),
{
    if frame.planes.len() == 0 {
        return Err(ConversionError::MissingPlane(PlaneRole::Yuy));
    }
    let rgb_stride: u32 = dest.planes[0].stride;
    match decode_packed(
        packed_order,
        frame.planes[0].data.as_slice(),
        frame.planes[0].stride,
        width,
        height,
        dest.planes[0].data.as_mut_slice(),
        rgb_stride,
        range,
        matrix,
    ) {
        Ok(()) => Ok(()),
        Err(e) => Err(ConversionError::Failed(ConversionStep::PackedToRgb, e)),
    }
}

/// What becomes of a conversion from a gray frame.
pub open spec fn gray_verdict(
    src: VideoFrame,
    dest: VideoFrame,
    width: u32,
    height: u32,
    rgb_format: RgbFormat,
) -> Verdict {
    if src.planes.len() == 0 {
        Verdict::Refused(ConversionError::MissingPlane(PlaneRole::Y))
    } else if crate::yuvops::plane_fits(
        src.planes[0].data@.len(),
        src.planes[0].stride,
        width as int,
        height as int,
    ) && pixels_fit(dest, rgb_format, width, height) {
        Verdict::Done
    } else {
        Verdict::Rejected(ConversionStep::GrayscaleToRgb)
    }
}

/// Converts a gray frame (GRAY8) into packed pixels.
pub fn convert_grayscale_to_rgb(
    frame: &VideoFrame,
    dest: &mut VideoFrame,
    width: u32,
    height: u32,
    range: YuvRange,
    matrix: YuvStandardMatrix,
    rgb_format: RgbFormat,
) -> (r: Result<(), ConversionError>)
    requires
        frame.planes.len() >= 1 ==> old(dest).planes.len() >= 1 && old(dest).planes[0].stride
            * height <= isize::MAX,
    ensures
        super::error::follows(r, gray_verdict(*frame, *old(dest), width, height, rgb_format)),
        r is Err ==> crate::video::same_but(*old(dest), *final(dest), Set::empty()),
        crate::video::same_but(*old(dest), *final(dest), set![0]),
        r is Ok ==> crate::yuvops::decode_packed::gray_pixels(
            rgb_format,
            first_plane_image(*frame, width, height),
            range,
            matrix,
            old(dest).planes[0].stride,
            old(dest).planes[0].data@,
            final(dest).planes[0].data@,
        ),
{
    if frame.planes.len() == 0 {
        return Err(ConversionError::MissingPlane(PlaneRole::Y));
    }
    let rgb_stride: u32 = dest.planes[0].stride;
    match decode_gray(
        rgb_format,
        frame.planes[0].data.as_slice(),
        frame.planes[0].stride,
        width,
        height,
        dest.planes[0].data.as_mut_slice(),
        rgb_stride,
        range,
        matrix,
    ) {
        Ok(()) => Ok(()),
        Err(e) => Err(ConversionError::Failed(ConversionStep::GrayscaleToRgb, e)),
    }
}

/// The chroma rows that a conversion from packed pixels fills: half the rows, rounded down, for
/// 4:2:0.
pub open spec fn filled_chroma_rows(subsampling: YuvSubsampling, height: u32) -> u32 {
    if subsampling == YuvSubsampling::S420 {
        height / 2
    } else {
        height
    }
}

/// The rows of a semi-planar frame that a conversion from packed pixels fills.
pub open spec fn semiplanar_target(
    frame: VideoFrame,
    width: u32,
    height: u32,
    subsampling: YuvSubsampling,
) -> BiPlanar<u8> {
    let uv_rows = filled_chroma_rows(subsampling, height);
    crate::yuvops::bi_planar(
        frame.planes[0].data@.take(frame.planes[0].stride * height),
        frame.planes[0].stride,
        frame.planes[1].data@.take(frame.planes[1].stride * uv_rows),
        frame.planes[1].stride,
        width,
        height,
    )
}

/// Whether a plane has the rows that a conversion fills.
pub open spec fn has_rows(frame: VideoFrame, plane: int, rows: u32) -> bool {
    &&& frame.planes[plane].stride * rows <= frame.planes[plane].data@.len()
    &&& frame.planes[plane].stride * rows <= u32::MAX
}

/// What is past the filled rows of a plane.
pub open spec fn rest_of(frame: VideoFrame, plane: int, rows: u32) -> Seq<u8> {
    frame.planes[plane].data@.skip(frame.planes[plane].stride * rows)
}

/// What becomes of a conversion to a semi-planar frame.
pub open spec fn to_semiplanar_verdict(
    src: VideoFrame,
    dest: VideoFrame,
    width: u32,
    height: u32,
    rgb_format: RgbFormat,
    subsampling: YuvSubsampling,
    uv_order: UvOrder,
) -> Verdict {
    if !crate::yuvops::chroma_order_known(subsampling, uv_order) {
        Verdict::Refused(
            ConversionError::UnsupportedToSemiPlanar { rgb_format, subsampling, uv_order },
        )
    } else if pixels_fit(src, rgb_format, width, height) && crate::yuvops::bi_planar_fits(
        semiplanar_target(dest, width, height, subsampling),
        subsampling,
    ) {
        Verdict::Done
    } else {
        Verdict::Rejected(ConversionStep::RgbToSemiPlanar)
    }
}

/// A 4:2:0 image with an odd height never fits: its last chroma row is not among the filled ones.
proof fn lemma_odd_height_does_not_fit(len: nat, stride: u32, row: int, height: u32)
    requires
        height % 2 == 1,
        len == stride * (height / 2),
    ensures
        !crate::yuvops::plane_fits(
            len,
            stride,
            row,
            crate::yuvops::chroma_rows(YuvSubsampling::S420, height),
        ),
{
    assert((height + 1) / 2 - 1 == height / 2);
}

/// Converts packed pixels into a semi-planar frame (NV12, NV21, NV16, NV61, NV24).
pub fn convert_rgb_to_semiplanar_yuv(
    frame: &VideoFrame,
    dest: &mut VideoFrame,
    width: u32,
    height: u32,
    range: YuvRange,
    matrix: YuvStandardMatrix,
    rgb_format: RgbFormat,
    subsampling: YuvSubsampling,
    uv_order: UvOrder,
) -> (r: Result<(), ConversionError>)
    requires
        frame.planes.len() >= 1,
        old(dest).planes.len() >= 2,
        subsampling != YuvSubsampling::S400,
        has_rows(*old(dest), 0, height),
        has_rows(*old(dest), 1, filled_chroma_rows(subsampling, height)),
        2 * width <= u32::MAX,
        frame.planes[0].stride * height <= isize::MAX,
    ensures
        super::error::follows(
            r,
            to_semiplanar_verdict(
                *frame,
                *old(dest),
                width,
                height,
                rgb_format,
                subsampling,
                uv_order,
            ),
        ),
        r is Err ==> crate::video::same_but(*old(dest), *final(dest), Set::empty()),
        crate::video::same_but(*old(dest), *final(dest), set![0, 1]),
        rest_of(*final(dest), 0, height) == rest_of(*old(dest), 0, height),
        rest_of(*final(dest), 1, filled_chroma_rows(subsampling, height)) == rest_of(
            *old(dest),
            1,
            filled_chroma_rows(subsampling, height),
        ),
        r is Ok ==> crate::yuvops::encode_semiplanar::semiplanar_planes(
            rgb_format,
            subsampling,
            uv_order,
            frame.planes[0].data@,
            frame.planes[0].stride,
            range,
            matrix,
            semiplanar_target(*old(dest), width, height, subsampling),
            semiplanar_target(*final(dest), width, height, subsampling),
        ),
{
    let rgb_stride: u32 = frame.planes[0].stride;
    let y_stride: u32 = dest.planes[0].stride;
    let uv_stride: u32 = dest.planes[1].stride;
    let y_size: usize = (y_stride * height) as usize;
    let uv_height: u32 = match subsampling {
        YuvSubsampling::S420 => height / 2,
        _ => height,
    };
    let uv_size: usize = (uv_stride * uv_height) as usize;
    let (first, rest) = dest.planes.as_mut_slice().split_at_mut(1);
    let (y_plane, _) = first[0].data.as_mut_slice().split_at_mut(y_size);
    let (uv_plane, _) = rest[0].data.as_mut_slice().split_at_mut(uv_size);
    let ghost (y_before, uv_before) = (y_plane@, uv_plane@);
    proof {
        if subsampling == YuvSubsampling::S420 && height % 2 == 1 {
            lemma_odd_height_does_not_fit(
                uv_plane@.len(),
                uv_stride,
                2 * crate::yuvops::chroma_row(subsampling, width),
                height,
            );
        }
    }
    let converted = encode_semiplanar(
        rgb_format,
        subsampling,
        uv_order,
        y_plane,
        y_stride,
        uv_plane,
        uv_stride,
        width,
        height,
        frame.planes[0].data.as_slice(),
        rgb_stride,
        range,
        matrix,
    );
    let ghost (y_after, uv_after) = (y_plane@, uv_plane@);
    proof {
        let (y_old, uv_old) = (old(dest).planes[0].data@, old(dest).planes[1].data@);
        let (y_new, uv_new) = (dest.planes[0].data@, dest.planes[1].data@);
        assert(y_old.take(y_size as int) =~= y_before);
        assert(uv_old.take(uv_size as int) =~= uv_before);
        assert(y_new.take(y_size as int) =~= y_after);
        assert(uv_new.take(uv_size as int) =~= uv_after);
        assert(y_new.skip(y_size as int) =~= y_old.skip(y_size as int));
        assert(uv_new.skip(uv_size as int) =~= uv_old.skip(uv_size as int));
        assert(y_old =~= y_old.take(y_size as int) + y_old.skip(y_size as int));
        assert(uv_old =~= uv_old.take(uv_size as int) + uv_old.skip(uv_size as int));
        assert(y_new =~= y_new.take(y_size as int) + y_new.skip(y_size as int));
        assert(uv_new =~= uv_new.take(uv_size as int) + uv_new.skip(uv_size as int));
    }
    match converted {
        Some(Ok(())) => Ok(()),
        Some(Err(e)) => Err(ConversionError::Failed(ConversionStep::RgbToSemiPlanar, e)),
        None => Err(
            ConversionError::UnsupportedToSemiPlanar { rgb_format, subsampling, uv_order },
        ),
    }
}

/// The rows of a planar frame that a conversion from packed pixels fills.
pub open spec fn planar_target(
    frame: VideoFrame,
    order: (usize, usize, usize),
    width: u32,
    height: u32,
    subsampling: YuvSubsampling,
) -> Planar<u8> {
    let rows = filled_chroma_rows(subsampling, height);
    let y = frame.planes[order.0 as int];
    let u = frame.planes[order.1 as int];
    let v = frame.planes[order.2 as int];
    crate::yuvops::planar(
        y.data@.take(y.stride * height),
        y.stride,
        u.data@.take(u.stride * rows),
        u.stride,
        v.data@.take(v.stride * rows),
        v.stride,
        width,
        height,
    )
}

/// What becomes of a conversion to a planar frame.
pub open spec fn to_planar_verdict(
    src: VideoFrame,
    dest: VideoFrame,
    order: (usize, usize, usize),
    width: u32,
    height: u32,
    rgb_format: RgbFormat,
    subsampling: YuvSubsampling,
) -> Verdict {
    if pixels_fit(src, rgb_format, width, height) && crate::yuvops::planar_fits(
        planar_target(dest, order, width, height, subsampling),
        subsampling,
    ) {
        Verdict::Done
    } else {
        Verdict::Rejected(ConversionStep::RgbToPlanar)
    }
}

/// Three different planes of a frame.
pub open spec fn three_planes(frame: VideoFrame, order: (usize, usize, usize)) -> bool {
    &&& order.0 < frame.planes.len()
    &&& order.1 < frame.planes.len()
    &&& order.2 < frame.planes.len()
    &&& order.0 != order.1
    &&& order.1 != order.2
    &&& order.0 != order.2
}

/// Converts packed pixels into a planar frame (I420, YV12, Y42B, Y444).
pub fn convert_rgb_to_planar_yuv(
    frame: &VideoFrame,
    dest: &mut VideoFrame,
    width: u32,
    height: u32,
    range: YuvRange,
    matrix: YuvStandardMatrix,
    rgb_format: RgbFormat,
    subsampling: YuvSubsampling,
    plane_order: (usize, usize, usize),
) -> (r: Result<(), ConversionError>)
    requires
        frame.planes.len() >= 1,
        three_planes(*old(dest), plane_order),
        subsampling != YuvSubsampling::S400,
        has_rows(*old(dest), plane_order.0 as int, height),
        has_rows(*old(dest), plane_order.1 as int, filled_chroma_rows(subsampling, height)),
        has_rows(*old(dest), plane_order.2 as int, filled_chroma_rows(subsampling, height)),
        frame.planes[0].stride * height <= isize::MAX,
    ensures
        super::error::follows(
            r,
            to_planar_verdict(
                *frame,
                *old(dest),
                plane_order,
                width,
                height,
                rgb_format,
                subsampling,
            ),
        ),
        r is Err ==> crate::video::same_but(*old(dest), *final(dest), Set::empty()),
        crate::video::same_but(
            *old(dest),
            *final(dest),
            set![plane_order.0 as int, plane_order.1 as int, plane_order.2 as int],
        ),
        rest_of(*final(dest), plane_order.0 as int, height) == rest_of(
            *old(dest),
            plane_order.0 as int,
            height,
        ),
        rest_of(*final(dest), plane_order.1 as int, filled_chroma_rows(subsampling, height))
            == rest_of(*old(dest), plane_order.1 as int, filled_chroma_rows(subsampling, height)),
        rest_of(*final(dest), plane_order.2 as int, filled_chroma_rows(subsampling, height))
            == rest_of(*old(dest), plane_order.2 as int, filled_chroma_rows(subsampling, height)),
        r is Ok ==> crate::yuvops::encode_planar::planar_planes(
            rgb_format,
            subsampling,
            frame.planes[0].data@,
            frame.planes[0].stride,
            range,
            matrix,
            planar_target(*old(dest), plane_order, width, height, subsampling),
            planar_target(*final(dest), plane_order, width, height, subsampling),
        ),
{
    let (y_idx, u_idx, v_idx) = plane_order;
    let rgb_stride: u32 = frame.planes[0].stride;
    let y_stride: u32 = dest.planes[y_idx].stride;
    let u_stride: u32 = dest.planes[u_idx].stride;
    let v_stride: u32 = dest.planes[v_idx].stride;
    let chroma_height: u32 = match subsampling {
        YuvSubsampling::S420 => height / 2,
        _ => height,
    };
    let y_size: usize = (y_stride * height) as usize;
    let u_size: usize = (u_stride * chroma_height) as usize;
    let v_size: usize = (v_stride * chroma_height) as usize;
    let mut y_data: Vec<u8> = Vec::new();
    let mut u_data: Vec<u8> = Vec::new();
    let mut v_data: Vec<u8> = Vec::new();
    std::mem::swap(&mut y_data, &mut dest.planes[y_idx].data);
    std::mem::swap(&mut u_data, &mut dest.planes[u_idx].data);
    std::mem::swap(&mut v_data, &mut dest.planes[v_idx].data);
    let ghost (y_old, u_old, v_old) = (y_data@, u_data@, v_data@);
    let (y_plane, _) = y_data.as_mut_slice().split_at_mut(y_size);
    let (u_plane, _) = u_data.as_mut_slice().split_at_mut(u_size);
    let (v_plane, _) = v_data.as_mut_slice().split_at_mut(v_size);
    proof {
        assert(y_old.take(y_size as int) =~= y_plane@);
        assert(u_old.take(u_size as int) =~= u_plane@);
        assert(v_old.take(v_size as int) =~= v_plane@);
        if subsampling == YuvSubsampling::S420 && height % 2 == 1 {
            lemma_odd_height_does_not_fit(
                u_plane@.len(),
                u_stride,
                crate::yuvops::chroma_row(subsampling, width),
                height,
            );
        }
    }
    let converted = encode_planar(
        rgb_format,
        subsampling,
        y_plane,
        y_stride,
        u_plane,
        u_stride,
        v_plane,
        v_stride,
        width,
        height,
        frame.planes[0].data.as_slice(),
        rgb_stride,
        range,
        matrix,
    );
    let ghost (y_after, u_after, v_after) = (y_plane@, u_plane@, v_plane@);
    proof {
        assert(y_data@.take(y_size as int) =~= y_after);
        assert(u_data@.take(u_size as int) =~= u_after);
        assert(v_data@.take(v_size as int) =~= v_after);
        assert(y_data@.skip(y_size as int) =~= y_old.skip(y_size as int));
        assert(u_data@.skip(u_size as int) =~= u_old.skip(u_size as int));
        assert(v_data@.skip(v_size as int) =~= v_old.skip(v_size as int));
        assert(y_old =~= y_old.take(y_size as int) + y_old.skip(y_size as int));
        assert(u_old =~= u_old.take(u_size as int) + u_old.skip(u_size as int));
        assert(v_old =~= v_old.take(v_size as int) + v_old.skip(v_size as int));
        assert(y_data@ =~= y_data@.take(y_size as int) + y_data@.skip(y_size as int));
        assert(u_data@ =~= u_data@.take(u_size as int) + u_data@.skip(u_size as int));
        assert(v_data@ =~= v_data@.take(v_size as int) + v_data@.skip(v_size as int));
    }
    std::mem::swap(&mut y_data, &mut dest.planes[y_idx].data);
    std::mem::swap(&mut u_data, &mut dest.planes[u_idx].data);
    std::mem::swap(&mut v_data, &mut dest.planes[v_idx].data);
    match converted {
        Some(Ok(())) => Ok(()),
        Some(Err(e)) => Err(ConversionError::Failed(ConversionStep::RgbToPlanar, e)),
        None => Err(ConversionError::UnsupportedPlanar { bit_depth: 8, subsampling, rgb_format }),
    }
}

/// What becomes of a conversion to a gray frame.
pub open spec fn to_gray_verdict(
    src: VideoFrame,
    dest: VideoFrame,
    width: u32,
    height: u32,
    rgb_format: RgbFormat,
) -> Verdict {
    if pixels_fit(src, rgb_format, width, height) && crate::yuvops::plane_fits(
        dest.planes[0].data@.len(),
        dest.planes[0].stride,
        width as int,
        height as int,
    ) {
        Verdict::Done
    } else {
        Verdict::Rejected(ConversionStep::RgbToGrayscale)
    }
}

/// Converts packed pixels into a gray frame (GRAY8).
pub fn convert_rgb_to_grayscale(
    frame: &VideoFrame,
    dest: &mut VideoFrame,
    width: u32,
    height: u32,
    range: YuvRange,
    matrix: YuvStandardMatrix,
    rgb_format: RgbFormat,
) -> (r: Result<(), ConversionError>)
    requires
        frame.planes.len() >= 1,
        old(dest).planes.len() >= 1,
        frame.planes[0].stride * height <= isize::MAX,
    ensures
        super::error::follows(r, to_gray_verdict(*frame, *old(dest), width, height, rgb_format)),
        r is Err ==> crate::video::same_but(*old(dest), *final(dest), Set::empty()),
        crate::video::same_but(*old(dest), *final(dest), set![0]),
        r is Ok ==> crate::yuvops::encode_planar::gray_plane(
            rgb_format,
            frame.planes[0].data@,
            frame.planes[0].stride,
            range,
            matrix,
            first_plane_image(*old(dest), width, height),
            first_plane_image(*final(dest), width, height),
        ),
{
    let y_stride: u32 = dest.planes[0].stride;
    match encode_gray(
        rgb_format,
        dest.planes[0].data.as_mut_slice(),
        y_stride,
        width,
        height,
        frame.planes[0].data.as_slice(),
        frame.planes[0].stride,
        range,
        matrix,
    ) {
        Ok(()) => Ok(()),
        Err(e) => Err(ConversionError::Failed(ConversionStep::RgbToGrayscale, e)),
    }
}

/// What becomes of a conversion between pixel layouts.
pub open spec fn rgb_verdict(
    src: VideoFrame,
    dest: VideoFrame,
    width: u32,
    height: u32,
    src_format: RgbFormat,
    dst_format: RgbFormat,
) -> Verdict {
    if src_format == dst_format {
        Verdict::Refused(ConversionError::IdenticalFormats(src_format))
    } else if pixels_fit(src, src_format, width, height) && pixels_fit(
        dest,
        dst_format,
        width,
        height,
    ) {
        Verdict::Done
    } else {
        Verdict::Rejected(ConversionStep::RgbToRgb)
    }
}

/// Converts between pixel layouts: reorders the channels, adds opaque alpha or drops alpha.
pub fn convert_rgb_to_rgb(
    src: &VideoFrame,
    dest: &mut VideoFrame,
    width: u32,
    height: u32,
    src_format: RgbFormat,
    dst_format: RgbFormat,
) -> (r: Result<(), ConversionError>)
    requires
        src.planes.len() >= 1,
        old(dest).planes.len() >= 1,
        src.planes[0].stride * height <= isize::MAX,
        old(dest).planes[0].stride * height <= isize::MAX,
    ensures
        super::error::follows(
            r,
            rgb_verdict(*src, *old(dest), width, height, src_format, dst_format),
        ),
        r is Err ==> crate::video::same_but(*old(dest), *final(dest), Set::empty()),
        crate::video::same_but(*old(dest), *final(dest), set![0]),
        r is Ok ==> final(dest).planes[0].data@ == crate::yuvops::shuffle::shuffled(
            src_format,
            dst_format,
            src.planes[0].data@,
            src.planes[0].stride,
            old(dest).planes[0].data@,
            old(dest).planes[0].stride,
            width,
        ),
{
    let dst_stride: u32 = dest.planes[0].stride;
    match shuffle(
        src_format,
        dst_format,
        src.planes[0].data.as_slice(),
        src.planes[0].stride,
        dest.planes[0].data.as_mut_slice(),
        dst_stride,
        width,
        height,
    ) {
        Some(Ok(())) => Ok(()),
        Some(Err(e)) => Err(ConversionError::Failed(ConversionStep::RgbToRgb, e)),
        None => Err(ConversionError::IdenticalFormats(src_format)),
    }
}

} // verus!
