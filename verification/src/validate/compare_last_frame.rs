//! Compares the last frame of a sink with a reference image.

use super::utils::fits_image;
use crate::actions::{ActionParameter, ActionType};
use crate::text::{decimal, str_eq};
use crate::video::{VideoFormat, VideoFrame};
use crate::videoconverter::converter::{ConverterError, VideoConverter, VideoConverterConfig};
use crate::videoconverter::error::ConversionError;
use vstd::prelude::*;

verus! {

/// Declares `image_compare::CompareError`, the reason why two images cannot be compared.
#[verifier::external_type_specification]
#[verifier::external_body]
pub struct ExCompareError(image_compare::CompareError);

/// The colours of an image; other ones by a number.
#[derive(Debug, Clone, Copy, PartialEq, Eq, Structural)]
pub enum ColorType {
    Rgb8,
    Rgba8,
    Other(u32),
}

/// An image: its rows, one after the other, and maybe more bytes behind them.
#[derive(Debug)]
pub struct Image {
    pub color: ColorType,
    pub width: u32,
    pub height: u32,
    pub data: Vec<u8>,
}

/// The bytes of a pixel.
pub open spec fn channels_of(color: ColorType) -> int {
    match color {
        ColorType::Rgb8 => 3,
        ColorType::Rgba8 => 4,
        ColorType::Other(_) => 0,
    }
}

impl Image {
    /// Whether the pixels are there.
    pub open spec fn wf(self) -> bool {
        super::utils::image_fits(
            self.width,
            self.height,
            channels_of(self.color),
            self.data@.len() as int,
        )
    }

    /// The bytes of the pixels.
    pub open spec fn pixels(self) -> Seq<u8> {
        self.data@.take(channels_of(self.color) * self.width * self.height)
    }
}

/// Why there is no image of a frame.
#[derive(Debug)]
pub enum ExtractError {
    NoPlane,
    /// The frame is smaller than it should be.
    TooSmall,
    NoConverter(ConverterError),
    NotConverted(ConversionError),
}

/// The rows of an image, without what pads them.
pub open spec fn packed_rows(data: Seq<u8>, stride: int, row: int, rows: int) -> Seq<u8>
    decreases rows,
{
    if rows <= 0 {
        Seq::empty()
    } else {
        packed_rows(data, stride, row, rows - 1) + data.subrange(
            (rows - 1) * stride,
            (rows - 1) * stride + row,
        )
    }
}

/// A byte of an image is the byte of the plane in the same row and column: only what pads the rows
/// is left out.
pub proof fn law_only_padding_is_dropped(
    data: Seq<u8>,
    stride: int,
    row: int,
    rows: int,
    y: int,
    x: int,
)
    requires
        0 <= y < rows,
        0 <= x < row <= stride,
        (rows - 1) * stride + row <= data.len(),
    ensures
        packed_rows(data, stride, row, rows).len() == row * rows,
        0 <= y * row + x < row * rows,
        packed_rows(data, stride, row, rows)[y * row + x] == data[y * stride + x],
    decreases rows,
{
    assert(0 <= (rows - 1) * stride && (rows - 2) * stride + row <= data.len()) by (nonlinear_arith)
        requires
            1 <= rows,
            0 <= stride,
            (rows - 1) * stride + row <= data.len(),
    ;
    lemma_packed_len(data, stride, row, rows - 1);
    assert(row * rows == row * (rows - 1) + row) by (nonlinear_arith);
    let before = packed_rows(data, stride, row, rows - 1);
    let last = data.subrange((rows - 1) * stride, (rows - 1) * stride + row);
    if y == rows - 1 {
        assert(y * row == row * (rows - 1)) by (nonlinear_arith)
            requires
                y == rows - 1,
        ;
        assert((before + last)[before.len() + x] == last[x]);
    } else {
        law_only_padding_is_dropped(data, stride, row, rows - 1, y, x);
        assert((before + last)[y * row + x] == before[y * row + x]);
    }
}

proof fn lemma_packed_len(data: Seq<u8>, stride: int, row: int, rows: int)
    requires
        0 <= rows,
        0 <= row,
        0 <= stride,
        rows > 0 ==> (rows - 1) * stride + row <= data.len(),
    ensures
        packed_rows(data, stride, row, rows).len() == row * rows,
    decreases rows,
{
    if rows > 0 {
        assert((rows - 2) * stride + row <= data.len() && 0 <= (rows - 1) * stride)
            by (nonlinear_arith)
            requires
                (rows - 1) * stride + row <= data.len(),
                0 <= stride,
                1 <= rows,
        ;
        lemma_packed_len(data, stride, row, rows - 1);
        assert(row * rows == row * (rows - 1) + row) by (nonlinear_arith);
    } else {
        assert(row * rows == 0) by (nonlinear_arith)
            requires
                rows == 0,
        ;
    }
}

/// Whether the rows are inside a plane and can be addressed.
pub open spec fn rows_inside(len: int, stride: int, row: int, rows: int) -> bool {
    rows > 0 ==> {
        &&& (rows - 1) * stride + row <= len
        &&& (rows - 1) * stride <= u32::MAX
        &&& row * rows <= u32::MAX
    }
}

fn pack_rows(data: &Vec<u8>, stride: u32, row: u32, rows: u32) -> (packed: Vec<u8>)
    requires
        rows_inside(data@.len() as int, stride as int, row as int, rows as int),
    ensures
        packed@ == packed_rows(data@, stride as int, row as int, rows as int),
        packed@.len() == row * rows,
{
    let mut packed: Vec<u8> = Vec::new();
    let mut y: u32 = 0;
    proof {
        assert(row * 0 == 0);
    }
    while y < rows
        invariant
            y <= rows,
            rows_inside(data@.len() as int, stride as int, row as int, rows as int),
            packed@ == packed_rows(data@, stride as int, row as int, y as int),
            packed@.len() == row * y,
        decreases rows - y,
    {
        proof {
            assert(0 <= y * stride <= (rows - 1) * stride) by (nonlinear_arith)
                requires
                    0 <= y <= rows - 1,
                    0 <= stride,
            ;
            assert(row * (y + 1) == row * y + row) by (nonlinear_arith);
        }
        let start: usize = (y * stride) as usize;
        let ghost done = packed@;
        let mut x: u32 = 0;
        while x < row
            invariant
                x <= row,
                start + row <= data.len(),
                packed@ == done + data@.subrange(start as int, start + x),
            decreases row - x,
        {
            packed.push(data[start + x as usize]);
            x = x + 1;
            proof {
                assert(packed@ =~= done + data@.subrange(start as int, start + x));
            }
        }
        y = y + 1;
    }
    packed
}

/// Whether the pixels of a frame are those that are wanted already.
pub open spec fn taken_directly(format: VideoFormat, wanted: ColorType) -> bool {
    ||| format == VideoFormat::Rgb && wanted == ColorType::Rgb8
    ||| format == VideoFormat::Rgba && wanted == ColorType::Rgba8
}

/// The colours of the image that is made for wanted ones.
pub open spec fn extracted_color(wanted: ColorType) -> ColorType {
    if wanted == ColorType::Rgb8 {
        ColorType::Rgb8
    } else {
        ColorType::Rgba8
    }
}

fn channels(color: ColorType) -> (n: u8)
    ensures
        n == channels_of(color),
{
    match color {
        ColorType::Rgb8 => 3,
        ColorType::Rgba8 => 4,
        ColorType::Other(_) => 0,
    }
}

/// The image of a frame whose pixels are the wanted ones: its plane as it is, or without what pads
/// its rows.
pub fn image_of_frame(frame: &VideoFrame, color: ColorType) -> (r: Result<Image, ExtractError>)
    requires
        channels_of(color) * frame.info.width <= u32::MAX,
        frame.planes.len() > 0 && frame.planes[0].stride != channels_of(color) * frame.info.width
            ==> rows_inside(
            frame.planes[0].data@.len() as int,
            frame.planes[0].stride as int,
            channels_of(color) * frame.info.width,
            frame.info.height as int,
        ),
    ensures
        r matches Ok(image) ==> {
            &&& image.color == color
            &&& image.width == frame.info.width
            &&& image.height == frame.info.height
            &&& image.wf()
            &&& image.data@ == if frame.planes[0].stride == channels_of(color)
                * frame.info.width {
                frame.planes[0].data@
            } else {
                packed_rows(
                    frame.planes[0].data@,
                    frame.planes[0].stride as int,
                    channels_of(color) * frame.info.width,
                    frame.info.height as int,
                )
            }
        },
        r is Err ==> r == Err::<Image, ExtractError>(
            if frame.planes.len() == 0 {
                ExtractError::NoPlane
            } else {
                ExtractError::TooSmall
            },
        ),
        r is Err <==> (frame.planes.len() == 0 || (frame.planes[0].stride == channels_of(color)
            * frame.info.width && !super::utils::image_fits(
            frame.info.width,
            frame.info.height,
            channels_of(color),
            frame.planes[0].data@.len() as int,
        ))),
{
    if frame.planes.len() == 0 {
        return Err(ExtractError::NoPlane);
    }
    let width: u32 = frame.info.width;
    let height: u32 = frame.info.height;
    let plane = &frame.planes[0];
    let n: u8 = channels(color);
    let row: u32 = n as u32 * width;
    let data = if plane.stride == row {
        if !fits_image(width, height, n, plane.data.len()) {
            return Err(ExtractError::TooSmall);
        }
        plane.data.clone()
    } else {
        pack_rows(&plane.data, plane.stride, row, height)
    };
    proof {
        assert(plane.stride == row ==> data@ =~= plane.data@);
        assert(channels_of(color) * width * height == row * height);
    }
    Ok(Image { color, width, height, data })
}

/// What a frame needs to become an image: `out` is the frame that it is converted to, where it has
/// to be.
pub open spec fn extractable(frame: VideoFrame, wanted: ColorType, out: VideoFrame) -> bool {
    if taken_directly(frame.info.format, wanted) {
        &&& channels_of(wanted) * frame.info.width <= u32::MAX
        &&& frame.planes.len() > 0 && frame.planes[0].stride != channels_of(wanted)
            * frame.info.width ==> rows_inside(
            frame.planes[0].data@.len() as int,
            frame.planes[0].stride as int,
            channels_of(wanted) * frame.info.width,
            frame.info.height as int,
        )
    } else {
        &&& out.planes.len() > 0
        &&& frame.info.valid && out.info.valid ==> {
            &&& crate::videoconverter::converter::conversion_defined(frame.info, out.info)
            &&& crate::videoconverter::params::conversion_spec(frame.info, out.info) matches Some(
                params,
            ) ==> crate::videoconverter::converter::convertible(params, frame, out)
        }
    }
}

/// The image of a frame, in the wanted colours where they are RGB, or else in RGBA. A frame in
/// another format is converted to `out`, whose planes are then the image; the stock converter is
/// not used.
pub fn extract_image_from_sample(frame: &VideoFrame, wanted: ColorType, out: &mut VideoFrame) -> (r:
    Result<Image, ExtractError>)
    requires
        extractable(*frame, wanted, *old(out)),
    ensures
        r matches Ok(image) ==> {
            &&& image.color == extracted_color(wanted)
            &&& image.width == frame.info.width
            &&& image.height == frame.info.height
            &&& image.wf()
        },
        taken_directly(frame.info.format, wanted) ==> {
            &&& *final(out) == *old(out)
            &&& r is Err <==> (frame.planes.len() == 0 || (frame.planes[0].stride == channels_of(
                wanted,
            ) * frame.info.width && !super::utils::image_fits(
                frame.info.width,
                frame.info.height,
                channels_of(wanted),
                frame.planes[0].data@.len() as int,
            )))
            &&& r is Err ==> r == Err::<Image, ExtractError>(
                if frame.planes.len() == 0 {
                    ExtractError::NoPlane
                } else {
                    ExtractError::TooSmall
                },
            )
            &&& r matches Ok(image) ==> image.data@ == if frame.planes[0].stride == channels_of(
                wanted,
            ) * frame.info.width {
                frame.planes[0].data@
            } else {
                packed_rows(
                    frame.planes[0].data@,
                    frame.planes[0].stride as int,
                    channels_of(wanted) * frame.info.width,
                    frame.info.height as int,
                )
            }
        },
        !taken_directly(frame.info.format, wanted) ==> {
            let fits = super::utils::image_fits(
                frame.info.width,
                frame.info.height,
                channels_of(extracted_color(wanted)),
                old(out).planes[0].data@.len() as int,
            );
            if !frame.info.valid || !old(out).info.valid {
                r == Err::<Image, ExtractError>(
                    ExtractError::NoConverter(ConverterError::InvalidVideoInfo),
                )
            } else {
                match crate::videoconverter::params::conversion_spec(frame.info, old(out).info) {
                    None => r == Err::<Image, ExtractError>(
                        ExtractError::NoConverter(ConverterError::FallbackDisabled),
                    ),
                    Some(params) => {
                        let verdict = crate::videoconverter::converter::conversion_verdict(
                            params,
                            *frame,
                            *old(out),
                        );
                        match r {
                            Ok(image) => {
                                &&& crate::videoconverter::error::follows(Ok(()), verdict)
                                &&& fits
                                &&& crate::videoconverter::converter::conversion_outcome(
                                    params,
                                    *frame,
                                    *old(out),
                                    *final(out),
                                )
                                &&& image.data@ == final(out).planes[0].data@
                            },
                            Err(ExtractError::NotConverted(e)) =>
                                crate::videoconverter::error::follows(Err(e), verdict),
                            Err(e) => e == ExtractError::TooSmall && !fits
                                && crate::videoconverter::error::follows(Ok(()), verdict),
                        }
                    },
                }
            }
        },
{
    let width: u32 = frame.info.width;
    let height: u32 = frame.info.height;
    match (frame.info.format, wanted) {
        (VideoFormat::Rgb, ColorType::Rgb8) => {
            return image_of_frame(frame, ColorType::Rgb8);
        },
        (VideoFormat::Rgba, ColorType::Rgba8) => {
            return image_of_frame(frame, ColorType::Rgba8);
        },
        _ => {},
    }
    let config = VideoConverterConfig { disable_fallback: Some(true) };
    let converter = match VideoConverter::new(&frame.info, &out.info, Some(config)) {
        Ok(converter) => converter,
        Err(e) => return Err(ExtractError::NoConverter(e)),
    };
    match converter.frame_ref(frame, out) {
        Some(Ok(_)) => {},
        Some(Err(e)) => return Err(ExtractError::NotConverted(e)),
        None => {},
    }
    let color = match wanted {
        ColorType::Rgb8 => ColorType::Rgb8,
        _ => ColorType::Rgba8,
    };
    let plane = &out.planes[0];
    if !fits_image(width, height, channels(color), plane.data.len()) {
        return Err(ExtractError::TooSmall);
    }
    let data = plane.data.clone();
    proof {
        assert(data@ =~= out.planes[0].data@);
    }
    Ok(Image { color, width, height, data })
}

/// How two images compare: the bits of the score, a number in double precision of which 1 is a
/// perfect match, and a map of the differences, with as many channels as were compared.
#[derive(Debug)]
pub struct Comparison {
    pub score: u64,
    pub color_map: Vec<u8>,
}

/// Whether two RGB images may come out of a hybrid comparison with this score and map.
pub uninterp spec fn rgb_hybrid_outcome(
    width: u32,
    height: u32,
    reference: Seq<u8>,
    actual: Seq<u8>,
    score: u64,
    color_map: Seq<u8>,
) -> bool;

/// Whether two RGBA images may come out of a hybrid comparison with this score and map.
pub uninterp spec fn rgba_hybrid_outcome(
    width: u32,
    height: u32,
    reference: Seq<u8>,
    actual: Seq<u8>,
    score: u64,
    color_map: Seq<u8>,
) -> bool;

/// Whether two gray images may come out of a comparison by structure with this score and map.
pub uninterp spec fn structure_outcome(
    width: u32,
    height: u32,
    reference: Seq<u8>,
    actual: Seq<u8>,
    score: u64,
    color_map: Seq<u8>,
) -> bool;

/// Whether an RGB image, or an RGBA image, may become this gray image.
pub uninterp spec fn luma_outcome(
    has_alpha: bool,
    width: u32,
    height: u32,
    pixels: Seq<u8>,
    gray: Seq<u8>,
) -> bool;

/// The sizes that can be compared: at least one pixel, whose windows of 8 by 8 and whose number of
/// pixels can be counted.
pub open spec fn comparable(width: u32, height: u32) -> bool {
    &&& 0 < width <= u32::MAX - 8
    &&& 0 < height <= u32::MAX - 8
    &&& width * height <= u32::MAX
}

/// Calls `image_compare::rgb_hybrid_compare`, which fails for images of different sizes only, and
/// takes the map of differences with `to_color_map`. The score goes through floating-point powers,
/// whose last bits may differ between machines; so the outcome is tied to the images by a
/// relation, and is not claimed to be the only one.
#[verifier::external_body]
fn rgb_hybrid_compare(width: u32, height: u32, reference: &Vec<u8>, actual: &Vec<u8>) -> (r: Result<
    Comparison,
    image_compare::CompareError,
>)
    requires
        comparable(width, height),
        super::utils::image_fits(width, height, 3, reference@.len() as int),
        super::utils::image_fits(width, height, 3, actual@.len() as int),
    ensures
        r is Ok,
        rgb_hybrid_outcome(
            width,
            height,
            reference@.take(3 * width * height),
            actual@.take(3 * width * height),
            r->Ok_0.score,
            r->Ok_0.color_map@,
        ),
        r->Ok_0.color_map@.len() == 3 * width * height,
{
    let reference = image::RgbImage::from_raw(width, height, reference.clone()).unwrap();
    let actual = image::RgbImage::from_raw(width, height, actual.clone()).unwrap();
    image_compare::rgb_hybrid_compare(&reference, &actual).map(|similarity| Comparison {
        score: similarity.score.to_bits(),
        color_map: similarity.image.to_color_map().into_bytes(),
    })
}

/// Calls `image_compare::rgba_hybrid_compare`, which fails for images of different sizes only, and
/// takes the map of differences with `to_color_map`. The outcome is tied to the images by a
/// relation, as in the comparison without alpha.
#[verifier::external_body]
fn rgba_hybrid_compare(width: u32, height: u32, reference: &Vec<u8>, actual: &Vec<u8>) -> (r:
    Result<Comparison, image_compare::CompareError>)
    requires
        comparable(width, height),
        super::utils::image_fits(width, height, 4, reference@.len() as int),
        super::utils::image_fits(width, height, 4, actual@.len() as int),
    ensures
        r is Ok,
        rgba_hybrid_outcome(
            width,
            height,
            reference@.take(4 * width * height),
            actual@.take(4 * width * height),
            r->Ok_0.score,
            r->Ok_0.color_map@,
        ),
        r->Ok_0.color_map@.len() == 4 * width * height,
{
    let reference = image::RgbaImage::from_raw(width, height, reference.clone()).unwrap();
    let actual = image::RgbaImage::from_raw(width, height, actual.clone()).unwrap();
    image_compare::rgba_hybrid_compare(&reference, &actual).map(|similarity| Comparison {
        score: similarity.score.to_bits(),
        color_map: similarity.image.to_color_map().into_bytes(),
    })
}

/// Calls `image_compare::gray_similarity_structure` with the algorithm `MSSIMSimple`, which fails
/// for images of different sizes only, and takes the map of differences with `to_color_map`. The
/// outcome is tied to the images by a relation, as in the hybrid comparisons.
#[verifier::external_body]
fn gray_similarity_structure(
    width: u32,
    height: u32,
    reference: Vec<u8>,
    actual: Vec<u8>,
) -> (r: Result<Comparison, image_compare::CompareError>)
    requires
        comparable(width, height),
        reference@.len() == width * height,
        actual@.len() == width * height,
    ensures
        r is Ok,
        structure_outcome(
            width,
            height,
            reference@,
            actual@,
            r->Ok_0.score,
            r->Ok_0.color_map@,
        ),
        r->Ok_0.color_map@.len() == width * height,
{
    let reference = image::GrayImage::from_raw(width, height, reference).unwrap();
    let actual = image::GrayImage::from_raw(width, height, actual).unwrap();
    let algorithm = image_compare::Algorithm::MSSIMSimple;
    image_compare::gray_similarity_structure(&algorithm, &reference, &actual).map(|similarity| Comparison {
        score: similarity.score.to_bits(),
        color_map: similarity.image.to_color_map().into_bytes(),
    })
}

/// Calls `image::DynamicImage::to_luma8` on an image in RGB or RGBA, which gives one byte for each
/// pixel. The bytes are rounded sums of floating-point products, which are fused on some machines
/// only; so the gray image is tied to the pixels by a relation, and is not claimed to be the only
/// one.
#[verifier::external_body]
fn to_luma8(has_alpha: bool, width: u32, height: u32, data: &Vec<u8>) -> (gray: Vec<u8>)
    requires
        super::utils::image_fits(
            width,
            height,
            if has_alpha {
                4
            } else {
                3
            },
            data@.len() as int,
        ),
    ensures
        luma_outcome(
            has_alpha,
            width,
            height,
            data@.take(
                (if has_alpha {
                    4int
                } else {
                    3
                }) * width * height,
            ),
            gray@,
        ),
        gray@.len() == width * height,
{
    let image = if has_alpha {
        let rgba = image::RgbaImage::from_raw(width, height, data.clone()).unwrap();
        image::DynamicImage::ImageRgba8(rgba)
    } else {
        let rgb = image::RgbImage::from_raw(width, height, data.clone()).unwrap();
        image::DynamicImage::ImageRgb8(rgb)
    };
    image.to_luma8().into_raw()
}

/// Why two images do not compare.
#[derive(Debug)]
pub enum CompareFailure {
    DimensionsMismatch,
    FormatMismatch,
    UnknownMetric,
    /// The comparison itself failed.
    Failed(image_compare::CompareError),
}

/// Whether two images may come out of a comparison by structure with this score and map: it
/// compares a gray image of the one with a gray image of the other.
pub open spec fn structure_compared(
    has_alpha: bool,
    reference: Image,
    actual: Image,
    outcome: Comparison,
) -> bool {
    let w = reference.width;
    let h = reference.height;
    exists|gray_reference: Seq<u8>, gray_actual: Seq<u8>|
        {
            &&& luma_outcome(has_alpha, w, h, reference.pixels(), gray_reference)
            &&& luma_outcome(has_alpha, w, h, actual.pixels(), gray_actual)
            &&& gray_reference.len() == w * h
            &&& gray_actual.len() == w * h
            &&& #[trigger] structure_outcome(
                w,
                h,
                gray_reference,
                gray_actual,
                outcome.score,
                outcome.color_map@,
            )
        }
}

/// What a comparison by a metric leaves: by `rms` the images as they are are compared, by `mssim`
/// their gray images.
pub open spec fn compared(
    reference: Image,
    actual: Image,
    metric: Seq<char>,
    outcome: Comparison,
) -> bool {
    let w = reference.width;
    let h = reference.height;
    let has_alpha = reference.color == ColorType::Rgba8;
    if metric == "mssim"@ {
        structure_compared(has_alpha, reference, actual, outcome)
    } else if has_alpha {
        rgba_hybrid_outcome(
            w,
            h,
            reference.pixels(),
            actual.pixels(),
            outcome.score,
            outcome.color_map@,
        )
    } else {
        rgb_hybrid_outcome(
            w,
            h,
            reference.pixels(),
            actual.pixels(),
            outcome.score,
            outcome.color_map@,
        )
    }
}

/// Two images of the same colours, RGB or RGBA.
pub open spec fn same_known_colors(reference: Image, actual: Image) -> bool {
    reference.color == actual.color && !(reference.color is Other)
}

/// Compares two images of the same size and colours by a metric, `rms` or `mssim`.
pub fn compare_images(reference: &Image, actual: &Image, metric: &str) -> (r: Result<
    Comparison,
    CompareFailure,
>)
    requires
        reference.wf(),
        actual.wf(),
        reference.width == actual.width && reference.height == actual.height && same_known_colors(
            *reference,
            *actual,
        ) ==> comparable(reference.width, reference.height),
    ensures
        if reference.width != actual.width || reference.height != actual.height {
            r == Err::<Comparison, CompareFailure>(CompareFailure::DimensionsMismatch)
        } else if !same_known_colors(*reference, *actual) {
            r == Err::<Comparison, CompareFailure>(CompareFailure::FormatMismatch)
        } else if metric@ != "rms"@ && metric@ != "mssim"@ {
            r == Err::<Comparison, CompareFailure>(CompareFailure::UnknownMetric)
        } else {
            r is Ok && compared(*reference, *actual, metric@, r->Ok_0)
        },
{
    if reference.width != actual.width || reference.height != actual.height {
        return Err(CompareFailure::DimensionsMismatch);
    }
    let has_alpha = match (reference.color, actual.color) {
        (ColorType::Rgb8, ColorType::Rgb8) => false,
        (ColorType::Rgba8, ColorType::Rgba8) => true,
        _ => return Err(CompareFailure::FormatMismatch),
    };
    let width: u32 = reference.width;
    let height: u32 = reference.height;
    proof {
        reveal_strlit("rms");
        reveal_strlit("mssim");
        assert("rms"@.len() != "mssim"@.len());
    }
    let result = if str_eq(metric, "rms") {
        if has_alpha {
            rgba_hybrid_compare(width, height, &reference.data, &actual.data)
        } else {
            rgb_hybrid_compare(width, height, &reference.data, &actual.data)
        }
    } else if str_eq(metric, "mssim") {
        let gray_reference = to_luma8(has_alpha, width, height, &reference.data);
        let gray_actual = to_luma8(has_alpha, width, height, &actual.data);
        gray_similarity_structure(width, height, gray_reference, gray_actual)
    } else {
        return Err(CompareFailure::UnknownMetric);
    };
    match result {
        Ok(comparison) => Ok(comparison),
        Err(e) => Err(CompareFailure::Failed(e)),
    }
}

/// What is said of images of different sizes.
pub open spec fn dimensions_text(reference: Image, actual: Image) -> Seq<char> {
    "Image dimensions mismatch: reference is "@ + crate::text::decimal_text(reference.width as nat)
        + "x"@ + crate::text::decimal_text(reference.height as nat) + ", actual is "@
        + crate::text::decimal_text(actual.width as nat) + "x"@ + crate::text::decimal_text(
        actual.height as nat,
    )
}

/// Says that two images have different sizes.
pub fn dimensions_message(reference: &Image, actual: &Image) -> (text: String)
    ensures
        text@ == dimensions_text(*reference, *actual),
{
    let mut text = "Image dimensions mismatch: reference is ".to_owned();
    text.append(decimal(reference.width as u64).as_str());
    text.append("x");
    text.append(decimal(reference.height as u64).as_str());
    text.append(", actual is ");
    text.append(decimal(actual.width as u64).as_str());
    text.append("x");
    text.append(decimal(actual.height as u64).as_str());
    text
}

/// The metric to compare by: the given one, or `rms`.
pub fn metric_or_default(metric: Option<String>) -> (r: String)
    ensures
        r@ == match metric {
            Some(metric) => metric@,
            None => "rms"@,
        },
{
    match metric {
        Some(metric) => metric,
        None => "rms".to_owned(),
    }
}

/// What is said of a parameter that is missing, if one is.
pub fn missing_parameter(has_reference_file: bool, has_threshold: bool) -> (r: Option<String>)
    ensures
        match r {
            None => has_reference_file && has_threshold,
            Some(text) => text@ == if !has_reference_file {
                "Missing required parameter 'reference-file'"@
            } else {
                "Missing required parameter 'threshold'"@
            } && !(has_reference_file && has_threshold),
        },
{
    if !has_reference_file {
        return Some("Missing required parameter 'reference-file'".to_owned());
    }
    if !has_threshold {
        return Some("Missing required parameter 'threshold'".to_owned());
    }
    None
}

/// The name of the file for the frame that was compared, beside the map of differences.
pub fn converted_name(reference_stem: &str) -> (name: String)
    ensures
        name@ == reference_stem@ + ".converted.png"@,
{
    let mut name = reference_stem.to_owned();
    name.append(".converted.png");
    name
}

/// How the action is described.
pub open spec fn is_compare_action(action: ActionType, namespace: Seq<char>) -> bool {
    &&& crate::actions::action_is(
        action,
        "compare-last-frame"@,
        Some(namespace),
        Some(
            "Compares the last frame from a sink against a reference PNG image. Supports RGB, RGBA, and YUV formats (I420, NV12, NV21, YUY2, YV12, UYVY, Y42B, Y444, YVYU, GRAY8). YUV formats are converted to RGB using the yuv crate (independent of VideoConverter). Returns the difference score and optionally generates a visual diff heatmap."@,
        ),
        true,
    )
    &&& action.parameters.len() == 7
    &&& crate::actions::parameter_is(
        action.parameters[0],
        "sink-name"@,
        "The name of the sink element to check sample on"@,
        Some("string"@),
        None,
        false,
    )
    &&& crate::actions::parameter_is(
        action.parameters[1],
        "sink-factory-name"@,
        "The factory name of the sink element to check sample on"@,
        Some("string"@),
        None,
        false,
    )
    &&& crate::actions::parameter_is(
        action.parameters[2],
        "sinkpad-caps"@,
        "The caps (as string) of the sink pad to check"@,
        Some("GstCaps"@),
        None,
        false,
    )
    &&& crate::actions::parameter_is(
        action.parameters[3],
        "reference-file"@,
        "Path to reference PNG image to compare against"@,
        Some("string"@),
        None,
        true,
    )
    &&& crate::actions::parameter_is(
        action.parameters[4],
        "threshold"@,
        "Maximum acceptable difference (0.0-1.0, where 0.0 means identical)"@,
        Some("double"@),
        None,
        true,
    )
    &&& crate::actions::parameter_is(
        action.parameters[5],
        "metric"@,
        "Comparison metric to use: 'rms' (default) for pixel-level differences, or 'mssim' for structural similarity"@,
        Some("string"@),
        Some("rms"@),
        false,
    )
    &&& crate::actions::parameter_is(
        action.parameters[6],
        "diff-output"@,
        "Optional path to save diff heatmap PNG (black=identical, bright=different)"@,
        Some("string"@),
        None,
        false,
    )
}

/// The action, as it is registered.
pub fn register_validate_actions(namespace: &'static str) -> (action: ActionType)
    ensures
        is_compare_action(action, namespace@),
{
    let mut parameters: Vec<ActionParameter> = Vec::new();
    parameters.push(
        ActionParameter {
            name: "sink-name",
            description: "The name of the sink element to check sample on",
            value_type: Some("string"),
            default_value: None,
            mandatory: false,
        },
    );
    parameters.push(
        ActionParameter {
            name: "sink-factory-name",
            description: "The factory name of the sink element to check sample on",
            value_type: Some("string"),
            default_value: None,
            mandatory: false,
        },
    );
    parameters.push(
        ActionParameter {
            name: "sinkpad-caps",
            description: "The caps (as string) of the sink pad to check",
            value_type: Some("GstCaps"),
            default_value: None,
            mandatory: false,
        },
    );
    parameters.push(
        ActionParameter {
            name: "reference-file",
            description: "Path to reference PNG image to compare against",
            value_type: Some("string"),
            default_value: None,
            mandatory: true,
        },
    );
    parameters.push(
        ActionParameter {
            name: "threshold",
            description: "Maximum acceptable difference (0.0-1.0, where 0.0 means identical)",
            value_type: Some("double"),
            default_value: None,
            mandatory: true,
        },
    );
    parameters.push(
        ActionParameter {
            name: "metric",
            description:
                "Comparison metric to use: 'rms' (default) for pixel-level differences, or 'mssim' for structural similarity",
            value_type: Some("string"),
            default_value: Some("rms"),
            mandatory: false,
        },
    );
    parameters.push(
        ActionParameter {
            name: "diff-output",
            description:
                "Optional path to save diff heatmap PNG (black=identical, bright=different)",
            value_type: Some("string"),
            default_value: None,
            mandatory: false,
        },
    );
    ActionType {
        name: "compare-last-frame",
        implementer: Some(namespace),
        description: Some(
            "Compares the last frame from a sink against a reference PNG image. Supports RGB, RGBA, and YUV formats (I420, NV12, NV21, YUY2, YV12, UYVY, Y42B, Y444, YVYU, GRAY8). YUV formats are converted to RGB using the yuv crate (independent of VideoConverter). Returns the difference score and optionally generates a visual diff heatmap.",
        ),
        parameters,
        is_check: true,
    }
}

/// A frame is taken as it is exactly where the bytes of its pixels are the letters that are wanted:
/// red, green and blue, with alpha or without.
pub proof fn law_frames_are_taken_as_they_are_where_their_letters_agree(
    format: VideoFormat,
    wanted: ColorType,
)
    ensures
        taken_directly(format, wanted) <==> match wanted {
            ColorType::Rgb8 => crate::video::pixel_letters(format) == seq!['R', 'G', 'B'],
            ColorType::Rgba8 => crate::video::pixel_letters(format) == seq!['R', 'G', 'B', 'A'],
            ColorType::Other(_) => false,
        },
        taken_directly(format, wanted) ==> channels_of(wanted) == crate::video::pixel_letters(
            format,
        ).len(),
{
    let letters = crate::video::pixel_letters(format);
    assert(seq!['R', 'G', 'B', 'A'][3] == 'A' && seq!['R', 'G', 'B', 'A'][0] == 'R');
    assert(seq!['R', 'G', 'B'][0] == 'R');
    if letters.len() >= 3 {
        assert(letters[0] == 'R' || letters[0] == 'B');
    }
    if letters.len() == 4 {
        assert(letters[3] == 'A' || letters[3] == 'x');
    }
    if format == VideoFormat::Rgb {
        assert(letters =~= seq!['R', 'G', 'B']);
    }
    if format == VideoFormat::Rgba {
        assert(letters =~= seq!['R', 'G', 'B', 'A']);
    }
}

/// An image has the colours that are wanted where they are RGB or RGBA, and RGBA for any others, so
/// that it can always be compared with an image in RGB or RGBA that it was made for.
pub proof fn law_images_are_made_to_compare(wanted: ColorType)
    ensures
        extracted_color(wanted) == ColorType::Rgb8 <==> wanted == ColorType::Rgb8,
        extracted_color(wanted) == ColorType::Rgb8 || extracted_color(wanted) == ColorType::Rgba8,
        !(wanted is Other) ==> extracted_color(wanted) == wanted,
        channels_of(ColorType::Rgb8) + 1 == channels_of(ColorType::Rgba8),
        channels_of(extracted_color(wanted)) == if wanted == ColorType::Rgb8 { 3int } else { 4 },
{
}

/// What two images are compared by: `mssim` looks at a gray image of each, of one byte for a pixel,
/// and any other metric at all their channels, alpha among them where they have it; and in both the
/// reference comes first.
pub proof fn law_metrics_look_at_the_images(
    reference: Image,
    actual: Image,
    metric: Seq<char>,
    outcome: Comparison,
)
    requires
        compared(reference, actual, metric, outcome),
    ensures
        ({
            let (w, h) = (reference.width, reference.height);
            let score = outcome.score;
            let map = outcome.color_map@;
            let has_alpha = reference.color == ColorType::Rgba8;
            &&& metric != "mssim"@ && has_alpha ==> rgba_hybrid_outcome(
                w,
                h,
                reference.pixels(),
                actual.pixels(),
                score,
                map,
            )
            &&& metric != "mssim"@ && !has_alpha ==> rgb_hybrid_outcome(
                w,
                h,
                reference.pixels(),
                actual.pixels(),
                score,
                map,
            )
            &&& metric == "mssim"@ ==> exists|a: Seq<u8>, b: Seq<u8>|
                a.len() == w * h && b.len() == w * h && luma_outcome(
                    has_alpha,
                    w,
                    h,
                    reference.pixels(),
                    a,
                ) && luma_outcome(has_alpha, w, h, actual.pixels(), b) && #[trigger] structure_outcome(
                    w,
                    h,
                    a,
                    b,
                    score,
                    map,
                )
        }),
{
    let (w, h) = (reference.width, reference.height);
    let has_alpha = reference.color == ColorType::Rgba8;
    if metric == "mssim"@ {
        let (a, b) = choose|a: Seq<u8>, b: Seq<u8>|
            {
                &&& luma_outcome(has_alpha, w, h, reference.pixels(), a)
                &&& luma_outcome(has_alpha, w, h, actual.pixels(), b)
                &&& a.len() == w * h
                &&& b.len() == w * h
                &&& #[trigger] structure_outcome(w, h, a, b, outcome.score, outcome.color_map@)
            };
        assert(structure_outcome(w, h, a, b, outcome.score, outcome.color_map@));
    }
}

} // verus!
