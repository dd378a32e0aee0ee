//! The calls into the `yuv` crate, and the images that they read and write.

pub mod decode_packed;
pub mod decode_planar;
pub mod decode_semiplanar;
pub mod encode_planar;
pub mod encode_semiplanar;
pub mod shuffle;

use vstd::prelude::*;

verus! {

/// The error of a call into the `yuv` crate. It is carried through, never looked into.
#[verifier::external_type_specification]
#[verifier::external_body]
pub struct ExYuvError(yuv::YuvError);

/// YUV chroma subsampling patterns.
#[derive(Debug, Clone, Copy, PartialEq, Eq, Structural)]
pub enum YuvSubsampling {
    /// Grayscale, no chroma.
    S400,
    /// 4:2:0
    S420,
    /// 4:2:2
    S422,
    /// 4:4:4
    S444,
}

/// The order of the two chroma samples of a semi-planar format.
#[derive(Debug, Clone, Copy, PartialEq, Eq, Structural)]
pub enum UvOrder {
    /// NV12, NV16, NV24
    Uv,
    /// NV21, NV61
    Vu,
}

/// The order of the samples of a packed format.
#[derive(Debug, Clone, Copy, PartialEq, Eq, Structural)]
pub enum PackedOrder {
    /// YUY2
    Yuyv,
    /// UYVY
    Uyvy,
    /// YVYU
    Yvyu,
    /// VYUY
    Vyuy,
}

/// Packed pixel layouts: the order of the bytes, and whether there is alpha.
#[derive(Debug, Clone, Copy, PartialEq, Eq, Structural)]
pub enum RgbFormat {
    Rgb,
    Rgba,
    Bgr,
    Bgra,
}

impl RgbFormat {
    /// The bytes of one pixel.
    pub open spec fn bytes(self) -> int {
        match self {
            RgbFormat::Rgb | RgbFormat::Bgr => 3,
            RgbFormat::Rgba | RgbFormat::Bgra => 4,
        }
    }
}

/// How much of the code space the samples of a YUV image use.
#[derive(Debug, Clone, Copy, PartialEq, Eq, Structural)]
pub enum YuvRange {
    Limited,
    Full,
}

/// The matrices that the `yuv` crate is asked to convert by.
#[derive(Debug, Clone, Copy, PartialEq, Eq, Structural)]
pub enum YuvStandardMatrix {
    Bt601,
    Bt709,
    Bt2020,
    Smpte240,
    Fcc,
}

/// A luma plane and a plane of interleaved chroma.
pub struct BiPlanar<T> {
    pub y: Seq<T>,
    pub y_stride: u32,
    pub uv: Seq<T>,
    pub uv_stride: u32,
    pub width: u32,
    pub height: u32,
}

/// A luma plane and two chroma planes.
pub struct Planar<T> {
    pub y: Seq<T>,
    pub y_stride: u32,
    pub u: Seq<T>,
    pub u_stride: u32,
    pub v: Seq<T>,
    pub v_stride: u32,
    pub width: u32,
    pub height: u32,
}

/// A luma plane, two chroma planes and an alpha plane.
pub struct PlanarAlpha {
    pub colour: Planar<u8>,
    pub a: Seq<u8>,
    pub a_stride: u32,
}

/// A single plane: packed samples, or luma alone.
pub struct SinglePlane {
    pub data: Seq<u8>,
    pub stride: u32,
    pub width: u32,
    pub height: u32,
}

pub open spec fn bi_planar<T>(
    y: Seq<T>,
    y_stride: u32,
    uv: Seq<T>,
    uv_stride: u32,
    width: u32,
    height: u32,
) -> BiPlanar<T> {
    BiPlanar { y, y_stride, uv, uv_stride, width, height }
}

pub open spec fn planar<T>(
    y: Seq<T>,
    y_stride: u32,
    u: Seq<T>,
    u_stride: u32,
    v: Seq<T>,
    v_stride: u32,
    width: u32,
    height: u32,
) -> Planar<T> {
    Planar { y, y_stride, u, u_stride, v, v_stride, width, height }
}

pub open spec fn planar_alpha(
    y: Seq<u8>,
    y_stride: u32,
    u: Seq<u8>,
    u_stride: u32,
    v: Seq<u8>,
    v_stride: u32,
    a: Seq<u8>,
    a_stride: u32,
    width: u32,
    height: u32,
) -> PlanarAlpha {
    PlanarAlpha { colour: planar(y, y_stride, u, u_stride, v, v_stride, width, height), a, a_stride }
}

pub open spec fn single_plane(data: Seq<u8>, stride: u32, width: u32, height: u32) -> SinglePlane {
    SinglePlane { data, stride, width, height }
}

/// Whether a plane of `len` samples holds `rows` rows of `row` samples, `stride` samples apart.
/// The last row may end with its last sample.
pub open spec fn plane_fits(len: nat, stride: u32, row: int, rows: int) -> bool {
    &&& 0 < row <= stride
    &&& 0 < rows
    &&& stride * rows <= isize::MAX
    &&& stride * (rows - 1) + row <= len
}

/// The chroma samples of one kind in a row.
pub open spec fn chroma_row(subsampling: YuvSubsampling, width: u32) -> int {
    match subsampling {
        YuvSubsampling::S420 | YuvSubsampling::S422 => (width + 1) / 2,
        _ => width as int,
    }
}

/// The rows of a chroma plane.
pub open spec fn chroma_rows(subsampling: YuvSubsampling, height: u32) -> int {
    match subsampling {
        YuvSubsampling::S420 => (height + 1) / 2,
        _ => height as int,
    }
}

/// Whether both chroma orders are known for a subsampling: not for 4:4:4.
pub open spec fn chroma_order_known(subsampling: YuvSubsampling, uv_order: UvOrder) -> bool {
    match subsampling {
        YuvSubsampling::S420 | YuvSubsampling::S422 => true,
        YuvSubsampling::S444 => uv_order == UvOrder::Uv,
        YuvSubsampling::S400 => false,
    }
}

/// Whether the two planes hold the image.
pub open spec fn bi_planar_fits<T>(image: BiPlanar<T>, subsampling: YuvSubsampling) -> bool {
    &&& plane_fits(image.y.len(), image.y_stride, image.width as int, image.height as int)
    &&& plane_fits(
        image.uv.len(),
        image.uv_stride,
        2 * chroma_row(subsampling, image.width),
        chroma_rows(subsampling, image.height),
    )
}

/// Whether the three planes hold the image.
pub open spec fn planar_fits<T>(image: Planar<T>, subsampling: YuvSubsampling) -> bool {
    let row = chroma_row(subsampling, image.width);
    let rows = chroma_rows(subsampling, image.height);
    &&& plane_fits(image.y.len(), image.y_stride, image.width as int, image.height as int)
    &&& plane_fits(image.u.len(), image.u_stride, row, rows)
    &&& plane_fits(image.v.len(), image.v_stride, row, rows)
}

/// Whether the four planes hold the image.
pub open spec fn planar_alpha_fits(image: PlanarAlpha, subsampling: YuvSubsampling) -> bool {
    &&& planar_fits(image.colour, subsampling)
    &&& plane_fits(
        image.a.len(),
        image.a_stride,
        image.colour.width as int,
        image.colour.height as int,
    )
}

/// Whether the packed plane holds the image: pairs of pixels, and no byte more than its rows.
pub open spec fn packed_fits(image: SinglePlane) -> bool {
    &&& 0 < image.width
    &&& 0 < image.height
    &&& 2 * (image.width + image.width % 2) <= image.stride
    &&& image.stride * image.height <= isize::MAX
    &&& image.data.len() == image.stride * image.height
}

/// Whether a row of `row` samples stands behind the pairs of rows in `len` samples.
pub open spec fn row_left(len: nat, stride: u32, row: int) -> bool {
    row <= len as int % (2 * stride)
}

/// What the single last row of a 4:2:0 image with an odd height needs, in an image that fits: it is
/// looked for behind the pairs of rows, and its chroma in the last row that is as long as the
/// stride. There may be samples behind the image, as long as these are found.
pub open spec fn bi_planar_odd_row<T>(
    image: BiPlanar<T>,
    pixels_len: nat,
    pixels_stride: u32,
    pixel: int,
) -> bool {
    image.height % 2 == 1 && bi_planar_fits(image, YuvSubsampling::S420) && plane_fits(
        pixels_len,
        pixels_stride,
        image.width * pixel,
        image.height as int,
    ) ==> {
        &&& row_left(image.y.len(), image.y_stride, image.width as int)
        &&& image.uv_stride <= image.uv.len()
        &&& row_left(pixels_len, pixels_stride, image.width * pixel)
    }
}

/// The same for three planes.
pub open spec fn planar_odd_row<T>(
    image: Planar<T>,
    pixels_len: nat,
    pixels_stride: u32,
    pixel: int,
) -> bool {
    image.height % 2 == 1 && planar_fits(image, YuvSubsampling::S420) && plane_fits(
        pixels_len,
        pixels_stride,
        image.width * pixel,
        image.height as int,
    ) ==> {
        &&& row_left(image.y.len(), image.y_stride, image.width as int)
        &&& image.u_stride <= image.u.len()
        &&& image.v_stride <= image.v.len()
        &&& row_left(pixels_len, pixels_stride, image.width * pixel)
    }
}

/// What the bytes of a pixel hold, one letter for each.
pub open spec fn rgb_letters(format: RgbFormat) -> Seq<char> {
    match format {
        RgbFormat::Rgb => seq!['R', 'G', 'B'],
        RgbFormat::Bgr => seq!['B', 'G', 'R'],
        RgbFormat::Rgba => seq!['R', 'G', 'B', 'A'],
        RgbFormat::Bgra => seq!['B', 'G', 'R', 'A'],
    }
}

/// What a pair of chroma samples holds, one letter for each.
pub open spec fn chroma_letters(order: UvOrder) -> Seq<char> {
    match order {
        UvOrder::Uv => seq!['U', 'V'],
        UvOrder::Vu => seq!['V', 'U'],
    }
}

/// What the four bytes of two packed pixels hold, one letter for each.
pub open spec fn packed_letters(order: PackedOrder) -> Seq<char> {
    match order {
        PackedOrder::Yuyv => seq!['Y', 'U', 'Y', 'V'],
        PackedOrder::Uyvy => seq!['U', 'Y', 'V', 'Y'],
        PackedOrder::Yvyu => seq!['Y', 'V', 'Y', 'U'],
        PackedOrder::Vyuy => seq!['V', 'Y', 'U', 'Y'],
    }
}

/// A plane that fits has every sample of the image, and one that does not fit, though its rows are
/// long enough and can be counted, lacks the last one.
pub proof fn law_planes_that_fit_have_every_sample(
    len: nat,
    stride: u32,
    row: int,
    rows: int,
    y: int,
    x: int,
)
    requires
        0 <= y < rows,
        0 <= x < row,
    ensures
        plane_fits(len, stride, row, rows) ==> 0 <= y * stride + x < len && row <= stride,
        row <= stride && stride * rows <= isize::MAX && !plane_fits(len, stride, row, rows) ==> len
            <= (rows - 1) * stride + (row - 1),
{
    assert(stride * (rows - 1) == (rows - 1) * stride) by (nonlinear_arith);
    assert(0 <= y * stride <= (rows - 1) * stride) by (nonlinear_arith)
        requires
            0 <= y <= rows - 1,
            0 <= stride,
    ;
}

/// Chroma has a sample for every pixel: pixels share one with a neighbour in a row where it is
/// halved, and with the row below where it is halved twice; and it has no sample that no pixel uses.
pub proof fn law_every_pixel_has_chroma(subsampling: YuvSubsampling, width: u32, height: u32, x: int, y: int)
    requires
        0 <= x < width,
        0 <= y < height,
        subsampling != YuvSubsampling::S400,
    ensures
        ({
            let across: int = if subsampling == YuvSubsampling::S444 { 1 } else { 2 };
            let down: int = if subsampling == YuvSubsampling::S420 { 2 } else { 1 };
            &&& x / across < chroma_row(subsampling, width)
            &&& y / down < chroma_rows(subsampling, height)
            &&& across * (chroma_row(subsampling, width) - 1) < width
            &&& down * (chroma_rows(subsampling, height) - 1) < height
        }),
{
}

} // verus!
