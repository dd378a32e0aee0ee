//! How a conversion fails.

use crate::text::decimal;
use crate::yuvops::{RgbFormat, UvOrder, YuvSubsampling};
use vstd::prelude::*;

verus! {

/// The planes that a conversion reads or writes.
#[derive(Debug, Clone, Copy, PartialEq, Eq, Structural)]
pub enum PlaneRole {
    Y,
    Uv,
    U,
    V,
    A,
    Yuy,
}

/// The conversions, as far as their failures are told apart.
#[derive(Debug, Clone, Copy, PartialEq, Eq, Structural)]
pub enum ConversionStep {
    SemiPlanar8ToRgb,
    SemiPlanar10ToRgb,
    Planar8ToRgb,
    Planar10ToRgb,
    PlanarAlphaToRgba,
    PackedToRgb,
    GrayscaleToRgb,
    RgbToSemiPlanar,
    RgbToPlanar,
    RgbToGrayscale,
    RgbToRgb,
}

/// Why a frame was not converted.
#[derive(Debug)]
pub enum ConversionError {
    /// The source frame lacks a plane.
    MissingPlane(PlaneRole),
    UnsupportedBitDepth(u32),
    UnsupportedSemiPlanar {
        bit_depth: u32,
        subsampling: YuvSubsampling,
        uv_order: UvOrder,
        rgb_format: RgbFormat,
    },
    UnsupportedPlanar { bit_depth: u32, subsampling: YuvSubsampling, rgb_format: RgbFormat },
    UnsupportedPlanarAlpha { bit_depth: u32, rgb_format: RgbFormat },
    UnsupportedPlanarAlphaSubsampling(YuvSubsampling),
    UnsupportedToSemiPlanar {
        rgb_format: RgbFormat,
        subsampling: YuvSubsampling,
        uv_order: UvOrder,
    },
    /// Both pixel layouts are the same.
    IdenticalFormats(RgbFormat),
    /// The `yuv` crate refused the buffers.
    Failed(ConversionStep, yuv::YuvError),
}

/// What becomes of a conversion.
pub enum Verdict {
    /// It fails with this error, before any buffer is looked at.
    Refused(ConversionError),
    /// It fails because the buffers do not hold the image.
    Rejected(ConversionStep),
    Done,
}

/// Whether a result is the one that a verdict calls for.
pub open spec fn follows(r: Result<(), ConversionError>, verdict: Verdict) -> bool {
    match verdict {
        Verdict::Refused(e) => r == Err::<(), ConversionError>(e),
        Verdict::Rejected(step) => r matches Err(ConversionError::Failed(s, _)) && s == step,
        Verdict::Done => r is Ok,
    }
}

/// The name of a plane.
pub open spec fn plane_text(role: PlaneRole) -> Seq<char> {
    match role {
        PlaneRole::Y => "Y"@,
        PlaneRole::Uv => "UV"@,
        PlaneRole::U => "U"@,
        PlaneRole::V => "V"@,
        PlaneRole::A => "A"@,
        PlaneRole::Yuy => "YUY"@,
    }
}

fn plane_name(role: PlaneRole) -> (name: &'static str)
    ensures
        name@ == plane_text(role),
{
    match role {
        PlaneRole::Y => "Y",
        PlaneRole::Uv => "UV",
        PlaneRole::U => "U",
        PlaneRole::V => "V",
        PlaneRole::A => "A",
        PlaneRole::Yuy => "YUY",
    }
}

/// The name of a subsampling.
pub open spec fn subsampling_text(subsampling: YuvSubsampling) -> Seq<char> {
    match subsampling {
        YuvSubsampling::S400 => "S400"@,
        YuvSubsampling::S420 => "S420"@,
        YuvSubsampling::S422 => "S422"@,
        YuvSubsampling::S444 => "S444"@,
    }
}

fn subsampling_name(subsampling: YuvSubsampling) -> (name: &'static str)
    ensures
        name@ == subsampling_text(subsampling),
{
    match subsampling {
        YuvSubsampling::S400 => "S400",
        YuvSubsampling::S420 => "S420",
        YuvSubsampling::S422 => "S422",
        YuvSubsampling::S444 => "S444",
    }
}

/// The name of an order of chroma samples.
pub open spec fn order_text(order: UvOrder) -> Seq<char> {
    match order {
        UvOrder::Uv => "Uv"@,
        UvOrder::Vu => "Vu"@,
    }
}

fn order_name(order: UvOrder) -> (name: &'static str)
    ensures
        name@ == order_text(order),
{
    match order {
        UvOrder::Uv => "Uv",
        UvOrder::Vu => "Vu",
    }
}

/// The name of a pixel layout.
pub open spec fn rgb_text(format: RgbFormat) -> Seq<char> {
    match format {
        RgbFormat::Rgb => "Rgb"@,
        RgbFormat::Rgba => "Rgba"@,
        RgbFormat::Bgr => "Bgr"@,
        RgbFormat::Bgra => "Bgra"@,
    }
}

fn rgb_name(format: RgbFormat) -> (name: &'static str)
    ensures
        name@ == rgb_text(format),
{
    match format {
        RgbFormat::Rgb => "Rgb",
        RgbFormat::Rgba => "Rgba",
        RgbFormat::Bgr => "Bgr",
        RgbFormat::Bgra => "Bgra",
    }
}

/// What is said of a conversion that failed.
pub open spec fn step_text(step: ConversionStep) -> Seq<char> {
    match step {
        ConversionStep::SemiPlanar8ToRgb => "Semi-planar 8-bit to RGB conversion failed: "@,
        ConversionStep::SemiPlanar10ToRgb => "Semi-planar 10-bit to RGB conversion failed: "@,
        ConversionStep::Planar8ToRgb => "Planar 8-bit to RGB conversion failed: "@,
        ConversionStep::Planar10ToRgb => "Planar 10-bit to RGB conversion failed: "@,
        ConversionStep::PlanarAlphaToRgba => "Planar YUVA to RGBA conversion failed: "@,
        ConversionStep::PackedToRgb => "Packed to RGB conversion failed: "@,
        ConversionStep::GrayscaleToRgb => "Grayscale to RGB conversion failed: "@,
        ConversionStep::RgbToSemiPlanar => "RGB\u{2192}semi-planar YUV conversion failed: "@,
        ConversionStep::RgbToPlanar => "RGB\u{2192}planar YUV conversion failed: "@,
        ConversionStep::RgbToGrayscale => "RGB\u{2192}grayscale conversion failed: "@,
        ConversionStep::RgbToRgb => "RGB\u{2192}RGB shuffle failed: "@,
    }
}

fn step_name(step: ConversionStep) -> (name: &'static str)
    ensures
        name@ == step_text(step),
{
    match step {
        ConversionStep::SemiPlanar8ToRgb => "Semi-planar 8-bit to RGB conversion failed: ",
        ConversionStep::SemiPlanar10ToRgb => "Semi-planar 10-bit to RGB conversion failed: ",
        ConversionStep::Planar8ToRgb => "Planar 8-bit to RGB conversion failed: ",
        ConversionStep::Planar10ToRgb => "Planar 10-bit to RGB conversion failed: ",
        ConversionStep::PlanarAlphaToRgba => "Planar YUVA to RGBA conversion failed: ",
        ConversionStep::PackedToRgb => "Packed to RGB conversion failed: ",
        ConversionStep::GrayscaleToRgb => "Grayscale to RGB conversion failed: ",
        ConversionStep::RgbToSemiPlanar => "RGB\u{2192}semi-planar YUV conversion failed: ",
        ConversionStep::RgbToPlanar => "RGB\u{2192}planar YUV conversion failed: ",
        ConversionStep::RgbToGrayscale => "RGB\u{2192}grayscale conversion failed: ",
        ConversionStep::RgbToRgb => "RGB\u{2192}RGB shuffle failed: ",
    }
}

/// What is said of an error; `reason` is what the `yuv` crate says of a refusal.
pub open spec fn error_text(error: ConversionError, reason: Seq<char>) -> Seq<char> {
    match error {
        ConversionError::MissingPlane(role) => "Failed to get "@ + plane_text(role) + " plane"@,
        ConversionError::UnsupportedBitDepth(depth) => "Unsupported bit depth: "@
            + crate::text::decimal_text(depth as nat),
        ConversionError::UnsupportedSemiPlanar { bit_depth, subsampling, uv_order, rgb_format } =>
            "Unsupported "@ + crate::text::decimal_text(bit_depth as nat)
                + "-bit semi-planar format: "@ + subsampling_text(subsampling) + " "@ + order_text(
                uv_order,
            ) + " "@ + rgb_text(rgb_format),
        ConversionError::UnsupportedPlanar { bit_depth, subsampling, rgb_format } =>
            "Unsupported "@ + crate::text::decimal_text(bit_depth as nat) + "-bit planar format: "@
                + subsampling_text(subsampling) + " "@ + rgb_text(rgb_format),
        ConversionError::UnsupportedPlanarAlpha { bit_depth, rgb_format } =>
            "Unsupported planar-alpha conversion: "@ + crate::text::decimal_text(bit_depth as nat)
                + "-bit "@ + rgb_text(rgb_format),
        ConversionError::UnsupportedPlanarAlphaSubsampling(subsampling) =>
            "Unsupported planar-alpha subsampling: "@ + subsampling_text(subsampling),
        ConversionError::UnsupportedToSemiPlanar { rgb_format, subsampling, uv_order } =>
            "Unsupported RGB\u{2192}semi-planar conversion: "@ + rgb_text(rgb_format)
                + " \u{2192} "@ + subsampling_text(subsampling) + " "@ + order_text(uv_order),
        ConversionError::IdenticalFormats(format) =>
            "RGB\u{2192}RGB conversion with identical formats ("@ + rgb_text(format) + "\u{2192}"@
                + rgb_text(format) + ") should not occur"@,
        ConversionError::Failed(step, _) => step_text(step) + reason,
    }
}

impl ConversionError {
    /// What is said of the error; `reason` is what the `yuv` crate says of a refusal.
    pub fn message(&self, reason: &str) -> (text: String)
        ensures
            text@ == error_text(*self, reason@),
    {
        let mut text = String::new();
        proof {
            assert(forall|s: Seq<char>| #[trigger] (text@ + s) =~= s);
        }
        match self {
            ConversionError::MissingPlane(role) => {
                text.append("Failed to get ");
                text.append(plane_name(*role));
                text.append(" plane");
            },
            ConversionError::UnsupportedBitDepth(depth) => {
                text.append("Unsupported bit depth: ");
                text.append(decimal(*depth as u64).as_str());
            },
            ConversionError::UnsupportedSemiPlanar {
                bit_depth,
                subsampling,
                uv_order,
                rgb_format,
            } => {
                text.append("Unsupported ");
                text.append(decimal(*bit_depth as u64).as_str());
                text.append("-bit semi-planar format: ");
                text.append(subsampling_name(*subsampling));
                text.append(" ");
                text.append(order_name(*uv_order));
                text.append(" ");
                text.append(rgb_name(*rgb_format));
            },
            ConversionError::UnsupportedPlanar { bit_depth, subsampling, rgb_format } => {
                text.append("Unsupported ");
                text.append(decimal(*bit_depth as u64).as_str());
                text.append("-bit planar format: ");
                text.append(subsampling_name(*subsampling));
                text.append(" ");
                text.append(rgb_name(*rgb_format));
            },
            ConversionError::UnsupportedPlanarAlpha { bit_depth, rgb_format } => {
                text.append("Unsupported planar-alpha conversion: ");
                text.append(decimal(*bit_depth as u64).as_str());
                text.append("-bit ");
                text.append(rgb_name(*rgb_format));
            },
            ConversionError::UnsupportedPlanarAlphaSubsampling(subsampling) => {
                text.append("Unsupported planar-alpha subsampling: ");
                text.append(subsampling_name(*subsampling));
            },
            ConversionError::UnsupportedToSemiPlanar { rgb_format, subsampling, uv_order } => {
                text.append("Unsupported RGB\u{2192}semi-planar conversion: ");
                text.append(rgb_name(*rgb_format));
                text.append(" \u{2192} ");
                text.append(subsampling_name(*subsampling));
                text.append(" ");
                text.append(order_name(*uv_order));
            },
            ConversionError::IdenticalFormats(format) => {
                text.append("RGB\u{2192}RGB conversion with identical formats (");
                text.append(rgb_name(*format));
                text.append("\u{2192}");
                text.append(rgb_name(*format));
                text.append(") should not occur");
            },
            ConversionError::Failed(step, _) => {
                text.append(step_name(*step));
                text.append(reason);
            },
        }
        text
    }
}

} // verus!
