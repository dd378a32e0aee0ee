//! What the actions share.

use crate::text::str_eq;
use vstd::prelude::*;

verus! {

/// An element of a pipeline, as far as it may be a sink to look at.
#[derive(Debug)]
pub struct SinkCandidate {
    /// Whether it keeps its last sample.
    pub has_last_sample: bool,
    pub name: String,
    /// The name of its factory, where it comes from one.
    pub factory: Option<String>,
    /// Whether the caps of one of its sink pads go with the caps that are asked for.
    pub caps_match: bool,
}

/// Whether an element is a sink that is asked for. A name counts before a factory, and a factory
/// before caps. Where none of them is given any element that keeps its last sample will do.
pub open spec fn is_wanted(
    candidate: SinkCandidate,
    sink_name: Option<&str>,
    factory_name: Option<&str>,
    caps_given: bool,
) -> bool {
    candidate.has_last_sample && match (sink_name, factory_name) {
        (Some(name), _) => candidate.name@ == name@,
        (None, Some(factory)) => candidate.factory is Some && candidate.factory->0@ == factory@,
        (None, None) => !caps_given || candidate.caps_match,
    }
}

/// Whether an element is a sink that is asked for.
pub fn wanted(
    candidate: &SinkCandidate,
    sink_name: Option<&str>,
    factory_name: Option<&str>,
    caps_given: bool,
) -> (r: bool)
    ensures
        r == is_wanted(*candidate, sink_name, factory_name, caps_given),
{
    if !candidate.has_last_sample {
        return false;
    }
    if let Some(name) = sink_name {
        return str_eq(candidate.name.as_str(), name);
    }
    if let Some(factory_name) = factory_name {
        return match &candidate.factory {
            Some(factory) => str_eq(factory.as_str(), factory_name),
            None => false,
        };
    }
    !caps_given || candidate.caps_match
}

/// The place of the first element that is asked for, or what is said where there is none;
/// `caps_given` tells whether caps are asked for.
pub fn find_sink(
    elements: &Vec<SinkCandidate>,
    sink_name: Option<&str>,
    factory_name: Option<&str>,
    caps_given: bool,
) -> (r: Result<usize, String>)
    ensures
        match r {
            Ok(i) => {
                &&& i < elements.len()
                &&& is_wanted(elements[i as int], sink_name, factory_name, caps_given)
                &&& forall|k: int|
                    0 <= k < i ==> !is_wanted(
                        #[trigger] elements[k],
                        sink_name,
                        factory_name,
                        caps_given,
                    )
            },
            Err(text) => {
                &&& text@ == "No matching sink found in pipeline"@
                &&& forall|k: int|
                    0 <= k < elements.len() ==> !is_wanted(
                        #[trigger] elements[k],
                        sink_name,
                        factory_name,
                        caps_given,
                    )
            },
        },
{
    let mut i: usize = 0;
    while i < elements.len()
        invariant
            i <= elements.len(),
            forall|k: int|
                0 <= k < i ==> !is_wanted(
                    #[trigger] elements[k],
                    sink_name,
                    factory_name,
                    caps_given,
                ),
        decreases elements.len() - i,
    {
        if wanted(&elements[i], sink_name, factory_name, caps_given) {
            return Ok(i);
        }
        i = i + 1;
    }
    Err("No matching sink found in pipeline".to_owned())
}

/// What is said of a sink that has no last sample.
pub fn no_last_sample(sink_name: &str) -> (text: String)
    ensures
        text@ == "Could not get 'last-sample' from sink '"@ + sink_name@
            + "'. Make sure the 'enable-last-sample' property is set to TRUE!"@,
{
    let mut text = "Could not get 'last-sample' from sink '".to_owned();
    text.append(sink_name);
    text.append("'. Make sure the 'enable-last-sample' property is set to TRUE!");
    text
}

/// Whether some bytes hold an image of a size.
pub open spec fn image_fits(width: u32, height: u32, channels: int, len: int) -> bool {
    channels * width * height <= len
}

/// Whether some bytes hold an image of a size.
pub fn fits_image(width: u32, height: u32, channels: u8, len: usize) -> (r: bool)
    ensures
        r == image_fits(width, height, channels as int, len as int),
{
    proof {
        assert(0 <= width * height <= 0xffff_ffff * 0xffff_ffff) by (nonlinear_arith)
            requires
                0 <= width <= 0xffff_ffff,
                0 <= height <= 0xffff_ffff,
        ;
        assert(channels * width * height == channels * (width * height)) by (nonlinear_arith);
        assert(0 <= channels * (width * height) <= 255 * (0xffff_ffff * 0xffff_ffff))
            by (nonlinear_arith)
            requires
                0 <= channels <= 255,
                0 <= width * height <= 0xffff_ffff * 0xffff_ffff,
        ;
    }
    let needed: u128 = channels as u128 * (width as u128 * height as u128);
    needed <= len as u128
}

/// Only elements that keep their last sample are asked for. Of these, a name that is given decides
/// alone; without one a factory does; without either the caps do, where they are given; and where
/// nothing is given every such element will do.
pub proof fn law_criteria_count_in_their_order(
    candidate: SinkCandidate,
    name: &str,
    factory: &str,
    other: Option<&str>,
    caps_given: bool,
)
    ensures
        !candidate.has_last_sample ==> !is_wanted(candidate, Some(name), other, caps_given)
            && !is_wanted(candidate, None, other, caps_given),
        candidate.has_last_sample ==> {
            &&& is_wanted(candidate, Some(name), other, caps_given) <==> candidate.name@ == name@
            &&& is_wanted(candidate, None, Some(factory), caps_given) <==> (candidate.factory matches Some(
                own,
            ) && own@ == factory@)
            &&& is_wanted(candidate, None, None, true) <==> candidate.caps_match
            &&& is_wanted(candidate, None, None, false)
        },
{
}

/// Bytes hold an image exactly where they reach to the last byte of its last pixel.
pub proof fn law_images_fit_up_to_their_last_byte(width: u32, height: u32, channels: int, len: int)
    requires
        width > 0,
        height > 0,
        channels > 0,
    ensures
        image_fits(width, height, channels, len) <==> ((height - 1) * width + (width - 1)) * channels
            + (channels - 1) < len,
{
    assert(((height - 1) * width + (width - 1)) * channels + (channels - 1) == channels * width
        * height - 1) by (nonlinear_arith);
}

} // verus!
