//! The conversion element: which formats it offers, which one it picks, and how it is set up.

use crate::video::{VideoFormat, VideoFrame, VideoInfo};
use crate::videoconverter::converter::{
    ConverterError, Inner, VideoConverter, VideoConverterConfig,
};
use crate::videoconverter::error::ConversionError;
use vstd::prelude::*;

verus! {

/// What the choice of a format goes by.
#[derive(Debug, Clone, Copy)]
pub struct FormatInfo {
    /// The depth of the first component.
    pub depth: u32,
    pub n_components: u32,
    pub is_rgb: bool,
    pub is_yuv: bool,
    pub is_gray: bool,
    pub has_alpha: bool,
    pub tiled: bool,
    pub w_sub: [u32; 4],
    pub h_sub: [u32; 4],
}

/// A format by its name; `info` is there where the name is one of a raw format.
#[derive(Debug)]
pub struct NamedFormat {
    pub name: String,
    pub format: VideoFormat,
    pub info: Option<FormatInfo>,
}

impl NamedFormat {
    fn copied(&self) -> (r: NamedFormat)
        ensures
            r == *self,
    {
        NamedFormat { name: self.name.clone(), format: self.format, info: self.info }
    }
}

/// The field `format` of a structure.
#[derive(Debug)]
pub enum FormatField {
    Missing,
    One(NamedFormat),
    Several(Vec<NamedFormat>),
    /// Something that holds no names.
    Other,
}

/// A structure of caps, as far as its fields are read. What else there is goes by a number.
#[derive(Debug)]
pub struct Structure {
    pub format: FormatField,
    pub colorimetry: Option<String>,
    pub chroma_site: Option<String>,
    pub rest: u64,
}

/// The directions of pads.
#[derive(Debug, Clone, Copy, PartialEq, Eq, Structural)]
pub enum PadDirection {
    Src,
    Sink,
}

/// The element, with the converter that it was set up with.
#[derive(Debug)]
pub struct RsVideoConvert {
    pub converter: Option<VideoConverter>,
}

impl Default for RsVideoConvert {
    fn default() -> (element: RsVideoConvert)
        ensures
            element.converter is None,
    {
        RsVideoConvert { converter: None }
    }
}

pub open spec fn distance(a: int, b: int) -> int {
    if a < b {
        b - a
    } else {
        a - b
    }
}

/// What a conversion costs: 10 for each bit of depth, 50 for another number of components, 30 for
/// another kind of colours, 20 for alpha that comes or goes, 40 for tiles that come or go.
pub open spec fn penalty(a: FormatInfo, b: FormatInfo) -> int {
    10 * distance(a.depth as int, b.depth as int) + (if a.n_components != b.n_components {
        50int
    } else {
        0
    }) + (if a.is_rgb != b.is_rgb || a.is_yuv != b.is_yuv || a.is_gray != b.is_gray {
        30int
    } else {
        0
    }) + (if a.has_alpha != b.has_alpha {
        20int
    } else {
        0
    }) + (if a.tiled != b.tiled {
        40int
    } else {
        0
    })
}

/// The score of a conversion: none for the same format, the most for an unknown one.
pub open spec fn conversion_score(in_format: NamedFormat, out_format: NamedFormat) -> int {
    if in_format.format == out_format.format {
        0
    } else {
        match (in_format.info, out_format.info) {
            (Some(a), Some(b)) => penalty(a, b),
            _ => i32::MAX as int,
        }
    }
}

/// Whether the depths are such that the score can be written down.
pub open spec fn score_fits(in_format: NamedFormat, out_format: NamedFormat) -> bool {
    match (in_format.info, out_format.info) {
        (Some(a), Some(b)) => a.depth <= i32::MAX && b.depth <= i32::MAX && penalty(a, b)
            <= i32::MAX,
        _ => true,
    }
}

impl RsVideoConvert {
    /// Scores a conversion by what it loses: the lower, the better.
    pub fn score_format_conversion(
        &self,
        in_format: &NamedFormat,
        out_format: &NamedFormat,
    ) -> (score: i32)
        requires
            score_fits(*in_format, *out_format),
        ensures
            score == conversion_score(*in_format, *out_format),
    {
        if in_format.format == out_format.format {
            return 0;
        }
        let a = match in_format.info {
            Some(info) => info,
            None => return i32::MAX,
        };
        let b = match out_format.info {
            Some(info) => info,
            None => return i32::MAX,
        };
        let in_depth: i32 = a.depth as i32;
        let out_depth: i32 = b.depth as i32;
        let depth_diff: i32 = if in_depth < out_depth {
            out_depth - in_depth
        } else {
            in_depth - out_depth
        };
        let mut score: i32 = depth_diff * 10;
        if a.n_components != b.n_components {
            score = score + 50;
        }
        if a.is_rgb != b.is_rgb || a.is_yuv != b.is_yuv || a.is_gray != b.is_gray {
            score = score + 30;
        }
        if a.has_alpha != b.has_alpha {
            score = score + 20;
        }
        if a.tiled != b.tiled {
            score = score + 40;
        }
        score
    }
}

/// A conversion and its reverse have one score, it is never negative, and none is better than
/// keeping the format.
pub proof fn law_scores_are_symmetric(a: NamedFormat, b: NamedFormat)
    ensures
        conversion_score(a, b) == conversion_score(b, a),
        conversion_score(a, b) >= 0,
        conversion_score(a, a) == 0,
{
}

/// The best of some formats for an input: the first of those with the lowest score, unless all of
/// them are unknown.
pub open spec fn is_best(
    in_format: NamedFormat,
    formats: Seq<NamedFormat>,
    best: Option<int>,
) -> bool {
    match best {
        Some(i) => {
            &&& 0 <= i < formats.len()
            &&& conversion_score(in_format, formats[i]) < i32::MAX
            &&& forall|k: int|
                0 <= k < i ==> conversion_score(in_format, formats[i]) < conversion_score(
                    in_format,
                    #[trigger] formats[k],
                )
            &&& forall|k: int|
                i < k < formats.len() ==> conversion_score(in_format, formats[i])
                    <= conversion_score(in_format, #[trigger] formats[k])
        },
        None => forall|k: int|
            0 <= k < formats.len() ==> conversion_score(in_format, #[trigger] formats[k])
                == i32::MAX,
    }
}

/// There is one best format at most: the choice does not depend on anything but the formats.
pub proof fn law_the_best_format_is_unique(
    in_format: NamedFormat,
    formats: Seq<NamedFormat>,
    a: Option<int>,
    b: Option<int>,
)
    requires
        is_best(in_format, formats, a),
        is_best(in_format, formats, b),
    ensures
        a == b,
{
    if let Some(i) = a {
        let first = formats[i];
        if let Some(j) = b {
            let second = formats[j];
        }
    } else if let Some(j) = b {
        let second = formats[j];
    }
}

/// A format that can be kept is kept.
pub proof fn law_the_same_format_is_best(
    in_format: NamedFormat,
    formats: Seq<NamedFormat>,
    best: Option<int>,
    k: int,
)
    requires
        is_best(in_format, formats, best),
        0 <= k < formats.len(),
        formats[k].format == in_format.format,
    ensures
        best is Some,
        conversion_score(in_format, formats[best->0]) == 0,
        best->0 <= k,
{
    assert(conversion_score(in_format, formats[k]) == 0);
    law_scores_are_symmetric(in_format, formats[best->0]);
}

impl RsVideoConvert {
    fn best_format(&self, in_format: &NamedFormat, formats: &[NamedFormat]) -> (best: Option<
        usize,
    >)
        requires
            forall|k: int| 0 <= k < formats.len() ==> score_fits(*in_format, #[trigger] formats[k]),
        ensures
            is_best(
                *in_format,
                formats@,
                match best {
                    Some(i) => Some(i as int),
                    None => None,
                },
            ),
    {
        let mut best_score: i32 = i32::MAX;
        let mut best: Option<usize> = None;
        let mut i: usize = 0;
        while i < formats.len()
            invariant
                i <= formats.len(),
                forall|k: int|
                    0 <= k < formats.len() ==> score_fits(*in_format, #[trigger] formats[k]),
                is_best(
                    *in_format,
                    formats@.take(i as int),
                    match best {
                        Some(i) => Some(i as int),
                        None => None,
                    },
                ),
                best_score == match best {
                    Some(i) => conversion_score(*in_format, formats[i as int]),
                    None => i32::MAX as int,
                },
            decreases formats.len() - i,
        {
            let score: i32 = self.score_format_conversion(in_format, &formats[i]);
            let ghost previous = best;
            proof {
                let done = formats@.take(i as int);
                let next = formats@.take(i + 1);
                assert(forall|k: int| 0 <= k < i ==> next[k] == done[k]);
                assert(next[i as int] == formats@[i as int]);
                if let Some(p) = previous {
                    assert(done[p as int] == formats@[p as int]);
                }
            }
            if score < best_score {
                best_score = score;
                best = Some(i);
            }
            if score == 0 {
                proof {
                    assert forall|k: int| 0 <= k < formats.len() implies conversion_score(
                        *in_format,
                        #[trigger] formats[k],
                    ) >= 0 by {
                        law_scores_are_symmetric(*in_format, formats[k]);
                    }
                    let b = best->0 as int;
                    let next = formats@.take(i + 1);
                    assert(b <= i);
                    assert(next[b] == formats@[b]);
                    assert(conversion_score(*in_format, formats[b]) == 0);
                    assert forall|k: int| 0 <= k < b implies 0 < conversion_score(
                        *in_format,
                        #[trigger] formats[k],
                    ) by {
                        assert(formats@.take(i as int)[k] == formats@[k]);
                    }
                }
                return best;
            }
            i = i + 1;
        }
        proof {
            assert(formats@.take(i as int) =~= formats@);
        }
        best
    }
}

fn same_steps(a: &[u32; 4], b: &[u32; 4]) -> (same: bool)
    ensures
        same == (a@ == b@),
{
    let same = a[0] == b[0] && a[1] == b[1] && a[2] == b[2] && a[3] == b[3];
    proof {
        if same {
            assert(a@ =~= b@);
        }
    }
    same
}

/// Two formats of one kind of colours.
pub open spec fn same_colors(a: FormatInfo, b: FormatInfo) -> bool {
    (a.is_rgb && b.is_rgb) || (a.is_yuv && b.is_yuv) || (a.is_gray && b.is_gray)
}

/// Two YUV formats with the same subsampling.
pub open spec fn same_chroma(a: FormatInfo, b: FormatInfo) -> bool {
    a.is_yuv && b.is_yuv && a.w_sub@ == b.w_sub@ && a.h_sub@ == b.h_sub@
}

/// A structure after the colours of the input were taken over: the colorimetry where the kind of
/// colours stays, the chroma site where the subsampling does too.
pub open spec fn with_colors(input: Structure, output: Structure) -> Structure {
    match (input.format, output.format) {
        (FormatField::One(a), FormatField::One(b)) => match (a.info, b.info) {
            (Some(a), Some(b)) => Structure {
                colorimetry: if same_colors(a, b) && input.colorimetry is Some {
                    input.colorimetry
                } else {
                    output.colorimetry
                },
                chroma_site: if same_chroma(a, b) && input.chroma_site is Some {
                    input.chroma_site
                } else {
                    output.chroma_site
                },
                ..output
            },
            _ => output,
        },
        _ => output,
    }
}

impl RsVideoConvert {
    /// Takes colorimetry and chroma site over from the first structure of the input to the first one
    /// of the output, where that is appropriate.
    pub fn transfer_colorimetry_from_input(
        &self,
        caps: &Vec<Structure>,
        othercaps: &mut Vec<Structure>,
    )
        ensures
            final(othercaps)@ == if caps.len() > 0 && old(othercaps).len() > 0 {
                old(othercaps)@.update(0, with_colors(caps[0], old(othercaps)@[0]))
            } else {
                old(othercaps)@
            },
    {
        if caps.len() == 0 || othercaps.len() == 0 {
            return;
        }
        let infos = match (&caps[0].format, &othercaps[0].format) {
            (FormatField::One(a), FormatField::One(b)) => match (a.info, b.info) {
                (Some(a), Some(b)) => Some((a, b)),
                _ => None,
            },
            _ => None,
        };
        if let Some((a, b)) = infos {
            if (a.is_rgb && b.is_rgb) || (a.is_yuv && b.is_yuv) || (a.is_gray && b.is_gray) {
                if let Some(colorimetry) = &caps[0].colorimetry {
                    othercaps[0].colorimetry = Some(colorimetry.clone());
                }
            }
            if a.is_yuv && b.is_yuv && same_steps(&a.w_sub, &b.w_sub) && same_steps(
                &a.h_sub,
                &b.h_sub,
            ) {
                if let Some(chroma_site) = &caps[0].chroma_site {
                    othercaps[0].chroma_site = Some(chroma_site.clone());
                }
            }
        }
        proof {
            assert(othercaps@ =~= old(othercaps)@.update(0, with_colors(caps[0], old(othercaps)@[0])));
        }
    }
}

/// The caps of which one fixed set is then taken.
#[derive(Debug, Clone, Copy, PartialEq, Eq, Structural)]
pub enum ToFixate {
    /// What both sides have in common.
    Intersection,
    OtherCaps,
}

/// The formats that a structure offers.
pub open spec fn offered(structure: Structure) -> Seq<NamedFormat> {
    match structure.format {
        FormatField::One(format) => seq![format],
        FormatField::Several(formats) => formats@,
        _ => Seq::empty(),
    }
}

/// The first structure of the output after a format was chosen for an input.
pub open spec fn with_format(
    in_format: NamedFormat,
    before: Structure,
    after: Structure,
) -> bool {
    exists|best: Option<int>| #[trigger]
        is_best(in_format, offered(before), best) && after == match best {
            Some(i) => Structure { format: FormatField::One(offered(before)[i]), ..before },
            None => before,
        }
}

impl RsVideoConvert {
    fn choose_format(&self, in_format: &NamedFormat, structure: &mut Structure)
        requires
            forall|k: int|
                0 <= k < offered(*old(structure)).len() ==> score_fits(
                    *in_format,
                    #[trigger] offered(*old(structure))[k],
                ),
        ensures
            with_format(*in_format, *old(structure), *final(structure)),
    {
        let ghost before = *structure;
        let ghost mut found: Option<int> = None;
        let chosen = match &structure.format {
            FormatField::One(format) => {
                let score: i32 = {
                    proof {
                        assert(offered(before)[0] == *format);
                    }
                    self.score_format_conversion(in_format, format)
                };
                if score < i32::MAX {
                    proof {
                        found = Some(0);
                    }
                    Some(format.copied())
                } else {
                    None
                }
            },
            FormatField::Several(formats) => {
                match self.best_format(in_format, formats.as_slice()) {
                    Some(i) => {
                        proof {
                            found = Some(i as int);
                        }
                        Some(formats[i].copied())
                    },
                    None => None,
                }
            },
            _ => None,
        };
        proof {
            assert(is_best(*in_format, offered(before), found));
        }
        if let Some(format) = chosen {
            structure.format = FormatField::One(format);
        }
    }
}

impl RsVideoConvert {
    /// Picks the format of the output. A format that both sides have in common is kept. Otherwise the
    /// best of those that the first structure offers is set there, and towards the source the colours
    /// of the input are taken over. Without a format in the input nothing is picked.
    pub fn fixate_format(
        &self,
        caps: &Vec<Structure>,
        othercaps: &mut Vec<Structure>,
        intersects: bool,
        direction: PadDirection,
    ) -> (r: ToFixate)
        requires
            !intersects ==> caps.len() > 0,
            !intersects && old(othercaps).len() > 0 ==> (caps[0].format matches FormatField::One(
                in_format,
            ) ==> forall|k: int|
                0 <= k < offered(old(othercaps)@[0]).len() ==> score_fits(
                    in_format,
                    #[trigger] offered(old(othercaps)@[0])[k],
                )),
        ensures
            r == if intersects {
                ToFixate::Intersection
            } else {
                ToFixate::OtherCaps
            },
            intersects || !(caps[0].format is One) || old(othercaps).len() == 0 ==> final(othercaps)@
                == old(othercaps)@,
            !intersects && old(othercaps).len() > 0 ==> (caps[0].format matches FormatField::One(
                in_format,
            ) ==> {
                &&& final(othercaps).len() == old(othercaps).len()
                &&& forall|k: int|
                    0 < k < old(othercaps).len() ==> #[trigger] final(othercaps)@[k] == old(
                        othercaps,
                    )@[k]
                &&& direction == PadDirection::Src ==> with_format(
                    in_format,
                    old(othercaps)@[0],
                    final(othercaps)@[0],
                )
                &&& direction == PadDirection::Sink ==> exists|chosen: Structure| #[trigger]
                    with_format(in_format, old(othercaps)@[0], chosen) && final(othercaps)@[0]
                        == with_colors(caps[0], chosen)
            }),
    {
        if intersects {
            return ToFixate::Intersection;
        }
        if let FormatField::One(in_format) = &caps[0].format {
            if othercaps.len() > 0 {
                self.choose_format(in_format, &mut othercaps[0]);
            }
            if let PadDirection::Sink = direction {
                self.transfer_colorimetry_from_input(caps, othercaps);
            }
        }
        ToFixate::OtherCaps
    }
}

/// A structure as it is offered in one format: with it, and without the fields that only make
/// sense in YUV where it is an RGB one.
pub open spec fn converted(structure: Structure, format: NamedFormat) -> Structure {
    let rgb = format.info is Some && format.info->0.is_rgb;
    Structure {
        format: FormatField::One(format),
        colorimetry: if rgb {
            None
        } else {
            structure.colorimetry
        },
        chroma_site: if rgb {
            None
        } else {
            structure.chroma_site
        },
        rest: structure.rest,
    }
}

/// Some structures, each in every format.
pub open spec fn in_all_formats(
    structures: Seq<Structure>,
    formats: Seq<NamedFormat>,
) -> Seq<Structure>
    decreases structures.len(),
{
    if structures.len() == 0 {
        Seq::empty()
    } else {
        in_all_formats(structures.drop_last(), formats) + formats.map_values(
            |format: NamedFormat| converted(structures.last(), format),
        )
    }
}

fn copied_text(text: &Option<String>) -> (r: Option<String>)
    ensures
        r == *text,
{
    match text {
        Some(text) => Some(text.clone()),
        None => None,
    }
}

impl RsVideoConvert {
    /// What can come out for some caps: each structure in every raw format.
    pub fn transform_caps(
        &self,
        caps: &Vec<Structure>,
        raw_formats: &Vec<NamedFormat>,
    ) -> (other_caps: Vec<Structure>)
        ensures
            other_caps@ == in_all_formats(caps@, raw_formats@),
    {
        let mut other_caps: Vec<Structure> = Vec::new();
        let mut i: usize = 0;
        while i < caps.len()
            invariant
                i <= caps.len(),
                other_caps@ == in_all_formats(caps@.take(i as int), raw_formats@),
            decreases caps.len() - i,
        {
            let ghost done = other_caps@;
            let ghost offer = |format: NamedFormat| converted(caps@[i as int], format);
            let mut j: usize = 0;
            while j < raw_formats.len()
                invariant
                    i < caps.len(),
                    j <= raw_formats.len(),
                    offer == (|format: NamedFormat| converted(caps@[i as int], format)),
                    other_caps@ == done + raw_formats@.take(j as int).map_values(offer),
                decreases raw_formats.len() - j,
            {
                let format = raw_formats[j].copied();
                let rgb = match format.info {
                    Some(info) => info.is_rgb,
                    None => false,
                };
                let colorimetry = if rgb {
                    None
                } else {
                    copied_text(&caps[i].colorimetry)
                };
                let chroma_site = if rgb {
                    None
                } else {
                    copied_text(&caps[i].chroma_site)
                };
                other_caps.push(
                    Structure {
                        format: FormatField::One(format),
                        colorimetry,
                        chroma_site,
                        rest: caps[i].rest,
                    },
                );
                j = j + 1;
                proof {
                    assert(other_caps@ =~= done + raw_formats@.take(j as int).map_values(offer));
                }
            }
            proof {
                let next = caps@.take(i + 1);
                assert(next.drop_last() =~= caps@.take(i as int));
                assert(next.last() == caps@[i as int]);
                assert(raw_formats@.take(j as int) =~= raw_formats@);
            }
            i = i + 1;
        }
        proof {
            assert(caps@.take(i as int) =~= caps@);
        }
        other_caps
    }
}

/// The format itself is always offered among the others: whatever comes in can go out unchanged.
pub proof fn law_every_format_is_offered(
    structures: Seq<Structure>,
    formats: Seq<NamedFormat>,
    i: int,
    j: int,
)
    requires
        0 <= i < structures.len(),
        0 <= j < formats.len(),
    ensures
        in_all_formats(structures, formats).contains(converted(structures[i], formats[j])),
    decreases structures.len(),
{
    let last = formats.map_values(|format: NamedFormat| converted(structures.last(), format));
    let before = in_all_formats(structures.drop_last(), formats);
    let wanted = converted(structures[i], formats[j]);
    if i == structures.len() - 1 {
        assert(last[j] == wanted);
        assert((before + last)[before.len() + j] == wanted);
    } else {
        law_every_format_is_offered(structures.drop_last(), formats, i, j);
        let k = choose|k: int| 0 <= k < before.len() && before[k] == wanted;
        assert((before + last)[k] == wanted);
    }
}

/// What is known of an input that other caps are fixated for.
#[derive(Debug, Clone, Copy, PartialEq, Eq, Structural)]
pub struct InputVideo {
    pub width: u32,
    pub height: u32,
    pub fps_numer: i32,
    pub fps_denom: i32,
    pub par_numer: i32,
    pub par_denom: i32,
}

/// Which fields of a structure hold a fraction.
#[derive(Debug, Clone, Copy, PartialEq, Eq, Structural)]
pub struct FractionFields {
    pub framerate: bool,
    pub pixel_aspect_ratio: bool,
}

/// What the fields of a structure are brought next to.
#[derive(Debug, Clone, Copy, PartialEq, Eq)]
pub struct Targets {
    pub width: i32,
    pub height: i32,
    pub framerate: Option<(i32, i32)>,
    pub pixel_aspect_ratio: Option<(i32, i32)>,
}

/// What the fields of a structure are brought next to for an input.
pub open spec fn targets_for(input: InputVideo, fields: FractionFields) -> Targets {
    Targets {
        width: input.width as i32,
        height: input.height as i32,
        framerate: if fields.framerate {
            Some((input.fps_numer, input.fps_denom))
        } else {
            None
        },
        pixel_aspect_ratio: if fields.pixel_aspect_ratio {
            Some((input.par_numer, input.par_denom))
        } else {
            None
        },
    }
}

impl RsVideoConvert {
    /// What each structure of the other caps is brought next to, for nothing is scaled: the size of
    /// the input, and its rates where there are such fields. None where the input is not known.
    pub fn fixate_caps(
        &self,
        input: Option<InputVideo>,
        othercaps: &Vec<FractionFields>,
    ) -> (r: Option<Vec<Targets>>)
        requires
            input matches Some(input) ==> input.width <= i32::MAX && input.height <= i32::MAX,
        ensures
            match (input, r) {
                (Some(input), Some(targets)) => targets@ == othercaps@.map_values(
                    |fields: FractionFields| targets_for(input, fields),
                ),
                (None, None) => true,
                _ => false,
            },
    {
        let input = match input {
            Some(input) => input,
            None => return None,
        };
        let ghost target = |fields: FractionFields| targets_for(input, fields);
        let mut targets: Vec<Targets> = Vec::new();
        let mut i: usize = 0;
        while i < othercaps.len()
            invariant
                i <= othercaps.len(),
                target == (|fields: FractionFields| targets_for(input, fields)),
                targets@ == othercaps@.take(i as int).map_values(target),
            decreases othercaps.len() - i,
        {
            let fields = othercaps[i];
            targets.push(
                Targets {
                    width: input.width as i32,
                    height: input.height as i32,
                    framerate: if fields.framerate {
                        Some((input.fps_numer, input.fps_denom))
                    } else {
                        None
                    },
                    pixel_aspect_ratio: if fields.pixel_aspect_ratio {
                        Some((input.par_numer, input.par_denom))
                    } else {
                        None
                    },
                },
            );
            i = i + 1;
            proof {
                assert(targets@ =~= othercaps@.take(i as int).map_values(target));
            }
        }
        proof {
            assert(othercaps@.take(i as int) =~= othercaps@);
        }
        Some(targets)
    }
}

/// Why a frame does not flow.
#[derive(Debug)]
pub enum FlowError {
    /// No converter was set up.
    NotNegotiated,
    Error(ConversionError),
}

impl RsVideoConvert {
    /// Sets the element up for a pair of formats. Frames of the same format are passed through,
    /// which is what is returned.
    pub fn set_info(&mut self, identical: bool, in_info: &VideoInfo, out_info: &VideoInfo) -> (r:
        Result<bool, ConverterError>)
        requires
            !identical && in_info.valid && out_info.valid
                ==> crate::videoconverter::converter::conversion_defined(*in_info, *out_info),
        ensures
            identical ==> r == Ok::<bool, ConverterError>(true) && final(self).converter is None,
            !identical && !(in_info.valid && out_info.valid) ==> r == Err::<bool, ConverterError>(
                ConverterError::InvalidVideoInfo,
            ) && *final(self) == *old(self),
            !identical && in_info.valid && out_info.valid ==> {
                &&& r == Ok::<bool, ConverterError>(false)
                &&& final(self).converter == Some(
                    VideoConverter {
                        inner: match crate::videoconverter::params::conversion_spec(
                            *in_info,
                            *out_info,
                        ) {
                            Some(params) => Inner::Yuv(
                                crate::videoconverter::converter::YuvConverter { params },
                            ),
                            None => Inner::Gst,
                        },
                    },
                )
            },
    {
        if identical {
            self.converter = None;
            return Ok(true);
        }
        let config = VideoConverterConfig { disable_fallback: None };
        match VideoConverter::new(in_info, out_info, Some(config)) {
            Ok(converter) => {
                self.converter = Some(converter);
                Ok(false)
            },
            Err(e) => Err(e),
        }
    }

    /// Converts a frame. `Ok(false)` where the stock converter has to do it.
    pub fn transform_frame(&self, in_frame: &VideoFrame, out_frame: &mut VideoFrame) -> (r: Result<
        bool,
        FlowError,
    >)
        requires
            self.converter matches Some(converter) ==> (converter.inner matches Inner::Yuv(yuv)
                ==> crate::videoconverter::converter::convertible(
                yuv.params,
                *in_frame,
                *old(out_frame),
            )),
        ensures
            match self.converter {
                None => r == Err::<bool, FlowError>(FlowError::NotNegotiated) && *final(out_frame)
                    == *old(out_frame),
                Some(converter) => match converter.inner {
                    Inner::Gst => r == Ok::<bool, FlowError>(false) && *final(out_frame) == *old(
                        out_frame,
                    ),
                    Inner::Yuv(yuv) => {
                        &&& match r {
                            Ok(done) => done && crate::videoconverter::error::follows(
                                Ok(()),
                                crate::videoconverter::converter::conversion_verdict(
                                    yuv.params,
                                    *in_frame,
                                    *old(out_frame),
                                ),
                            ) && crate::videoconverter::converter::conversion_outcome(
                                yuv.params,
                                *in_frame,
                                *old(out_frame),
                                *final(out_frame),
                            ),
                            Err(FlowError::Error(e)) => crate::videoconverter::error::follows(
                                Err(e),
                                crate::videoconverter::converter::conversion_verdict(
                                    yuv.params,
                                    *in_frame,
                                    *old(out_frame),
                                ),
                            ) && crate::video::same_but(
                                *old(out_frame),
                                *final(out_frame),
                                Set::empty(),
                            ),
                            Err(FlowError::NotNegotiated) => false,
                        }
                        &&& crate::video::same_but(
                            *old(out_frame),
                            *final(out_frame),
                            crate::videoconverter::converter::written_planes(yuv.params),
                        )
                    },
                },
            },
    {
        let converter = match &self.converter {
            Some(converter) => converter,
            None => return Err(FlowError::NotNegotiated),
        };
        match converter.frame_ref(in_frame, out_frame) {
            None => Ok(false),
            Some(Ok(_)) => Ok(true),
            Some(Err(e)) => Err(FlowError::Error(e)),
        }
    }
}

/// Formats that differ in nothing that counts: depth, number of components, kind of colours, alpha
/// and tiles are the same.
pub open spec fn loses_nothing(a: FormatInfo, b: FormatInfo) -> bool {
    &&& a.depth == b.depth
    &&& a.n_components == b.n_components
    &&& (a.is_rgb, a.is_yuv, a.is_gray) == (b.is_rgb, b.is_yuv, b.is_gray)
    &&& a.has_alpha == b.has_alpha
    &&& a.tiled == b.tiled
}

/// Each loss has its price, whatever else is lost. Two formats are compared that differ in one
/// thing, in which the first one is as the input and the second one is not: the second one scores
/// higher by 50 for components, 30 for the kind of colours, 20 for alpha and 40 for tiles, and by 10
/// for each bit of depth that it is further off. A format of which nothing is lost scores nothing.
pub proof fn law_each_loss_has_its_price(
    input: NamedFormat,
    kept: NamedFormat,
    lost: NamedFormat,
    n_components: u32,
    kind: (bool, bool, bool),
    depth: u32,
)
    requires
        input.info is Some && kept.info is Some && lost.info is Some,
        input.format != kept.format && input.format != lost.format,
    ensures
        ({
            let i = input.info->0;
            let k = kept.info->0;
            let l = lost.info->0;
            let more = conversion_score(input, lost) - conversion_score(input, kept);
            &&& l == (FormatInfo { n_components, ..k }) && k.n_components == i.n_components
                && n_components != i.n_components ==> more == 50
            &&& l == (FormatInfo { is_rgb: kind.0, is_yuv: kind.1, is_gray: kind.2, ..k }) && (
            k.is_rgb, k.is_yuv, k.is_gray) == (i.is_rgb, i.is_yuv, i.is_gray) && kind != (
            i.is_rgb, i.is_yuv, i.is_gray) ==> more == 30
            &&& l == (FormatInfo { has_alpha: !i.has_alpha, ..k }) && k.has_alpha == i.has_alpha
                ==> more == 20
            &&& l == (FormatInfo { tiled: !i.tiled, ..k }) && k.tiled == i.tiled ==> more == 40
            &&& l == (FormatInfo { depth, ..k }) && i.depth <= k.depth <= depth ==> more == 10 * (
            depth - k.depth)
            &&& l == (FormatInfo { depth, ..k }) && depth <= k.depth <= i.depth ==> more == 10 * (
            k.depth - depth)
            &&& loses_nothing(i, k) ==> conversion_score(input, kept) == 0
        }),
{
}

/// Nothing is for free: a format scores nothing exactly where it is the input's own, or loses
/// nothing; and one that is not known scores more than any other can.
pub proof fn law_only_lossless_formats_score_nothing(input: NamedFormat, output: NamedFormat)
    ensures
        (conversion_score(input, output) == 0) <==> input.format == output.format || (
        input.info is Some && output.info is Some && loses_nothing(input.info->0, output.info->0)),
        input.format != output.format && (input.info is None || output.info is None)
            ==> conversion_score(input, output) == 0x7fff_ffff,
{
}

/// Where a format that loses nothing is offered, one that loses nothing is picked: alpha, depth,
/// components, colours and tiles stay as they are. The picked format is the first such one.
pub proof fn law_what_can_be_kept_is_kept(
    input: NamedFormat,
    before: Structure,
    after: Structure,
    k: int,
)
    requires
        with_format(input, before, after),
        input.info is Some,
        0 <= k < offered(before).len(),
        offered(before)[k].info is Some,
        loses_nothing(input.info->0, offered(before)[k].info->0),
    ensures
        after.format matches FormatField::One(picked) && {
            &&& picked.format == input.format || (picked.info is Some && loses_nothing(
                input.info->0,
                picked.info->0,
            ))
            &&& exists|i: int| 0 <= i <= k && #[trigger] offered(before)[i] == picked
        },
{
    let best = choose|best: Option<int>| #[trigger]
        is_best(input, offered(before), best) && after == match best {
            Some(i) => Structure { format: FormatField::One(offered(before)[i]), ..before },
            None => before,
        };
    law_only_lossless_formats_score_nothing(input, offered(before)[k]);
    if let Some(i) = best {
        law_scores_are_symmetric(input, offered(before)[i]);
        law_only_lossless_formats_score_nothing(input, offered(before)[i]);
        assert(offered(before)[i] == after.format->One_0);
    }
}

/// A format is picked wherever a known one is offered, from among those that are offered, and no
/// offered one scores lower. Nothing but the format of the structure changes.
pub proof fn law_no_offer_is_better(
    input: NamedFormat,
    before: Structure,
    after: Structure,
    k: int,
)
    requires
        with_format(input, before, after),
        0 <= k < offered(before).len(),
        conversion_score(input, offered(before)[k]) < i32::MAX,
    ensures
        after.format matches FormatField::One(picked) && {
            &&& offered(before).contains(picked)
            &&& conversion_score(input, picked) <= conversion_score(input, offered(before)[k])
        },
        after.colorimetry == before.colorimetry,
        after.chroma_site == before.chroma_site,
        after.rest == before.rest,
{
    let best = choose|best: Option<int>| #[trigger]
        is_best(input, offered(before), best) && after == match best {
            Some(i) => Structure { format: FormatField::One(offered(before)[i]), ..before },
            None => before,
        };
    let candidate = offered(before)[k];
    if let Some(i) = best {
        assert(offered(before)[i] == after.format->One_0);
    }
}

/// A structure that names one format offers it, one that lists several offers each of them, and any
/// other offers none.
pub proof fn law_structures_offer_what_they_name(structure: Structure, format: NamedFormat)
    ensures
        structure.format matches FormatField::One(one) ==> (offered(structure).contains(format)
            <==> format == one),
        structure.format matches FormatField::Several(several) ==> (offered(structure).contains(
            format,
        ) <==> several@.contains(format)),
        structure.format is Missing || structure.format is Other ==> !offered(structure).contains(
            format,
        ),
{
    if let FormatField::One(one) = structure.format {
        assert(offered(structure)[0] == one);
    }
}

/// Colours go along with a video as far as they still mean something: the colorimetry within RGB,
/// within YUV and within gray, the chroma site between YUV formats of one subsampling. Elsewhere
/// the output keeps its own, and format and everything else are left alone.
pub proof fn law_colors_stay_within_a_kind(input: Structure, output: Structure)
    ensures
        with_colors(input, output).format == output.format,
        with_colors(input, output).rest == output.rest,
        ({
            let after = with_colors(input, output);
            let known = (input.format matches FormatField::One(a) && a.info is Some) && (
            output.format matches FormatField::One(b) && b.info is Some);
            let a = input.format->One_0.info->0;
            let b = output.format->One_0.info->0;
            let same_kind = a.is_rgb && b.is_rgb || a.is_yuv && b.is_yuv || a.is_gray && b.is_gray;
            let same_steps = forall|i: int|
                0 <= i < 4 ==> #[trigger] a.w_sub@[i] == b.w_sub@[i] && a.h_sub@[i] == b.h_sub@[i];
            &&& known && same_kind && input.colorimetry is Some ==> after.colorimetry
                == input.colorimetry
            &&& !known || !same_kind || input.colorimetry is None ==> after.colorimetry
                == output.colorimetry
            &&& known && a.is_yuv && b.is_yuv && same_steps && input.chroma_site is Some
                ==> after.chroma_site == input.chroma_site
            &&& !known || !a.is_yuv || !b.is_yuv || !same_steps || input.chroma_site is None
                ==> after.chroma_site == output.chroma_site
        }),
{
    if let (FormatField::One(x), FormatField::One(y)) = (input.format, output.format) {
        if let (Some(a), Some(b)) = (x.info, y.info) {
            if forall|i: int|
                0 <= i < 4 ==> #[trigger] a.w_sub@[i] == b.w_sub@[i] && a.h_sub@[i] == b.h_sub@[i] {
                assert(a.w_sub@ =~= b.w_sub@);
                assert forall|i: int| 0 <= i < 4 implies a.h_sub@[i] == b.h_sub@[i] by {
                    assert(a.w_sub@[i] == b.w_sub@[i]);
                }
                assert(a.h_sub@ =~= b.h_sub@);
            }
        }
    }
}

/// In what is offered, an RGB format comes without the fields of YUV, and any other with those that
/// came in; what else came in goes out.
pub proof fn law_offers_keep_what_fits(structure: Structure, format: NamedFormat)
    ensures
        converted(structure, format).format == FormatField::One(format),
        converted(structure, format).rest == structure.rest,
        format.info is Some && format.info->0.is_rgb ==> converted(structure, format).colorimetry is None
            && converted(structure, format).chroma_site is None,
        format.info is None || !format.info->0.is_rgb ==> converted(structure, format).colorimetry
            == structure.colorimetry && converted(structure, format).chroma_site
            == structure.chroma_site,
{
}

/// Nothing else is offered: as many structures come out as there are pairs of a structure and a
/// format, those of an earlier structure first, and for one structure in the order of the formats.
pub proof fn law_offers_come_in_order(
    structures: Seq<Structure>,
    formats: Seq<NamedFormat>,
    i: int,
    j: int,
)
    requires
        0 <= i < structures.len(),
        0 <= j < formats.len(),
    ensures
        in_all_formats(structures, formats).len() == structures.len() * formats.len(),
        0 <= i * formats.len() + j < in_all_formats(structures, formats).len(),
        in_all_formats(structures, formats)[i * formats.len() + j].format == FormatField::One(
            formats[j],
        ),
        in_all_formats(structures, formats)[i * formats.len() + j].rest == structures[i].rest,
    decreases structures.len(),
{
    let n = formats.len() as int;
    let m = structures.len() as int;
    let rest = structures.drop_last();
    let before = in_all_formats(rest, formats);
    let last = formats.map_values(|format: NamedFormat| converted(structures.last(), format));
    lemma_number_of_offers(rest, formats);
    assert((m - 1) * n + n == m * n) by (nonlinear_arith);
    if i < m - 1 {
        law_offers_come_in_order(rest, formats, i, j);
        assert(before[i * n + j] == (before + last)[i * n + j]);
        assert(rest[i] == structures[i]);
    } else {
        assert((before + last)[(m - 1) * n + j] == last[j]);
    }
}

proof fn lemma_number_of_offers(structures: Seq<Structure>, formats: Seq<NamedFormat>)
    ensures
        in_all_formats(structures, formats).len() == structures.len() * formats.len(),
    decreases structures.len(),
{
    let n = formats.len() as int;
    let m = structures.len() as int;
    if m > 0 {
        lemma_number_of_offers(structures.drop_last(), formats);
        assert((m - 1) * n + n == m * n) by (nonlinear_arith);
    } else {
        assert(m * n == 0) by (nonlinear_arith)
            requires
                m == 0,
        ;
    }
}

/// Nothing is scaled: the output is brought next to the size of the input, and to its rates exactly
/// where there is a field for them.
pub proof fn law_sizes_and_rates_are_kept(input: InputVideo, fields: FractionFields)
    requires
        input.width <= i32::MAX,
        input.height <= i32::MAX,
    ensures
        targets_for(input, fields).width == input.width,
        targets_for(input, fields).height == input.height,
        (targets_for(input, fields).framerate is Some) == fields.framerate,
        (targets_for(input, fields).pixel_aspect_ratio is Some) == fields.pixel_aspect_ratio,
        targets_for(input, fields).framerate matches Some((numer, denom)) ==> numer
            == input.fps_numer && denom == input.fps_denom,
        targets_for(input, fields).pixel_aspect_ratio matches Some((numer, denom)) ==> numer
            == input.par_numer && denom == input.par_denom,
{
}

/// Of formats that lose as little, the first one that is offered is picked: every earlier one loses
/// more.
pub proof fn law_the_first_of_the_best_is_picked(
    in_format: NamedFormat,
    formats: Seq<NamedFormat>,
    best: Option<int>,
    k: int,
)
    requires
        is_best(in_format, formats, best),
        best is Some,
        0 <= k < formats.len(),
    ensures
        0 <= best->0 < formats.len(),
        k < best->0 ==> conversion_score(in_format, formats[best->0]) < conversion_score(
            in_format,
            formats[k],
        ),
        conversion_score(in_format, formats[best->0]) <= conversion_score(in_format, formats[k]),
{
    let candidate = formats[k];
}

} // verus!
