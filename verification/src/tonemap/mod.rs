//! Mapping HDR video to SDR: when it is done, and to which bytes.

pub mod gl;

use crate::text::contains;
use crate::video::VideoFormat;
use vstd::prelude::*;

verus! {

/// The transfer functions of HDR video.
#[derive(Debug, Clone, Copy, PartialEq, Eq, Structural)]
pub enum Transfer {
    /// SMPTE ST 2084.
    Pq,
    /// ARIB STD-B67.
    Hlg,
}

/// Whether caps name the transfer function PQ.
pub open spec fn names_pq(caps: Seq<char>) -> bool {
    crate::text::has_part(caps, "bt2100-pq"@) || crate::text::has_part(caps, "smpte-st-2084"@)
}

/// Whether caps name the transfer function HLG.
pub open spec fn names_hlg(caps: Seq<char>) -> bool {
    crate::text::has_part(caps, "bt2100-hlg"@) || crate::text::has_part(caps, "arib-std-b67"@)
}

pub(crate) fn has_pq(caps: &str) -> (r: bool)
    ensures
        r == names_pq(caps@),
{
    contains(caps, "bt2100-pq") || contains(caps, "smpte-st-2084")
}

pub(crate) fn has_hlg(caps: &str) -> (r: bool)
    ensures
        r == names_hlg(caps@),
{
    contains(caps, "bt2100-hlg") || contains(caps, "arib-std-b67")
}

/// The transfer function that caps name, PQ before HLG.
pub open spec fn detected(caps: Seq<char>) -> Option<Transfer> {
    if names_pq(caps) {
        Some(Transfer::Pq)
    } else if names_hlg(caps) {
        Some(Transfer::Hlg)
    } else {
        None
    }
}

/// The transfer function that caps name, written as text.
pub fn detect_hdr_transfer(caps: &str) -> (transfer: Option<Transfer>)
    ensures
        transfer == detected(caps@),
{
    if has_pq(caps) {
        Some(Transfer::Pq)
    } else if has_hlg(caps) {
        Some(Transfer::Hlg)
    } else {
        None
    }
}

#[derive(Debug, Clone, Copy, PartialEq, Eq, Structural)]
pub struct Settings {
    /// Map even what is not marked as HDR.
    pub force_active: bool,
}

impl Default for Settings {
    fn default() -> (settings: Settings)
        ensures
            !settings.force_active,
    {
        Settings { force_active: false }
    }
}

/// The directions of pads.
#[derive(Debug, Clone, Copy, PartialEq, Eq, Structural)]
pub enum PadDirection {
    Sink,
    Src,
    Unknown,
}

/// A structure of caps: its colorimetry, where it is one text, and a number for the rest.
#[derive(Debug)]
pub struct Structure {
    pub colorimetry: Option<String>,
    pub rest: u64,
}

/// Whether a colorimetry is an HDR one.
pub open spec fn is_hdr(colorimetry: Seq<char>) -> bool {
    names_pq(colorimetry) || names_hlg(colorimetry)
}

/// Whether one structure becomes another on the way to the other side: HDR comes out as BT.709,
/// and any colorimetry may come in.
pub open spec fn transformed(direction: PadDirection, before: Structure, after: Structure) -> bool {
    &&& after.rest == before.rest
    &&& match direction {
        PadDirection::Sink => match before.colorimetry {
            Some(colorimetry) => after.colorimetry is Some && after.colorimetry->0@ == if is_hdr(
                colorimetry@,
            ) {
                "bt709"@
            } else {
                colorimetry@
            },
            None => after.colorimetry is None,
        },
        PadDirection::Src => after.colorimetry is None,
        PadDirection::Unknown => after.colorimetry == before.colorimetry,
    }
}

/// What the element has negotiated: the shape of the frames, where the colours stand in a pixel,
/// and what is done with them.
#[derive(Debug, Clone, Copy, PartialEq, Eq, Structural)]
pub struct State {
    pub active: bool,
    pub width: usize,
    pub height: usize,
    pub stride: usize,
    pub bytes_per_pixel: usize,
    pub r: usize,
    pub g: usize,
    pub b: usize,
    pub transfer: Transfer,
}

/// Bytes of a pixel, and where red, green and blue stand in it, for the formats that are mapped.
pub open spec fn layout_of(format: VideoFormat) -> Option<(usize, usize, usize, usize)> {
    match format {
        VideoFormat::Rgba => Some((4, 0, 1, 2)),
        VideoFormat::Bgra => Some((4, 2, 1, 0)),
        VideoFormat::Rgb => Some((3, 0, 1, 2)),
        VideoFormat::Bgr => Some((3, 2, 1, 0)),
        _ => None,
    }
}

/// The state for a format: mapping is active for HDR, or where it is forced, and then as for PQ.
pub open spec fn configured(
    settings: Settings,
    caps: Seq<char>,
    format: VideoFormat,
    width: usize,
    height: usize,
    stride: usize,
) -> Option<State> {
    match layout_of(format) {
        Some((bytes_per_pixel, r, g, b)) => Some(
            State {
                active: detected(caps) is Some || settings.force_active,
                width,
                height,
                stride,
                bytes_per_pixel,
                r,
                g,
                b,
                transfer: match detected(caps) {
                    Some(transfer) => transfer,
                    None => Transfer::Pq,
                },
            },
        ),
        None => None,
    }
}

impl State {
    /// Three colours in different places of a pixel, and pixels that fit into the rows.
    pub open spec fn wf(self) -> bool {
        &&& self.r < self.bytes_per_pixel && self.g < self.bytes_per_pixel && self.b
            < self.bytes_per_pixel
        &&& self.r != self.g && self.r != self.b && self.g != self.b
        &&& self.bytes_per_pixel <= 4
        &&& self.width * self.bytes_per_pixel <= self.stride
    }

    /// Where a pixel starts.
    pub open spec fn at(self, y: int, x: int) -> int {
        y * self.stride + x * self.bytes_per_pixel
    }

    /// Whether a frame is in some bytes.
    pub open spec fn inside(self, len: int) -> bool {
        self.height > 0 && self.width > 0 ==> self.at(
            self.height - 1,
            self.width - 1,
        ) + self.bytes_per_pixel <= len
    }

    /// Whether a byte is one of the colours of a pixel.
    pub open spec fn is_color(self, p: int) -> bool {
        exists|y: int, x: int| #[trigger] self.colors_at(y, x, p)
    }

    /// Whether a byte is one of the colours of the pixel in a row and a column.
    pub open spec fn colors_at(self, y: int, x: int, p: int) -> bool {
        &&& 0 <= y < self.height
        &&& 0 <= x < self.width
        &&& p == self.at(y, x) + self.r || p == self.at(y, x) + self.g || p == self.at(y, x)
            + self.b
    }

    proof fn lemma_order(self, y: int, x: int, v: int, u: int)
        requires
            self.wf(),
            0 <= y <= v,
            0 <= x < self.width,
            0 <= u,
            y < v || x < u,
        ensures
            0 <= self.at(y, x),
            self.at(y, x) + self.bytes_per_pixel <= self.at(v, u),
    {
        let s = self.stride as int;
        let n = self.bytes_per_pixel as int;
        let w = self.width as int;
        assert(0 <= y * s && 0 <= x * n) by (nonlinear_arith)
            requires
                0 <= y,
                0 <= s,
                0 <= x,
                0 <= n,
        ;
        if y < v {
            assert(y * s + x * n + n <= v * s + u * n) by (nonlinear_arith)
                requires
                    y + 1 <= v,
                    x + 1 <= w,
                    w * n <= s,
                    0 <= n,
                    0 <= s,
                    0 <= u,
            ;
        } else {
            assert(y * s + x * n + n <= v * s + u * n) by (nonlinear_arith)
                requires
                    y == v,
                    x + 1 <= u,
                    0 <= n,
            ;
        }
    }

    proof fn lemma_inside(self, len: int, y: int, x: int)
        requires
            self.wf(),
            self.inside(len),
            0 <= y < self.height,
            0 <= x < self.width,
        ensures
            0 <= self.at(y, x),
            self.at(y, x) + self.bytes_per_pixel <= len,
            0 <= y * self.stride <= self.at(y, x),
            0 <= x * self.bytes_per_pixel <= self.at(y, x),
    {
        let s = self.stride as int;
        let n = self.bytes_per_pixel as int;
        assert(0 <= y * s && 0 <= x * n) by (nonlinear_arith)
            requires
                0 <= y,
                0 <= s,
                0 <= x,
                0 <= n,
        ;
        if y < self.height - 1 || x < self.width - 1 {
            self.lemma_order(y, x, self.height - 1, self.width - 1);
        }
    }
}

/// Whether a function may give these colours for those of a pixel.
pub open spec fn mapped<F: Fn(u8, u8, u8) -> (u8, u8, u8)>(
    state: State,
    map: F,
    before: Seq<u8>,
    after: Seq<u8>,
    y: int,
    x: int,
) -> bool {
    let p = state.at(y, x);
    call_ensures(
        map,
        (before[p + state.r], before[p + state.g], before[p + state.b]),
        (after[p + state.r], after[p + state.g], after[p + state.b]),
    )
}

/// Maps the colours of every pixel of a frame in place, and touches nothing else. `map` gives the
/// colours for those of a pixel.
fn map_pixels<F: Fn(u8, u8, u8) -> (u8, u8, u8)>(state: &State, data: &mut Vec<u8>, map: &F)
    requires
        state.wf(),
        state.inside(old(data)@.len() as int),
        forall|r: u8, g: u8, b: u8| call_requires(*map, (r, g, b)),
    ensures
        final(data)@.len() == old(data)@.len(),
        forall|y: int, x: int|
            0 <= y < state.height && 0 <= x < state.width ==> #[trigger] mapped(
                *state,
                *map,
                old(data)@,
                final(data)@,
                y,
                x,
            ),
        forall|p: int|
            0 <= p < old(data)@.len() && !state.is_color(p) ==> #[trigger] final(data)@[p] == old(
                data,
            )@[p],
{
    let ghost before = data@;
    let mut y: usize = 0;
    while y < state.height
        invariant
            state.wf(),
            state.inside(before.len() as int),
            data@.len() == before.len(),
            forall|r: u8, g: u8, b: u8| call_requires(*map, (r, g, b)),
            y <= state.height,
            forall|b: int, a: int|
                0 <= b < y && 0 <= a < state.width ==> #[trigger] mapped(
                    *state,
                    *map,
                    before,
                    data@,
                    b,
                    a,
                ),
            forall|p: int|
                0 <= p < before.len() && !state.is_color(p) ==> #[trigger] data@[p] == before[p],
            forall|p: int|
                state.at(y as int, 0) <= p < before.len() ==> #[trigger] data@[p] == before[p],
        decreases state.height - y,
    {
        let mut x: usize = 0;
        while x < state.width
            invariant
                state.wf(),
                state.inside(before.len() as int),
                data@.len() == before.len(),
                forall|r: u8, g: u8, b: u8| call_requires(*map, (r, g, b)),
                y < state.height,
                x <= state.width,
                forall|b: int, a: int|
                    0 <= b <= y && 0 <= a < state.width && (b < y || a < x) ==> #[trigger] mapped(
                        *state,
                        *map,
                        before,
                        data@,
                        b,
                        a,
                    ),
                forall|p: int|
                    0 <= p < before.len() && !state.is_color(p) ==> #[trigger] data@[p]
                        == before[p],
                forall|p: int|
                    state.at(y as int, x as int) <= p < before.len() ==> #[trigger] data@[p]
                        == before[p],
            decreases state.width - x,
        {
            proof {
                state.lemma_inside(before.len() as int, y as int, x as int);
                assert(data@.len() == data.len());
            }
            let p: usize = y * state.stride + x * state.bytes_per_pixel;
            let ghost done = data@;
            let (r, g, b): (u8, u8, u8) = map(data[p + state.r], data[p + state.g], data[p + state.b]);
            data[p + state.r] = r;
            data[p + state.g] = g;
            data[p + state.b] = b;
            proof {
                assert(p == state.at(y as int, x as int));
                assert(state.colors_at(y as int, x as int, p + state.r));
                assert(state.colors_at(y as int, x as int, p + state.g));
                assert(state.colors_at(y as int, x as int, p + state.b));
                assert(mapped(*state, *map, before, data@, y as int, x as int));
                assert forall|v: int, u: int|
                    0 <= v <= y && 0 <= u < state.width && (v < y || u < x + 1) implies #[trigger] mapped(
                    *state,
                    *map,
                    before,
                    data@,
                    v,
                    u,
                ) by {
                    if v < y || u < x {
                        state.lemma_order(v, u, y as int, x as int);
                        assert(mapped(*state, *map, before, done, v, u));
                        let q = state.at(v, u);
                        assert(data@[q + state.r] == done[q + state.r]);
                        assert(data@[q + state.g] == done[q + state.g]);
                        assert(data@[q + state.b] == done[q + state.b]);
                    }
                }
                state.lemma_order(y as int, x as int, y as int, x + 1);
            }
            x = x + 1;
        }
        proof {
            state.lemma_row_end(y as int);
        }
        y = y + 1;
    }
}

impl State {
    proof fn lemma_row_end(self, y: int)
        requires
            self.wf(),
        ensures
            self.at(y, self.width as int) <= self.at(y + 1, 0),
    {
        let s = self.stride as int;
        let n = self.bytes_per_pixel as int;
        let w = self.width as int;
        assert(y * s + w * n <= (y + 1) * s + 0 * n) by (nonlinear_arith)
            requires
                w * n <= s,
        ;
    }
}

/// The element, with what is set and what it has negotiated.
#[derive(Debug, Clone, Copy, PartialEq, Eq)]
pub struct RsTonemap {
    pub settings: Settings,
    pub state: Option<State>,
}

impl Default for RsTonemap {
    fn default() -> (element: RsTonemap)
        ensures
            !element.settings.force_active,
            element.state is None,
    {
        RsTonemap { settings: Settings::default(), state: None }
    }
}

impl RsTonemap {
    /// Sets whether mapping is forced, and says whether the formats have to be negotiated again.
    pub fn set_force_active(&mut self, force_active: bool) -> (reconfigure: bool)
        ensures
            final(self).settings.force_active == force_active,
            final(self).state == old(self).state,
            reconfigure == (old(self).settings.force_active != force_active),
    {
        if self.settings.force_active != force_active {
            self.settings.force_active = force_active;
            true
        } else {
            false
        }
    }

    /// The caps on the other side.
    pub fn transform_caps(&self, direction: PadDirection, caps: &Vec<Structure>) -> (result: Vec<
        Structure,
    >)
        ensures
            result.len() == caps.len(),
            forall|i: int|
                0 <= i < caps.len() ==> transformed(direction, caps[i], #[trigger] result[i]),
    {
        let mut result: Vec<Structure> = Vec::new();
        let mut i: usize = 0;
        while i < caps.len()
            invariant
                i <= caps.len(),
                result.len() == i,
                forall|k: int| 0 <= k < i ==> transformed(direction, caps[k], #[trigger] result[k]),
            decreases caps.len() - i,
        {
            let kept = match &caps[i].colorimetry {
                Some(colorimetry) => Some(colorimetry.clone()),
                None => None,
            };
            let colorimetry = match direction {
                PadDirection::Sink => match kept {
                    Some(colorimetry) => if has_hlg(colorimetry.as_str()) || has_pq(
                        colorimetry.as_str(),
                    ) {
                        Some("bt709".to_owned())
                    } else {
                        Some(colorimetry)
                    },
                    None => None,
                },
                PadDirection::Src => None,
                PadDirection::Unknown => kept,
            };
            result.push(Structure { colorimetry, rest: caps[i].rest });
            i = i + 1;
        }
        result
    }

    /// Forgets what was negotiated.
    pub fn stop(&mut self)
        ensures
            *final(self) == (RsTonemap { state: None, ..*old(self) }),
    {
        self.state = None;
    }

    /// Sets the element up for caps, given as text and by what they say of the frames. None where
    /// the format is not supported, and nothing changes then; or else whether frames are passed
    /// through as they are.
    pub fn set_caps(
        &mut self,
        caps: &str,
        format: VideoFormat,
        width: usize,
        height: usize,
        stride: usize,
    ) -> (passthrough: Option<bool>)
        ensures
            final(self).settings == old(self).settings,
            match configured(old(self).settings, caps@, format, width, height, stride) {
                Some(state) => final(self).state == Some(state) && passthrough == Some(
                    !state.active,
                ),
                None => final(self).state == old(self).state && passthrough is None,
            },
    {
        let hdr_transfer = detect_hdr_transfer(caps);
        let active = hdr_transfer.is_some() || self.settings.force_active;
        let transfer = match hdr_transfer {
            Some(transfer) => transfer,
            None => Transfer::Pq,
        };
        let (bytes_per_pixel, r, g, b): (usize, usize, usize, usize) = match format {
            VideoFormat::Rgba => (4, 0, 1, 2),
            VideoFormat::Bgra => (4, 2, 1, 0),
            VideoFormat::Rgb => (3, 0, 1, 2),
            VideoFormat::Bgr => (3, 2, 1, 0),
            _ => return None,
        };
        self.state = Some(
            State { active, width, height, stride, bytes_per_pixel, r, g, b, transfer },
        );
        Some(!active)
    }

    /// Maps the colours of a frame, where the element is set up for it and active; `map` gives the
    /// colours for those of a pixel.
    pub fn transform_ip<F: Fn(u8, u8, u8) -> (u8, u8, u8)>(&self, data: &mut Vec<u8>, map: &F)
        requires
            self.state matches Some(state) ==> state.active ==> state.wf() && state.inside(
                old(data)@.len() as int,
            ),
            forall|r: u8, g: u8, b: u8| call_requires(*map, (r, g, b)),
        ensures
            final(data)@.len() == old(data)@.len(),
            match self.state {
                Some(state) => if state.active {
                    &&& forall|y: int, x: int|
                        0 <= y < state.height && 0 <= x < state.width ==> #[trigger] mapped(
                            state,
                            *map,
                            old(data)@,
                            final(data)@,
                            y,
                            x,
                        )
                    &&& forall|p: int|
                        0 <= p < old(data)@.len() && !state.is_color(p)
                            ==> #[trigger] final(data)@[p] == old(data)@[p]
                } else {
                    final(data)@ == old(data)@
                },
                None => final(data)@ == old(data)@,
            },
    {
        if let Some(state) = &self.state {
            if state.active {
                map_pixels(state, data, map);
            }
        }
    }
}

/// A state that `set_caps` makes has its colours in different places of a pixel.
pub proof fn law_configured_colors_are_apart(
    settings: Settings,
    caps: Seq<char>,
    format: VideoFormat,
    width: usize,
    height: usize,
    stride: usize,
)
    requires
        configured(settings, caps, format, width, height, stride) is Some,
        width * configured(settings, caps, format, width, height, stride)->0.bytes_per_pixel
            <= stride,
    ensures
        configured(settings, caps, format, width, height, stride)->0.wf(),
{
}

/// Frames that are not HDR are passed through, unless mapping is forced.
pub proof fn law_sdr_passes_through(
    settings: Settings,
    caps: Seq<char>,
    format: VideoFormat,
    width: usize,
    height: usize,
    stride: usize,
)
    requires
        !settings.force_active,
        !is_hdr(caps),
        layout_of(format) is Some,
    ensures
        configured(settings, caps, format, width, height, stride) is Some,
        !configured(settings, caps, format, width, height, stride)->0.active,
{
}

/// The alpha of a pixel is none of its colours: mapping keeps it.
pub proof fn law_alpha_is_kept(state: State, y: int, x: int)
    requires
        state.wf(),
        state.bytes_per_pixel == 4,
        state.r < 3 && state.g < 3 && state.b < 3,
        0 <= y < state.height,
        0 <= x < state.width,
    ensures
        !state.is_color(state.at(y, x) + 3),
{
    let p = state.at(y, x) + 3;
    assert forall|v: int, u: int| !#[trigger] state.colors_at(v, u, p) by {
        if state.colors_at(v, u, p) {
            if v < y || (v == y && u < x) {
                state.lemma_order(v, u, y, x);
            } else if y < v || x < u {
                state.lemma_order(y, x, v, u);
            }
        }
    }
}

/// What pads the rows is no colour of any pixel: mapping keeps it.
pub proof fn law_padding_is_kept(state: State, y: int, p: int)
    requires
        state.wf(),
        0 <= y,
        state.at(y, state.width as int) <= p < state.at(y + 1, 0),
    ensures
        !state.is_color(p),
{
    assert forall|v: int, u: int| !#[trigger] state.colors_at(v, u, p) by {
        if state.colors_at(v, u, p) {
            if v <= y {
                state.lemma_order(v, u, y, state.width as int);
            } else {
                let s = state.stride as int;
                let n = state.bytes_per_pixel as int;
                assert((y + 1) * s + 0 * n <= v * s + u * n) by (nonlinear_arith)
                    requires
                        y + 1 <= v,
                        0 <= s,
                        0 <= u,
                        0 <= n,
                ;
            }
        }
    }
}

/// The formats that are mapped are those whose pixels hold red, green and blue, and perhaps alpha, in
/// a byte each: they are set up with the bytes of their pixels, and with the places of the letters.
pub proof fn law_colors_stand_where_their_letters_do(format: VideoFormat)
    ensures
        layout_of(format) matches Some((bytes_per_pixel, r, g, b)) ==> {
            let letters = crate::video::pixel_letters(format);
            &&& bytes_per_pixel == letters.len()
            &&& r < letters.len() && letters[r as int] == 'R'
            &&& g < letters.len() && letters[g as int] == 'G'
            &&& b < letters.len() && letters[b as int] == 'B'
            &&& bytes_per_pixel == 3 || (bytes_per_pixel == 4 && letters[3] == 'A')
        },
        layout_of(format) is None ==> ({
            let letters = crate::video::pixel_letters(format);
            letters.len() == 0 || letters.last() == 'x'
        }),
{
}

/// Frames keep what is no colour: in a frame that `set_caps` was told of, the alpha of every pixel is
/// none of the bytes that mapping may change.
pub proof fn law_alpha_of_every_frame_is_kept(
    settings: Settings,
    caps: Seq<char>,
    format: VideoFormat,
    width: usize,
    height: usize,
    stride: usize,
    y: int,
    x: int,
    i: int,
)
    requires
        configured(settings, caps, format, width, height, stride) is Some,
        width * crate::video::pixel_letters(format).len() <= stride,
        0 <= y < height,
        0 <= x < width,
        0 <= i < crate::video::pixel_letters(format).len(),
        crate::video::pixel_letters(format)[i] == 'A',
    ensures
        ({
            let n = crate::video::pixel_letters(format).len();
            !configured(settings, caps, format, width, height, stride)->0.is_color(
                y * stride + x * n + i,
            )
        }),
{
    law_colors_stand_where_their_letters_do(format);
    let state = configured(settings, caps, format, width, height, stride)->0;
    law_alpha_is_kept(state, y, x);
}

/// In a frame that `set_caps` was told of, mapping hands the function the bytes of each pixel that
/// hold red, green and blue, in this order, and puts its results where these were.
pub proof fn law_colors_are_mapped_by_their_letters<F: Fn(u8, u8, u8) -> (u8, u8, u8)>(
    settings: Settings,
    caps: Seq<char>,
    format: VideoFormat,
    size: (usize, usize, usize),
    map: F,
    before: Seq<u8>,
    after: Seq<u8>,
    y: int,
    x: int,
    places: (int, int, int),
)
    requires
        ({
            let state = configured(settings, caps, format, size.0, size.1, size.2);
            let letters = crate::video::pixel_letters(format);
            &&& state is Some
            &&& mapped(state->0, map, before, after, y, x)
            &&& 0 <= places.0 < letters.len() && letters[places.0] == 'R'
            &&& 0 <= places.1 < letters.len() && letters[places.1] == 'G'
            &&& 0 <= places.2 < letters.len() && letters[places.2] == 'B'
        }),
    ensures
        ({
            let p = y * size.2 + x * crate::video::pixel_letters(format).len();
            call_ensures(
                map,
                (before[p + places.0], before[p + places.1], before[p + places.2]),
                (after[p + places.0], after[p + places.1], after[p + places.2]),
            )
        }),
{
    law_colors_stand_where_their_letters_do(format);
}

/// A frame is set up as it is described, and mapped exactly where caps name PQ or HLG anywhere or
/// mapping is forced: as the one that is named, and as PQ where neither is.
pub proof fn law_frames_are_mapped_as_they_are_marked(
    settings: Settings,
    before: Seq<char>,
    behind: Seq<char>,
    format: VideoFormat,
    size: (usize, usize, usize),
)
    requires
        layout_of(format) is Some,
    ensures
        ({
            let state = |text: Seq<char>|
                configured(settings, before + text + behind, format, size.0, size.1, size.2)->0;
            let plain = state(Seq::<char>::empty());
            &&& state("bt2100-pq"@).active && state("bt2100-pq"@).transfer == Transfer::Pq
            &&& state("smpte-st-2084"@).active && state("smpte-st-2084"@).transfer == Transfer::Pq
            &&& state("bt2100-hlg"@).active && state("arib-std-b67"@).active
            &&& plain.active ==> settings.force_active || is_hdr(before + behind)
            &&& settings.force_active ==> plain.active
            &&& (plain.width, plain.height, plain.stride) == size
        }),
        ({
            let caps = before + "bt2100-hlg"@ + behind;
            !names_pq(caps) ==> configured(settings, caps, format, size.0, size.1, size.2)->0.transfer
                == Transfer::Hlg
        }),
        ({
            let caps = before + "arib-std-b67"@ + behind;
            !names_pq(caps) ==> configured(settings, caps, format, size.0, size.1, size.2)->0.transfer
                == Transfer::Hlg
        }),
        !is_hdr(before) ==> configured(
            settings,
            before,
            format,
            size.0,
            size.1,
            size.2,
        )->0.transfer == Transfer::Pq,
{
    crate::text::law_parts_stand_between(before, "bt2100-pq"@, behind);
    crate::text::law_parts_stand_between(before, "smpte-st-2084"@, behind);
    crate::text::law_parts_stand_between(before, "bt2100-hlg"@, behind);
    crate::text::law_parts_stand_between(before, "arib-std-b67"@, behind);
    assert(before + Seq::<char>::empty() + behind =~= before + behind);
}

/// HDR is named by four texts alone: a colorimetry that is HDR holds one of them.
pub proof fn law_hdr_is_named(colorimetry: Seq<char>)
    requires
        is_hdr(colorimetry),
    ensures
        exists|a: Seq<char>, name: Seq<char>, b: Seq<char>|
            colorimetry == #[trigger] (a + name + b) && (name == "bt2100-pq"@ || name
                == "smpte-st-2084"@ || name == "bt2100-hlg"@ || name == "arib-std-b67"@),
{
    let name = if crate::text::has_part(colorimetry, "bt2100-pq"@) {
        "bt2100-pq"@
    } else if crate::text::has_part(colorimetry, "smpte-st-2084"@) {
        "smpte-st-2084"@
    } else if crate::text::has_part(colorimetry, "bt2100-hlg"@) {
        "bt2100-hlg"@
    } else {
        "arib-std-b67"@
    };
    assert(crate::text::has_part(colorimetry, name));
    crate::text::law_parts_stand_between(colorimetry, name, colorimetry);
    let (a, b) = choose|a: Seq<char>, b: Seq<char>| colorimetry == #[trigger] (a + name + b);
    assert(colorimetry == a + name + b);
}

/// What comes out of the element is never HDR; what is not HDR comes out as it is; and whatever
/// comes out, anything may have come in.
pub proof fn law_nothing_comes_out_as_hdr(before: Structure, after: Structure)
    requires
        before.colorimetry is Some,
    ensures
        transformed(PadDirection::Sink, before, after) ==> {
            &&& after.rest == before.rest
            &&& after.colorimetry is Some
            &&& !is_hdr(after.colorimetry->0@)
            &&& !is_hdr(before.colorimetry->0@) ==> after.colorimetry->0@ == before.colorimetry->0@
            &&& is_hdr(before.colorimetry->0@) ==> after.colorimetry->0@ == seq![
                'b',
                't',
                '7',
                '0',
                '9',
            ]
        },
        transformed(PadDirection::Src, before, after) ==> after.colorimetry is None && after.rest
            == before.rest,
{
    reveal_strlit("bt709");
    reveal_strlit("bt2100-pq");
    reveal_strlit("smpte-st-2084");
    reveal_strlit("bt2100-hlg");
    reveal_strlit("arib-std-b67");
    assert("bt709"@ =~= seq!['b', 't', '7', '0', '9']);
    assert(!is_hdr("bt709"@));
}

} // verus!
