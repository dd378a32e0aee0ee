//! Reshaping a frame: sizes, what is cut off at the edges, and which buffer is drawn to.

use vstd::prelude::*;

verus! {

/// Why a frame does not flow.
#[derive(Debug, Clone, Copy, PartialEq, Eq, Structural)]
pub enum FlowError {
    NotNegotiated,
    Error,
}

/// The size of a frame.
#[derive(Debug, Clone, Copy, PartialEq, Eq, Structural)]
pub struct FrameSize {
    pub width: u32,
    pub height: u32,
}

/// What is cut off and added around a frame, in pixels.
#[derive(Debug, Clone, Copy, PartialEq, Eq, Structural)]
pub struct Settings {
    pub padding_px: i32,
    pub crop_left: i32,
    pub crop_right: i32,
    pub crop_top: i32,
    pub crop_bottom: i32,
}

impl Default for Settings {
    /// Nothing.
    fn default() -> (settings: Settings)
        ensures
            settings == (Settings {
                padding_px: 0,
                crop_left: 0,
                crop_right: 0,
                crop_top: 0,
                crop_bottom: 0,
            }),
    {
        Settings { padding_px: 0, crop_left: 0, crop_right: 0, crop_top: 0, crop_bottom: 0 }
    }
}

/// The element, with its settings and what is known of the formats.
#[derive(Debug, Clone, Copy, PartialEq, Eq)]
pub struct SkiaReshape {
    pub settings: Settings,
    pub in_size: Option<FrameSize>,
    pub out_size: Option<FrameSize>,
    /// The output size of the compositor that the frame goes to.
    pub compositor_size: Option<(i32, i32)>,
}

/// Caps that a size is asked for.
#[derive(Debug, Clone, Copy, PartialEq, Eq, Structural)]
pub enum InputCaps {
    NotGiven,
    NotFixed,
    /// They describe no raw video.
    Invalid,
    Video(FrameSize),
}

impl SkiaReshape {
    /// The size of the input: the negotiated one, or else that of the given caps.
    pub fn input_size(&self, caps: InputCaps) -> (r: Result<FrameSize, FlowError>)
        ensures
            r == match (self.in_size, caps) {
                (Some(size), _) => Ok::<FrameSize, FlowError>(size),
                (None, InputCaps::Video(size)) => Ok(size),
                (None, _) => Err(FlowError::NotNegotiated),
            },
    {
        if let Some(size) = self.in_size {
            return Ok(size);
        }
        match caps {
            InputCaps::Video(size) => Ok(size),
            _ => Err(FlowError::NotNegotiated),
        }
    }

    /// The size of the compositor: that of the track, or else that of the input.
    pub fn compositor_size(&self, input: FrameSize) -> (r: (i64, i64))
        ensures
            r == frame_size_of(None, self.compositor_size, input),
            r == match self.compositor_size {
                Some((width, height)) => (width as i64, height as i64),
                None => (input.width as i64, input.height as i64),
            },
    {
        match self.compositor_size {
            Some((width, height)) => (width as i64, height as i64),
            None => (input.width as i64, input.height as i64),
        }
    }

    /// The size of the output frame: the negotiated one, or else that of the compositor.
    pub fn output_frame_size(&self, input: FrameSize) -> (r: (i64, i64))
        ensures
            r == frame_size_of(self.out_size, self.compositor_size, input),
            r == match (self.out_size, self.compositor_size) {
                (Some(size), _) => (size.width as i64, size.height as i64),
                (None, Some((width, height))) => (width as i64, height as i64),
                (None, None) => (input.width as i64, input.height as i64),
            },
    {
        match self.out_size {
            Some(size) => (size.width as i64, size.height as i64),
            None => self.compositor_size(input),
        }
    }

    /// Takes the sizes of both formats over, where both are raw video.
    pub fn set_caps(&mut self, input: Option<FrameSize>, output: Option<FrameSize>) -> (accepted:
        bool)
        ensures
            accepted == (input is Some && output is Some),
            *final(self) == if accepted {
                SkiaReshape { in_size: input, out_size: output, ..*old(self) }
            } else {
                *old(self)
            },
    {
        match (input, output) {
            (Some(input), Some(output)) => {
                self.in_size = Some(input);
                self.out_size = Some(output);
                true
            },
            _ => false,
        }
    }

    /// Takes the size of the compositor over from the restriction caps of the track, where the
    /// element is in one: the last structure with a width and a height gives it.
    pub fn start(&mut self, in_track: bool, restrictions: &Vec<(Option<i32>, Option<i32>)>)
        ensures
            final(self).settings == old(self).settings,
            final(self).in_size == old(self).in_size,
            final(self).out_size == old(self).out_size,
            final(self).compositor_size == if in_track {
                last_size(restrictions@)
            } else {
                old(self).compositor_size
            },
    {
        if !in_track {
            return;
        }
        self.compositor_size = None;
        let ghost before = *self;
        let mut i: usize = 0;
        while i < restrictions.len()
            invariant
                i <= restrictions.len(),
                self.settings == before.settings,
                self.in_size == before.in_size,
                self.out_size == before.out_size,
                self.compositor_size == last_size(restrictions@.take(i as int)),
            decreases restrictions.len() - i,
        {
            proof {
                let next = restrictions@.take(i + 1);
                assert(next.drop_last() =~= restrictions@.take(i as int));
                assert(next.last() == restrictions@[i as int]);
            }
            if let (Some(width), Some(height)) = restrictions[i] {
                self.compositor_size = Some((width, height));
            }
            i = i + 1;
        }
        proof {
            assert(restrictions@.take(i as int) =~= restrictions@);
        }
    }
}

/// The size in the last of some structures that has a width and a height.
pub open spec fn last_size(structures: Seq<(Option<i32>, Option<i32>)>) -> Option<(i32, i32)>
    decreases structures.len(),
{
    if structures.len() == 0 {
        None
    } else {
        match structures.last() {
            (Some(width), Some(height)) => Some((width, height)),
            _ => last_size(structures.drop_last()),
        }
    }
}

/// How a frame stands to an edge of the compositor: whether the image reaches past it, and whether
/// the image with its padding does.
#[derive(Debug, Clone, Copy, PartialEq, Eq, Structural)]
pub struct Overhang {
    pub image: bool,
    pub padded: bool,
}

/// What is done at the left or at the top edge.
#[derive(Debug, Clone, Copy, PartialEq, Eq, Structural)]
pub enum NearEdge {
    Keep,
    /// Cut the image, in the source and in the destination, and the output.
    CutImage,
    /// Only padding is past the edge: move the image, and cut the output.
    MoveImage,
}

/// What is done at the right or at the bottom edge.
#[derive(Debug, Clone, Copy, PartialEq, Eq, Structural)]
pub struct FarEdge {
    pub cut_image: bool,
    pub cut_output: bool,
}

/// What is done at each edge, so that nothing is drawn that the compositor would not show.
#[derive(Debug, Clone, Copy, PartialEq, Eq, Structural)]
pub struct EdgePlan {
    pub left: NearEdge,
    pub top: NearEdge,
    pub right: FarEdge,
    pub bottom: FarEdge,
}

pub open spec fn near_edge(overhang: Overhang) -> NearEdge {
    if overhang.image {
        NearEdge::CutImage
    } else if overhang.padded {
        NearEdge::MoveImage
    } else {
        NearEdge::Keep
    }
}

fn decide_near_edge(overhang: Overhang) -> (edge: NearEdge)
    ensures
        edge == near_edge(overhang),
{
    if overhang.image {
        NearEdge::CutImage
    } else if overhang.padded {
        NearEdge::MoveImage
    } else {
        NearEdge::Keep
    }
}

/// Plans what is done at each edge of the compositor.
pub fn plan_edges(left: Overhang, top: Overhang, right: Overhang, bottom: Overhang) -> (plan:
    EdgePlan)
    ensures
        plan.left == near_edge(left),
        plan.top == near_edge(top),
        plan.right == (FarEdge { cut_image: right.image, cut_output: right.padded }),
        plan.bottom == (FarEdge { cut_image: bottom.image, cut_output: bottom.padded }),
{
    EdgePlan {
        left: decide_near_edge(left),
        top: decide_near_edge(top),
        right: FarEdge { cut_image: right.image, cut_output: right.padded },
        bottom: FarEdge { cut_image: bottom.image, cut_output: bottom.padded },
    }
}

/// The size of a frame on the other side, where nothing is known of a compositor: cropped, and
/// padded on both sides.
pub open spec fn reshaped_width(settings: Settings, width: int) -> int {
    width - settings.crop_left - settings.crop_right + 2 * settings.padding_px
}

pub open spec fn reshaped_height(settings: Settings, height: int) -> int {
    height - settings.crop_top - settings.crop_bottom + 2 * settings.padding_px
}

/// Whether a sum and its steps are representable.
pub open spec fn steps_fit(value: int, first: int, second: int, padding: int) -> bool {
    &&& i32::MIN <= value - first <= i32::MAX
    &&& i32::MIN <= value - first - second <= i32::MAX
    &&& i32::MIN <= 2 * padding <= i32::MAX
    &&& i32::MIN <= value - first - second + 2 * padding <= i32::MAX
}

/// Where the size of the output comes from.
#[derive(Debug, Clone, Copy, PartialEq, Eq, Structural)]
pub enum SizeSource {
    /// What is really drawn.
    DrawnRects,
    /// The position in the compositor.
    Position,
    /// Nothing is known of a compositor.
    Settings,
}

impl SkiaReshape {
    /// Where the size of the output for some caps comes from: what is drawn can be computed where
    /// the size of the input is known.
    pub fn compute_output_size(&self, caps: InputCaps, has_position: bool) -> (source: SizeSource)
        ensures
            source == if self.in_size is Some || caps is Video {
                SizeSource::DrawnRects
            } else if has_position {
                SizeSource::Position
            } else {
                SizeSource::Settings
            },
    {
        if self.input_size(caps).is_ok() {
            SizeSource::DrawnRects
        } else if has_position {
            SizeSource::Position
        } else {
            SizeSource::Settings
        }
    }

    /// What becomes of the size in a structure of caps, from the sink side to the source side. With a
    /// computed size, that is it; without one, sizes are cropped and padded, and a missing one stays
    /// missing.
    pub fn transform_size(
        &self,
        computed: (Option<i32>, Option<i32>),
        width: Option<i32>,
        height: Option<i32>,
    ) -> (r: (Option<i32>, Option<i32>))
        requires
            computed.0 is None && computed.1 is None ==> {
                &&& width matches Some(w) ==> steps_fit(
                    w as int,
                    self.settings.crop_left as int,
                    self.settings.crop_right as int,
                    self.settings.padding_px as int,
                )
                &&& height matches Some(h) ==> steps_fit(
                    h as int,
                    self.settings.crop_top as int,
                    self.settings.crop_bottom as int,
                    self.settings.padding_px as int,
                )
            },
        ensures
            computed.0 is None && computed.1 is None ==> {
                &&& r.0 == match width {
                    Some(w) => Some(reshaped_width(self.settings, w as int) as i32),
                    None => None,
                }
                &&& r.1 == match height {
                    Some(h) => Some(reshaped_height(self.settings, h as int) as i32),
                    None => None,
                }
            },
            !(computed.0 is None && computed.1 is None) ==> {
                &&& r.0 == if computed.0 is Some {
                    computed.0
                } else {
                    width
                }
                &&& r.1 == if computed.1 is Some {
                    computed.1
                } else {
                    height
                }
            },
    {
        if computed.0.is_none() && computed.1.is_none() {
            let new_width = match width {
                Some(w) => Some(w - self.settings.crop_left - self.settings.crop_right + 2 * self.settings.padding_px),
                None => None,
            };
            let new_height = match height {
                Some(h) => Some(h - self.settings.crop_top - self.settings.crop_bottom + 2 * self.settings.padding_px),
                None => None,
            };
            return (new_width, new_height);
        }
        let new_width = match computed.0 {
            Some(w) => Some(w),
            None => width,
        };
        let new_height = match computed.1 {
            Some(h) => Some(h),
            None => height,
        };
        (new_width, new_height)
    }
}

/// A buffer that comes in, with its size where it may be written to.
#[derive(Debug, Clone, Copy, PartialEq, Eq, Structural)]
pub enum InputBuffer {
    Writable(usize),
    Readable,
}

/// Which buffer goes out.
#[derive(Debug, Clone, Copy, PartialEq, Eq, Structural)]
pub enum OutputBuffer {
    /// The input, as it is.
    PassThrough,
    /// The input, marked with the settings.
    ReuseInput,
    /// A new one, of the size of the output.
    Allocate(usize),
}

impl SkiaReshape {
    /// Which buffer goes out: the input where it may be written to and has the right size, or else a
    /// new one.
    pub fn prepare_output_buffer(
        &self,
        passthrough: bool,
        input: InputBuffer,
        out_size: usize,
    ) -> (r: OutputBuffer)
        ensures
            r == chosen_buffer(passthrough, input, out_size),
            r == if passthrough {
                OutputBuffer::PassThrough
            } else if input == InputBuffer::Writable(out_size) {
                OutputBuffer::ReuseInput
            } else {
                OutputBuffer::Allocate(out_size)
            },
    {
        if passthrough {
            return OutputBuffer::PassThrough;
        }
        if let InputBuffer::Writable(in_size) = input {
            if in_size == out_size {
                return OutputBuffer::ReuseInput;
            }
        }
        OutputBuffer::Allocate(out_size)
    }
}

/// How the position of a frame in its compositor is announced.
#[derive(Debug, Clone, Copy, PartialEq, Eq, Structural)]
pub struct PositionPlan {
    /// At 0 in place of a negative position.
    pub zero_x: bool,
    pub zero_y: bool,
    /// With the size of what is really drawn in place of the wanted one.
    pub drawn_size: bool,
}

/// How the position of a frame is announced: what is cut off at the left and at the top is not
/// there any more, as far as the drawn rectangles could be computed.
pub fn plan_position(rects_known: bool, left_negative: bool, top_negative: bool) -> (plan:
    PositionPlan)
    ensures
        plan == (PositionPlan {
            zero_x: rects_known && left_negative,
            zero_y: rects_known && top_negative,
            drawn_size: rects_known,
        }),
{
    PositionPlan {
        zero_x: rects_known && left_negative,
        zero_y: rects_known && top_negative,
        drawn_size: rects_known,
    }
}

/// What is done with a frame.
#[derive(Debug, Clone, Copy, PartialEq, Eq, Structural)]
pub enum Drawing {
    /// Nothing, for it would not be seen.
    Skip,
    Draw,
}

impl SkiaReshape {
    /// Whether a frame can be drawn into a buffer: `min_row_bytes` and `byte_size` are what the pixels
    /// of the output need, `plane` is the length of the output's plane, where it has one.
    pub fn check_drawing(
        &self,
        invisible: bool,
        row_bytes: usize,
        min_row_bytes: usize,
        plane: Option<usize>,
        byte_size: usize,
    ) -> (r: Result<Drawing, FlowError>)
        ensures
            r == drawing_of(
                invisible,
                self.out_size is Some,
                row_bytes,
                min_row_bytes,
                plane,
                byte_size,
            ),
            r == if invisible {
                Ok::<Drawing, FlowError>(Drawing::Skip)
            } else if self.out_size is None {
                Err(FlowError::NotNegotiated)
            } else if row_bytes < min_row_bytes || plane is None || plane->0 < byte_size {
                Err(FlowError::Error)
            } else {
                Ok(Drawing::Draw)
            },
    {
        if invisible {
            return Ok(Drawing::Skip);
        }
        if self.out_size.is_none() {
            return Err(FlowError::NotNegotiated);
        }
        if row_bytes < min_row_bytes {
            return Err(FlowError::Error);
        }
        match plane {
            None => Err(FlowError::Error),
            Some(len) => if len < byte_size {
                Err(FlowError::Error)
            } else {
                Ok(Drawing::Draw)
            },
        }
    }
}

/// Settings in which every crop and the padding are changed by some pixels.
pub open spec fn changed_by(
    before: Settings,
    after: Settings,
    left: int,
    right: int,
    top: int,
    bottom: int,
    padding: int,
) -> bool {
    &&& after.crop_left == before.crop_left + left
    &&& after.crop_right == before.crop_right + right
    &&& after.crop_top == before.crop_top + top
    &&& after.crop_bottom == before.crop_bottom + bottom
    &&& after.padding_px == before.padding_px + padding
}

/// Each pixel that is cut off counts once, on the side of the axis that it is cut off at, and each
/// pixel of padding twice, on both axes. Without any, a frame keeps its size, and a larger frame stays
/// larger by as much.
pub proof fn law_each_cut_pixel_counts_once(
    before: Settings,
    after: Settings,
    cut: (int, int, int, int),
    padding: int,
    size: (int, int),
    more: int,
)
    requires
        changed_by(before, after, cut.0, cut.1, cut.2, cut.3, padding),
    ensures
        reshaped_width(after, size.0) == reshaped_width(before, size.0) - cut.0 - cut.1 + padding
            + padding,
        reshaped_height(after, size.1) == reshaped_height(before, size.1) - cut.2 - cut.3 + padding
            + padding,
        reshaped_width(before, size.0 + more) == reshaped_width(before, size.0) + more,
        reshaped_height(before, size.1 + more) == reshaped_height(before, size.1) + more,
        before.crop_left == 0 && before.crop_right == 0 && before.padding_px == 0
            ==> reshaped_width(before, size.0) == size.0,
        before.crop_top == 0 && before.crop_bottom == 0 && before.padding_px == 0
            ==> reshaped_height(before, size.1) == size.1,
{
}

/// The size of the compositor is that of the last structure with a width and a height: one such
/// structure is found wherever there is one, and none behind it has both.
pub proof fn law_the_last_size_counts(structures: Seq<(Option<i32>, Option<i32>)>)
    ensures
        match last_size(structures) {
            Some((width, height)) => exists|i: int|
                #![trigger structures[i]]
                0 <= i < structures.len() && structures[i] == (Some(width), Some(height))
                    && forall|k: int|
                    i < k < structures.len() ==> (#[trigger] structures[k]).0 is None
                        || structures[k].1 is None,
            None => forall|k: int|
                0 <= k < structures.len() ==> (#[trigger] structures[k]).0 is None
                    || structures[k].1 is None,
        },
    decreases structures.len(),
{
    if structures.len() > 0 {
        let rest = structures.drop_last();
        let n = structures.len() - 1;
        law_the_last_size_counts(rest);
        if structures.last().0 is Some && structures.last().1 is Some {
            assert(structures[n] == structures.last());
        } else {
            match last_size(rest) {
                Some((width, height)) => {
                    let i = choose|i: int|
                        #![trigger rest[i]]
                        0 <= i < rest.len() && rest[i] == (Some(width), Some(height)) && forall|k: int|
                            i < k < rest.len() ==> (#[trigger] rest[k]).0 is None
                                || rest[k].1 is None;
                    assert(structures[i] == rest[i]);
                    assert forall|k: int| i < k < structures.len() implies (
                    #[trigger] structures[k]).0 is None || structures[k].1 is None by {
                        if k < n {
                            assert(structures[k] == rest[k]);
                        }
                    }
                },
                None => {
                    assert forall|k: int| 0 <= k < structures.len() implies (
                    #[trigger] structures[k]).0 is None || structures[k].1 is None by {
                        if k < n {
                            assert(structures[k] == rest[k]);
                        }
                    }
                },
            }
        }
    }
}

/// At the near edges the image is cut exactly where it reaches past the edge; it is moved where only
/// its padding does; and it is left alone where nothing does.
pub proof fn law_near_edges_cut_what_is_past_them(overhang: Overhang)
    ensures
        near_edge(overhang) == NearEdge::CutImage <==> overhang.image,
        near_edge(overhang) == NearEdge::Keep <==> !overhang.image && !overhang.padded,
        near_edge(overhang) == NearEdge::MoveImage <==> !overhang.image && overhang.padded,
{
}

/// The size of the output frame: the negotiated one, or else that of the compositor, or else that of
/// the input.
pub open spec fn frame_size_of(
    negotiated: Option<FrameSize>,
    compositor: Option<(i32, i32)>,
    input: FrameSize,
) -> (i64, i64) {
    match (negotiated, compositor) {
        (Some(size), _) => (size.width as i64, size.height as i64),
        (None, Some((width, height))) => (width as i64, height as i64),
        (None, None) => (input.width as i64, input.height as i64),
    }
}

/// Which buffer goes out.
pub open spec fn chosen_buffer(passthrough: bool, input: InputBuffer, out_size: usize) -> OutputBuffer {
    if passthrough {
        OutputBuffer::PassThrough
    } else if input == InputBuffer::Writable(out_size) {
        OutputBuffer::ReuseInput
    } else {
        OutputBuffer::Allocate(out_size)
    }
}

/// Whether a frame is drawn, or why not.
pub open spec fn drawing_of(
    invisible: bool,
    negotiated: bool,
    row_bytes: usize,
    min_row_bytes: usize,
    plane: Option<usize>,
    byte_size: usize,
) -> Result<Drawing, FlowError> {
    if invisible {
        Ok(Drawing::Skip)
    } else if !negotiated {
        Err(FlowError::NotNegotiated)
    } else if row_bytes < min_row_bytes || plane is None || plane->0 < byte_size {
        Err(FlowError::Error)
    } else {
        Ok(Drawing::Draw)
    }
}

/// What goes out is as large as the output, unless everything passes through: the input is used again
/// exactly where it may be written to and has this size, neither less nor more, and in place of any
/// other a new buffer of this size is made.
pub proof fn law_buffers_have_the_size_of_the_output(
    input: InputBuffer,
    in_size: usize,
    out_size: usize,
    passthrough: bool,
)
    ensures
        chosen_buffer(true, input, out_size) == OutputBuffer::PassThrough,
        chosen_buffer(false, InputBuffer::Writable(in_size), out_size) == OutputBuffer::ReuseInput
            <==> in_size == out_size,
        chosen_buffer(passthrough, InputBuffer::Readable, out_size) != OutputBuffer::ReuseInput,
        chosen_buffer(passthrough, input, out_size) matches OutputBuffer::Allocate(size) ==> size
            == out_size && !passthrough,
        chosen_buffer(passthrough, input, out_size) == OutputBuffer::PassThrough ==> passthrough,
{
}

/// A frame that is seen and negotiated is drawn wherever its rows and its plane are long enough, and
/// longer ones do no harm; one that is not seen is skipped, whatever its buffer is.
pub proof fn law_frames_are_drawn_where_there_is_room(
    invisible: bool,
    negotiated: bool,
    row_bytes: usize,
    min_row_bytes: usize,
    plane: usize,
    byte_size: usize,
)
    ensures
        !invisible && negotiated && min_row_bytes <= row_bytes && byte_size <= plane ==> drawing_of(
            invisible,
            negotiated,
            row_bytes,
            min_row_bytes,
            Some(plane),
            byte_size,
        ) == Ok::<Drawing, FlowError>(Drawing::Draw),
        drawing_of(invisible, negotiated, row_bytes, min_row_bytes, Some(plane), byte_size) == Ok::<
            Drawing,
            FlowError,
        >(Drawing::Draw) ==> min_row_bytes <= row_bytes && byte_size <= plane && negotiated && !invisible,
        drawing_of(invisible, negotiated, row_bytes, min_row_bytes, None, byte_size) != Ok::<
            Drawing,
            FlowError,
        >(Drawing::Draw),
        drawing_of(invisible, negotiated, row_bytes, min_row_bytes, Some(plane), byte_size) == Ok::<
            Drawing,
            FlowError,
        >(Drawing::Skip) <==> invisible,
        !invisible ==> (drawing_of(
            invisible,
            negotiated,
            row_bytes,
            min_row_bytes,
            Some(plane),
            byte_size,
        ) == Err::<Drawing, FlowError>(FlowError::NotNegotiated) <==> !negotiated),
{
}

/// A negotiated size counts before that of a compositor, and that before the input's; width and
/// height always come from one of them.
pub proof fn law_negotiated_sizes_count_first(
    size: FrameSize,
    compositor: (i32, i32),
    any: Option<(i32, i32)>,
    input: FrameSize,
)
    ensures
        frame_size_of(Some(size), any, input) == (size.width as i64, size.height as i64),
        frame_size_of(None, Some(compositor), input) == (compositor.0 as i64, compositor.1 as i64),
        frame_size_of(None, None, input) == (input.width as i64, input.height as i64),
{
}

} // verus!
