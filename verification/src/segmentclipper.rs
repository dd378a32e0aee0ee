//! Clips buffers to a segment.
//!
//! Buffers outside the segment are dropped, and those that are partly outside are clipped. Where
//! a stream ends without a buffer inside the segment, the last one that was dropped is pushed.

use vstd::prelude::*;

verus! {

/// The nanoseconds of a second.
pub const SECOND: u64 = 1_000_000_000;

/// A segment in time, in nanoseconds.
#[derive(Debug, Clone, Copy, PartialEq, Eq)]
pub struct Segment {
    /// Whether the rate is above zero.
    pub forward: bool,
    pub start: Option<u64>,
    pub stop: Option<u64>,
}

/// A rate of frames; the denominator is above zero.
#[derive(Debug, Clone, Copy, PartialEq, Eq, Structural)]
pub struct Fraction {
    pub numer: i32,
    pub denom: i32,
}

/// A buffer: its times in nanoseconds, and a number for what it holds.
#[derive(Debug, Clone, Copy, PartialEq, Eq)]
pub struct Buffer {
    pub pts: Option<u64>,
    pub duration: Option<u64>,
    pub content: u64,
}

/// The element, with what it remembers.
#[derive(Debug, Clone, Copy, PartialEq, Eq)]
pub struct SegmentClipper {
    pub segment: Segment,
    pub framerate: Option<Fraction>,
    pub last_dropped_buffer: Option<Buffer>,
}

/// The state before anything has come.
pub open spec fn initial_state() -> SegmentClipper {
    SegmentClipper {
        segment: Segment { forward: true, start: Some(0), stop: None },
        framerate: None,
        last_dropped_buffer: None,
    }
}

impl Default for SegmentClipper {
    fn default() -> (state: SegmentClipper)
        ensures
            state == initial_state(),
    {
        SegmentClipper {
            segment: Segment { forward: true, start: Some(0), stop: None },
            framerate: None,
            last_dropped_buffer: None,
        }
    }
}

/// What becomes of a buffer that comes in.
#[derive(Debug, Clone, Copy, PartialEq, Eq, Structural)]
pub enum Submission {
    Dropped,
    /// The segment is over.
    Eos,
    /// It goes on.
    Accepted,
}

/// How long a frame of a rate lasts. A negative rate gives none.
pub open spec fn frame_duration(framerate: Fraction) -> int {
    if framerate.numer > 0 {
        SECOND * framerate.denom / framerate.numer as int
    } else {
        0
    }
}

/// How long a buffer lasts: as it says, or else as a frame does.
pub open spec fn lasts(state: SegmentClipper, buffer: Buffer) -> int {
    match (buffer.duration, state.framerate) {
        (Some(duration), _) => duration as int,
        (None, Some(framerate)) => frame_duration(framerate),
        (None, None) => 0,
    }
}

/// Whether a buffer between two times is over when the segment starts. One that ends where the
/// segment starts is, unless it has no length.
pub open spec fn ends_before(segment: Segment, start: int, stop: int) -> bool {
    stop < segment.start->0 || (stop == segment.start->0 && start < stop)
}

/// Whether a buffer begins when the segment is over. One that begins where the segment stops does,
/// unless the segment has no length.
pub open spec fn begins_after(segment: Segment, start: int) -> bool {
    start > segment.stop->0 || (start == segment.stop->0 && segment.start != segment.stop)
}

/// What becomes of a buffer between two times.
pub open spec fn placed(segment: Segment, start: int, stop: int) -> Submission {
    if segment.forward {
        if ends_before(segment, start, stop) {
            Submission::Dropped
        } else if segment.stop is Some && start >= segment.stop->0 {
            Submission::Eos
        } else {
            Submission::Accepted
        }
    } else {
        if stop <= segment.start->0 {
            Submission::Eos
        } else if begins_after(segment, start) {
            Submission::Dropped
        } else {
            Submission::Accepted
        }
    }
}

/// What becomes of a buffer. One without a time is dropped.
pub open spec fn submission(state: SegmentClipper, buffer: Buffer) -> Submission {
    match buffer.pts {
        Some(start) => placed(state.segment, start as int, start + lasts(state, buffer)),
        None => Submission::Dropped,
    }
}

/// The state after a buffer came in.
pub open spec fn submitted(state: SegmentClipper, buffer: Buffer) -> SegmentClipper {
    if buffer.pts is Some && submission(state, buffer) == Submission::Dropped {
        SegmentClipper { last_dropped_buffer: Some(buffer), ..state }
    } else {
        state
    }
}

/// What a buffer and a segment need: bounds to compare with, and an end that is a time.
pub open spec fn placeable(state: SegmentClipper, buffer: Buffer) -> bool {
    buffer.pts matches Some(start) ==> {
        &&& state.segment.start is Some
        &&& state.segment.forward || state.segment.stop is Some || start + lasts(state, buffer)
            <= state.segment.start->0
        &&& start + lasts(state, buffer) < u64::MAX
    }
}

/// A buffer with the times that it was clipped to, as far as there are such times.
pub open spec fn clipped_to(buffer: Buffer, clipped: (Option<u64>, Option<u64>)) -> Buffer {
    match clipped {
        (Some(pts), Some(end)) => Buffer {
            pts: Some(pts),
            duration: Some((end - pts) as u64),
            ..buffer
        },
        (Some(pts), None) => Buffer { pts: Some(pts), ..buffer },
        (None, _) => buffer,
    }
}

/// The rate of frames that caps tell of: that of raw video, where it does not vary.
pub open spec fn known_rate(raw_video: bool, framerate: Option<Fraction>) -> Option<Fraction> {
    if raw_video && framerate is Some && framerate->0.numer != 0 {
        framerate
    } else {
        None
    }
}

/// An event on the sink pad.
#[derive(Debug, Clone, Copy, PartialEq, Eq)]
pub enum SinkEvent {
    /// A segment, where it is one in time.
    Segment(Option<Segment>),
    FlushStop,
    Eos,
    Other,
}

/// What is done with an event.
#[derive(Debug, Clone, Copy, PartialEq, Eq)]
pub enum SinkAction {
    /// It is an error.
    Refuse,
    Forward,
    /// The buffer is pushed before the event goes on.
    PushAndForward(Buffer),
}

/// A buffer that is moved to the edge of a segment where playback starts.
pub open spec fn moved_to_edge(segment: Segment, buffer: Buffer) -> Buffer {
    Buffer {
        pts: if segment.forward {
            segment.start
        } else {
            segment.stop
        },
        ..buffer
    }
}

/// What is done with an event, and the state after it.
pub open spec fn handled(state: SegmentClipper, event: SinkEvent) -> (SegmentClipper, SinkAction) {
    match event {
        SinkEvent::Segment(Some(segment)) => (
            SegmentClipper { segment, last_dropped_buffer: None, ..state },
            SinkAction::Forward,
        ),
        SinkEvent::Segment(None) => (state, SinkAction::Refuse),
        SinkEvent::FlushStop => (
            SegmentClipper { last_dropped_buffer: None, ..state },
            SinkAction::Forward,
        ),
        SinkEvent::Eos => (
            SegmentClipper { last_dropped_buffer: None, ..state },
            match state.last_dropped_buffer {
                Some(buffer) => SinkAction::PushAndForward(moved_to_edge(state.segment, buffer)),
                None => SinkAction::Forward,
            },
        ),
        SinkEvent::Other => (state, SinkAction::Forward),
    }
}

impl SegmentClipper {
    /// Whether the rate of frames is one that `set_caps` takes.
    pub open spec fn wf(self) -> bool {
        self.framerate matches Some(framerate) ==> framerate.numer != 0 && framerate.denom > 0
    }

    pub fn duration_of(&self, buffer: &Buffer) -> (duration: u64)
        requires
            self.wf(),
        ensures
            duration == lasts(*self, *buffer),
    {
        match buffer.duration {
            Some(duration) => duration,
            None => match self.framerate {
                Some(framerate) => {
                    if framerate.numer > 0 {
                        proof {
                            let d = framerate.denom as int;
                            let n = framerate.numer as int;
                            assert(SECOND * d <= 1_000_000_000 * 0x7fff_ffff);
                            assert(0 <= (SECOND * d) / n <= SECOND * d) by (nonlinear_arith)
                                requires
                                    n > 0,
                                    d > 0,
                            ;
                        }
                        SECOND * framerate.denom as u64 / framerate.numer as u64
                    } else {
                        0
                    }
                },
                None => 0,
            },
        }
    }

    /// Decides on a buffer that comes in, and remembers one that is outside the segment.
    pub fn submit_input_buffer(&mut self, inbuf: Buffer) -> (r: Submission)
        requires
            old(self).wf(),
            placeable(*old(self), inbuf),
        ensures
            r == submission(*old(self), inbuf),
            *final(self) == submitted(*old(self), inbuf),
            final(self).wf(),
    {
        let start: u64 = match inbuf.pts {
            Some(pts) => pts,
            None => return Submission::Dropped,
        };
        let stop: u64 = start + self.duration_of(&inbuf);
        let segment_start: u64 = self.segment.start.unwrap();
        if self.segment.forward {
            if stop < segment_start || (stop == segment_start && start < stop) {
                self.last_dropped_buffer = Some(inbuf);
                return Submission::Dropped;
            }
            if let Some(segment_stop) = self.segment.stop {
                if start >= segment_stop {
                    return Submission::Eos;
                }
            }
        } else {
            if stop <= segment_start {
                return Submission::Eos;
            }
            let segment_stop: u64 = self.segment.stop.unwrap();
            if start > segment_stop || (start == segment_stop && segment_start != segment_stop) {
                self.last_dropped_buffer = Some(inbuf);
                return Submission::Dropped;
            }
        }
        Submission::Accepted
    }

    /// The times of a buffer that goes out, for which it is clipped to the segment.
    pub fn times_to_clip(&self, buffer: &Buffer) -> (r: (u64, u64))
        requires
            self.wf(),
            buffer.pts is Some,
            buffer.pts->0 + lasts(*self, *buffer) < u64::MAX,
        ensures
            r.0 == buffer.pts->0,
            r.1 == buffer.pts->0 + lasts(*self, *buffer),
    {
        let start: u64 = buffer.pts.unwrap();
        (start, start + self.duration_of(buffer))
    }

    /// Gives a buffer that goes out the times to which it was clipped.
    pub fn generate_output(&mut self, buffer: Buffer, clipped: (Option<u64>, Option<u64>)) -> (r:
        Buffer)
        requires
            clipped matches (Some(pts), Some(end)) ==> pts <= end,
        ensures
            *final(self) == (SegmentClipper { last_dropped_buffer: None, ..*old(self) }),
            r == clipped_to(buffer, clipped),
            r == match clipped {
                (Some(pts), Some(end)) => Buffer {
                    pts: Some(pts),
                    duration: Some((end - pts) as u64),
                    ..buffer
                },
                (Some(pts), None) => Buffer { pts: Some(pts), ..buffer },
                (None, _) => buffer,
            },
    {
        self.last_dropped_buffer = None;
        let mut out = buffer;
        if let Some(pts) = clipped.0 {
            out.pts = Some(pts);
            if let Some(end) = clipped.1 {
                out.duration = Some(end - pts);
            }
        }
        out
    }

    /// Takes the rate of frames over from caps, where those of input and output are the same. A
    /// variable rate counts as none.
    pub fn set_caps(&mut self, same_caps: bool, raw_video: bool, framerate: Option<Fraction>) -> (r:
        bool)
        requires
            framerate matches Some(framerate) ==> framerate.denom > 0,
        ensures
            r == same_caps,
            same_caps ==> final(self).framerate == known_rate(raw_video, framerate),
            final(self).segment == old(self).segment,
            final(self).last_dropped_buffer == old(self).last_dropped_buffer,
            final(self).framerate == if !same_caps {
                old(self).framerate
            } else if raw_video && framerate is Some && framerate->0.numer != 0 {
                framerate
            } else {
                None
            },
            same_caps || old(self).wf() ==> final(self).wf(),
    {
        if !same_caps {
            return false;
        }
        self.framerate = None;
        if raw_video {
            if let Some(f) = framerate {
                if f.numer != 0 {
                    self.framerate = Some(f);
                }
            }
        }
        true
    }

    /// Handles an event.
    pub fn sink_event(&mut self, event: SinkEvent) -> (r: SinkAction)
        requires
            event == SinkEvent::Eos && old(self).last_dropped_buffer is Some ==> (if old(
                self,
            ).segment.forward {
                old(self).segment.start is Some
            } else {
                old(self).segment.stop is Some
            }),
        ensures
            *final(self) == handled(*old(self), event).0,
            r == handled(*old(self), event).1,
            old(self).wf() ==> final(self).wf(),
    {
        match event {
            SinkEvent::Segment(Some(segment)) => {
                self.segment = segment;
                self.last_dropped_buffer = None;
            },
            SinkEvent::Segment(None) => {
                return SinkAction::Refuse;
            },
            SinkEvent::FlushStop => {
                self.last_dropped_buffer = None;
            },
            SinkEvent::Eos => {
                if let Some(last_buffer) = self.last_dropped_buffer.take() {
                    let mut buffer = last_buffer;
                    if self.segment.forward {
                        buffer.pts = self.segment.start;
                    } else {
                        buffer.pts = self.segment.stop;
                    }
                    return SinkAction::PushAndForward(buffer);
                }
            },
            SinkEvent::Other => {},
        }
        SinkAction::Forward
    }

    /// Forgets everything.
    pub fn stop(&mut self)
        ensures
            *final(self) == initial_state(),
    {
        *self = SegmentClipper::default();
    }
}

/// The state after a buffer came in, and went out again where it was accepted.
pub open spec fn passed(state: SegmentClipper, buffer: Buffer) -> SegmentClipper {
    let after = submitted(state, buffer);
    if submission(state, buffer) == Submission::Accepted {
        SegmentClipper { last_dropped_buffer: None, ..after }
    } else {
        after
    }
}

/// The state after some buffers, one after the other.
pub open spec fn after_all(state: SegmentClipper, buffers: Seq<Buffer>) -> SegmentClipper
    decreases buffers.len(),
{
    if buffers.len() == 0 {
        state
    } else {
        passed(after_all(state, buffers.drop_last()), buffers.last())
    }
}

/// Buffers in the order of playback: forwards none begins or ends before one that came earlier,
/// backwards none begins after it.
pub open spec fn in_order(state: SegmentClipper, buffers: Seq<Buffer>) -> bool {
    forall|i: int, j: int|
        #![trigger buffers[i], buffers[j]]
        0 <= i < j < buffers.len() && buffers[i].pts is Some && buffers[j].pts is Some ==> (
        if state.segment.forward {
            &&& buffers[i].pts->0 <= buffers[j].pts->0
            &&& buffers[i].pts->0 + lasts(state, buffers[i]) <= buffers[j].pts->0 + lasts(
                state,
                buffers[j],
            )
        } else {
            buffers[j].pts->0 <= buffers[i].pts->0
        })
}

/// Some buffer was inside the segment.
pub open spec fn some_accepted(state: SegmentClipper, buffers: Seq<Buffer>) -> bool {
    exists|i: int|
        0 <= i < buffers.len() && submission(state, #[trigger] buffers[i]) == Submission::Accepted
}

/// Where the last of the dropped buffers with a time stands.
pub open spec fn last_dropped(state: SegmentClipper, buffers: Seq<Buffer>, i: int) -> bool {
    &&& 0 <= i < buffers.len()
    &&& buffers[i].pts is Some
    &&& submission(state, buffers[i]) == Submission::Dropped
    &&& forall|k: int|
        i < k < buffers.len() ==> (#[trigger] buffers[k]).pts is None || submission(
            state,
            buffers[k],
        ) != Submission::Dropped
}

proof fn lemma_only_the_memory_changes(state: SegmentClipper, buffers: Seq<Buffer>)
    ensures
        after_all(state, buffers).segment == state.segment,
        after_all(state, buffers).framerate == state.framerate,
    decreases buffers.len(),
{
    if buffers.len() > 0 {
        lemma_only_the_memory_changes(state, buffers.drop_last());
    }
}

/// At the end of a stream whose buffers came in order, nothing is pushed once a buffer was inside
/// the segment.
pub proof fn law_nothing_is_added_to_a_stream_inside(state: SegmentClipper, buffers: Seq<Buffer>)
    requires
        state.last_dropped_buffer is None,
        in_order(state, buffers),
        some_accepted(state, buffers),
    ensures
        handled(after_all(state, buffers), SinkEvent::Eos).1 == SinkAction::Forward,
    decreases buffers.len(),
{
    let rest = buffers.drop_last();
    let last = buffers.last();
    lemma_only_the_memory_changes(state, rest);
    let before = after_all(state, rest);
    assert(submission(before, last) == submission(state, last));
    if submission(state, last) != Submission::Accepted {
        let i = choose|i: int|
            0 <= i < buffers.len() && submission(state, #[trigger] buffers[i])
                == Submission::Accepted;
        assert(i < rest.len() && rest[i] == buffers[i]);
        assert(in_order(state, rest)) by {
            assert forall|a: int, b: int|
                #![trigger rest[a], rest[b]]
                0 <= a < b < rest.len() && rest[a].pts is Some && rest[b].pts is Some implies (
            if state.segment.forward {
                &&& rest[a].pts->0 <= rest[b].pts->0
                &&& rest[a].pts->0 + lasts(state, rest[a]) <= rest[b].pts->0 + lasts(
                    state,
                    rest[b],
                )
            } else {
                rest[b].pts->0 <= rest[a].pts->0
            }) by {
                assert(buffers[a] == rest[a] && buffers[b] == rest[b]);
            }
        }
        law_nothing_is_added_to_a_stream_inside(state, rest);
        let n = buffers.len() - 1;
        assert(buffers[i].pts is Some);
        assert(buffers[n] == last);
    }
}

/// At the end of a stream without a buffer inside the segment, the last one that was dropped is
/// pushed, moved to the edge of the segment.
pub proof fn law_the_last_dropped_buffer_is_pushed(state: SegmentClipper, buffers: Seq<Buffer>, i: int)
    requires
        !some_accepted(state, buffers),
        last_dropped(state, buffers, i),
    ensures
        handled(after_all(state, buffers), SinkEvent::Eos).1 == SinkAction::PushAndForward(
            moved_to_edge(state.segment, buffers[i]),
        ),
    decreases buffers.len(),
{
    let rest = buffers.drop_last();
    let last = buffers.last();
    lemma_only_the_memory_changes(state, rest);
    lemma_only_the_memory_changes(state, buffers);
    let before = after_all(state, rest);
    assert(submission(before, last) == submission(state, last));
    let n = buffers.len() - 1;
    assert(buffers[n] == last);
    if i < n {
        assert forall|k: int| 0 <= k < rest.len() implies submission(state, #[trigger] rest[k])
            != Submission::Accepted by {
            assert(buffers[k] == rest[k]);
        }
        assert forall|k: int| i < k < rest.len() implies (#[trigger] rest[k]).pts is None
            || submission(state, rest[k]) != Submission::Dropped by {
            assert(buffers[k] == rest[k]);
        }
        assert(rest[i] == buffers[i]);
        law_the_last_dropped_buffer_is_pushed(state, rest, i);
    }
}

/// A buffer is pushed at the end of a stream at most once: a second end, or an end after a flush
/// or a new segment, finds none.
pub proof fn law_a_dropped_buffer_is_pushed_once(state: SegmentClipper, segment: Segment)
    ensures
        handled(handled(state, SinkEvent::Eos).0, SinkEvent::Eos).1 == SinkAction::Forward,
        handled(handled(state, SinkEvent::FlushStop).0, SinkEvent::Eos).1 == SinkAction::Forward,
        handled(handled(state, SinkEvent::Segment(Some(segment))).0, SinkEvent::Eos).1
            == SinkAction::Forward,
{
}

/// What is accepted overlaps the segment: it ends after the segment starts, or is a moment at its
/// start, and it begins before the segment stops, or at it where the segment is a moment.
pub proof fn law_accepted_buffers_overlap_the_segment(state: SegmentClipper, buffer: Buffer)
    requires
        state.wf(),
        placeable(state, buffer),
        submission(state, buffer) == Submission::Accepted,
    ensures
        buffer.pts is Some,
        ({
            let start = buffer.pts->0 as int;
            let stop = start + lasts(state, buffer);
            let segment_start = state.segment.start->0 as int;
            &&& stop > segment_start || (start == segment_start && stop == segment_start)
            &&& state.segment.stop matches Some(segment_stop) ==> start < segment_stop || (start
                == segment_stop && segment_start == segment_stop)
        }),
{
    if buffer.duration is None && state.framerate is Some && state.framerate->0.numer > 0 {
        let d = state.framerate->0.denom as int;
        let n = state.framerate->0.numer as int;
        assert(0 <= (SECOND * d) / n) by (nonlinear_arith)
            requires
                n > 0,
                d > 0,
        ;
    }
}

/// A moment that a buffer and a segment share.
pub open spec fn shared_moment(segment: Segment, start: int, stop: int, moment: int) -> bool {
    &&& start <= moment < stop
    &&& segment.start->0 <= moment
    &&& segment.stop matches Some(segment_stop) ==> moment < segment_stop
}

/// A buffer is accepted exactly where it shares a moment with the segment, in both directions: one
/// that is partly outside is never lost, and one that is wholly outside never goes on. This is said
/// of buffers and segments that have a length.
pub proof fn law_accepted_buffers_share_a_moment(state: SegmentClipper, buffer: Buffer)
    requires
        placeable(state, buffer),
        buffer.pts is Some,
        lasts(state, buffer) > 0,
        state.segment.stop matches Some(stop) ==> state.segment.start->0 < stop,
    ensures
        (submission(state, buffer) == Submission::Accepted) <==> exists|moment: int|
            #[trigger]
            shared_moment(
                state.segment,
                buffer.pts->0 as int,
                buffer.pts->0 + lasts(state, buffer),
                moment,
            ),
{
    let start = buffer.pts->0 as int;
    let stop = start + lasts(state, buffer);
    let first = if start < state.segment.start->0 {
        state.segment.start->0 as int
    } else {
        start
    };
    if submission(state, buffer) == Submission::Accepted {
        assert(shared_moment(state.segment, start, stop, first));
    }
}

/// A buffer without a length is accepted forwards exactly where its time is in the segment. Backwards
/// it is where its time lies between the edges.
pub proof fn law_moments_are_accepted_inside(state: SegmentClipper, buffer: Buffer)
    requires
        placeable(state, buffer),
        buffer.pts is Some,
        lasts(state, buffer) == 0,
    ensures
        ({
            let time = buffer.pts->0;
            let begun = if state.segment.forward {
                state.segment.start->0 <= time
            } else {
                state.segment.start->0 < time
            };
            let over = state.segment.stop matches Some(stop) && stop <= time;
            (submission(state, buffer) == Submission::Accepted) <==> begun && !over
        }),
{
}

/// A buffer that goes on while the one moment of a segment passes is accepted, in both directions.
pub proof fn law_a_moment_is_covered(state: SegmentClipper, buffer: Buffer, moment: u64)
    requires
        placeable(state, buffer),
        buffer.pts is Some,
        state.segment.start == Some(moment),
        state.segment.stop == Some(moment),
        buffer.pts->0 < moment < buffer.pts->0 + lasts(state, buffer),
    ensures
        submission(state, buffer) == Submission::Accepted,
{
}

/// The end of the segment is told only for what lies behind it in the direction of playback, and a
/// buffer with a time is dropped only where it lies before it: forwards the segment is over from its
/// stop on, backwards up to its start.
pub proof fn law_buffers_outside_fall_on_their_side(state: SegmentClipper, buffer: Buffer)
    requires
        state.wf(),
        placeable(state, buffer),
        buffer.pts is Some,
    ensures
        ({
            let start = buffer.pts->0 as int;
            let stop = start + lasts(state, buffer);
            let (early, late) = if state.segment.forward {
                (
                    stop <= state.segment.start->0,
                    state.segment.stop is Some && state.segment.stop->0 <= start,
                )
            } else {
                (
                    state.segment.stop is Some && state.segment.stop->0 <= start,
                    stop <= state.segment.start->0,
                )
            };
            let r = submission(state, buffer);
            &&& r == Submission::Eos ==> late
            &&& r == Submission::Dropped ==> early
            &&& late && !early ==> r == Submission::Eos
            &&& early && !late && lasts(state, buffer) > 0 && state.segment.start
                != state.segment.stop ==> r == Submission::Dropped
        }),
{
}

/// Once the segment is over it stays over: a buffer that lies further in the direction of playback
/// than one for which the end was told is told the end as well. Said of segments that do not stop
/// before they start.
pub proof fn law_the_end_stays(state: SegmentClipper, buffer: Buffer, later: Buffer)
    requires
        state.wf(),
        placeable(state, buffer),
        placeable(state, later),
        buffer.pts is Some && later.pts is Some,
        state.segment.stop matches Some(stop) ==> state.segment.start->0 < stop,
        submission(state, buffer) == Submission::Eos,
        if state.segment.forward {
            buffer.pts->0 <= later.pts->0
        } else {
            later.pts->0 + lasts(state, later) <= buffer.pts->0 + lasts(state, buffer)
        },
        lasts(state, later) >= 0,
    ensures
        submission(state, later) == Submission::Eos,
{
}

/// How long a buffer lasts: its own duration counts, whatever the rate of frames; without one, as
/// many such buffers as the rate has frames fill its seconds, up to the nanosecond that does not
/// divide; without either it is a moment.
pub proof fn law_frames_fill_the_seconds(state: SegmentClipper, buffer: Buffer)
    requires
        state.wf(),
    ensures
        buffer.duration matches Some(duration) ==> lasts(state, buffer) == duration,
        buffer.duration is None ==> (state.framerate matches Some(rate) ==> rate.numer > 0 ==> lasts(
            state,
            buffer,
        ) * rate.numer <= 1_000_000_000 * rate.denom < (lasts(state, buffer) + 1) * rate.numer),
        buffer.duration is None && (state.framerate is None || state.framerate->0.numer < 0)
            ==> lasts(state, buffer) == 0,
        lasts(state, buffer) >= 0,
{
    if let Some(rate) = state.framerate {
        if rate.numer > 0 {
            let n = rate.numer as int;
            let all = SECOND * rate.denom as int;
            let q = all / n;
            vstd::arithmetic::div_mod::lemma_fundamental_div_mod(all, n);
            vstd::arithmetic::div_mod::lemma_mod_bound(all, n);
            assert(q * n <= all < (q + 1) * n) by (nonlinear_arith)
                requires
                    all == n * q + all % n,
                    0 <= all % n < n,
            ;
            assert(q >= 0) by (nonlinear_arith)
                requires
                    all < (q + 1) * n,
                    0 <= all,
                    n > 0,
            ;
        }
    }
}

/// A buffer without a time is dropped, and nothing remembers it; one with a time is remembered
/// exactly where it is dropped, as it is. Nothing else of the state changes.
pub proof fn law_only_dropped_buffers_are_remembered(state: SegmentClipper, buffer: Buffer)
    ensures
        buffer.pts is None ==> submission(state, buffer) == Submission::Dropped && submitted(
            state,
            buffer,
        ) == state,
        submitted(state, buffer).segment == state.segment,
        submitted(state, buffer).framerate == state.framerate,
        buffer.pts is Some && submission(state, buffer) == Submission::Dropped ==> submitted(
            state,
            buffer,
        ).last_dropped_buffer == Some(buffer),
        submission(state, buffer) != Submission::Dropped ==> submitted(state, buffer) == state,
{
}

/// What events do: a segment in time replaces the old one, and any other is refused and changes
/// nothing; only what belongs to segments, flushes and ends changes what is remembered; the rate of
/// frames is no event's business. What is pushed at an end has the content and duration of the
/// buffer that was dropped, and starts where playback enters the segment.
pub proof fn law_events_change_what_they_are_about(
    state: SegmentClipper,
    event: SinkEvent,
    segment: Segment,
)
    ensures
        handled(state, event).0.framerate == state.framerate,
        !(event is Segment) ==> handled(state, event).0.segment == state.segment,
        handled(state, SinkEvent::Segment(Some(segment))).0.segment == segment,
        handled(state, SinkEvent::Segment(Some(segment))).1 == SinkAction::Forward,
        handled(state, SinkEvent::Segment(None)) == (state, SinkAction::Refuse),
        handled(state, SinkEvent::Other) == (state, SinkAction::Forward),
        handled(state, event).1 is Refuse ==> event == SinkEvent::Segment(None),
        event == SinkEvent::FlushStop || event == SinkEvent::Eos ==> handled(
            state,
            event,
        ).0.last_dropped_buffer is None,
        (handled(state, event).1 is PushAndForward) <==> event == SinkEvent::Eos
            && state.last_dropped_buffer is Some,
        handled(state, event).1 matches SinkAction::PushAndForward(pushed) ==> {
            &&& pushed.content == state.last_dropped_buffer->0.content
            &&& pushed.duration == state.last_dropped_buffer->0.duration
            &&& state.segment.forward ==> pushed.pts == state.segment.start
            &&& !state.segment.forward ==> pushed.pts == state.segment.stop
        },
{
}

/// A buffer that goes out holds what came in, and lasts from the start to the end that it was clipped
/// to; without an end it lasts as long as it did, and without a start it is as it was.
pub proof fn law_clipped_buffers_last_from_start_to_end(
    buffer: Buffer,
    start: u64,
    end: u64,
    other: Option<u64>,
)
    requires
        start <= end,
    ensures
        clipped_to(buffer, (Some(start), Some(end))).pts == Some(start),
        clipped_to(buffer, (Some(start), Some(end))).duration is Some,
        start + clipped_to(buffer, (Some(start), Some(end))).duration->0 == end,
        clipped_to(buffer, (Some(start), None)).pts == Some(start),
        clipped_to(buffer, (Some(start), None)).duration == buffer.duration,
        clipped_to(buffer, (None, other)) == buffer,
        clipped_to(buffer, (Some(start), other)).content == buffer.content,
{
}

/// A rate is known exactly of raw video with a rate that does not vary, and it is the one that was
/// told; a buffer without a duration of any other stream is a moment.
pub proof fn law_rates_are_those_of_raw_video(
    raw_video: bool,
    framerate: Option<Fraction>,
    state: SegmentClipper,
    buffer: Buffer,
)
    requires
        state.framerate == known_rate(raw_video, framerate),
    ensures
        state.framerate is Some <==> raw_video && framerate is Some && framerate->0.numer != 0,
        state.framerate is Some ==> state.framerate == framerate,
        buffer.duration is None && !raw_video ==> lasts(state, buffer) == 0,
{
}

/// Before anything has come, every buffer with a time and a length goes on, and at an end nothing is
/// pushed.
pub proof fn law_at_first_everything_goes_on(buffer: Buffer, duration: u64)
    requires
        buffer.pts is Some,
        buffer.duration == Some(duration),
        duration > 0,
    ensures
        submission(initial_state(), buffer) == Submission::Accepted,
        handled(initial_state(), SinkEvent::Eos).1 == SinkAction::Forward,
        initial_state().wf(),
{
}

} // verus!
