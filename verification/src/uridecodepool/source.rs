//! The source element: what it takes from its decoding pipeline and what it hands downstream.

use vstd::prelude::*;

verus! {

/// A segment, as plain values; the two rates as the bits of their floating-point numbers.
#[derive(Debug, Clone, Copy, PartialEq, Eq, Structural)]
pub struct Segment {
    pub flags: u32,
    pub rate_bits: u64,
    pub applied_rate_bits: u64,
    pub format: u32,
    pub base: u64,
    pub offset: u64,
    pub start: u64,
    pub stop: u64,
    pub time: u64,
    pub position: u64,
    pub duration: u64,
}

/// A seek event: which one it is, its sequence number, and whether it flushes.
#[derive(Debug, Clone, Copy, PartialEq, Eq, Structural)]
pub struct SeekEvent {
    pub id: u64,
    pub seqnum: u32,
    pub flush: bool,
}

/// The ways in which a flow ends.
#[derive(Debug, Clone, Copy, PartialEq, Eq, Structural)]
pub enum FlowError {
    Flushing,
    Eos,
    NotNegotiated,
    Error,
}

/// What the source remembers between calls. A decoding pipeline is known by its number.
#[derive(Debug, Clone, Copy, PartialEq, Eq)]
pub struct SourceState {
    pub decoderpipe: Option<u64>,
    pub segment: Option<Segment>,
    pub seek_event: Option<SeekEvent>,
    pub flushing: bool,
    pub seek_seqnum: Option<u32>,
    pub segment_seqnum: Option<u32>,
    pub needs_segment: bool,
    pub seek_segment: Option<Segment>,
}

/// What a caller waits for: a sample, or one of two events.
#[derive(Debug, Clone, Copy, PartialEq, Eq, Structural)]
pub enum Wanted {
    Sample,
    Caps,
    Segment,
}

/// What to do before an object is pulled from the sink.
#[derive(Debug, Clone, Copy, PartialEq, Eq, Structural)]
pub enum BeforePull {
    Fail(FlowError),
    /// Hand out the caps that the sink's pad has.
    GiveCaps,
    /// Hand out the segment that the sink's pad has.
    GiveSegment,
    Pull,
}

/// What a pull brought. Caps are known by a number.
#[derive(Debug, Clone, Copy, PartialEq, Eq)]
pub enum Pulled {
    /// Nothing: whether the sink was at its end before or after, and the segment on its pad.
    Nothing { eos: bool, sticky_segment: Option<Segment> },
    Tag,
    FlushStop { seqnum: u32 },
    Caps { caps: u64 },
    OtherEvent,
    Sample,
    OtherObject,
}

/// What to do with what a pull brought.
#[derive(Debug, Clone, Copy, PartialEq, Eq)]
pub enum AfterPull {
    /// Go round again.
    Continue,
    /// Send the tags on, and go round again.
    ForwardTag,
    /// Set these caps downstream; go round again, or fail as `caps_refused` says.
    SetCaps { caps: u64 },
    /// Hand these caps out.
    GiveCaps { caps: u64 },
    /// Hand the sample out.
    GiveSample,
    Fail(FlowError),
    /// Push the segment, and fail.
    PushSegmentAndFail { segment: Segment, error: FlowError },
}

/// Whether the stream that is selected is the one that has started on the sink.
pub open spec fn stream_started(selected: Option<Seq<char>>, current: Option<Seq<char>>) -> bool {
    selected is Some && current == selected
}

/// Ensures that a `stream-start` with the right ID has been received: `selected` is the ID of the
/// selected stream, `current` that of the stream on the sink's pad.
pub fn requested_stream_started(selected: Option<&str>, current: Option<&str>) -> (started: bool)
    ensures
        started == stream_started(
            match selected {
                Some(id) => Some(id@),
                None => None,
            },
            match current {
                Some(id) => Some(id@),
                None => None,
            },
        ),
{
    match (selected, current) {
        (Some(selected), Some(current)) => crate::text::str_eq(selected, current),
        _ => false,
    }
}

/// What to do before a pull.
pub open spec fn before_pull_spec(
    state: SourceState,
    wanted: Wanted,
    started: bool,
    has_caps: bool,
    has_segment: bool,
) -> BeforePull {
    if state.flushing {
        BeforePull::Fail(FlowError::Flushing)
    } else if started && state.seek_seqnum is None && wanted == Wanted::Caps && has_caps {
        BeforePull::GiveCaps
    } else if started && state.seek_seqnum is None && wanted == Wanted::Segment && has_segment {
        BeforePull::GiveSegment
    } else {
        BeforePull::Pull
    }
}

/// What to do with what a pull brought, and what to remember.
pub open spec fn after_pull_spec(
    state: SourceState,
    wanted: Wanted,
    pulled: Pulled,
    started: bool,
) -> (SourceState, AfterPull) {
    match pulled {
        Pulled::Nothing { eos, sticky_segment } => if !eos {
            (
                state,
                if state.flushing {
                    AfterPull::Fail(FlowError::Flushing)
                } else {
                    AfterPull::Continue
                },
            )
        } else if state.seek_seqnum is Some {
            (state, AfterPull::Continue)
        } else {
            let segment = if sticky_segment is Some {
                sticky_segment
            } else {
                state.seek_segment
            };
            if state.needs_segment && segment is Some {
                (
                    SourceState { segment, ..state },
                    AfterPull::PushSegmentAndFail { segment: segment->0, error: FlowError::Eos },
                )
            } else {
                (state, AfterPull::Fail(FlowError::Eos))
            }
        },
        Pulled::Tag => (state, AfterPull::ForwardTag),
        Pulled::FlushStop { seqnum } => (
            if state.seek_seqnum == Some(seqnum) {
                SourceState { seek_seqnum: None, ..state }
            } else {
                state
            },
            AfterPull::Continue,
        ),
        Pulled::Caps { caps } => (
            state,
            if !started {
                AfterPull::Continue
            } else if wanted == Wanted::Caps {
                AfterPull::GiveCaps { caps }
            } else {
                AfterPull::SetCaps { caps }
            },
        ),
        Pulled::Sample => (
            state,
            if started && wanted == Wanted::Sample && state.seek_seqnum is None {
                AfterPull::GiveSample
            } else {
                AfterPull::Continue
            },
        ),
        Pulled::OtherEvent | Pulled::OtherObject => (state, AfterPull::Continue),
    }
}

impl SourceState {
    /// The state of a new source.
    pub fn new() -> (state: SourceState)
        ensures
            state == (SourceState {
                decoderpipe: None,
                segment: None,
                seek_event: None,
                flushing: false,
                seek_seqnum: None,
                segment_seqnum: None,
                needs_segment: false,
                seek_segment: None,
            }),
    {
        SourceState {
            decoderpipe: None,
            segment: None,
            seek_event: None,
            flushing: false,
            seek_seqnum: None,
            segment_seqnum: None,
            needs_segment: false,
            seek_segment: None,
        }
    }

    /// The first half of a round of the loop that waits for an object: stops when flushing, and
    /// hands out what the sink's pad already has, once the selected stream has started and no
    /// flush is awaited.
    pub fn before_pull(
        &self,
        wanted: Wanted,
        started: bool,
        has_caps: bool,
        has_segment: bool,
    ) -> (r: BeforePull)
        ensures
            r == before_pull_spec(*self, wanted, started, has_caps, has_segment),
    {
        if self.flushing {
            return BeforePull::Fail(FlowError::Flushing);
        }
        if started && self.seek_seqnum.is_none() {
            match wanted {
                Wanted::Caps => {
                    if has_caps {
                        return BeforePull::GiveCaps;
                    }
                },
                Wanted::Segment => {
                    if has_segment {
                        return BeforePull::GiveSegment;
                    }
                },
                Wanted::Sample => {},
            }
        }
        BeforePull::Pull
    }

    /// The second half: what becomes of the object that was pulled. `started` tells whether the
    /// selected stream has started by then.
    pub fn after_pull(&mut self, wanted: Wanted, pulled: Pulled, started: bool) -> (r: AfterPull)
        ensures
            (*final(self), r) == after_pull_spec(*old(self), wanted, pulled, started),
    {
        match pulled {
            Pulled::Nothing { eos, sticky_segment } => {
                if eos {
                    if self.seek_seqnum.is_some() {
                        return AfterPull::Continue;
                    }
                    if self.needs_segment {
                        let segment = match sticky_segment {
                            Some(segment) => Some(segment),
                            None => self.seek_segment,
                        };
                        if let Some(segment) = segment {
                            self.segment = Some(segment);
                            return AfterPull::PushSegmentAndFail {
                                segment,
                                error: FlowError::Eos,
                            };
                        }
                    }
                    return AfterPull::Fail(FlowError::Eos);
                }
                if self.flushing {
                    return AfterPull::Fail(FlowError::Flushing);
                }
                AfterPull::Continue
            },
            Pulled::Tag => AfterPull::ForwardTag,
            Pulled::FlushStop { seqnum } => {
                if let Some(awaited) = self.seek_seqnum {
                    if seqnum == awaited {
                        self.seek_seqnum = None;
                    }
                }
                AfterPull::Continue
            },
            Pulled::Caps { caps } => {
                if !started {
                    return AfterPull::Continue;
                }
                if wanted == Wanted::Caps {
                    AfterPull::GiveCaps { caps }
                } else {
                    AfterPull::SetCaps { caps }
                }
            },
            Pulled::Sample => {
                if !started {
                    return AfterPull::Continue;
                }
                if wanted != Wanted::Sample {
                    return AfterPull::Continue;
                }
                if self.seek_seqnum.is_some() {
                    return AfterPull::Continue;
                }
                AfterPull::GiveSample
            },
            Pulled::OtherEvent | Pulled::OtherObject => AfterPull::Continue,
        }
    }

    /// The last test before anything is handed out.
    pub fn hand_out(&self) -> (r: Result<(), FlowError>)
        ensures
            r == if self.flushing {
                Err::<(), FlowError>(FlowError::Flushing)
            } else {
                Ok(())
            },
    {
        if self.flushing {
            return Err(FlowError::Flushing);
        }
        Ok(())
    }

    /// How caps that were refused downstream end the flow.
    pub fn caps_refused(pad_flushing: bool) -> (error: FlowError)
        ensures
            error == if pad_flushing {
                FlowError::Flushing
            } else {
                FlowError::NotNegotiated
            },
    {
        if pad_flushing {
            FlowError::Flushing
        } else {
            FlowError::NotNegotiated
        }
    }
}

} // verus!
