//! The source element around its state: settings, start and stop, seeks, queries, and what it
//! rewrites on its way downstream.

use super::source::{FlowError, SeekEvent, Segment, SourceState};
use crate::text::str_eq;
use vstd::prelude::*;

verus! {

/// One structure of a set of caps.
#[derive(Debug)]
pub struct CapsStructure {
    pub name: String,
    pub any_features: bool,
}

/// What is set on a source.
#[derive(Debug)]
pub struct Settings {
    pub uri: Option<String>,
    pub caps: Vec<CapsStructure>,
    pub stream_id: Option<String>,
}

impl Default for Settings {
    /// No URI, no stream, and raw video in any memory.
    fn default() -> (settings: Settings)
        ensures
            settings.uri is None,
            settings.stream_id is None,
            settings.caps.len() == 1,
            settings.caps[0].name@ == "video/x-raw"@,
            settings.caps[0].any_features,
    {
        let mut caps: Vec<CapsStructure> = Vec::new();
        caps.push(CapsStructure { name: "video/x-raw".to_owned(), any_features: true });
        Settings { uri: None, caps, stream_id: None }
    }
}

/// A source that plays through a pool of decoding pipelines.
#[derive(Debug)]
pub struct UriDecodePoolSrc {
    pub settings: Settings,
    pub state: SourceState,
    pub start_completed: bool,
}

/// Why a source does not start.
#[derive(Debug, Clone, Copy, PartialEq, Eq, Structural)]
pub enum StartError {
    NoUri,
    /// The pipeline could not be set to playing.
    PlayFailed,
}

/// How setting a pipeline to playing went.
#[derive(Debug, Clone, Copy, PartialEq, Eq, Structural)]
pub enum PlayResult {
    Success,
    /// It goes on in the background, or is live.
    Pending,
    Failure,
}

/// What a seek asks for.
#[derive(Debug, Clone, Copy, PartialEq, Eq, Structural)]
pub enum SeekAction {
    /// Nothing: the initial seek of the base class.
    IgnoreInitial,
    /// Nothing can be sought.
    NoPipeline,
    /// Send the event to the pipeline.
    Send { decoderpipe: u64, event: SeekEvent },
}

/// A message from the bus of the decoding pipeline.
#[derive(Debug, Clone, Copy, PartialEq, Eq, Structural)]
pub enum BusMessage {
    StateChanged { from_pipeline: bool, nothing_pending: bool },
    Error,
    Other,
}

/// What a message asks for.
#[derive(Debug, Clone, Copy, PartialEq, Eq, Structural)]
pub enum BusAction {
    Nothing,
    /// The pipeline is no longer this source's: listen no more.
    StopListening,
    /// Tell the base class that the start is complete.
    CompleteStart,
    /// Post the error as the source's own.
    PostError,
}

/// How a negotiation ends. Caps are known by a number.
#[derive(Debug, Clone, Copy, PartialEq, Eq, Structural)]
pub enum Negotiation {
    SetCaps(u64),
    /// There are no caps at the end of the stream; nothing is set.
    NothingToSet,
    Failed(FlowError),
}

/// What is in a sample.
#[derive(Debug, Clone, Copy, PartialEq, Eq)]
pub struct Sample {
    pub segment: Option<Segment>,
    pub has_buffer: bool,
    pub has_buffer_list: bool,
}

/// What is pushed of a sample.
#[derive(Debug, Clone, Copy, PartialEq, Eq, Structural)]
pub enum Created {
    NewBuffer,
    NewBufferList,
}

/// A query on the source.
#[derive(Debug)]
pub enum Query {
    Uri,
    Duration,
    /// A custom one, with the name of its structure.
    Custom(Option<String>),
    Other,
}

/// What answers a query.
#[derive(Debug, Clone, Copy, PartialEq, Eq, Structural)]
pub enum QueryAction {
    /// The source's own URI.
    AnswerUri,
    /// The field `res`, set to true.
    AnswerSeekableInNull,
    /// The decoding pipeline.
    AskPipeline(u64),
    /// The base class.
    AskParent,
}

/// The texts of optional strings.
pub open spec fn text_of(s: Option<String>) -> Option<Seq<char>> {
    match s {
        Some(s) => Some(s@),
        None => None,
    }
}

/// What carrying out the seek that was remembered comes to.
pub open spec fn sought(state: SourceState, segment: Segment) -> (SourceState, SeekAction) {
    match (state.seek_event, state.decoderpipe) {
        (None, _) => (state, SeekAction::IgnoreInitial),
        (Some(_), None) => (SourceState { seek_event: None, ..state }, SeekAction::NoPipeline),
        (Some(event), Some(decoderpipe)) => (
            if event.flush {
                SourceState {
                    seek_event: None,
                    seek_seqnum: Some(event.seqnum),
                    segment_seqnum: Some(event.seqnum),
                    needs_segment: true,
                    seek_segment: Some(segment),
                    ..state
                }
            } else {
                SourceState { seek_event: None, ..state }
            },
            SeekAction::Send { decoderpipe, event },
        ),
    }
}

/// What a sample comes to: the segment to push first, and what is pushed then.
pub open spec fn made_of(state: SourceState, sample: Sample) -> (
    SourceState,
    Option<Segment>,
    Result<Created, FlowError>,
) {
    (
        if sample.segment is Some {
            SourceState { segment: sample.segment, ..state }
        } else {
            state
        },
        if sample.segment is Some && sample.segment != state.segment {
            sample.segment
        } else {
            None
        },
        if sample.has_buffer {
            Ok(Created::NewBuffer)
        } else if sample.has_buffer_list {
            Ok(Created::NewBufferList)
        } else {
            Err(FlowError::Error)
        },
    )
}

/// The segment that goes downstream, with its number, and the state then.
pub open spec fn sent_segment(state: SourceState, event_seqnum: u32) -> (
    SourceState,
    Option<(Segment, u32)>,
) {
    match state.segment {
        None => (state, None),
        Some(segment) => (
            SourceState { needs_segment: false, ..state },
            Some(
                (
                    segment,
                    match state.segment_seqnum {
                        Some(seqnum) => seqnum,
                        None => event_seqnum,
                    },
                ),
            ),
        ),
    }
}

/// The state of a source that has stopped.
pub open spec fn stopped(state: SourceState) -> SourceState {
    SourceState {
        segment: None,
        seek_seqnum: None,
        segment_seqnum: None,
        seek_event: None,
        decoderpipe: None,
        ..state
    }
}

/// How a negotiation ends.
pub open spec fn negotiated(awaited: Result<u64, FlowError>, sticky_caps: Option<u64>) -> Negotiation {
    match awaited {
        Ok(caps) => Negotiation::SetCaps(caps),
        Err(FlowError::Eos) => match sticky_caps {
            Some(caps) => Negotiation::SetCaps(caps),
            None => Negotiation::NothingToSet,
        },
        Err(error) => Negotiation::Failed(error),
    }
}

/// The stream ID under which a stream starts downstream.
pub open spec fn outgoing_id(requested: Option<Seq<char>>, stream_id: Option<Seq<char>>) -> Option<
    Seq<char>,
> {
    if stream_id is None {
        None
    } else if requested is Some {
        requested
    } else {
        stream_id
    }
}

impl UriDecodePoolSrc {
    /// Takes a decoding pipeline over. A segment is needed before anything else is pushed.
    pub fn set_decoderpipe(&mut self, decoderpipe: u64)
        ensures
            final(self).state == (SourceState {
                needs_segment: true,
                decoderpipe: Some(decoderpipe),
                ..old(self).state
            }),
            final(self).settings == old(self).settings,
            final(self).start_completed == old(self).start_completed,
    {
        self.state.needs_segment = true;
        self.state.decoderpipe = Some(decoderpipe);
    }

    /// The pipeline that is in use.
    pub fn decoderpipe(&self) -> (decoderpipe: Option<u64>)
        ensures
            decoderpipe == self.state.decoderpipe,
    {
        self.state.decoderpipe
    }

    /// Remembers a seek until the base class asks for it.
    pub fn note_seek(&mut self, event: SeekEvent)
        ensures
            final(self).state == (SourceState { seek_event: Some(event), ..old(self).state }),
            final(self).settings == old(self).settings,
            final(self).start_completed == old(self).start_completed,
    {
        self.state.seek_event = Some(event);
    }

    pub fn is_seekable(&self) -> (seekable: bool)
        ensures
            seekable,
    {
        true
    }

    /// Starts flushing.
    pub fn unlock(&mut self)
        ensures
            final(self).state == (SourceState { flushing: true, ..old(self).state }),
            final(self).settings == old(self).settings,
            final(self).start_completed == old(self).start_completed,
    {
        self.state.flushing = true;
    }

    /// Stops flushing.
    pub fn unlock_stop(&mut self)
        ensures
            final(self).state == (SourceState { flushing: false, ..old(self).state }),
            final(self).settings == old(self).settings,
            final(self).start_completed == old(self).start_completed,
    {
        self.state.flushing = false;
    }

    /// Carries out the seek that was remembered. A flushing one is awaited: nothing is pushed
    /// until the pipeline has flushed with the same sequence number.
    pub fn do_seek(&mut self, segment: Segment) -> (action: SeekAction)
        ensures
            final(self).settings == old(self).settings,
            final(self).start_completed == old(self).start_completed,
            (final(self).state, action) == sought(old(self).state, segment),
            match old(self).state.seek_event {
                None => action == SeekAction::IgnoreInitial && final(self).state
                    == old(self).state,
                Some(event) => match old(self).state.decoderpipe {
                    None => action == SeekAction::NoPipeline && final(self).state
                        == (SourceState { seek_event: None, ..old(self).state }),
                    Some(decoderpipe) => {
                        &&& action == SeekAction::Send { decoderpipe, event }
                        &&& final(self).state == if event.flush {
                            SourceState {
                                seek_event: None,
                                seek_seqnum: Some(event.seqnum),
                                segment_seqnum: Some(event.seqnum),
                                needs_segment: true,
                                seek_segment: Some(segment),
                                ..old(self).state
                            }
                        } else {
                            SourceState { seek_event: None, ..old(self).state }
                        }
                    },
                },
            },
    {
        let event = match self.state.seek_event {
            Some(event) => event,
            None => return SeekAction::IgnoreInitial,
        };
        self.state.seek_event = None;
        match self.state.decoderpipe {
            Some(decoderpipe) => {
                if event.flush {
                    self.state.seek_seqnum = Some(event.seqnum);
                    self.state.segment_seqnum = Some(event.seqnum);
                    self.state.needs_segment = true;
                    self.state.seek_segment = Some(segment);
                }
                SeekAction::Send { decoderpipe, event }
            },
            None => SeekAction::NoPipeline,
        }
    }

    /// Whether the source may start: it needs a URI.
    pub fn start(&self) -> (r: Result<(), StartError>)
        ensures
            r == if self.settings.uri is Some {
                Ok::<(), StartError>(())
            } else {
                Err(StartError::NoUri)
            },
    {
        if self.settings.uri.is_some() {
            Ok(())
        } else {
            Err(StartError::NoUri)
        }
    }

    /// What follows from playing the pipeline: true where the start is complete at once.
    pub fn played(&mut self, result: PlayResult) -> (r: Result<bool, StartError>)
        ensures
            final(self).state == old(self).state,
            final(self).settings == old(self).settings,
            r == match result {
                PlayResult::Failure => Err::<bool, StartError>(StartError::PlayFailed),
                PlayResult::Success => Ok(true),
                PlayResult::Pending => Ok(false),
            },
            final(self).start_completed == (old(self).start_completed || r
                == Ok::<bool, StartError>(true)),
    {
        match result {
            PlayResult::Failure => Err(StartError::PlayFailed),
            PlayResult::Success => {
                self.start_completed = true;
                Ok(true)
            },
            PlayResult::Pending => Ok(false),
        }
    }

    /// Follows the messages of a decoding pipeline, as long as it is this source's.
    pub fn handle_bus_message(&mut self, decoderpipe: u64, message: BusMessage) -> (action:
        BusAction)
        ensures
            final(self).state == old(self).state,
            final(self).settings == old(self).settings,
            action == if old(self).state.decoderpipe != Some(decoderpipe) {
                BusAction::StopListening
            } else {
                match message {
                    BusMessage::StateChanged { from_pipeline, nothing_pending } => if from_pipeline
                        && nothing_pending && !old(self).start_completed {
                        BusAction::CompleteStart
                    } else {
                        BusAction::Nothing
                    },
                    BusMessage::Error => BusAction::PostError,
                    BusMessage::Other => BusAction::Nothing,
                }
            },
            final(self).start_completed == (old(self).start_completed || action
                == BusAction::CompleteStart),
    {
        match self.state.decoderpipe {
            Some(current) => {
                if current != decoderpipe {
                    return BusAction::StopListening;
                }
            },
            None => return BusAction::StopListening,
        }
        match message {
            BusMessage::StateChanged { from_pipeline, nothing_pending } => {
                if !self.start_completed && from_pipeline && nothing_pending {
                    self.start_completed = true;
                    BusAction::CompleteStart
                } else {
                    BusAction::Nothing
                }
            },
            BusMessage::Error => BusAction::PostError,
            BusMessage::Other => BusAction::Nothing,
        }
    }

    /// How a negotiation ends, given what waiting for caps brought and the caps that are on the
    /// sink's pad.
    pub fn negotiate(awaited: Result<u64, FlowError>, sticky_caps: Option<u64>) -> (r: Negotiation)
        ensures
            r == negotiated(awaited, sticky_caps),
            r == match awaited {
                Ok(caps) => Negotiation::SetCaps(caps),
                Err(FlowError::Eos) => match sticky_caps {
                    Some(caps) => Negotiation::SetCaps(caps),
                    None => Negotiation::NothingToSet,
                },
                Err(error) => Negotiation::Failed(error),
            },
    {
        match awaited {
            Ok(caps) => Negotiation::SetCaps(caps),
            Err(error) => {
                if error == FlowError::Eos {
                    match sticky_caps {
                        Some(caps) => Negotiation::SetCaps(caps),
                        None => Negotiation::NothingToSet,
                    }
                } else {
                    Negotiation::Failed(error)
                }
            },
        }
    }

    /// What a sample becomes: the segment to push first, where it is a new one, and what is pushed
    /// then.
    pub fn create(&mut self, sample: Sample) -> (r: (Option<Segment>, Result<Created, FlowError>))
        ensures
            final(self).settings == old(self).settings,
            final(self).start_completed == old(self).start_completed,
            (final(self).state, r.0, r.1) == made_of(old(self).state, sample),
            r.0 == if sample.segment is Some && sample.segment != old(self).state.segment {
                sample.segment
            } else {
                None
            },
            final(self).state == if sample.segment is Some {
                SourceState { segment: sample.segment, ..old(self).state }
            } else {
                old(self).state
            },
            r.1 == if sample.has_buffer {
                Ok::<Created, FlowError>(Created::NewBuffer)
            } else if sample.has_buffer_list {
                Ok(Created::NewBufferList)
            } else {
                Err(FlowError::Error)
            },
    {
        let mut pushed: Option<Segment> = None;
        if let Some(segment) = sample.segment {
            let known = match self.state.segment {
                Some(current) => current == segment,
                None => false,
            };
            if !known {
                self.state.segment = Some(segment);
                pushed = Some(segment);
            }
        }
        let created = if sample.has_buffer {
            Ok(Created::NewBuffer)
        } else if sample.has_buffer_list {
            Ok(Created::NewBufferList)
        } else {
            Err(FlowError::Error)
        };
        (pushed, created)
    }

    /// Stops: forgets the seek and the segment, and gives the pipeline up, which goes back to the
    /// pool.
    pub fn stop(&mut self) -> (released: u64)
        requires
            old(self).state.decoderpipe is Some,
        ensures
            released == old(self).state.decoderpipe->0,
            final(self).state == stopped(old(self).state),
            final(self).settings == old(self).settings,
            final(self).state == (SourceState {
                segment: None,
                seek_seqnum: None,
                segment_seqnum: None,
                seek_event: None,
                decoderpipe: None,
                ..old(self).state
            }),
            !final(self).start_completed,
    {
        self.state.segment = None;
        self.state.seek_seqnum = None;
        self.state.segment_seqnum = None;
        self.state.seek_event = None;
        let released: u64 = self.state.decoderpipe.unwrap();
        self.state.decoderpipe = None;
        self.start_completed = false;
        released
    }

    /// What answers a query.
    pub fn query(&self, query: &Query) -> (action: QueryAction)
        ensures
            action == match *query {
                Query::Uri => QueryAction::AnswerUri,
                Query::Custom(Some(name)) if name@ == "can-seek-in-null"@ =>
                    QueryAction::AnswerSeekableInNull,
                Query::Duration | Query::Custom(_) => match self.state.decoderpipe {
                    Some(decoderpipe) => QueryAction::AskPipeline(decoderpipe),
                    None => QueryAction::AskParent,
                },
                Query::Other => QueryAction::AskParent,
            },
    {
        match query {
            Query::Uri => QueryAction::AnswerUri,
            Query::Duration => {
                match self.state.decoderpipe {
                    Some(decoderpipe) => QueryAction::AskPipeline(decoderpipe),
                    None => QueryAction::AskParent,
                }
            },
            Query::Custom(name) => {
                let seek_in_null = match name {
                    Some(name) => str_eq(name.as_str(), "can-seek-in-null"),
                    None => false,
                };
                if seek_in_null {
                    return QueryAction::AnswerSeekableInNull;
                }
                match self.state.decoderpipe {
                    Some(decoderpipe) => QueryAction::AskPipeline(decoderpipe),
                    None => QueryAction::AskParent,
                }
            },
            Query::Other => QueryAction::AskParent,
        }
    }

    /// The stream ID under which a stream starts downstream: the requested one where there is
    /// one, whatever the pipeline selected. None, and the event passes as it is, where the
    /// pipeline has no stream yet.
    pub fn stream_start_id(&self, stream_id: Option<String>) -> (id: Option<String>)
        ensures
            text_of(id) == outgoing_id(text_of(self.settings.stream_id), text_of(stream_id)),
            text_of(id) == if stream_id is None {
                None
            } else if self.settings.stream_id is Some {
                text_of(self.settings.stream_id)
            } else {
                text_of(stream_id)
            },
    {
        match stream_id {
            None => None,
            Some(stream_id) => match &self.settings.stream_id {
                Some(requested) => Some(requested.clone()),
                None => Some(stream_id),
            },
        }
    }

    /// The segment that goes downstream in place of the one in an event, with its sequence
    /// number: that of the last flushing seek, if there was one. None, and the event is dropped,
    /// before a segment came from the pipeline.
    pub fn outgoing_segment(&mut self, event_seqnum: u32) -> (r: Option<(Segment, u32)>)
        ensures
            final(self).settings == old(self).settings,
            final(self).start_completed == old(self).start_completed,
            (final(self).state, r) == sent_segment(old(self).state, event_seqnum),
            match old(self).state.segment {
                None => r is None && final(self).state == old(self).state,
                Some(segment) => {
                    &&& r == Some(
                        (
                            segment,
                            match old(self).state.segment_seqnum {
                                Some(seqnum) => seqnum,
                                None => event_seqnum,
                            },
                        ),
                    )
                    &&& final(self).state == (SourceState {
                        needs_segment: false,
                        ..old(self).state
                    })
                },
            },
    {
        match self.state.segment {
            Some(segment) => {
                let seqnum: u32 = match self.state.segment_seqnum {
                    Some(seqnum) => seqnum,
                    None => event_seqnum,
                };
                self.state.needs_segment = false;
                Some((segment, seqnum))
            },
            None => None,
        }
    }

    /// Whether a child of the element has this name: only its pool is one.
    pub fn is_child_name(name: &str) -> (is_pool: bool)
        ensures
            is_pool == (name@ == "pool"@),
    {
        str_eq(name, "pool")
    }

    pub fn children_count(&self) -> (count: u32)
        ensures
            count == 0,
    {
        0
    }

    /// The name of the file for a graph of the pipeline.
    pub fn dot_file_name(timestamp: &str, name: &str, pipeline: &str) -> (file: String)
        ensures
            file@ == timestamp@ + "-"@ + name@ + "-"@ + pipeline@ + ".dot"@,
    {
        let mut file = timestamp.to_owned();
        file.append("-");
        file.append(name);
        file.append("-");
        file.append(pipeline);
        file.append(".dot");
        file
    }
}

/// A remembered seek is sent once, as it was remembered, to the pipeline that is in use; and where
/// there is no pipeline or no seek nothing is sent. A second request finds none.
pub proof fn law_a_seek_is_sent_once(state: SourceState, segment: Segment, again: Segment)
    ensures
        sought(state, segment).1 is Send <==> state.seek_event is Some && state.decoderpipe is Some,
        sought(state, segment).1 matches SeekAction::Send { decoderpipe, event } ==> state.decoderpipe
            == Some(decoderpipe) && state.seek_event == Some(event),
        sought(sought(state, segment).0, again).1 == SeekAction::IgnoreInitial,
        sought(state, segment).0.flushing == state.flushing,
        sought(state, segment).0.decoderpipe == state.decoderpipe,
        sought(state, segment).0.segment == state.segment,
{
}

/// A flushing seek that was sent is awaited under its own number, and the segment that goes out after
/// it has that number and is owed; one that does not flush changes nothing of this.
pub proof fn law_flushing_seeks_are_awaited(
    state: SourceState,
    segment: Segment,
    next: Segment,
    event_seqnum: u32,
)
    requires
        state.seek_event is Some,
        state.decoderpipe is Some,
    ensures
        ({
            let after = sought(state, segment).0;
            let event = state.seek_event->0;
            &&& event.flush ==> after.seek_seqnum == Some(event.seqnum) && after.needs_segment
                && after.seek_segment == Some(segment)
            &&& event.flush ==> sent_segment(
                SourceState { segment: Some(next), ..after },
                event_seqnum,
            ).1 == Some((next, event.seqnum))
            &&& !event.flush ==> after == (SourceState { seek_event: None, ..state })
        }),
{
}

/// Every sample with a buffer or a list is pushed, the buffer before the list; and before it goes its
/// segment where it differs from the last one. So of two samples with one segment only the first
/// pushes it.
pub proof fn law_segments_are_pushed_when_they_change(state: SourceState, a: Sample, b: Sample)
    ensures
        made_of(state, a).1 is Some <==> a.segment is Some && a.segment != state.segment,
        made_of(state, a).1 matches Some(segment) ==> a.segment == Some(segment),
        a.segment is Some ==> made_of(state, a).0.segment == a.segment,
        a.segment is Some && b.segment == a.segment ==> made_of(made_of(state, a).0, b).1 is None,
        made_of(state, a).2 is Ok <==> a.has_buffer || a.has_buffer_list,
        made_of(state, a).2 == Ok::<Created, FlowError>(Created::NewBuffer) <==> a.has_buffer,
        made_of(state, a).0 == (SourceState { segment: made_of(state, a).0.segment, ..state }),
{
}

/// The segment that goes downstream is the last one that came, and once it has gone none is owed;
/// before one came none goes. Its number is that of the last flushing seek, or else the event's own.
pub proof fn law_the_last_segment_goes_out(state: SourceState, sample: Sample, event_seqnum: u32)
    requires
        sample.segment is Some,
    ensures
        ({
            let (after, r) = sent_segment(made_of(state, sample).0, event_seqnum);
            &&& r matches Some((segment, seqnum)) && {
                &&& segment == sample.segment->0
                &&& state.segment_seqnum is Some ==> seqnum == state.segment_seqnum->0
                &&& state.segment_seqnum is None ==> seqnum == event_seqnum
            }
            &&& !after.needs_segment
        }),
        state.segment is None ==> sent_segment(state, event_seqnum) == (state, None::<(Segment, u32)>),
{
}

/// A source that has stopped keeps nothing of what it played: no pipeline, no segment and no seek,
/// so that nothing is handed out or awaited on their account.
pub proof fn law_nothing_is_left_after_a_stop(state: SourceState, segment: Segment, event_seqnum: u32)
    ensures
        stopped(state).decoderpipe is None,
        stopped(state).seek_seqnum is None,
        sought(stopped(state), segment).1 == SeekAction::IgnoreInitial,
        sent_segment(stopped(state), event_seqnum).1 is None,
        sent_segment(
            SourceState { segment: Some(segment), ..stopped(state) },
            event_seqnum,
        ).1 == Some((segment, event_seqnum)),
        stopped(state).flushing == state.flushing,
{
}

/// Caps that were waited for are set; at the end of a stream those on the sink are, where there are
/// any; and any other failure is passed on as it is.
pub proof fn law_negotiation_sets_the_caps_there_are(
    awaited: Result<u64, FlowError>,
    sticky_caps: Option<u64>,
    caps: u64,
)
    ensures
        negotiated(awaited, sticky_caps) == Negotiation::SetCaps(caps) <==> awaited == Ok::<
            u64,
            FlowError,
        >(caps) || (awaited == Err::<u64, FlowError>(FlowError::Eos) && sticky_caps == Some(caps)),
        negotiated(awaited, sticky_caps) matches Negotiation::Failed(error) ==> awaited == Err::<
            u64,
            FlowError,
        >(error) && error != FlowError::Eos,
        awaited matches Err(error) ==> error != FlowError::Eos ==> negotiated(awaited, sticky_caps)
            == Negotiation::Failed(error),
{
}

/// A stream starts under the ID that was asked for, whatever the pipeline calls it, or else under the
/// pipeline's own; and only where the pipeline has one.
pub proof fn law_streams_start_under_the_requested_id(
    requested: Option<Seq<char>>,
    a: Seq<char>,
    b: Seq<char>,
)
    ensures
        requested is Some ==> outgoing_id(requested, Some(a)) == requested && outgoing_id(
            requested,
            Some(a),
        ) == outgoing_id(requested, Some(b)),
        outgoing_id(None, Some(a)) == Some(a),
        outgoing_id(requested, None) is None,
{
}

} // verus!
