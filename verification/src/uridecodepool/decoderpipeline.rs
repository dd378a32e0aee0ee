//! A decoding pipeline of the pool: which stream of a URI it decodes, and when it seeks.

use super::source::SeekEvent;
use crate::text::str_eq;
use vstd::prelude::*;

verus! {

/// The kinds of streams.
#[derive(Debug, Clone, Copy, PartialEq, Eq, Structural)]
pub enum StreamType {
    Unknown,
    Audio,
    Video,
    Container,
    Text,
}

/// A stream of a URI.
#[derive(Debug)]
pub struct Stream {
    pub id: Option<String>,
    pub stream_type: StreamType,
}

/// A decoding pipeline. Sequence numbers, times and sources are plain numbers.
#[derive(Debug)]
pub struct DecoderPipeline {
    pub stream: Option<Stream>,
    pub stream_id: Option<String>,
    /// The name of the first structure of the caps.
    pub caps_name: Option<String>,
    pub unused_since: Option<u64>,
    pub bus_connected: bool,
    pub stream_selection_seqnum: u32,
    pub target_src: Option<u64>,
    pub pending_seek: Option<SeekEvent>,
    pub initial_seek: Option<SeekEvent>,
    pub last_seek_seqnum: u32,
    pub tearing_down: bool,
}

/// What a new pad of the decoder leads to.
#[derive(Debug, Clone, Copy, PartialEq, Eq, Structural)]
pub enum PadAction {
    /// The sink is linked already: the pad is left alone.
    Refuse,
    /// Link through the filter that the source made.
    LinkThroughFilter,
    /// Link to the sink.
    LinkToSink,
}

/// What the removal of a pad of the decoder leads to.
#[derive(Debug, Clone, Copy, PartialEq, Eq, Structural)]
pub enum PadRemoval {
    Nothing,
    /// Unlink the sink.
    Unlink,
    /// Unlink the sink, and take the element before it out of the pipeline.
    UnlinkAndRemoveElement,
}

/// A message on the bus of the pipeline.
#[derive(Debug)]
pub enum PipelineMessage {
    StreamCollection(Vec<Stream>),
    /// A context is needed or there, or an element has something to say.
    Context,
    Error,
    StateChanged { from_pipeline: bool, playing: bool },
    Other,
}

/// What a message leads to.
#[derive(Debug)]
pub enum PipelineAction {
    Nothing,
    /// Ask for this stream alone, under the sequence number.
    SelectStream { id: String, seqnum: u32 },
    PostToPoolBus,
    PostToSource(u64),
    /// Dump the graph of the pipeline.
    DumpGraph,
    /// Send the pending seek from another thread.
    SendPendingSeek,
}

/// How an attempt to send the selection of a stream goes on.
#[derive(Debug, Clone, Copy, PartialEq, Eq, Structural)]
pub enum SelectionAttempt {
    Send,
    GiveUp,
    TryAgain,
}

/// What a seek leads to.
#[derive(Debug, Clone, Copy, PartialEq, Eq, Structural)]
pub enum SeekStep {
    /// It is done with, successfully or not.
    Finished(bool),
    /// Ask the seek handler, and send the event if it agrees.
    AskHandler,
}

/// What the state of a pipeline was found to be.
#[derive(Debug, Clone, Copy, PartialEq, Eq, Structural)]
pub enum PipelineState {
    /// It could not be told, or a change has failed.
    Failed,
    BelowPaused,
    Paused,
    Playing,
}

/// Why a pipeline does not play.
#[derive(Debug, Clone, Copy, PartialEq, Eq, Structural)]
pub struct StateChangeError;

/// Whether a stream has this ID.
pub open spec fn has_id(stream: Stream, id: Seq<char>) -> bool {
    stream.id is Some && stream.id->0@ == id
}

/// Whether a stream is of a kind, and can be asked for.
pub open spec fn has_type(stream: Stream, stream_type: StreamType) -> bool {
    stream.stream_type == stream_type && stream.id is Some
}

/// The stream to select: the requested one, where there is one of that ID, or else the first of
/// the kind.
pub open spec fn is_selected(
    streams: Seq<Stream>,
    requested: Option<Seq<char>>,
    stream_type: StreamType,
    i: int,
) -> bool {
    &&& 0 <= i < streams.len()
    &&& if requested is Some && exists|k: int|
        0 <= k < streams.len() && has_id(#[trigger] streams[k], requested->0) {
        &&& has_id(streams[i], requested->0)
        &&& forall|k: int| 0 <= k < i ==> !has_id(#[trigger] streams[k], requested->0)
    } else {
        &&& has_type(streams[i], stream_type)
        &&& forall|k: int| 0 <= k < i ==> !has_type(#[trigger] streams[k], stream_type)
    }
}

/// Whether there is no stream to select.
pub open spec fn none_selected(
    streams: Seq<Stream>,
    requested: Option<Seq<char>>,
    stream_type: StreamType,
) -> bool {
    forall|k: int|
        0 <= k < streams.len() ==> !has_type(#[trigger] streams[k], stream_type) && (requested
            is Some ==> !has_id(streams[k], requested->0))
}

fn find_id(streams: &Vec<Stream>, id: &str) -> (position: Option<usize>)
    ensures
        match position {
            Some(i) => {
                &&& i < streams.len()
                &&& has_id(streams[i as int], id@)
                &&& forall|k: int| 0 <= k < i ==> !has_id(#[trigger] streams[k], id@)
            },
            None => forall|k: int|
                0 <= k < streams.len() ==> !has_id(#[trigger] streams[k], id@),
        },
{
    let mut i: usize = 0;
    while i < streams.len()
        invariant
            i <= streams.len(),
            forall|k: int| 0 <= k < i ==> !has_id(#[trigger] streams[k], id@),
        decreases streams.len() - i,
    {
        let found = match &streams[i].id {
            Some(stream_id) => str_eq(stream_id.as_str(), id),
            None => false,
        };
        if found {
            return Some(i);
        }
        i = i + 1;
    }
    None
}

fn find_type(streams: &Vec<Stream>, stream_type: StreamType) -> (position: Option<usize>)
    ensures
        match position {
            Some(i) => {
                &&& i < streams.len()
                &&& has_type(streams[i as int], stream_type)
                &&& forall|k: int| 0 <= k < i ==> !has_type(#[trigger] streams[k], stream_type)
            },
            None => forall|k: int|
                0 <= k < streams.len() ==> !has_type(#[trigger] streams[k], stream_type),
        },
{
    let mut i: usize = 0;
    while i < streams.len()
        invariant
            i <= streams.len(),
            forall|k: int| 0 <= k < i ==> !has_type(#[trigger] streams[k], stream_type),
        decreases streams.len() - i,
    {
        if streams[i].stream_type == stream_type && streams[i].id.is_some() {
            return Some(i);
        }
        i = i + 1;
    }
    None
}

/// Picks the stream of a collection to decode.
pub fn select_stream(
    streams: &Vec<Stream>,
    requested: &Option<String>,
    stream_type: StreamType,
) -> (position: Option<usize>)
    ensures
        match position {
            Some(i) => is_selected(
                streams@,
                super::element::text_of(*requested),
                stream_type,
                i as int,
            ),
            None => none_selected(streams@, super::element::text_of(*requested), stream_type),
        },
{
    if let Some(id) = requested {
        if let Some(i) = find_id(streams, id.as_str()) {
            assert(has_id(streams@[i as int], id@));
            return Some(i);
        }
    }
    find_type(streams, stream_type)
}

/// The kind of stream that a set of caps names.
pub open spec fn stream_type_of(caps_name: Option<Seq<char>>) -> StreamType {
    if caps_name == Some("video/x-raw"@) {
        StreamType::Video
    } else if caps_name == Some("audio/x-raw"@) {
        StreamType::Audio
    } else if caps_name == Some("text/x-raw"@) {
        StreamType::Text
    } else {
        StreamType::Unknown
    }
}

/// What a seek leads to, and what the pipeline keeps of it.
pub open spec fn seek_spec(
    pipeline: DecoderPipeline,
    event: SeekEvent,
    state: PipelineState,
) -> (DecoderPipeline, SeekStep) {
    if event.seqnum == pipeline.last_seek_seqnum {
        (pipeline, SeekStep::Finished(true))
    } else {
        match state {
            PipelineState::Failed => (pipeline, SeekStep::Finished(false)),
            PipelineState::Playing => (
                DecoderPipeline {
                    pending_seek: None,
                    last_seek_seqnum: event.seqnum,
                    ..pipeline
                },
                SeekStep::AskHandler,
            ),
            _ => (
                DecoderPipeline { pending_seek: Some(event), ..pipeline },
                SeekStep::Finished(true),
            ),
        }
    }
}

/// Two pipelines that agree in everything but the stream in use.
pub open spec fn same_but_stream(a: DecoderPipeline, b: DecoderPipeline) -> bool {
    a == DecoderPipeline { stream: a.stream, ..b }
}

impl DecoderPipeline {
    /// What a removed pad leads to: `linked` tells whether the sink's pad has a peer,
    /// `in_pipeline` whether the peer's element is in the pipeline itself.
    pub fn pad_removed(linked: bool, in_pipeline: bool) -> (r: PadRemoval)
        ensures
            r == if !linked {
                PadRemoval::Nothing
            } else if in_pipeline {
                PadRemoval::UnlinkAndRemoveElement
            } else {
                PadRemoval::Unlink
            },
    {
        if !linked {
            PadRemoval::Nothing
        } else if in_pipeline {
            PadRemoval::UnlinkAndRemoveElement
        } else {
            PadRemoval::Unlink
        }
    }

    /// What a new pad leads to: one pad at a time feeds the sink, through a filter where the
    /// source has made one.
    pub fn pad_added(sink_linked: bool, has_filter: bool) -> (r: PadAction)
        ensures
            r == if sink_linked {
                PadAction::Refuse
            } else if has_filter {
                PadAction::LinkThroughFilter
            } else {
                PadAction::LinkToSink
            },
    {
        if sink_linked {
            return PadAction::Refuse;
        }
        if has_filter {
            return PadAction::LinkThroughFilter;
        }
        PadAction::LinkToSink
    }

    /// Whether a link to the sink that failed is an error: not when the pipeline was stopped in
    /// the meantime.
    pub fn link_failure_is_error(&self) -> (is_error: bool)
        ensures
            is_error == self.bus_connected,
    {
        self.bus_connected
    }

    /// The kind of stream that is decoded.
    pub fn stream_type(&self) -> (stream_type: StreamType)
        ensures
            stream_type == stream_type_of(super::element::text_of(self.caps_name)),
    {
        match &self.caps_name {
            Some(name) => {
                if str_eq(name.as_str(), "video/x-raw") {
                    StreamType::Video
                } else if str_eq(name.as_str(), "audio/x-raw") {
                    StreamType::Audio
                } else if str_eq(name.as_str(), "text/x-raw") {
                    StreamType::Text
                } else {
                    StreamType::Unknown
                }
            },
            None => StreamType::Unknown,
        }
    }

    /// The ID of the stream that was asked for.
    pub fn requested_stream_id(&self) -> (id: Option<String>)
        ensures
            super::element::text_of(id) == super::element::text_of(self.stream_id),
    {
        match &self.stream_id {
            Some(id) => Some(id.clone()),
            None => None,
        }
    }

    /// Gets the pipeline ready for another use. True where its bus has to be listened to from now
    /// on.
    pub fn reset(
        &mut self,
        caps_name: Option<String>,
        stream_id: Option<String>,
        next_seqnum: u32,
    ) -> (connect_bus: bool)
        ensures
            connect_bus == !old(self).bus_connected,
            *final(self) == ready_again(*old(self), caps_name, stream_id, next_seqnum),
            *final(self) == (DecoderPipeline {
                unused_since: None,
                stream: None,
                caps_name,
                stream_id,
                stream_selection_seqnum: next_seqnum,
                bus_connected: true,
                ..*old(self)
            }),
    {
        self.unused_since = None;
        self.stream = None;
        self.caps_name = caps_name;
        self.stream_id = stream_id;
        self.stream_selection_seqnum = next_seqnum;
        if !self.bus_connected {
            self.bus_connected = true;
            true
        } else {
            false
        }
    }

    /// Takes a seek. One that was sent already counts as done; one that comes before the pipeline
    /// plays is kept for later.
    pub fn seek(&mut self, event: SeekEvent, state: PipelineState) -> (step: SeekStep)
        ensures
            (*final(self), step) == seek_spec(*old(self), event, state),
    {
        if self.last_seek_seqnum == event.seqnum {
            return SeekStep::Finished(true);
        }
        match state {
            PipelineState::Failed => SeekStep::Finished(false),
            PipelineState::Playing => {
                self.pending_seek = None;
                self.last_seek_seqnum = event.seqnum;
                SeekStep::AskHandler
            },
            _ => {
                self.pending_seek = Some(event);
                SeekStep::Finished(true)
            },
        }
    }

    /// The seek to send now that the pipeline plays; it is pending no more, whether or not the
    /// handler lets it go out.
    pub fn take_pending_seek(&mut self) -> (event: Option<SeekEvent>)
        ensures
            event == old(self).pending_seek,
            *final(self) == (DecoderPipeline { pending_seek: None, ..*old(self) }),
    {
        let event = self.pending_seek;
        self.pending_seek = None;
        event
    }

    /// Follows the messages of the pipeline.
    pub fn handle_bus_message(&mut self, message: PipelineMessage, pool_has_bus: bool) -> (action:
        PipelineAction)
        ensures
            same_but_stream(*final(self), *old(self)),
            reacts(*old(self), message, pool_has_bus, action),
            !(message is StreamCollection) ==> *final(self) == *old(self),
            match message {
                PipelineMessage::StreamCollection(streams) => {
                    let requested = super::element::text_of(old(self).stream_id);
                    let stream_type = stream_type_of(
                        super::element::text_of(old(self).caps_name),
                    );
                    if none_selected(streams@, requested, stream_type) {
                        action is Nothing && *final(self) == *old(self)
                    } else {
                        exists|i: int|
                            {
                                &&& is_selected(streams@, requested, stream_type, i)
                                &&& final(self).stream is Some
                                &&& final(self).stream->0.stream_type == (
                                #[trigger] streams@[i]).stream_type
                                &&& super::element::text_of(final(self).stream->0.id)
                                    == super::element::text_of(streams@[i].id)
                                &&& action matches PipelineAction::SelectStream { id, seqnum }
                                    && Some(id@) == super::element::text_of(streams@[i].id)
                                    && seqnum == old(self).stream_selection_seqnum
                            }
                    }
                },
                PipelineMessage::Context => if pool_has_bus {
                    action is PostToPoolBus
                } else {
                    match old(self).target_src {
                        Some(source) => action == PipelineAction::PostToSource(source),
                        None => action is Nothing,
                    }
                },
                PipelineMessage::Error => action is DumpGraph,
                PipelineMessage::StateChanged { from_pipeline, playing } => if from_pipeline
                    && playing && old(self).pending_seek is Some {
                    action is SendPendingSeek
                } else {
                    action is Nothing
                },
                PipelineMessage::Other => action is Nothing,
            },
    {
        match message {
            PipelineMessage::StreamCollection(streams) => {
                let stream_type = self.stream_type();
                match select_stream(&streams, &self.stream_id, stream_type) {
                    Some(i) => {
                        let stream = &streams[i];
                        match &stream.id {
                            Some(id) => {
                                self.stream = Some(
                                    Stream {
                                        id: Some(id.clone()),
                                        stream_type: stream.stream_type,
                                    },
                                );
                                PipelineAction::SelectStream {
                                    id: id.clone(),
                                    seqnum: self.stream_selection_seqnum,
                                }
                            },
                            None => PipelineAction::Nothing,
                        }
                    },
                    None => PipelineAction::Nothing,
                }
            },
            PipelineMessage::Context => {
                if pool_has_bus {
                    PipelineAction::PostToPoolBus
                } else {
                    match self.target_src {
                        Some(source) => PipelineAction::PostToSource(source),
                        None => PipelineAction::Nothing,
                    }
                }
            },
            PipelineMessage::Error => PipelineAction::DumpGraph,
            PipelineMessage::StateChanged { from_pipeline, playing } => {
                if from_pipeline && playing && self.pending_seek.is_some() {
                    PipelineAction::SendPendingSeek
                } else {
                    PipelineAction::Nothing
                }
            },
            PipelineMessage::Other => PipelineAction::Nothing,
        }
    }

    /// How an attempt to send the selection of a stream goes on: it needs the lock that a teardown
    /// holds, and is given up only then.
    pub fn selection_attempt(&self, locked: bool) -> (attempt: SelectionAttempt)
        ensures
            attempt == if locked {
                SelectionAttempt::Send
            } else if self.tearing_down {
                SelectionAttempt::GiveUp
            } else {
                SelectionAttempt::TryAgain
            },
    {
        if locked {
            SelectionAttempt::Send
        } else if self.tearing_down {
            SelectionAttempt::GiveUp
        } else {
            SelectionAttempt::TryAgain
        }
    }

    /// Gets ready to play: not with a pool that is gone, and with the initial seek pending where
    /// the pipeline starts from scratch.
    pub fn play(&mut self, pool_deinitialized: bool, state: PipelineState) -> (r: Result<
        (),
        StateChangeError,
    >)
        ensures
            r is Err <==> pool_deinitialized || state == PipelineState::Failed,
            !pool_deinitialized ==> *final(self) == playing(*old(self), state),
            *final(self) == if pool_deinitialized {
                *old(self)
            } else {
                DecoderPipeline {
                    tearing_down: false,
                    pending_seek: if state == PipelineState::BelowPaused
                        && old(self).initial_seek is Some {
                        old(self).initial_seek
                    } else {
                        old(self).pending_seek
                    },
                    ..*old(self)
                }
            },
    {
        if pool_deinitialized {
            return Err(StateChangeError);
        }
        self.tearing_down = false;
        match state {
            PipelineState::Failed => return Err(StateChangeError),
            PipelineState::BelowPaused => {
                if let Some(event) = self.initial_seek {
                    self.pending_seek = Some(event);
                }
            },
            _ => {},
        }
        Ok(())
    }

    /// Sets the source that uses the pipeline.
    pub fn set_target_src(&mut self, target_src: Option<u64>)
        ensures
            *final(self) == used_by(*old(self), target_src),
            *final(self) == (DecoderPipeline {
                target_src,
                unused_since: if target_src is Some {
                    None
                } else {
                    old(self).unused_since
                },
                ..*old(self)
            }),
    {
        if target_src.is_some() {
            self.unused_since = None;
        }
        self.target_src = target_src;
    }

    /// Gives the pipeline up: it has no source and no stream. Its teardown follows.
    pub fn release(&mut self)
        ensures
            *final(self) == (DecoderPipeline { target_src: None, stream: None, ..*old(self) }),
    {
        self.set_target_src(None);
        self.stream = None;
    }

    /// Begins the teardown of a pipeline that was given up. A selection that is still on its way
    /// is under an old sequence number from now on.
    pub fn begin_teardown(&mut self, next_seqnum: u32)
        ensures
            *final(self) == (DecoderPipeline {
                tearing_down: true,
                stream_selection_seqnum: next_seqnum,
                ..*old(self)
            }),
    {
        self.tearing_down = true;
        self.stream_selection_seqnum = next_seqnum;
    }

    /// Ends the teardown: true, and the pipeline is ready to be used again, where it went well.
    pub fn end_teardown(&mut self, succeeded: bool, now: u64) -> (released: bool)
        ensures
            released == succeeded,
            old(self).tearing_down && old(self).target_src is None && old(self).stream is None
                ==> *final(self) == given_back(
                *old(self),
                old(self).stream_selection_seqnum,
                succeeded,
                now,
            ),
            *final(self) == (DecoderPipeline {
                unused_since: if succeeded {
                    Some(now)
                } else {
                    old(self).unused_since
                },
                ..*old(self)
            }),
    {
        if succeeded {
            self.unused_since = Some(now);
        }
        succeeded
    }

    /// Stops the pipeline for good: true where its bus was listened to.
    pub fn stop(&mut self) -> (disconnect_bus: bool)
        ensures
            disconnect_bus == old(self).bus_connected,
            *final(self) == (DecoderPipeline {
                bus_connected: false,
                tearing_down: true,
                ..*old(self)
            }),
    {
        let connected = self.bus_connected;
        self.bus_connected = false;
        self.tearing_down = true;
        connected
    }
}

/// A seek that reaches a pipeline again is sent once: from the second time on it is done already,
/// and changes nothing.
pub proof fn law_seek_is_sent_once(
    pipeline: DecoderPipeline,
    event: SeekEvent,
    state: PipelineState,
)
    requires
        seek_spec(pipeline, event, PipelineState::Playing).1 == SeekStep::AskHandler,
    ensures
        ({
            let sent = seek_spec(pipeline, event, PipelineState::Playing).0;
            seek_spec(sent, event, state) == (sent, SeekStep::Finished(true))
        }),
{
}

/// A seek that comes too early is not lost: it is the one that goes out once the pipeline plays.
pub proof fn law_early_seek_is_kept(
    pipeline: DecoderPipeline,
    event: SeekEvent,
    state: PipelineState,
)
    requires
        event.seqnum != pipeline.last_seek_seqnum,
        state == PipelineState::BelowPaused || state == PipelineState::Paused,
    ensures
        seek_spec(pipeline, event, state).0.pending_seek == Some(event),
{
}

/// There is at most one stream to select.
pub proof fn law_selection_is_unique(
    streams: Seq<Stream>,
    requested: Option<Seq<char>>,
    stream_type: StreamType,
    i: int,
    j: int,
)
    requires
        is_selected(streams, requested, stream_type, i),
        is_selected(streams, requested, stream_type, j),
    ensures
        i == j,
{
}

/// The requested stream is selected wherever it is there, of whatever kind it is; otherwise one of
/// the wanted kind is; and nothing is selected exactly where there is neither.
pub proof fn law_the_requested_stream_is_selected(
    streams: Seq<Stream>,
    requested: Option<Seq<char>>,
    stream_type: StreamType,
    i: int,
    k: int,
)
    requires
        0 <= k < streams.len(),
        is_selected(streams, requested, stream_type, i),
    ensures
        0 <= i < streams.len(),
        streams[i].id is Some,
        requested is Some && streams[k].id is Some && streams[k].id->0@ == requested->0 ==> streams[i].id->0@
            == requested->0 && i <= k,
        streams[i].stream_type == stream_type || (requested is Some && streams[i].id->0@
            == requested->0),
        requested is None && streams[k].stream_type == stream_type && streams[k].id is Some ==> i <= k,
        !none_selected(streams, requested, stream_type),
{
    if requested is Some && has_id(streams[k], requested->0) {
        assert(exists|k: int| 0 <= k < streams.len() && has_id(#[trigger] streams[k], requested->0));
    }
    let selected = streams[i];
    if none_selected(streams, requested, stream_type) {
        assert(!has_type(streams[i], stream_type) && (requested is Some ==> !has_id(
            streams[i],
            requested->0,
        )));
    }
}

/// The kinds of streams go by the caps `video/x-raw`, `audio/x-raw` and `text/x-raw`, one for each,
/// and any other caps, or none, name no kind.
pub proof fn law_kinds_go_by_their_caps(caps_name: Option<Seq<char>>)
    ensures
        stream_type_of(caps_name) == StreamType::Video <==> caps_name == Some("video"@ + "/x-raw"@),
        stream_type_of(caps_name) == StreamType::Audio <==> caps_name == Some("audio"@ + "/x-raw"@),
        stream_type_of(caps_name) == StreamType::Text <==> caps_name == Some("text"@ + "/x-raw"@),
        stream_type_of(caps_name) != StreamType::Container,
{
    reveal_strlit("video");
    reveal_strlit("audio");
    reveal_strlit("text");
    reveal_strlit("/x-raw");
    reveal_strlit("video/x-raw");
    reveal_strlit("audio/x-raw");
    reveal_strlit("text/x-raw");
    assert("video/x-raw"@ =~= "video"@ + "/x-raw"@);
    assert("audio/x-raw"@ =~= "audio"@ + "/x-raw"@);
    assert("text/x-raw"@ =~= "text"@ + "/x-raw"@);
    assert("video/x-raw"@[0] == 'v' && "audio/x-raw"@[0] == 'a' && "text/x-raw"@[0] == 't');
}

/// A seek is sent exactly where it is a new one and the pipeline plays, and then it is the last one
/// and none is pending; otherwise the last one stays what it was. It fails only where the pipeline
/// has, and nothing changes then.
pub proof fn law_only_playing_pipelines_are_sought(
    pipeline: DecoderPipeline,
    event: SeekEvent,
    state: PipelineState,
)
    ensures
        ({
            let (after, step) = seek_spec(pipeline, event, state);
            let is_new = event.seqnum != pipeline.last_seek_seqnum;
            &&& step == SeekStep::AskHandler <==> is_new && state == PipelineState::Playing
            &&& step == SeekStep::AskHandler ==> after.last_seek_seqnum == event.seqnum
                && after.pending_seek is None
            &&& step != SeekStep::AskHandler ==> after.last_seek_seqnum == pipeline.last_seek_seqnum
            &&& step == SeekStep::Finished(false) <==> is_new && state == PipelineState::Failed
            &&& step == SeekStep::Finished(false) || !is_new ==> after == pipeline
            &&& after.stream == pipeline.stream && after.stream_id == pipeline.stream_id
                && after.caps_name == pipeline.caps_name && after.target_src == pipeline.target_src
                && after.initial_seek == pipeline.initial_seek
        }),
{
}

/// A pipeline that gets ready to play: nothing of it is being torn down, and the initial seek is
/// pending where it starts from scratch.
pub open spec fn playing(pipeline: DecoderPipeline, state: PipelineState) -> DecoderPipeline {
    DecoderPipeline {
        tearing_down: false,
        pending_seek: if state == PipelineState::BelowPaused && pipeline.initial_seek is Some {
            pipeline.initial_seek
        } else {
            pipeline.pending_seek
        },
        ..pipeline
    }
}

/// A pipeline that was given up and torn down.
pub open spec fn given_back(
    pipeline: DecoderPipeline,
    next_seqnum: u32,
    succeeded: bool,
    now: u64,
) -> DecoderPipeline {
    DecoderPipeline {
        target_src: None,
        stream: None,
        tearing_down: true,
        stream_selection_seqnum: next_seqnum,
        unused_since: if succeeded {
            Some(now)
        } else {
            pipeline.unused_since
        },
        ..pipeline
    }
}

/// The initial seek of a pipeline that starts from scratch is sent once it plays: it is pending, it
/// goes out as it is, and an earlier one that was pending does not. In a pipeline that runs already
/// nothing is added.
pub proof fn law_the_initial_seek_is_sent(pipeline: DecoderPipeline, state: PipelineState)
    ensures
        state == PipelineState::BelowPaused && pipeline.initial_seek is Some ==> playing(
            pipeline,
            state,
        ).pending_seek == pipeline.initial_seek,
        state != PipelineState::BelowPaused || pipeline.initial_seek is None ==> playing(
            pipeline,
            state,
        ).pending_seek == pipeline.pending_seek,
        !playing(pipeline, state).tearing_down,
        playing(pipeline, state).initial_seek == pipeline.initial_seek,
{
}

/// What was given back has no source, no stream and no selection on its way, and is known to be unused
/// since the end of its teardown exactly where that went well; what it was asked for is still known,
/// so that it can serve the same again.
pub proof fn law_what_is_given_back_can_serve_again(
    pipeline: DecoderPipeline,
    next_seqnum: u32,
    succeeded: bool,
    now: u64,
)
    ensures
        ({
            let after = given_back(pipeline, next_seqnum, succeeded, now);
            &&& after.target_src is None && after.stream is None
            &&& after.stream_selection_seqnum == next_seqnum
            &&& succeeded ==> after.unused_since == Some(now)
            &&& !succeeded ==> after.unused_since == pipeline.unused_since
            &&& after.stream_id == pipeline.stream_id && after.caps_name == pipeline.caps_name
            &&& after.tearing_down
        }),
{
}

/// A pipeline that is ready for another use.
pub open spec fn ready_again(
    pipeline: DecoderPipeline,
    caps_name: Option<String>,
    stream_id: Option<String>,
    next_seqnum: u32,
) -> DecoderPipeline {
    DecoderPipeline {
        unused_since: None,
        stream: None,
        caps_name,
        stream_id,
        stream_selection_seqnum: next_seqnum,
        bus_connected: true,
        ..pipeline
    }
}

/// A pipeline with a source that uses it, or none.
pub open spec fn used_by(pipeline: DecoderPipeline, target_src: Option<u64>) -> DecoderPipeline {
    DecoderPipeline {
        target_src,
        unused_since: if target_src is Some {
            None
        } else {
            pipeline.unused_since
        },
        ..pipeline
    }
}

/// What a pipeline decodes after it was made ready goes by the new request alone: it is in use, has no
/// stream yet, listens to its bus, and its selections have the new number. Who uses it, and the seeks
/// that are on their way, are left alone.
pub proof fn law_a_new_use_goes_by_the_new_request(
    pipeline: DecoderPipeline,
    caps_name: Option<String>,
    stream_id: Option<String>,
    next_seqnum: u32,
)
    ensures
        ({
            let after = ready_again(pipeline, caps_name, stream_id, next_seqnum);
            &&& after.unused_since is None && after.stream is None
            &&& after.stream_id == stream_id && after.caps_name == caps_name
            &&& after.stream_selection_seqnum == next_seqnum
            &&& after.bus_connected
            &&& after.target_src == pipeline.target_src
            &&& after.pending_seek == pipeline.pending_seek
            &&& after.last_seek_seqnum == pipeline.last_seek_seqnum
        }),
{
}

/// A pipeline that a source uses is not unused; and giving it up alone does not make it so.
pub proof fn law_used_pipelines_are_not_unused(pipeline: DecoderPipeline, source: u64)
    ensures
        used_by(pipeline, Some(source)).unused_since is None,
        used_by(pipeline, Some(source)).target_src == Some(source),
        used_by(pipeline, None).target_src is None,
        used_by(pipeline, None).unused_since == pipeline.unused_since,
        used_by(pipeline, Some(source)).stream == pipeline.stream,
{
}

/// What a message leads to, as far as it is no collection of streams.
pub open spec fn reacts(
    pipeline: DecoderPipeline,
    message: PipelineMessage,
    pool_has_bus: bool,
    action: PipelineAction,
) -> bool {
    match message {
        PipelineMessage::StreamCollection(_) => action is Nothing || action is SelectStream,
        PipelineMessage::Context => if pool_has_bus {
            action is PostToPoolBus
        } else {
            match pipeline.target_src {
                Some(source) => action == PipelineAction::PostToSource(source),
                None => action is Nothing,
            }
        },
        PipelineMessage::Error => action is DumpGraph,
        PipelineMessage::StateChanged { from_pipeline, playing } => if from_pipeline && playing
            && pipeline.pending_seek is Some {
            action is SendPendingSeek
        } else {
            action is Nothing
        },
        PipelineMessage::Other => action is Nothing,
    }
}

/// A pending seek goes out exactly when the pipeline itself plays; contexts reach the pool where it
/// listens, and else the source that uses the pipeline; errors dump the graph; and streams are
/// selected for nothing but a collection.
pub proof fn law_messages_lead_to_their_actions(
    pipeline: DecoderPipeline,
    message: PipelineMessage,
    pool_has_bus: bool,
    action: PipelineAction,
)
    requires
        reacts(pipeline, message, pool_has_bus, action),
    ensures
        action is SendPendingSeek <==> pipeline.pending_seek is Some && message
            == (PipelineMessage::StateChanged { from_pipeline: true, playing: true }),
        action is PostToPoolBus <==> message is Context && pool_has_bus,
        action is PostToSource <==> message is Context && !pool_has_bus && pipeline.target_src is Some,
        action matches PipelineAction::PostToSource(source) ==> pipeline.target_src == Some(source),
        action is DumpGraph <==> message is Error,
        action is SelectStream ==> message is StreamCollection,
{
}

} // verus!
