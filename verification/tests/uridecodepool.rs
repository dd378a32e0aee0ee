use media_plugins::uridecodepool::decoderpipeline::{
    select_stream, DecoderPipeline, PadAction, PadRemoval, PipelineAction, PipelineMessage,
    PipelineState, SeekStep, SelectionAttempt, StateChangeError, Stream, StreamType,
};
use media_plugins::uridecodepool::element::{
    BusAction, BusMessage, Created, Negotiation, PlayResult, Query, QueryAction, Sample,
    SeekAction, Settings, StartError, UriDecodePoolSrc,
};
use media_plugins::uridecodepool::source::{
    requested_stream_started, AfterPull, BeforePull, FlowError, Pulled, SeekEvent, Segment,
    SourceState, Wanted,
};
use media_plugins::uridecodepool::validate::{
    check_pipeline_use_count, check_pipelines, register_validate_actions, Element, PoolSource,
    ScenarioView,
};

fn segment(start: u64) -> Segment {
    Segment {
        flags: 0,
        rate_bits: 1.0f64.to_bits(),
        applied_rate_bits: 1.0f64.to_bits(),
        format: 3,
        base: 0,
        offset: 0,
        start,
        stop: u64::MAX,
        time: start,
        position: start,
        duration: u64::MAX,
    }
}

fn seek(seqnum: u32, flush: bool) -> SeekEvent {
    SeekEvent { id: seqnum as u64, seqnum, flush }
}

fn source() -> UriDecodePoolSrc {
    UriDecodePoolSrc {
        settings: Settings::default(),
        state: SourceState::new(),
        start_completed: false,
    }
}

#[test]
fn stream_has_started_when_the_ids_agree() {
    assert!(requested_stream_started(Some("a"), Some("a")));
    assert!(!requested_stream_started(Some("a"), Some("b")));
    assert!(!requested_stream_started(None, None));
    assert!(!requested_stream_started(Some("a"), None));
}

#[test]
fn nothing_is_handed_out_before_the_flush() {
    let mut src = source();
    src.set_decoderpipe(5);
    assert_eq!(src.decoderpipe(), Some(5));
    assert!(src.is_seekable());
    src.note_seek(seek(17, true));
    assert_eq!(
        src.do_seek(segment(4)),
        SeekAction::Send { decoderpipe: 5, event: seek(17, true) }
    );
    let state = &mut src.state;
    assert_eq!(state.before_pull(Wanted::Caps, true, true, true), BeforePull::Pull);
    assert_eq!(state.after_pull(Wanted::Sample, Pulled::Sample, true), AfterPull::Continue);
    assert_eq!(
        state.after_pull(Wanted::Sample, Pulled::FlushStop { seqnum: 16 }, true),
        AfterPull::Continue
    );
    assert_eq!(state.after_pull(Wanted::Sample, Pulled::Sample, true), AfterPull::Continue);
    let eos = Pulled::Nothing { eos: true, sticky_segment: None };
    assert_eq!(state.after_pull(Wanted::Sample, eos, true), AfterPull::Continue);
    state.after_pull(Wanted::Sample, Pulled::FlushStop { seqnum: 17 }, true);
    assert_eq!(state.after_pull(Wanted::Sample, Pulled::Sample, true), AfterPull::GiveSample);
    // The segment of the seek precedes the end of the stream.
    assert_eq!(
        state.after_pull(Wanted::Sample, eos, true),
        AfterPull::PushSegmentAndFail { segment: segment(4), error: FlowError::Eos }
    );
}

#[test]
fn pulled_objects() {
    let mut state = SourceState::new();
    assert_eq!(state.before_pull(Wanted::Caps, true, true, false), BeforePull::GiveCaps);
    assert_eq!(state.before_pull(Wanted::Caps, false, true, false), BeforePull::Pull);
    assert_eq!(state.before_pull(Wanted::Segment, true, true, true), BeforePull::GiveSegment);
    assert_eq!(state.before_pull(Wanted::Sample, true, true, true), BeforePull::Pull);
    assert_eq!(state.after_pull(Wanted::Sample, Pulled::Tag, false), AfterPull::ForwardTag);
    let caps = Pulled::Caps { caps: 9 };
    assert_eq!(state.after_pull(Wanted::Caps, caps, true), AfterPull::GiveCaps { caps: 9 });
    assert_eq!(state.after_pull(Wanted::Sample, caps, true), AfterPull::SetCaps { caps: 9 });
    assert_eq!(state.after_pull(Wanted::Sample, caps, false), AfterPull::Continue);
    assert_eq!(state.after_pull(Wanted::Sample, Pulled::OtherEvent, true), AfterPull::Continue);
    assert_eq!(state.after_pull(Wanted::Sample, Pulled::OtherObject, true), AfterPull::Continue);
    let eos = Pulled::Nothing { eos: true, sticky_segment: Some(segment(1)) };
    assert_eq!(state.after_pull(Wanted::Sample, eos, true), AfterPull::Fail(FlowError::Eos));
    assert_eq!(SourceState::caps_refused(true), FlowError::Flushing);
    assert_eq!(SourceState::caps_refused(false), FlowError::NotNegotiated);
}

#[test]
fn flushing_ends_a_round() {
    let mut src = source();
    src.unlock();
    assert_eq!(
        src.state.before_pull(Wanted::Caps, true, true, true),
        BeforePull::Fail(FlowError::Flushing)
    );
    let nothing = Pulled::Nothing { eos: false, sticky_segment: None };
    assert_eq!(
        src.state.after_pull(Wanted::Caps, nothing, true),
        AfterPull::Fail(FlowError::Flushing)
    );
    assert_eq!(src.state.hand_out(), Err(FlowError::Flushing));
    src.unlock_stop();
    assert_eq!(src.state.hand_out(), Ok(()));
    assert_eq!(src.state.after_pull(Wanted::Caps, nothing, true), AfterPull::Continue);
}

#[test]
fn seeks_of_a_source() {
    let mut src = source();
    assert_eq!(src.do_seek(segment(0)), SeekAction::IgnoreInitial);
    src.note_seek(seek(3, false));
    assert_eq!(src.do_seek(segment(0)), SeekAction::NoPipeline);
    assert_eq!(src.do_seek(segment(0)), SeekAction::IgnoreInitial);
    src.set_decoderpipe(1);
    src.note_seek(seek(4, false));
    assert_eq!(
        src.do_seek(segment(0)),
        SeekAction::Send { decoderpipe: 1, event: seek(4, false) }
    );
    assert_eq!(src.state.seek_seqnum, None);
}

#[test]
fn start_and_bus_of_a_source() {
    let mut src = source();
    assert_eq!(src.start(), Err(StartError::NoUri));
    src.settings.uri = Some("file:///x".to_string());
    assert_eq!(src.start(), Ok(()));
    assert_eq!(src.played(PlayResult::Failure), Err(StartError::PlayFailed));
    assert_eq!(src.played(PlayResult::Pending), Ok(false));
    src.set_decoderpipe(8);
    let changed = BusMessage::StateChanged { from_pipeline: true, nothing_pending: true };
    assert_eq!(src.handle_bus_message(7, changed), BusAction::StopListening);
    assert_eq!(src.handle_bus_message(8, changed), BusAction::CompleteStart);
    assert_eq!(src.handle_bus_message(8, changed), BusAction::Nothing);
    assert_eq!(src.handle_bus_message(8, BusMessage::Error), BusAction::PostError);
    assert_eq!(src.stop(), 8);
    assert!(!src.start_completed);
    assert_eq!(src.handle_bus_message(8, BusMessage::Other), BusAction::StopListening);
    assert_eq!(src.played(PlayResult::Success), Ok(true));
    assert!(src.start_completed);
}

#[test]
fn negotiation_of_a_source() {
    assert_eq!(UriDecodePoolSrc::negotiate(Ok(4), None), Negotiation::SetCaps(4));
    let eos = Err(FlowError::Eos);
    assert_eq!(UriDecodePoolSrc::negotiate(eos, Some(5)), Negotiation::SetCaps(5));
    assert_eq!(UriDecodePoolSrc::negotiate(eos, None), Negotiation::NothingToSet);
    assert_eq!(
        UriDecodePoolSrc::negotiate(Err(FlowError::Flushing), Some(5)),
        Negotiation::Failed(FlowError::Flushing)
    );
}

#[test]
fn samples_and_segments_of_a_source() {
    let mut src = source();
    assert_eq!(src.outgoing_segment(3), None);
    let sample =
        Sample { segment: Some(segment(2)), has_buffer: true, has_buffer_list: false };
    assert_eq!(src.create(sample), (Some(segment(2)), Ok(Created::NewBuffer)));
    assert_eq!(src.create(sample), (None, Ok(Created::NewBuffer)));
    let list = Sample { segment: None, has_buffer: false, has_buffer_list: true };
    assert_eq!(src.create(list), (None, Ok(Created::NewBufferList)));
    let empty = Sample { segment: None, has_buffer: false, has_buffer_list: false };
    assert_eq!(src.create(empty), (None, Err(FlowError::Error)));
    src.set_decoderpipe(1);
    assert_eq!(src.outgoing_segment(3), Some((segment(2), 3)));
    assert!(!src.state.needs_segment);
    src.note_seek(seek(12, true));
    src.do_seek(segment(9));
    assert_eq!(src.outgoing_segment(3), Some((segment(2), 12)));
}

#[test]
fn queries_and_names_of_a_source() {
    let mut src = source();
    assert_eq!(src.query(&Query::Uri), QueryAction::AnswerUri);
    assert_eq!(src.query(&Query::Duration), QueryAction::AskParent);
    src.set_decoderpipe(6);
    assert_eq!(src.query(&Query::Duration), QueryAction::AskPipeline(6));
    let seek = Query::Custom(Some("can-seek-in-null".to_string()));
    assert_eq!(src.query(&seek), QueryAction::AnswerSeekableInNull);
    assert_eq!(src.query(&Query::Custom(None)), QueryAction::AskPipeline(6));
    assert_eq!(src.query(&Query::Other), QueryAction::AskParent);
    assert_eq!(src.stream_start_id(None), None);
    assert_eq!(src.stream_start_id(Some("a".to_string())).as_deref(), Some("a"));
    src.settings.stream_id = Some("b".to_string());
    assert_eq!(src.stream_start_id(Some("a".to_string())).as_deref(), Some("b"));
    assert!(UriDecodePoolSrc::is_child_name("pool"));
    assert!(!UriDecodePoolSrc::is_child_name("sink"));
    assert_eq!(src.children_count(), 0);
    assert_eq!(UriDecodePoolSrc::dot_file_name("0:01", "src", "p"), "0:01-src-p.dot");
    assert_eq!(src.settings.caps[0].name, "video/x-raw");
}

fn stream(id: Option<&str>, stream_type: StreamType) -> Stream {
    Stream { id: id.map(|id| id.to_string()), stream_type }
}

fn pipeline() -> DecoderPipeline {
    DecoderPipeline {
        stream: None,
        stream_id: None,
        caps_name: Some("video/x-raw".to_string()),
        unused_since: Some(3),
        bus_connected: false,
        stream_selection_seqnum: 1,
        target_src: None,
        pending_seek: None,
        initial_seek: None,
        last_seek_seqnum: 0,
        tearing_down: false,
    }
}

#[test]
fn streams_are_selected() {
    let streams = vec![
        stream(Some("a"), StreamType::Audio),
        stream(None, StreamType::Video),
        stream(Some("b"), StreamType::Video),
        stream(Some("c"), StreamType::Video),
    ];
    let wanted = |id: &str| Some(id.to_string());
    assert_eq!(select_stream(&streams, &None, StreamType::Video), Some(2));
    assert_eq!(select_stream(&streams, &wanted("c"), StreamType::Video), Some(3));
    assert_eq!(select_stream(&streams, &wanted("a"), StreamType::Video), Some(0));
    assert_eq!(select_stream(&streams, &wanted("x"), StreamType::Video), Some(2));
    assert_eq!(select_stream(&streams, &None, StreamType::Text), None);

    let mut p = pipeline();
    match p.handle_bus_message(PipelineMessage::StreamCollection(streams), false) {
        PipelineAction::SelectStream { id, seqnum } => {
            assert_eq!(id, "b");
            assert_eq!(seqnum, 1);
        }
        other => panic!("{other:?}"),
    }
    assert_eq!(p.stream.unwrap().id.as_deref(), Some("b"));
}

#[test]
fn kinds_of_streams() {
    let mut p = pipeline();
    assert_eq!(p.stream_type(), StreamType::Video);
    p.caps_name = Some("audio/x-raw".to_string());
    assert_eq!(p.stream_type(), StreamType::Audio);
    p.caps_name = Some("text/x-raw".to_string());
    assert_eq!(p.stream_type(), StreamType::Text);
    p.caps_name = Some("video/x-h264".to_string());
    assert_eq!(p.stream_type(), StreamType::Unknown);
    p.caps_name = None;
    assert_eq!(p.stream_type(), StreamType::Unknown);
}

#[test]
fn seeks_of_a_pipeline() {
    let mut p = pipeline();
    let event = seek(5, true);
    assert_eq!(p.seek(event, PipelineState::Failed), SeekStep::Finished(false));
    assert_eq!(p.seek(event, PipelineState::Paused), SeekStep::Finished(true));
    assert_eq!(p.pending_seek, Some(event));
    let playing = PipelineMessage::StateChanged { from_pipeline: true, playing: true };
    assert!(matches!(p.handle_bus_message(playing, false), PipelineAction::SendPendingSeek));
    assert_eq!(p.take_pending_seek(), Some(event));
    assert_eq!(p.take_pending_seek(), None);
    assert_eq!(p.seek(event, PipelineState::Playing), SeekStep::AskHandler);
    assert_eq!(p.seek(event, PipelineState::Playing), SeekStep::Finished(true));
    assert_eq!(p.seek(event, PipelineState::Failed), SeekStep::Finished(true));
}

#[test]
fn messages_of_a_pipeline() {
    let mut p = pipeline();
    assert!(matches!(
        p.handle_bus_message(PipelineMessage::Context, true),
        PipelineAction::PostToPoolBus
    ));
    assert!(matches!(
        p.handle_bus_message(PipelineMessage::Context, false),
        PipelineAction::Nothing
    ));
    p.set_target_src(Some(4));
    assert_eq!(p.unused_since, None);
    assert!(matches!(
        p.handle_bus_message(PipelineMessage::Context, false),
        PipelineAction::PostToSource(4)
    ));
    assert!(matches!(
        p.handle_bus_message(PipelineMessage::Error, false),
        PipelineAction::DumpGraph
    ));
    assert!(matches!(
        p.handle_bus_message(PipelineMessage::Other, false),
        PipelineAction::Nothing
    ));
}

#[test]
fn life_of_a_pipeline() {
    let mut p = pipeline();
    assert!(p.reset(None, Some("s".to_string()), 9));
    assert!(!p.reset(None, Some("s".to_string()), 10));
    assert_eq!(p.requested_stream_id().as_deref(), Some("s"));
    assert_eq!(p.stream_selection_seqnum, 10);
    assert!(p.link_failure_is_error());
    p.initial_seek = Some(seek(2, true));
    assert_eq!(p.play(true, PipelineState::Playing), Err(StateChangeError));
    assert_eq!(p.play(false, PipelineState::Failed), Err(StateChangeError));
    assert_eq!(p.play(false, PipelineState::Paused), Ok(()));
    assert_eq!(p.pending_seek, None);
    assert_eq!(p.play(false, PipelineState::BelowPaused), Ok(()));
    assert_eq!(p.pending_seek, Some(seek(2, true)));
    assert_eq!(p.selection_attempt(true), SelectionAttempt::Send);
    assert_eq!(p.selection_attempt(false), SelectionAttempt::TryAgain);
    p.release();
    p.begin_teardown(11);
    assert_eq!(p.selection_attempt(false), SelectionAttempt::GiveUp);
    assert!(!p.end_teardown(false, 50));
    assert_eq!(p.unused_since, None);
    assert!(p.end_teardown(true, 50));
    assert_eq!(p.unused_since, Some(50));
    assert!(p.stop());
    assert!(!p.stop());
    assert!(!p.link_failure_is_error());
}

#[test]
fn pads_of_a_pipeline() {
    assert_eq!(DecoderPipeline::pad_removed(false, true), PadRemoval::Nothing);
    assert_eq!(DecoderPipeline::pad_removed(true, true), PadRemoval::UnlinkAndRemoveElement);
    assert_eq!(DecoderPipeline::pad_removed(true, false), PadRemoval::Unlink);
    assert_eq!(DecoderPipeline::pad_added(true, true), PadAction::Refuse);
    assert_eq!(DecoderPipeline::pad_added(false, true), PadAction::LinkThroughFilter);
    assert_eq!(DecoderPipeline::pad_added(false, false), PadAction::LinkToSink);
}

#[test]
fn numbers_of_pipelines_are_checked() {
    assert_eq!(check_pipelines(3, 1, 2, Some(3), Some(-1), None), Ok(()));
    assert_eq!(
        check_pipelines(3, 1, 2, Some(4), Some(9), None),
        Err("Expected 4 total pipelines, got 3".to_string())
    );
    assert_eq!(
        check_pipelines(3, 1, 2, None, Some(0), Some(0)),
        Err("Expected 0 running pipelines, got 1".to_string())
    );
    assert_eq!(
        check_pipelines(3, 1, 2, None, None, Some(0)),
        Err("Expected 0 prepared pipelines, got 2".to_string())
    );
}

fn pool_source(uri: &str, reuse_count: Option<i32>, pipeline: Option<Element>) -> Element {
    Element {
        source: Some(PoolSource {
            uri: Some(uri.to_string()),
            reuse_count,
            pipeline: pipeline.map(Box::new),
        }),
        children: vec![],
    }
}

#[test]
fn uses_of_a_pipeline_are_checked() {
    let inner = pool_source("b", Some(2), None);
    let tree = || Element {
        source: None,
        children: vec![
            pool_source("a", Some(-3), Some(Element { source: None, children: vec![] })),
            Element { source: None, children: vec![pool_source("c", None, None)] },
        ],
    };
    let mut whole = tree();
    whole.children.push(pool_source("d", Some(0), Some(inner)));
    let scenario = ScenarioView::Pipeline(whole);
    let text = |uri: &str, expected: i32| check_pipeline_use_count(uri, expected, &scenario);
    assert_eq!(text("b", 2), Ok(()));
    assert_eq!(text("a", -1), Err("expected-use-count must be >= 0".to_string()));
    assert_eq!(text("a", 1), Err("Expected pipeline reuse count 1, got -3".to_string()));
    assert_eq!(text("x", 1), Err("No uridecodepoolsrc found with URI: x".to_string()));
    assert_eq!(
        text("c", 1),
        Err("Failed to get pipeline property from uridecodepoolsrc".to_string())
    );
    let twice = ScenarioView::Pipeline(Element {
        source: None,
        children: vec![pool_source("a", Some(1), None), pool_source("a", Some(1), None)],
    });
    assert_eq!(
        check_pipeline_use_count("a", 1, &twice),
        Err("Multiple uridecodepoolsrc elements found with same URI. Consider using ?id=unique_id in URI".to_string())
    );
    assert_eq!(
        check_pipeline_use_count("a", 1, &ScenarioView::NoScenario),
        Err("No scenario found".to_string())
    );
    assert_eq!(
        check_pipeline_use_count("a", 1, &ScenarioView::NoPipeline),
        Err("No pipeline found in scenario".to_string())
    );
}

#[test]
fn actions_of_the_pool() {
    let actions = register_validate_actions();
    assert_eq!(actions.len(), 2);
    assert_eq!(actions[0].name, "check-uridecodepool-pipelines");
    assert_eq!(actions[0].parameters[1].default_value, Some("-1"));
    assert_eq!(actions[1].name, "check-uridecodepool-pipeline-use-count");
    assert!(actions[1].parameters[0].mandatory);
}
