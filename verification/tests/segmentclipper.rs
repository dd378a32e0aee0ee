use media_plugins::segmentclipper::{
    Buffer, Fraction, Segment, SegmentClipper, SinkAction, SinkEvent, Submission, SECOND,
};

fn buffer(pts: u64, duration: Option<u64>, content: u64) -> Buffer {
    Buffer { pts: Some(pts), duration, content }
}

fn forward(start: u64, stop: Option<u64>) -> Segment {
    Segment { forward: true, start: Some(start), stop }
}

fn clipper(segment: Segment) -> SegmentClipper {
    let mut c = SegmentClipper::default();
    assert_eq!(c.sink_event(SinkEvent::Segment(Some(segment))), SinkAction::Forward);
    c
}

#[test]
fn buffers_outside_the_segment_are_dropped() {
    let mut c = clipper(forward(100, Some(200)));
    assert_eq!(c.submit_input_buffer(buffer(10, Some(20), 1)), Submission::Dropped);
    assert_eq!(c.last_dropped_buffer, Some(buffer(10, Some(20), 1)));
    assert_eq!(c.submit_input_buffer(buffer(90, Some(20), 2)), Submission::Accepted);
    assert_eq!(c.submit_input_buffer(buffer(199, None, 3)), Submission::Accepted);
    assert_eq!(c.submit_input_buffer(buffer(200, None, 4)), Submission::Eos);
    let without = Buffer { pts: None, duration: None, content: 5 };
    assert_eq!(c.submit_input_buffer(without), Submission::Dropped);
    assert_eq!(c.last_dropped_buffer, Some(buffer(10, Some(20), 1)));
}

#[test]
fn backwards_the_start_is_the_end() {
    let mut c = clipper(Segment { forward: false, start: Some(100), stop: Some(200) });
    assert_eq!(c.submit_input_buffer(buffer(201, Some(10), 1)), Submission::Dropped);
    assert_eq!(c.submit_input_buffer(buffer(200, Some(10), 2)), Submission::Dropped);
    assert_eq!(c.last_dropped_buffer, Some(buffer(200, Some(10), 2)));
    assert_eq!(c.submit_input_buffer(buffer(199, Some(10), 2)), Submission::Accepted);
    assert_eq!(c.submit_input_buffer(buffer(95, Some(10), 3)), Submission::Accepted);
    assert_eq!(c.submit_input_buffer(buffer(90, Some(10), 4)), Submission::Eos);
}

#[test]
fn buffers_that_end_where_the_segment_starts_are_dropped() {
    let mut c = clipper(forward(SECOND, Some(10 * SECOND)));
    assert_eq!(c.submit_input_buffer(buffer(0, Some(SECOND), 1)), Submission::Dropped);
    assert_eq!(c.last_dropped_buffer, Some(buffer(0, Some(SECOND), 1)));
    assert_eq!(c.submit_input_buffer(buffer(0, Some(SECOND + 1), 2)), Submission::Accepted);
    assert_eq!(c.submit_input_buffer(buffer(SECOND, Some(0), 3)), Submission::Accepted);
}

#[test]
fn a_segment_may_be_a_moment() {
    let mut c = clipper(Segment { forward: false, start: Some(100), stop: Some(100) });
    assert_eq!(c.submit_input_buffer(buffer(100, Some(10), 1)), Submission::Accepted);
    assert_eq!(c.submit_input_buffer(buffer(101, Some(10), 2)), Submission::Dropped);
    assert_eq!(c.submit_input_buffer(buffer(90, Some(10), 3)), Submission::Eos);
}

#[test]
fn frames_last_as_long_as_their_rate_says() {
    let mut c = clipper(forward(SECOND, None));
    assert!(c.set_caps(true, true, Some(Fraction { numer: 25, denom: 1 })));
    assert_eq!(c.times_to_clip(&buffer(5, None, 0)), (5, 40_000_005));
    assert_eq!(
        c.submit_input_buffer(buffer(SECOND - 39_999_999, None, 0)),
        Submission::Accepted
    );
    assert_eq!(
        c.submit_input_buffer(buffer(SECOND - 40_000_000, None, 0)),
        Submission::Dropped
    );
    assert!(c.set_caps(true, true, Some(Fraction { numer: 0, denom: 1 })));
    assert_eq!(c.framerate, None);
    assert!(c.set_caps(true, true, Some(Fraction { numer: -5, denom: 1 })));
    assert_eq!(c.times_to_clip(&buffer(5, None, 0)), (5, 5));
    assert!(c.set_caps(true, false, Some(Fraction { numer: 25, denom: 1 })));
    assert_eq!(c.framerate, None);
    assert!(!c.set_caps(false, true, Some(Fraction { numer: 25, denom: 1 })));
}

#[test]
fn clipped_times_are_set() {
    let mut c = clipper(forward(100, Some(200)));
    c.submit_input_buffer(buffer(10, Some(20), 1));
    let out = c.generate_output(buffer(90, Some(20), 2), (Some(100), Some(110)));
    assert_eq!(out, buffer(100, Some(10), 2));
    assert_eq!(c.last_dropped_buffer, None);
    assert_eq!(
        c.generate_output(buffer(90, Some(20), 2), (Some(100), None)),
        buffer(100, Some(20), 2)
    );
    assert_eq!(
        c.generate_output(buffer(90, Some(20), 2), (None, Some(5))),
        buffer(90, Some(20), 2)
    );
}

#[test]
fn the_last_dropped_buffer_is_pushed_at_the_end() {
    let mut c = clipper(forward(100, None));
    c.submit_input_buffer(buffer(10, Some(20), 1));
    c.submit_input_buffer(buffer(40, Some(20), 2));
    assert_eq!(
        c.sink_event(SinkEvent::Eos),
        SinkAction::PushAndForward(buffer(100, Some(20), 2))
    );
    assert_eq!(c.sink_event(SinkEvent::Eos), SinkAction::Forward);

    let mut c = clipper(Segment { forward: false, start: Some(0), stop: Some(30) });
    c.submit_input_buffer(buffer(40, Some(20), 2));
    assert_eq!(
        c.sink_event(SinkEvent::Eos),
        SinkAction::PushAndForward(buffer(30, Some(20), 2))
    );
}

#[test]
fn nothing_is_pushed_once_a_buffer_was_inside() {
    let mut c = clipper(forward(100, None));
    c.submit_input_buffer(buffer(10, Some(20), 1));
    assert_eq!(c.submit_input_buffer(buffer(95, Some(20), 2)), Submission::Accepted);
    c.generate_output(buffer(95, Some(20), 2), (Some(100), Some(115)));
    assert_eq!(c.sink_event(SinkEvent::Eos), SinkAction::Forward);

    c.submit_input_buffer(buffer(10, Some(20), 1));
    assert_eq!(c.sink_event(SinkEvent::FlushStop), SinkAction::Forward);
    assert_eq!(c.sink_event(SinkEvent::Eos), SinkAction::Forward);
    assert_eq!(c.sink_event(SinkEvent::Segment(None)), SinkAction::Refuse);
    assert_eq!(c.sink_event(SinkEvent::Other), SinkAction::Forward);
    c.stop();
    assert_eq!(c, SegmentClipper::default());
}
