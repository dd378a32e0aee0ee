use media_plugins::skia::compositor::{
    gst_formats, gst_to_skia, BackgroundColor, ColorType, SinkQuery, SinkQueryAnswer,
    SkiaCompositor, SkiaCompositorBackground,
};
use media_plugins::skia::reshape::{
    plan_edges, plan_position, Drawing, EdgePlan, FarEdge, FlowError, FrameSize, InputBuffer,
    InputCaps, NearEdge, OutputBuffer, Overhang, Settings, SizeSource, SkiaReshape,
};
use media_plugins::video::VideoFormat;

fn compositor(background: SkiaCompositorBackground) -> SkiaCompositor {
    SkiaCompositor { background, pads: vec!["sink_0".to_string(), "sink_1".to_string()] }
}

#[test]
fn offered_formats_can_be_drawn() {
    let formats = gst_formats();
    assert_eq!(formats.len(), 5);
    assert_eq!(formats[0], VideoFormat::Rgba);
    for format in formats {
        assert!(gst_to_skia(format).is_some());
    }
    assert_eq!(gst_to_skia(VideoFormat::Rgb16), Some(ColorType::Rgb565));
    assert_eq!(gst_to_skia(VideoFormat::Rgb), None);
    assert_eq!(gst_to_skia(VideoFormat::Other(3)), None);
}

#[test]
fn backgrounds_are_drawn() {
    assert_eq!(SkiaCompositorBackground::default(), SkiaCompositorBackground::Black);
    let rects = compositor(SkiaCompositorBackground::White).draw_background(64, 48, 32, 24);
    assert_eq!(rects.len(), 1);
    assert_eq!(rects[0].color, BackgroundColor::White);
    assert_eq!((rects[0].width, rects[0].height), (32, 24));
    let clear = compositor(SkiaCompositorBackground::Transparent).draw_background(8, 8, 8, 8);
    assert_eq!(clear[0].color, BackgroundColor::Transparent);
    let black = compositor(SkiaCompositorBackground::Black).draw_background(8, 8, 8, 8);
    assert_eq!(black[0].color, BackgroundColor::Black);
}

#[test]
fn checkerboard_alternates() {
    let squares = compositor(SkiaCompositorBackground::Checker).draw_background(35, 29, 0, 0);
    assert_eq!(squares.len(), 6);
    let at: Vec<(i32, i32, bool)> = squares
        .iter()
        .map(|s| (s.x, s.y, s.color == BackgroundColor::DarkGray))
        .collect();
    assert_eq!(
        at,
        vec![
            (0, 0, true),
            (0, 10, false),
            (10, 0, false),
            (10, 10, true),
            (20, 0, true),
            (20, 10, false),
        ]
    );
    let none = compositor(SkiaCompositorBackground::Checker).draw_background(9, 100, 0, 0);
    assert!(none.is_empty());
}

#[test]
fn queries_of_the_compositor() {
    let c = compositor(SkiaCompositorBackground::Black);
    assert_eq!(
        c.sink_query(SinkQuery::Caps { has_filter: true }),
        SinkQueryAnswer::FilteredTemplateCaps
    );
    assert_eq!(
        c.sink_query(SinkQuery::Caps { has_filter: false }),
        SinkQueryAnswer::TemplateCaps
    );
    assert_eq!(c.sink_query(SinkQuery::AcceptCaps), SinkQueryAnswer::IsSubsetOfTemplate);
    assert_eq!(c.sink_query(SinkQuery::Other), SinkQueryAnswer::Parent);
    assert_eq!(c.children_count(), 2);
    assert_eq!(c.child_by_name("sink_1"), Some(1));
    assert_eq!(c.child_by_name("sink_2"), None);
    assert_eq!(c.child_by_index(0).map(|s| s.as_str()), Some("sink_0"));
    assert_eq!(c.child_by_index(2), None);
}

fn reshape() -> SkiaReshape {
    SkiaReshape {
        settings: Settings::default(),
        in_size: None,
        out_size: None,
        compositor_size: None,
    }
}

const SMALL: FrameSize = FrameSize { width: 320, height: 240 };
const LARGE: FrameSize = FrameSize { width: 640, height: 480 };

#[test]
fn sizes_are_negotiated() {
    let mut r = reshape();
    assert_eq!(r.input_size(InputCaps::NotGiven), Err(FlowError::NotNegotiated));
    assert_eq!(r.input_size(InputCaps::NotFixed), Err(FlowError::NotNegotiated));
    assert_eq!(r.input_size(InputCaps::Invalid), Err(FlowError::NotNegotiated));
    assert_eq!(r.input_size(InputCaps::Video(SMALL)), Ok(SMALL));
    assert_eq!(r.compute_output_size(InputCaps::NotFixed, false), SizeSource::Settings);
    assert_eq!(r.compute_output_size(InputCaps::NotFixed, true), SizeSource::Position);
    assert_eq!(
        r.compute_output_size(InputCaps::Video(SMALL), false),
        SizeSource::DrawnRects
    );
    assert_eq!(r.output_frame_size(SMALL), (320, 240));
    assert!(!r.set_caps(Some(SMALL), None));
    assert_eq!(r.in_size, None);
    assert!(r.set_caps(Some(SMALL), Some(LARGE)));
    assert_eq!(r.input_size(InputCaps::NotGiven), Ok(SMALL));
    assert_eq!(r.output_frame_size(SMALL), (640, 480));
    r.start(false, &vec![(Some(1), Some(2))]);
    assert_eq!(r.compositor_size(SMALL), (320, 240));
    r.start(true, &vec![(Some(1), Some(2)), (Some(3), None), (Some(5), Some(6)), (None, None)]);
    assert_eq!(r.compositor_size(SMALL), (5, 6));
    r.start(true, &vec![]);
    assert_eq!(r.compositor_size, None);
}

#[test]
fn edges_are_planned() {
    let inside = Overhang { image: false, padded: false };
    let padded = Overhang { image: false, padded: true };
    let both = Overhang { image: true, padded: true };
    assert_eq!(
        plan_edges(both, padded, inside, both),
        EdgePlan {
            left: NearEdge::CutImage,
            top: NearEdge::MoveImage,
            right: FarEdge { cut_image: false, cut_output: false },
            bottom: FarEdge { cut_image: true, cut_output: true },
        }
    );
    assert_eq!(plan_edges(inside, inside, padded, inside).left, NearEdge::Keep);
    assert!(plan_edges(inside, inside, padded, inside).right.cut_output);
    let p = plan_position(true, true, false);
    assert!(p.zero_x && !p.zero_y && p.drawn_size);
    let p = plan_position(false, true, true);
    assert!(!p.zero_x && !p.zero_y && !p.drawn_size);
}

#[test]
fn sizes_are_transformed() {
    let mut r = reshape();
    r.settings = Settings {
        padding_px: 5,
        crop_left: 10,
        crop_right: 20,
        crop_top: 7,
        crop_bottom: 100,
    };
    assert_eq!(
        r.transform_size((None, None), Some(320), Some(240)),
        (Some(300), Some(143))
    );
    assert_eq!(r.transform_size((None, None), None, Some(240)), (None, Some(143)));
    assert_eq!(r.transform_size((Some(9), None), Some(320), Some(240)), (Some(9), Some(240)));
    assert_eq!(r.transform_size((Some(9), Some(8)), None, None), (Some(9), Some(8)));
}

#[test]
fn frames_are_cropped_at_the_bottom() {
    let mut r = reshape();
    r.settings.crop_left = 10;
    r.settings.crop_right = 20;
    r.settings.crop_bottom = 40;
    assert_eq!(
        r.transform_size((None, None), Some(320), Some(240)),
        (Some(290), Some(200))
    );
    r.settings.crop_left = i32::MIN;
    assert_eq!(
        r.transform_size((Some(9), Some(8)), Some(320), Some(240)),
        (Some(9), Some(8))
    );
}

#[test]
fn buffers_are_reused_where_they_fit() {
    let r = reshape();
    let writable = InputBuffer::Writable(64);
    assert_eq!(r.prepare_output_buffer(true, writable, 64), OutputBuffer::PassThrough);
    assert_eq!(r.prepare_output_buffer(false, writable, 64), OutputBuffer::ReuseInput);
    assert_eq!(r.prepare_output_buffer(false, writable, 65), OutputBuffer::Allocate(65));
    assert_eq!(
        r.prepare_output_buffer(false, InputBuffer::Readable, 64),
        OutputBuffer::Allocate(64)
    );
}

#[test]
fn frames_are_drawn_where_they_fit() {
    let mut r = reshape();
    assert_eq!(r.check_drawing(true, 0, 1, None, 1), Ok(Drawing::Skip));
    assert_eq!(
        r.check_drawing(false, 16, 16, Some(64), 64),
        Err(FlowError::NotNegotiated)
    );
    r.set_caps(Some(SMALL), Some(SMALL));
    assert_eq!(r.check_drawing(false, 16, 16, Some(64), 64), Ok(Drawing::Draw));
    assert_eq!(r.check_drawing(false, 15, 16, Some(64), 64), Err(FlowError::Error));
    assert_eq!(r.check_drawing(false, 16, 16, None, 64), Err(FlowError::Error));
    assert_eq!(r.check_drawing(false, 16, 16, Some(63), 64), Err(FlowError::Error));
}
