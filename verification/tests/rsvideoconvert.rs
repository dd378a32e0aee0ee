use media_plugins::rsvideoconvert::{
    FlowError, FormatField, FormatInfo, FractionFields, InputVideo, NamedFormat, PadDirection,
    RsVideoConvert, Structure, ToFixate,
};
use media_plugins::video::{
    VideoColorMatrix, VideoColorRange, VideoColorimetry, VideoComponent, VideoFormat, VideoFrame,
    VideoInfo, VideoPlane,
};
use media_plugins::videoconverter::converter::ConverterError;

fn traits(kind: char, depth: u32, n_components: u32, sub: u32) -> FormatInfo {
    FormatInfo {
        depth,
        n_components,
        is_rgb: kind == 'r',
        is_yuv: kind == 'y',
        is_gray: kind == 'g',
        has_alpha: n_components == 4,
        tiled: false,
        w_sub: [0, sub, sub, 0],
        h_sub: [0, sub, sub, 0],
    }
}

fn named(name: &str, id: u32, info: Option<FormatInfo>) -> NamedFormat {
    NamedFormat { name: name.to_string(), format: VideoFormat::Other(id), info }
}

fn i420() -> NamedFormat {
    named("I420", 2, Some(traits('y', 8, 3, 1)))
}

fn y444() -> NamedFormat {
    named("Y444", 20, Some(traits('y', 8, 3, 0)))
}

fn rgb() -> NamedFormat {
    named("RGB", 15, Some(traits('r', 8, 3, 0)))
}

fn rgba() -> NamedFormat {
    named("RGBA", 11, Some(traits('r', 8, 4, 0)))
}

fn deep() -> NamedFormat {
    named("I420_10LE", 43, Some(traits('y', 10, 3, 1)))
}

fn unknown() -> NamedFormat {
    named("nonsense", 0, None)
}

#[test]
fn scores_of_conversions() {
    let e = RsVideoConvert::default();
    assert_eq!(e.score_format_conversion(&i420(), &i420()), 0);
    assert_eq!(e.score_format_conversion(&i420(), &y444()), 0);
    assert_eq!(e.score_format_conversion(&i420(), &rgb()), 30);
    assert_eq!(e.score_format_conversion(&i420(), &rgba()), 100);
    assert_eq!(e.score_format_conversion(&i420(), &deep()), 20);
    assert_eq!(e.score_format_conversion(&deep(), &rgba()), 120);
    assert_eq!(e.score_format_conversion(&rgba(), &deep()), 120);
    assert_eq!(e.score_format_conversion(&i420(), &unknown()), i32::MAX);
    assert_eq!(e.score_format_conversion(&unknown(), &unknown()), 0);
    let mut tiled = y444();
    tiled.info.as_mut().unwrap().tiled = true;
    assert_eq!(e.score_format_conversion(&i420(), &tiled), 40);
}

fn structure(format: FormatField) -> Structure {
    Structure { format, colorimetry: None, chroma_site: None, rest: 3 }
}

fn input(format: NamedFormat) -> Structure {
    Structure {
        format: FormatField::One(format),
        colorimetry: Some("bt601".to_string()),
        chroma_site: Some("mpeg2".to_string()),
        rest: 1,
    }
}

fn chosen(s: &Structure) -> &str {
    match &s.format {
        FormatField::One(format) => &format.name,
        other => panic!("{other:?}"),
    }
}

#[test]
fn the_best_format_is_picked() {
    let e = RsVideoConvert::default();
    let caps = vec![input(i420())];
    let several = || FormatField::Several(vec![unknown(), rgba(), rgb(), deep(), deep()]);
    let mut other = vec![structure(several()), structure(several())];
    assert_eq!(
        e.fixate_format(&caps, &mut other, false, PadDirection::Src),
        ToFixate::OtherCaps
    );
    assert_eq!(chosen(&other[0]), "I420_10LE");
    assert_eq!(other[0].colorimetry, None);
    assert!(matches!(other[1].format, FormatField::Several(_)));

    let mut other = vec![structure(FormatField::Several(vec![rgba(), y444(), i420()]))];
    e.fixate_format(&caps, &mut other, false, PadDirection::Sink);
    assert_eq!(chosen(&other[0]), "Y444");
    assert_eq!(other[0].colorimetry.as_deref(), Some("bt601"));
    assert_eq!(other[0].chroma_site, None);

    let mut other = vec![structure(FormatField::Several(vec![unknown()]))];
    e.fixate_format(&caps, &mut other, false, PadDirection::Sink);
    assert!(matches!(other[0].format, FormatField::Several(_)));

    let mut other = vec![structure(several())];
    assert_eq!(
        e.fixate_format(&caps, &mut other, true, PadDirection::Sink),
        ToFixate::Intersection
    );
    let without = vec![structure(FormatField::Missing)];
    assert_eq!(
        e.fixate_format(&without, &mut other, false, PadDirection::Sink),
        ToFixate::OtherCaps
    );
    assert!(matches!(other[0].format, FormatField::Several(_)));
}

#[test]
fn colors_are_taken_over() {
    let e = RsVideoConvert::default();
    let mut same = vec![structure(FormatField::One(deep()))];
    e.transfer_colorimetry_from_input(&vec![input(i420())], &mut same);
    assert_eq!(same[0].colorimetry.as_deref(), Some("bt601"));
    assert_eq!(same[0].chroma_site.as_deref(), Some("mpeg2"));
    let mut other = vec![structure(FormatField::One(rgb()))];
    e.transfer_colorimetry_from_input(&vec![input(i420())], &mut other);
    assert_eq!(other[0].colorimetry, None);
    let mut nothing: Vec<Structure> = vec![];
    e.transfer_colorimetry_from_input(&vec![input(i420())], &mut nothing);
    assert!(nothing.is_empty());
}

#[test]
fn every_format_is_offered() {
    let e = RsVideoConvert::default();
    let caps = vec![input(i420()), input(y444())];
    let out = e.transform_caps(&caps, &vec![i420(), rgb(), unknown()]);
    let names: Vec<&str> = out.iter().map(chosen).collect();
    assert_eq!(names, vec!["I420", "RGB", "nonsense", "I420", "RGB", "nonsense"]);
    assert_eq!(out[0].colorimetry.as_deref(), Some("bt601"));
    assert_eq!(out[1].colorimetry, None);
    assert_eq!(out[1].chroma_site, None);
    assert_eq!(out[2].chroma_site.as_deref(), Some("mpeg2"));
    assert_eq!(out[4].rest, 1);
}

#[test]
fn sizes_and_rates_are_kept() {
    let e = RsVideoConvert::default();
    let video = InputVideo {
        width: 320,
        height: 240,
        fps_numer: 30,
        fps_denom: 1,
        par_numer: 4,
        par_denom: 3,
    };
    let fields = vec![
        FractionFields { framerate: true, pixel_aspect_ratio: false },
        FractionFields { framerate: false, pixel_aspect_ratio: true },
    ];
    let targets = e.fixate_caps(Some(video), &fields).unwrap();
    assert_eq!((targets[0].width, targets[0].height), (320, 240));
    assert_eq!(targets[0].framerate, Some((30, 1)));
    assert_eq!(targets[0].pixel_aspect_ratio, None);
    assert_eq!(targets[1].pixel_aspect_ratio, Some((4, 3)));
    assert!(e.fixate_caps(None, &fields).is_none());
}

fn frame(format: VideoFormat, offsets: [u32; 3], data: Vec<u8>) -> VideoFrame {
    VideoFrame {
        info: VideoInfo {
            valid: true,
            format,
            width: 2,
            height: 1,
            is_rgb: true,
            is_yuv: false,
            is_gray: false,
            n_planes: 1,
            components: offsets
                .iter()
                .map(|o| VideoComponent {
                    depth: 8,
                    plane: 0,
                    poffset: *o,
                    pstride: 3,
                    width: 2,
                    height: 1,
                })
                .collect(),
            colorimetry: VideoColorimetry {
                range: VideoColorRange::Range0_255,
                matrix: VideoColorMatrix::Rgb,
            },
        },
        planes: vec![VideoPlane { data, stride: 6 }],
    }
}

#[test]
fn frames_are_converted_once_set_up() {
    let mut e = RsVideoConvert::default();
    let src = frame(VideoFormat::Rgb, [0, 1, 2], vec![1, 2, 3, 4, 5, 6]);
    let mut dest = frame(VideoFormat::Bgr, [2, 1, 0], vec![0; 6]);
    assert!(matches!(e.transform_frame(&src, &mut dest), Err(FlowError::NotNegotiated)));
    assert_eq!(e.set_info(false, &src.info, &dest.info), Ok(false));
    assert!(matches!(e.transform_frame(&src, &mut dest), Ok(true)));
    assert_eq!(dest.planes[0].data, vec![3, 2, 1, 6, 5, 4]);
    let short = frame(VideoFormat::Rgb, [0, 1, 2], vec![1, 2, 3]);
    assert!(matches!(e.transform_frame(&short, &mut dest), Err(FlowError::Error(_))));
    let mut bad = frame(VideoFormat::Rgb, [0, 1, 2], vec![0; 6]);
    bad.info.valid = false;
    assert_eq!(
        e.set_info(false, &bad.info, &dest.info),
        Err(ConverterError::InvalidVideoInfo)
    );
    assert!(e.converter.is_some());
    assert_eq!(e.set_info(false, &src.info, &src.info), Ok(false));
    assert!(matches!(e.transform_frame(&src, &mut dest), Ok(false)));
    assert_eq!(e.set_info(true, &src.info, &src.info), Ok(true));
    assert!(e.converter.is_none());
}
