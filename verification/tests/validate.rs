use media_plugins::validate::check_last_frame_qrcode::{
    check_content, check_frame, decode_qrcode, first_content, QrError, QrGrid,
};
use media_plugins::validate::compare_last_frame::{
    compare_images, converted_name, dimensions_message, extract_image_from_sample, image_of_frame,
    metric_or_default, missing_parameter, ColorType, CompareFailure, ExtractError, Image,
};
use media_plugins::validate::register_actions;
use media_plugins::validate::utils::{find_sink, fits_image, no_last_sample, SinkCandidate};
use media_plugins::video::{
    VideoColorMatrix, VideoColorRange, VideoColorimetry, VideoComponent, VideoFormat, VideoFrame,
    VideoInfo, VideoPlane,
};
use media_plugins::videoconverter::converter::ConverterError;
use rqrr::BitGrid;

#[test]
fn test_plugin_functions_exist() {
    let actions = register_actions();
    assert_eq!(actions.len(), 2, "Failed to register actions");
    assert_eq!(actions[0].name, "check-last-frame-qrcode");
    assert_eq!(actions[1].name, "compare-last-frame");
    for action in &actions {
        assert_eq!(action.implementer, Some("rsvalidate"));
        assert!(action.is_check);
    }
    assert_eq!(actions[1].parameters[5].default_value, Some("rms"));
}

fn candidate(name: &str, factory: Option<&str>, has_last_sample: bool) -> SinkCandidate {
    SinkCandidate {
        has_last_sample,
        name: name.to_string(),
        factory: factory.map(|f| f.to_string()),
        caps_match: name == "c",
    }
}

#[test]
fn sinks_are_found() {
    let elements = vec![
        candidate("src", Some("videotestsrc"), false),
        candidate("a", None, true),
        candidate("b", Some("fakesink"), true),
        candidate("c", Some("fakesink"), true),
    ];
    assert_eq!(find_sink(&elements, None, None, false), Ok(1));
    assert_eq!(find_sink(&elements, Some("c"), Some("nothing"), false), Ok(3));
    assert_eq!(find_sink(&elements, None, Some("fakesink"), true), Ok(2));
    assert_eq!(
        find_sink(&elements, Some("src"), None, false),
        Err("No matching sink found in pipeline".to_string())
    );
    assert!(find_sink(&elements, None, Some("x"), false).is_err());
    assert_eq!(find_sink(&elements, None, None, true), Ok(3));
    assert_eq!(find_sink(&elements, Some("a"), None, true), Ok(1));
    let others = vec![candidate("a", None, true), candidate("c", None, false)];
    assert_eq!(
        find_sink(&others, None, None, true),
        Err("No matching sink found in pipeline".to_string())
    );
    assert_eq!(
        no_last_sample("b"),
        "Could not get 'last-sample' from sink 'b'. Make sure the 'enable-last-sample' property is set to TRUE!"
    );
}

#[test]
fn images_fit_into_their_bytes() {
    assert!(fits_image(3, 2, 3, 18));
    assert!(!fits_image(3, 2, 3, 17));
    assert!(fits_image(0, 5, 4, 0));
    assert!(!fits_image(u32::MAX, u32::MAX, 4, 100));
}

// A QR code that says "rqrr".
const CODE: [&str; 21] = [
    "#######...#...#######",
    "#.....#.###...#.....#",
    "#.###.#..#.##.#.###.#",
    "#.###.#.....#.#.###.#",
    "#.###.#.##.##.#.###.#",
    "#.....#..###..#.....#",
    "#######.#.#.#.#######",
    "..........#..........",
    "#.#.#.#.....#...#..#.",
    "#..##......#.#.#.#..#",
    ".#.##.##.###.###.####",
    "##...#..######.##..##",
    "..#.###.#..#.###.#..#",
    "........###...#..#..#",
    "#######..##.#...#..##",
    "#.....#..##...#....#.",
    "#.###.#.#...#.#.##.##",
    "#.###.#..#.#.#.#.#.#.",
    "#.###.#.##.#.###....#",
    "#.....#...####.###.#.",
    "#######.#..#.###..###",
];

fn qr_frame(scale: usize, border: usize) -> (u32, Vec<u8>) {
    let side = CODE.len() * scale + 2 * border;
    let mut pixels = vec![255u8; side * side];
    for (y, row) in CODE.iter().enumerate() {
        for (x, cell) in row.chars().enumerate() {
            if cell == '#' {
                for dy in 0..scale {
                    for dx in 0..scale {
                        pixels[(border + y * scale + dy) * side + border + x * scale + dx] = 0;
                    }
                }
            }
        }
    }
    (side as u32, pixels)
}

fn grids_in(width: u32, height: u32, pixels: Vec<u8>) -> Vec<QrGrid> {
    let image = image::GrayImage::from_raw(width, height, pixels).unwrap();
    let mut prepared = rqrr::PreparedImage::prepare(image);
    let grids = prepared.detect_grids();
    grids
        .iter()
        .map(|found| {
            let size = found.grid.size();
            let bits = (0..size * size).map(|i| found.grid.bit(i / size, i % size)).collect();
            QrGrid { size, bits }
        })
        .collect()
}

#[test]
fn qr_codes_are_read() {
    let (side, pixels) = qr_frame(4, 16);
    assert!(check_frame(side, side, pixels.len()).is_ok());
    let grids = grids_in(side, side, pixels);
    assert!(grids[0].is_code());
    assert_eq!(decode_qrcode(&grids).unwrap(), "rqrr");
    let e = decode_qrcode(&grids_in(32, 32, vec![255; 1024])).unwrap_err();
    assert!(matches!(e, QrError::NotFound));
    assert_eq!(e.message(""), "No QR code found in frame");
    assert!(check_frame(32, 32, 1024).is_ok());
    let e = check_frame(32, 32, 1023).unwrap_err();
    assert!(matches!(e, QrError::FrameTooSmall));
    assert_eq!(e.message(""), "Failed to create image buffer from gray data");
}

#[test]
fn cells_are_decoded() {
    let bits: Vec<bool> = CODE.iter().flat_map(|row| row.chars().map(|c| c == '#')).collect();
    let code = QrGrid { size: 21, bits };
    let white = QrGrid { size: 21, bits: vec![false; 21 * 21] };
    assert!(code.is_code() && white.is_code());
    assert!(!QrGrid { size: 21, bits: vec![false; 440] }.is_code());
    assert!(!QrGrid { size: 22, bits: vec![false; 22 * 22] }.is_code());
    assert!(!QrGrid { size: 181, bits: vec![false; 181 * 181] }.is_code());
    assert_eq!(decode_qrcode(&vec![code, white]).unwrap(), "rqrr");
    let white = QrGrid { size: 21, bits: vec![false; 21 * 21] };
    assert!(matches!(decode_qrcode(&vec![white]), Err(QrError::Undecodable(_))));
    for version in [1, 7, 40] {
        let size = 17 + 4 * version;
        let noise = QrGrid { size, bits: (0..size * size).map(|i| i * i % 7 < 3).collect() };
        assert!(noise.is_code());
        assert!(matches!(decode_qrcode(&vec![noise]), Err(QrError::Undecodable(_))));
    }
}

#[test]
fn the_first_code_counts() {
    assert_eq!(first_content(Some(Ok("a".to_string()))).unwrap(), "a");
    let e = first_content(Some(Err(rqrr::DeQRError::DataEcc))).unwrap_err();
    assert!(matches!(e, QrError::Undecodable(rqrr::DeQRError::DataEcc)));
    assert_eq!(e.message("DataEcc"), "Failed to decode QR code: DataEcc");
    assert!(matches!(first_content(None).unwrap_err(), QrError::NotFound));
}

#[test]
fn contents_are_compared() {
    assert_eq!(check_content("a", Some("a")), Ok(()));
    assert_eq!(
        check_content("a", Some("b")),
        Err("QR code data mismatch: expected 'b', got 'a'".to_string())
    );
    assert_eq!(
        check_content("a", None),
        Err("Missing required parameter 'expected-data'".to_string())
    );
}

fn component(offset: u32, pstride: u32, w: u32, h: u32) -> VideoComponent {
    VideoComponent { depth: 8, plane: 0, poffset: offset, pstride, width: w, height: h }
}

fn rgb_frame(format: VideoFormat, w: u32, h: u32, data: Vec<u8>, stride: u32) -> VideoFrame {
    let n = if format == VideoFormat::Rgba { 4 } else { 3 };
    VideoFrame {
        info: VideoInfo {
            valid: true,
            format,
            width: w,
            height: h,
            is_rgb: true,
            is_yuv: false,
            is_gray: false,
            n_planes: 1,
            components: (0..n).map(|i| component(i, n, w, h)).collect(),
            colorimetry: VideoColorimetry {
                range: VideoColorRange::Range0_255,
                matrix: VideoColorMatrix::Rgb,
            },
        },
        planes: vec![VideoPlane { data, stride }],
    }
}

fn gray_frame(w: u32, h: u32, data: Vec<u8>) -> VideoFrame {
    let mut frame = rgb_frame(VideoFormat::Gray8, w, h, data, w);
    frame.info.is_rgb = false;
    frame.info.is_gray = true;
    frame.info.components.truncate(1);
    frame.info.colorimetry.matrix = VideoColorMatrix::Bt601;
    frame
}

#[test]
fn padding_of_rows_is_dropped() {
    let data: Vec<u8> = (0..16).collect();
    let frame = rgb_frame(VideoFormat::Rgb, 2, 2, data, 8);
    let mut out = rgb_frame(VideoFormat::Rgb, 2, 2, vec![0; 12], 6);
    let image = extract_image_from_sample(&frame, ColorType::Rgb8, &mut out).unwrap();
    assert_eq!(image.color, ColorType::Rgb8);
    assert_eq!((image.width, image.height), (2, 2));
    assert_eq!(image.data, vec![0, 1, 2, 3, 4, 5, 8, 9, 10, 11, 12, 13]);
    assert_eq!(out.planes[0].data, vec![0; 12]);

    let tight = rgb_frame(VideoFormat::Rgba, 2, 2, (0..20).collect(), 8);
    let image = image_of_frame(&tight, ColorType::Rgba8).unwrap();
    assert_eq!(image.data, (0..20).collect::<Vec<u8>>());
    let short = rgb_frame(VideoFormat::Rgba, 2, 2, (0..15).collect(), 8);
    assert!(matches!(image_of_frame(&short, ColorType::Rgba8), Err(ExtractError::TooSmall)));
    let mut none = short;
    none.planes.clear();
    assert!(matches!(image_of_frame(&none, ColorType::Rgba8), Err(ExtractError::NoPlane)));
}

#[test]
fn other_formats_are_converted() {
    let gray = gray_frame(4, 2, vec![90; 8]);
    let mut out = rgb_frame(VideoFormat::Rgba, 4, 2, vec![0; 32], 16);
    let image = extract_image_from_sample(&gray, ColorType::Other(1), &mut out).unwrap();
    assert_eq!(image.color, ColorType::Rgba8);
    for pixel in image.data.chunks(4) {
        assert!(pixel[0].abs_diff(90) <= 1 && pixel[3] == 255);
    }
    // The same layout again is no conversion that is known.
    let rgb = rgb_frame(VideoFormat::Other(1), 4, 2, vec![0; 24], 12);
    let mut out = rgb_frame(VideoFormat::Rgb, 4, 2, vec![0; 24], 12);
    let r = extract_image_from_sample(&rgb, ColorType::Rgb8, &mut out);
    assert!(matches!(r, Err(ExtractError::NoConverter(ConverterError::FallbackDisabled))));
    let mut bad = gray_frame(4, 2, vec![90; 8]);
    bad.info.valid = false;
    let r = extract_image_from_sample(&bad, ColorType::Rgb8, &mut out);
    assert!(matches!(r, Err(ExtractError::NoConverter(ConverterError::InvalidVideoInfo))));
    let short = gray_frame(4, 2, vec![90; 3]);
    let r = extract_image_from_sample(&short, ColorType::Rgb8, &mut out);
    assert!(matches!(r, Err(ExtractError::NotConverted(_))));
}

fn image(color: ColorType, w: u32, h: u32, value: u8) -> Image {
    let n = if color == ColorType::Rgba8 { 4 } else { 3 };
    Image { color, width: w, height: h, data: vec![value; (n * w * h) as usize] }
}

fn half_changed(color: ColorType, w: u32, h: u32) -> Image {
    let mut changed = image(color, w, h, 200);
    let half = changed.data.len() / 2;
    for byte in &mut changed.data[..half] {
        *byte = 10;
    }
    changed
}

#[test]
fn images_are_compared() {
    for color in [ColorType::Rgb8, ColorType::Rgba8] {
        for metric in ["rms", "mssim"] {
            let a = image(color, 16, 16, 200);
            let same = compare_images(&a, &image(color, 16, 16, 200), metric).unwrap();
            let score = f64::from_bits(same.score);
            assert!((score - 1.0).abs() < 1e-6, "{color:?} {metric}: {score}");
            let other = compare_images(&a, &half_changed(color, 16, 16), metric).unwrap();
            let score = f64::from_bits(other.score);
            assert!(score < 0.9, "{color:?} {metric}: {score}");
            let channels = match (metric, color) {
                ("mssim", _) => 1,
                (_, ColorType::Rgb8) => 3,
                _ => 4,
            };
            assert_eq!(other.color_map.len(), 256 * channels);
            assert_ne!(other.color_map, same.color_map);
        }
    }
}

#[test]
fn images_that_do_not_compare() {
    let rgb = image(ColorType::Rgb8, 4, 4, 1);
    let wide = image(ColorType::Rgb8, 5, 4, 1);
    let rgba = image(ColorType::Rgba8, 4, 4, 1);
    assert!(matches!(
        compare_images(&rgb, &wide, "rms"),
        Err(CompareFailure::DimensionsMismatch)
    ));
    assert_eq!(
        dimensions_message(&rgb, &wide),
        "Image dimensions mismatch: reference is 4x4, actual is 5x4"
    );
    assert!(matches!(compare_images(&rgb, &rgba, "rms"), Err(CompareFailure::FormatMismatch)));
    assert!(matches!(compare_images(&rgb, &rgb, "psnr"), Err(CompareFailure::UnknownMetric)));
    let other = Image { color: ColorType::Other(2), width: 4, height: 4, data: vec![] };
    assert!(matches!(compare_images(&other, &other, "rms"), Err(CompareFailure::FormatMismatch)));
}

#[test]
fn parameters_of_a_comparison() {
    assert_eq!(metric_or_default(None), "rms");
    assert_eq!(metric_or_default(Some("mssim".to_string())), "mssim");
    assert_eq!(missing_parameter(true, true), None);
    assert_eq!(
        missing_parameter(false, false).as_deref(),
        Some("Missing required parameter 'reference-file'")
    );
    assert_eq!(
        missing_parameter(true, false).as_deref(),
        Some("Missing required parameter 'threshold'")
    );
    assert_eq!(converted_name("frame"), "frame.converted.png");
}
