use media_plugins::text::contains;
use media_plugins::tonemap::gl::{self, RsTonemapGL};
use media_plugins::tonemap::{
    detect_hdr_transfer, PadDirection, RsTonemap, Settings, Structure, Transfer,
};
use media_plugins::video::VideoFormat;

#[test]
fn parts_of_texts_are_found() {
    assert!(contains("abcabd", "abd"));
    assert!(contains("abc", ""));
    assert!(!contains("abc", "abcd"));
    assert!(!contains("abc", "ac"));
}

#[test]
fn transfer_functions_are_detected() {
    let pq = "video/x-raw, colorimetry=(string)bt2100-pq";
    let hlg = "video/x-raw, colorimetry=(string)bt2100-hlg";
    assert_eq!(detect_hdr_transfer(pq), Some(Transfer::Pq));
    assert_eq!(detect_hdr_transfer("smpte-st-2084"), Some(Transfer::Pq));
    assert_eq!(detect_hdr_transfer(hlg), Some(Transfer::Hlg));
    assert_eq!(detect_hdr_transfer("arib-std-b67"), Some(Transfer::Hlg));
    assert_eq!(detect_hdr_transfer("bt709"), None);
    let both = "bt2100-hlg bt2100-pq";
    assert_eq!(detect_hdr_transfer(both), Some(Transfer::Pq));
    assert_eq!(gl::detect_hdr_transfer(both), Some(Transfer::Hlg));
    assert_eq!(gl::detect_hdr_transfer(pq), Some(Transfer::Pq));
    assert_eq!(gl::detect_hdr_transfer("bt709"), None);
}

fn structure(colorimetry: Option<&str>) -> Structure {
    Structure { colorimetry: colorimetry.map(|c| c.to_string()), rest: 7 }
}

#[test]
fn caps_are_transformed() {
    let element = RsTonemap::default();
    let caps = vec![
        structure(Some("bt2100-hlg")),
        structure(Some("bt601")),
        structure(None),
        structure(Some("1:4:16:4 smpte-st-2084")),
    ];
    let names = |direction: PadDirection| -> Vec<Option<String>> {
        element.transform_caps(direction, &caps).into_iter().map(|s| s.colorimetry).collect()
    };
    let text = |s: &str| Some(s.to_string());
    assert_eq!(
        names(PadDirection::Sink),
        vec![text("bt709"), text("bt601"), None, text("bt709")]
    );
    assert_eq!(names(PadDirection::Src), vec![None, None, None, None]);
    assert_eq!(names(PadDirection::Unknown)[0], text("bt2100-hlg"));
    assert_eq!(element.transform_caps(PadDirection::Src, &caps)[3].rest, 7);
}

#[test]
fn colors_are_mapped_and_nothing_else() {
    let mut element = RsTonemap::default();
    assert_eq!(element.set_caps("bt2100-pq", VideoFormat::Bgra, 2, 2, 12), Some(false));
    let mut data: Vec<u8> = (0..24).collect();
    let map = |r: u8, g: u8, b: u8| (r + 100, g + 50, b + 25);
    element.transform_ip(&mut data, &map);
    assert_eq!(
        data,
        vec![
            25, 51, 102, 3, 29, 55, 106, 7, 8, 9, 10, 11, 37, 63, 114, 15, 41, 67, 118, 19, 20,
            21, 22, 23
        ]
    );
    element.stop();
    let before = data.clone();
    element.transform_ip(&mut data, &map);
    assert_eq!(data, before);
}

#[test]
fn three_bytes_for_a_pixel() {
    let mut element = RsTonemap::default();
    assert_eq!(element.set_caps("arib-std-b67", VideoFormat::Rgb, 1, 1, 4), Some(false));
    assert_eq!(element.state.unwrap().transfer, Transfer::Hlg);
    let mut data = vec![1, 2, 3, 4];
    element.transform_ip(&mut data, &|r, g, b| (b, g, r));
    assert_eq!(data, vec![3, 2, 1, 4]);
}

#[test]
fn other_frames_pass_through() {
    let mut element = RsTonemap::default();
    assert_eq!(element.set_caps("bt709", VideoFormat::Rgba, 1, 1, 4), Some(true));
    let mut data = vec![1, 2, 3, 4];
    element.transform_ip(&mut data, &|_, _, _| (0, 0, 0));
    assert_eq!(data, vec![1, 2, 3, 4]);
    assert_eq!(element.set_caps("bt709", VideoFormat::Gray8, 1, 1, 4), None);
    assert!(!element.state.unwrap().active);
    assert!(element.set_force_active(true));
    assert!(!element.set_force_active(true));
    assert_eq!(element.set_caps("bt709", VideoFormat::Rgba, 1, 1, 4), Some(false));
    assert_eq!(element.state.unwrap().transfer, Transfer::Pq);
    assert!(!Settings::default().force_active);
}

#[test]
fn textures_are_mapped_as_set() {
    let mut element = RsTonemapGL::default();
    element.gl_set_caps("bt709");
    assert!(!element.active);
    element.settings.force_active = true;
    element.settings.transfer = gl::transfer_from_number(1);
    element.gl_set_caps("bt709");
    assert!(element.active);
    assert_eq!(gl::transfer_number(element.transfer), 1);
    element.gl_set_caps("bt2100-pq");
    assert_eq!(gl::transfer_number(element.transfer), 0);
    assert_eq!(gl::transfer_from_number(2), Transfer::Pq);
}
