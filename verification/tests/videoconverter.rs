use media_plugins::video::{
    VideoColorMatrix, VideoColorRange, VideoColorimetry, VideoComponent, VideoFormat, VideoFrame,
    VideoInfo, VideoPlane,
};
use media_plugins::videoconverter::convert::{
    convert_grayscale_to_rgb, convert_packed_yuv_to_rgb, convert_planar_yuv_to_rgb,
    convert_planar_yuva_to_rgba, convert_rgb_to_grayscale, convert_rgb_to_planar_yuv,
    convert_rgb_to_rgb, convert_rgb_to_semiplanar_yuv, convert_semiplanar_yuv_to_rgb, read_samples,
};
use media_plugins::videoconverter::converter::{
    ConverterError, Inner, VideoConverter, VideoConverterConfig, YuvConverter,
};
use media_plugins::videoconverter::convertible::is_conversion_defined;
use media_plugins::videoconverter::detect::{
    detect_packed_order, detect_rgb_format, detect_uv_order, detect_yuv_layout,
    detect_yuv_subsampling, get_plane_order_introspected, gst_to_yuv_matrix, gst_to_yuv_range,
    is_rgb_format_supported_by_yuv, UnsupportedMatrix, YuvLayout,
};
use media_plugins::videoconverter::error::{ConversionError, ConversionStep, PlaneRole};
use media_plugins::yuvops::{
    PackedOrder, RgbFormat, UvOrder, YuvRange, YuvStandardMatrix, YuvSubsampling,
};

const RGB_FORMATS: [RgbFormat; 4] =
    [RgbFormat::Rgb, RgbFormat::Rgba, RgbFormat::Bgr, RgbFormat::Bgra];

fn component(depth: u32, plane: u32, poffset: u32, width: u32, height: u32) -> VideoComponent {
    VideoComponent { depth, plane, poffset, pstride: 1, width, height }
}

fn info(
    format: VideoFormat,
    width: u32,
    height: u32,
    kind: char,
    n_planes: u32,
    components: Vec<VideoComponent>,
) -> VideoInfo {
    VideoInfo {
        valid: true,
        format,
        width,
        height,
        is_rgb: kind == 'r',
        is_yuv: kind == 'y',
        is_gray: kind == 'g',
        n_planes,
        components,
        colorimetry: VideoColorimetry {
            range: VideoColorRange::Range0_255,
            matrix: if kind == 'r' { VideoColorMatrix::Rgb } else { VideoColorMatrix::Bt601 },
        },
    }
}

fn rgb_info(format: RgbFormat, w: u32, h: u32) -> VideoInfo {
    let c = |offset: u32| component(8, 0, offset, w, h);
    let (name, components) = match format {
        RgbFormat::Rgb => (VideoFormat::Rgb, vec![c(0), c(1), c(2)]),
        RgbFormat::Bgr => (VideoFormat::Bgr, vec![c(2), c(1), c(0)]),
        RgbFormat::Rgba => (VideoFormat::Rgba, vec![c(0), c(1), c(2), c(3)]),
        RgbFormat::Bgra => (VideoFormat::Bgra, vec![c(2), c(1), c(0), c(3)]),
    };
    let mut info = info(name, w, h, 'r', 1, components);
    let pstride = info.components.len() as u32;
    for c in &mut info.components {
        c.pstride = pstride;
    }
    info
}

fn gray_info(w: u32, h: u32) -> VideoInfo {
    info(VideoFormat::Gray8, w, h, 'g', 1, vec![component(8, 0, 0, w, h)])
}

fn i420_info(w: u32, h: u32) -> VideoInfo {
    let (cw, ch) = (w.div_ceil(2), h.div_ceil(2));
    let components =
        vec![component(8, 0, 0, w, h), component(8, 1, 0, cw, ch), component(8, 2, 0, cw, ch)];
    info(VideoFormat::Other(2), w, h, 'y', 3, components)
}

fn nv12_info(w: u32, h: u32) -> VideoInfo {
    let (cw, ch) = (w.div_ceil(2), h.div_ceil(2));
    let components =
        vec![component(8, 0, 0, w, h), component(8, 1, 0, cw, ch), component(8, 1, 1, cw, ch)];
    let chroma = |c| VideoComponent { pstride: 2, ..c };
    let components = vec![components[0], chroma(components[1]), chroma(components[2])];
    info(VideoFormat::Other(23), w, h, 'y', 2, components)
}

fn frame(info: VideoInfo, planes: Vec<(Vec<u8>, u32)>) -> VideoFrame {
    let planes =
        planes.into_iter().map(|(data, stride)| VideoPlane { data, stride }).collect();
    VideoFrame { info, planes }
}

fn bytes(format: RgbFormat) -> usize {
    match format {
        RgbFormat::Rgb | RgbFormat::Bgr => 3,
        RgbFormat::Rgba | RgbFormat::Bgra => 4,
    }
}

fn blank(format: RgbFormat, w: u32, h: u32) -> VideoFrame {
    let stride = w as usize * bytes(format) + 5;
    frame(rgb_info(format, w, h), vec![(vec![0xcd; stride * h as usize], stride as u32)])
}

fn pixel(format: RgbFormat, rgb: (u8, u8, u8), alpha: u8) -> Vec<u8> {
    let (r, g, b) = rgb;
    match format {
        RgbFormat::Rgb => vec![r, g, b],
        RgbFormat::Bgr => vec![b, g, r],
        RgbFormat::Rgba => vec![r, g, b, alpha],
        RgbFormat::Bgra => vec![b, g, r, alpha],
    }
}

fn flat(format: RgbFormat, rgb: (u8, u8, u8), w: u32, h: u32) -> VideoFrame {
    let mut row: Vec<u8> = Vec::new();
    for _ in 0..w {
        row.extend(pixel(format, rgb, 255));
    }
    let mut data = Vec::new();
    for _ in 0..h {
        data.extend(row.clone());
    }
    frame(rgb_info(format, w, h), vec![(data, row.len() as u32)])
}

fn near(a: u8, b: u8) -> bool {
    a.abs_diff(b) <= 3
}

fn assert_flat(dest: &VideoFrame, format: RgbFormat, rgb: (u8, u8, u8), alpha: u8, what: &str) {
    let plane = &dest.planes[0];
    let expected = pixel(format, rgb, alpha);
    let n = bytes(format);
    for y in 0..dest.info.height as usize {
        let row = &plane.data[y * plane.stride as usize..(y + 1) * plane.stride as usize];
        for x in 0..dest.info.width as usize {
            for c in 0..n {
                assert!(
                    near(row[x * n + c], expected[c]),
                    "{what}: {:?} instead of {expected:?} at {x},{y}",
                    &row[x * n..x * n + n]
                );
            }
        }
        for byte in &row[dest.info.width as usize * n..] {
            assert_eq!(*byte, 0xcd, "{what}: padding");
        }
    }
}

// The colour with Y 100, U 90 and V 160, and with U and V swapped.
const COLOR: (u8, u8, u8) = (145, 90, 33);
const SWAPPED: (u8, u8, u8) = (47, 116, 157);

fn chroma_size(subsampling: YuvSubsampling, w: u32, h: u32) -> (u32, u32) {
    match subsampling {
        YuvSubsampling::S420 => (w.div_ceil(2), h.div_ceil(2)),
        YuvSubsampling::S422 => (w.div_ceil(2), h),
        _ => (w, h),
    }
}

fn words(value: u16, n: usize) -> Vec<u8> {
    let mut out = Vec::new();
    for _ in 0..n {
        out.extend(value.to_le_bytes());
    }
    out
}

fn semiplanar(subsampling: YuvSubsampling, w: u32, h: u32) -> VideoFrame {
    let (cw, ch) = chroma_size(subsampling, w, h);
    let mut uv = Vec::new();
    for _ in 0..cw * ch {
        uv.extend([90u8, 160]);
    }
    frame(nv12_info(w, h), vec![(vec![100; (w * h) as usize], w), (uv, cw * 2)])
}

#[test]
fn semiplanar_images_become_pixels() {
    let kinds = [
        (YuvSubsampling::S420, UvOrder::Uv),
        (YuvSubsampling::S420, UvOrder::Vu),
        (YuvSubsampling::S422, UvOrder::Uv),
        (YuvSubsampling::S422, UvOrder::Vu),
        (YuvSubsampling::S444, UvOrder::Uv),
    ];
    for (subsampling, order) in kinds {
        for format in RGB_FORMATS {
            let src = semiplanar(subsampling, 8, 4);
            let mut dest = blank(format, 8, 4);
            let r = convert_semiplanar_yuv_to_rgb(
                &src,
                &mut dest,
                8,
                4,
                YuvRange::Full,
                YuvStandardMatrix::Bt601,
                subsampling,
                order,
                format,
                8,
            );
            assert!(r.is_ok());
            let expected = if order == UvOrder::Uv { COLOR } else { SWAPPED };
            assert_flat(&dest, format, expected, 255, &format!("{subsampling:?} {order:?} {format:?}"));
        }
    }
}

#[test]
fn deep_semiplanar_images_become_pixels() {
    for subsampling in [YuvSubsampling::S420, YuvSubsampling::S422, YuvSubsampling::S444] {
        for format in RGB_FORMATS {
            let (w, h) = (8u32, 4u32);
            let (cw, ch) = chroma_size(subsampling, w, h);
            let mut uv = Vec::new();
            for _ in 0..cw * ch {
                uv.extend(words(360 << 6, 1));
                uv.extend(words(640 << 6, 1));
            }
            let src = frame(
                nv12_info(w, h),
                vec![(words(401 << 6, (w * h) as usize), w * 2), (uv, cw * 4)],
            );
            let mut dest = blank(format, w, h);
            let r = convert_semiplanar_yuv_to_rgb(
                &src,
                &mut dest,
                w,
                h,
                YuvRange::Full,
                YuvStandardMatrix::Bt601,
                subsampling,
                UvOrder::Uv,
                format,
                10,
            );
            assert!(r.is_ok());
            assert_flat(&dest, format, COLOR, 255, &format!("10 {subsampling:?} {format:?}"));
        }
    }
}

fn planar(subsampling: YuvSubsampling, w: u32, h: u32, alpha: bool) -> VideoFrame {
    let (cw, ch) = chroma_size(subsampling, w, h);
    let mut planes = vec![
        (vec![100u8; (w * h) as usize], w),
        (vec![90u8; (cw * ch) as usize], cw),
        (vec![160u8; (cw * ch) as usize], cw),
    ];
    if alpha {
        planes.push((vec![77u8; (w * h) as usize], w));
    }
    frame(i420_info(w, h), planes)
}

#[test]
fn planar_images_become_pixels() {
    for subsampling in [YuvSubsampling::S420, YuvSubsampling::S422, YuvSubsampling::S444] {
        for format in RGB_FORMATS {
            let src = planar(subsampling, 8, 4, false);
            for (order, expected) in [((0, 1, 2), COLOR), ((0, 2, 1), SWAPPED)] {
                let mut dest = blank(format, 8, 4);
                let r = convert_planar_yuv_to_rgb(
                    &src,
                    &mut dest,
                    8,
                    4,
                    YuvRange::Full,
                    YuvStandardMatrix::Bt601,
                    order,
                    subsampling,
                    format,
                    8,
                );
                assert!(r.is_ok());
                assert_flat(&dest, format, expected, 255, &format!("{subsampling:?} {format:?}"));
            }
        }
    }
}

#[test]
fn deep_planar_images_become_pixels() {
    let mut kinds = Vec::new();
    for format in RGB_FORMATS {
        kinds.push((YuvSubsampling::S420, format));
        kinds.push((YuvSubsampling::S422, format));
    }
    kinds.push((YuvSubsampling::S444, RgbFormat::Rgba));
    for (subsampling, format) in kinds {
        let (w, h) = (8u32, 4u32);
        let (cw, ch) = chroma_size(subsampling, w, h);
        let src = frame(
            i420_info(w, h),
            vec![
                (words(401, (w * h) as usize), w * 2),
                (words(360, (cw * ch) as usize), cw * 2),
                (words(640, (cw * ch) as usize), cw * 2),
            ],
        );
        let mut dest = blank(format, w, h);
        if subsampling == YuvSubsampling::S444 {
            dest.planes[0].stride = 32;
        }
        let r = convert_planar_yuv_to_rgb(
            &src,
            &mut dest,
            w,
            h,
            YuvRange::Full,
            YuvStandardMatrix::Bt601,
            (0, 1, 2),
            subsampling,
            format,
            10,
        );
        assert!(r.is_ok());
        assert_flat(&dest, format, COLOR, 255, &format!("10 {subsampling:?} {format:?}"));
    }
}

#[test]
fn planar_alpha_is_kept() {
    for subsampling in [YuvSubsampling::S420, YuvSubsampling::S422, YuvSubsampling::S444] {
        let src = planar(subsampling, 8, 4, true);
        let mut dest = blank(RgbFormat::Rgba, 8, 4);
        let r = convert_planar_yuva_to_rgba(
            &src,
            &mut dest,
            8,
            4,
            YuvRange::Full,
            YuvStandardMatrix::Bt601,
            (0, 1, 2),
            subsampling,
            RgbFormat::Rgba,
            8,
        );
        assert!(r.is_ok());
        assert_flat(&dest, RgbFormat::Rgba, COLOR, 77, &format!("alpha {subsampling:?}"));
    }
}

#[test]
fn packed_images_become_pixels() {
    let kinds = [
        (PackedOrder::Yuyv, [100u8, 90, 100, 160]),
        (PackedOrder::Uyvy, [90, 100, 160, 100]),
        (PackedOrder::Yvyu, [100, 160, 100, 90]),
        (PackedOrder::Vyuy, [160, 100, 90, 100]),
    ];
    for (order, group) in kinds {
        let mut data = Vec::new();
        for _ in 0..4 * 4 {
            data.extend(group);
        }
        let src = frame(i420_info(8, 4), vec![(data, 16)]);
        let mut dest = blank(RgbFormat::Rgb, 8, 4);
        let r = convert_packed_yuv_to_rgb(
            &src,
            &mut dest,
            8,
            4,
            YuvRange::Full,
            YuvStandardMatrix::Bt601,
            order,
        );
        assert!(r.is_ok());
        assert_flat(&dest, RgbFormat::Rgb, COLOR, 255, &format!("{order:?}"));
    }
}

#[test]
fn gray_images_become_pixels() {
    for format in RGB_FORMATS {
        let src = frame(gray_info(8, 4), vec![(vec![77; 32], 8)]);
        let mut dest = blank(format, 8, 4);
        let r = convert_grayscale_to_rgb(
            &src,
            &mut dest,
            8,
            4,
            YuvRange::Full,
            YuvStandardMatrix::Bt601,
            format,
        );
        assert!(r.is_ok());
        assert_flat(&dest, format, (77, 77, 77), 255, &format!("gray {format:?}"));
    }
}

fn all_near(data: &[u8], value: u8) -> bool {
    data.iter().all(|byte| near(*byte, value))
}

// The colour 200, 100, 50 has Y 124, U 86 and V 182.
const SOURCE: (u8, u8, u8) = (200, 100, 50);

#[test]
fn pixels_become_semiplanar_images() {
    let kinds = [
        (YuvSubsampling::S420, UvOrder::Uv),
        (YuvSubsampling::S420, UvOrder::Vu),
        (YuvSubsampling::S422, UvOrder::Uv),
        (YuvSubsampling::S422, UvOrder::Vu),
        (YuvSubsampling::S444, UvOrder::Uv),
    ];
    for (subsampling, order) in kinds {
        for format in RGB_FORMATS {
            let (w, h) = (8u32, 4u32);
            let (cw, ch) = chroma_size(subsampling, w, h);
            let src = flat(format, SOURCE, w, h);
            let mut dest = frame(
                nv12_info(w, h),
                vec![(vec![0; (w * h) as usize], w), (vec![0; (2 * cw * ch) as usize], cw * 2)],
            );
            let r = convert_rgb_to_semiplanar_yuv(
                &src,
                &mut dest,
                w,
                h,
                YuvRange::Full,
                YuvStandardMatrix::Bt601,
                format,
                subsampling,
                order,
            );
            assert!(r.is_ok(), "{subsampling:?} {order:?} {format:?}");
            assert!(all_near(&dest.planes[0].data, 124), "{subsampling:?} {order:?} {format:?}");
            let (first, second) = if order == UvOrder::Uv { (86, 182) } else { (182, 86) };
            for pair in dest.planes[1].data.chunks(2) {
                assert!(near(pair[0], first) && near(pair[1], second), "{subsampling:?} {order:?}");
            }
        }
    }
}

#[test]
fn pixels_become_planar_images() {
    for subsampling in [YuvSubsampling::S420, YuvSubsampling::S422, YuvSubsampling::S444] {
        for format in RGB_FORMATS {
            let (w, h) = (8u32, 4u32);
            let (cw, ch) = chroma_size(subsampling, w, h);
            let chroma = (vec![0u8; (cw * ch) as usize], cw);
            let src = flat(format, SOURCE, w, h);
            let mut dest = frame(
                i420_info(w, h),
                vec![(vec![0; (w * h) as usize], w), chroma.clone(), chroma],
            );
            let r = convert_rgb_to_planar_yuv(
                &src,
                &mut dest,
                w,
                h,
                YuvRange::Full,
                YuvStandardMatrix::Bt601,
                format,
                subsampling,
                (0, 2, 1),
            );
            assert!(r.is_ok(), "{subsampling:?} {format:?}");
            assert!(all_near(&dest.planes[0].data, 124), "{subsampling:?} {format:?}");
            assert!(all_near(&dest.planes[2].data, 86), "{subsampling:?} {format:?}");
            assert!(all_near(&dest.planes[1].data, 182), "{subsampling:?} {format:?}");
        }
    }
}

#[test]
fn chroma_planes_are_swapped() {
    for format in RGB_FORMATS {
        let (w, h) = (8u32, 4u32);
        let mut src = flat(format, SOURCE, w, h);
        for (i, byte) in src.planes[0].data.iter_mut().enumerate() {
            *byte = byte.wrapping_add((i * 7) as u8);
        }
        let convert = |order: (usize, usize, usize)| {
            let chroma = (vec![0u8; (w * h / 4) as usize], w / 2);
            let planes = vec![(vec![0; (w * h) as usize], w), chroma.clone(), chroma];
            let mut dest = frame(i420_info(w, h), planes);
            let (range, matrix) = (YuvRange::Limited, YuvStandardMatrix::Bt709);
            let subsampling = YuvSubsampling::S420;
            convert_rgb_to_planar_yuv(
                &src, &mut dest, w, h, range, matrix, format, subsampling, order,
            )
            .unwrap();
            dest
        };
        let (i420, yv12) = (convert((0, 1, 2)), convert((0, 2, 1)));
        assert_ne!(i420.planes[1].data, i420.planes[2].data, "{format:?}");
        assert_eq!(i420.planes[0].data, yv12.planes[0].data, "{format:?}");
        assert_eq!(i420.planes[1].data, yv12.planes[2].data, "{format:?}");
        assert_eq!(i420.planes[2].data, yv12.planes[1].data, "{format:?}");
    }
}

#[test]
fn pixels_become_gray_images() {
    for format in RGB_FORMATS {
        let src = flat(format, SOURCE, 8, 4);
        let mut dest = frame(gray_info(8, 4), vec![(vec![0; 32], 8)]);
        let r = convert_rgb_to_grayscale(
            &src,
            &mut dest,
            8,
            4,
            YuvRange::Full,
            YuvStandardMatrix::Bt601,
            format,
        );
        assert!(r.is_ok());
        assert!(all_near(&dest.planes[0].data, 124), "{format:?}");
    }
}

#[test]
fn pixels_are_shuffled() {
    for from in RGB_FORMATS {
        for to in RGB_FORMATS {
            let src = flat(from, SOURCE, 3, 2);
            let mut dest = blank(to, 3, 2);
            let r = convert_rgb_to_rgb(&src, &mut dest, 3, 2, from, to);
            if from == to {
                assert!(matches!(r, Err(ConversionError::IdenticalFormats(f)) if f == from));
                assert!(dest.planes[0].data.iter().all(|byte| *byte == 0xcd));
            } else {
                assert!(r.is_ok());
                let stride = dest.planes[0].stride as usize;
                for y in 0..2 {
                    let row = &dest.planes[0].data[y * stride..(y + 1) * stride];
                    for x in 0..3 {
                        let n = bytes(to);
                        assert_eq!(row[x * n..x * n + n], pixel(to, SOURCE, 255), "{from:?} {to:?}");
                    }
                }
            }
        }
    }
}

#[test]
fn layouts_round_trip() {
    let mut src = flat(RgbFormat::Rgba, SOURCE, 3, 2);
    for (i, byte) in src.planes[0].data.iter_mut().enumerate() {
        *byte = (i * 7 + 3) as u8;
    }
    let mut middle = blank(RgbFormat::Bgra, 3, 2);
    let mut back = blank(RgbFormat::Rgba, 3, 2);
    assert!(convert_rgb_to_rgb(&src, &mut middle, 3, 2, RgbFormat::Rgba, RgbFormat::Bgra).is_ok());
    assert!(convert_rgb_to_rgb(&middle, &mut back, 3, 2, RgbFormat::Bgra, RgbFormat::Rgba).is_ok());
    for y in 0..2 {
        let a = &src.planes[0].data[y * 12..y * 12 + 12];
        let b = &back.planes[0].data[y * 17..y * 17 + 12];
        assert_eq!(a, b);
    }
}

#[test]
fn missing_planes_are_named() {
    let empty = frame(nv12_info(8, 4), vec![]);
    let luma = frame(nv12_info(8, 4), vec![(vec![0; 32], 8)]);
    let mut dest = blank(RgbFormat::Rgb, 8, 4);
    let go = |src: &VideoFrame, dest: &mut VideoFrame| {
        convert_semiplanar_yuv_to_rgb(
            src,
            dest,
            8,
            4,
            YuvRange::Full,
            YuvStandardMatrix::Bt601,
            YuvSubsampling::S420,
            UvOrder::Uv,
            RgbFormat::Rgb,
            8,
        )
    };
    let e = go(&empty, &mut dest).unwrap_err();
    assert!(matches!(e, ConversionError::MissingPlane(PlaneRole::Y)));
    assert_eq!(e.message(""), "Failed to get Y plane");
    let e = go(&luma, &mut dest).unwrap_err();
    assert!(matches!(e, ConversionError::MissingPlane(PlaneRole::Uv)));
    assert_eq!(e.message(""), "Failed to get UV plane");

    let planar = |src: &VideoFrame, dest: &mut VideoFrame| {
        convert_planar_yuv_to_rgb(
            src,
            dest,
            8,
            4,
            YuvRange::Full,
            YuvStandardMatrix::Bt601,
            (0, 1, 2),
            YuvSubsampling::S420,
            RgbFormat::Rgb,
            8,
        )
    };
    let e = planar(&luma, &mut dest).unwrap_err();
    assert!(matches!(e, ConversionError::MissingPlane(PlaneRole::U)));
    let two = frame(i420_info(8, 4), vec![(vec![0; 32], 8), (vec![0; 8], 4)]);
    let e = planar(&two, &mut dest).unwrap_err();
    assert!(matches!(e, ConversionError::MissingPlane(PlaneRole::V)));

    let mut rgba = blank(RgbFormat::Rgba, 8, 4);
    let three = planar_three();
    let e = convert_planar_yuva_to_rgba(
        &three,
        &mut rgba,
        8,
        4,
        YuvRange::Full,
        YuvStandardMatrix::Bt601,
        (0, 1, 2),
        YuvSubsampling::S420,
        RgbFormat::Rgba,
        8,
    )
    .unwrap_err();
    assert!(matches!(e, ConversionError::MissingPlane(PlaneRole::A)));
    assert_eq!(e.message(""), "Failed to get A plane");

    let e = convert_packed_yuv_to_rgb(
        &empty,
        &mut dest,
        8,
        4,
        YuvRange::Full,
        YuvStandardMatrix::Bt601,
        PackedOrder::Yuyv,
    )
    .unwrap_err();
    assert!(matches!(e, ConversionError::MissingPlane(PlaneRole::Yuy)));
    assert_eq!(e.message(""), "Failed to get YUY plane");
}

fn planar_three() -> VideoFrame {
    planar(YuvSubsampling::S420, 8, 4, false)
}

#[test]
fn unsupported_kinds_are_refused() {
    let src = semiplanar(YuvSubsampling::S420, 8, 4);
    let mut dest = blank(RgbFormat::Rgb, 8, 4);
    let mut semi = |subsampling: YuvSubsampling, order: UvOrder, depth: u32| {
        convert_semiplanar_yuv_to_rgb(
            &src,
            &mut dest,
            8,
            4,
            YuvRange::Full,
            YuvStandardMatrix::Bt601,
            subsampling,
            order,
            RgbFormat::Rgb,
            depth,
        )
        .unwrap_err()
    };
    let e = semi(YuvSubsampling::S420, UvOrder::Uv, 12);
    assert!(matches!(e, ConversionError::UnsupportedBitDepth(12)));
    assert_eq!(e.message(""), "Unsupported bit depth: 12");
    let e = semi(YuvSubsampling::S444, UvOrder::Vu, 8);
    assert_eq!(e.message(""), "Unsupported 8-bit semi-planar format: S444 Vu Rgb");
    let e = semi(YuvSubsampling::S420, UvOrder::Vu, 10);
    assert_eq!(e.message(""), "Unsupported 10-bit semi-planar format: S420 Vu Rgb");

    let src = planar_three();
    let mut dest = blank(RgbFormat::Rgb, 8, 4);
    let e = convert_planar_yuv_to_rgb(
        &src,
        &mut dest,
        8,
        4,
        YuvRange::Full,
        YuvStandardMatrix::Bt601,
        (0, 1, 2),
        YuvSubsampling::S444,
        RgbFormat::Rgb,
        10,
    )
    .unwrap_err();
    assert_eq!(e.message(""), "Unsupported 10-bit planar format: S444 Rgb");

    let e = convert_planar_yuva_to_rgba(
        &src,
        &mut dest,
        8,
        4,
        YuvRange::Full,
        YuvStandardMatrix::Bt601,
        (0, 1, 2),
        YuvSubsampling::S420,
        RgbFormat::Rgb,
        8,
    )
    .unwrap_err();
    assert_eq!(e.message(""), "Unsupported planar-alpha conversion: 8-bit Rgb");

    let src = planar(YuvSubsampling::S444, 8, 4, true);
    let mut dest = blank(RgbFormat::Rgba, 8, 4);
    let e = convert_planar_yuva_to_rgba(
        &src,
        &mut dest,
        8,
        4,
        YuvRange::Full,
        YuvStandardMatrix::Bt601,
        (0, 1, 2),
        YuvSubsampling::S400,
        RgbFormat::Rgba,
        8,
    )
    .unwrap_err();
    assert_eq!(e.message(""), "Unsupported planar-alpha subsampling: S400");

    let src = flat(RgbFormat::Bgr, SOURCE, 8, 4);
    let mut dest = frame(nv12_info(8, 4), vec![(vec![0; 32], 8), (vec![0; 64], 16)]);
    let e = convert_rgb_to_semiplanar_yuv(
        &src,
        &mut dest,
        8,
        4,
        YuvRange::Full,
        YuvStandardMatrix::Bt601,
        RgbFormat::Bgr,
        YuvSubsampling::S444,
        UvOrder::Vu,
    )
    .unwrap_err();
    assert_eq!(e.message(""), "Unsupported RGB→semi-planar conversion: Bgr → S444 Vu");
    assert_eq!(
        ConversionError::IdenticalFormats(RgbFormat::Bgra).message(""),
        "RGB→RGB conversion with identical formats (Bgra→Bgra) should not occur"
    );
}

#[test]
fn short_buffers_are_rejected() {
    let mut src = semiplanar(YuvSubsampling::S420, 8, 4);
    src.planes[1].data.truncate(3);
    let mut dest = blank(RgbFormat::Rgb, 8, 4);
    let e = convert_semiplanar_yuv_to_rgb(
        &src,
        &mut dest,
        8,
        4,
        YuvRange::Full,
        YuvStandardMatrix::Bt601,
        YuvSubsampling::S420,
        UvOrder::Uv,
        RgbFormat::Rgb,
        8,
    )
    .unwrap_err();
    assert!(matches!(e, ConversionError::Failed(ConversionStep::SemiPlanar8ToRgb, _)));
    assert_eq!(e.message("why"), "Semi-planar 8-bit to RGB conversion failed: why");
    assert!(dest.planes[0].data.iter().all(|byte| *byte == 0xcd));
}

#[test]
fn odd_height_420_is_rejected() {
    let src = flat(RgbFormat::Rgb, SOURCE, 4, 3);
    let mut dest = frame(
        i420_info(4, 3),
        vec![(vec![9; 12], 4), (vec![9; 4], 2), (vec![9; 4], 2)],
    );
    let e = convert_rgb_to_planar_yuv(
        &src,
        &mut dest,
        4,
        3,
        YuvRange::Full,
        YuvStandardMatrix::Bt601,
        RgbFormat::Rgb,
        YuvSubsampling::S420,
        (0, 1, 2),
    )
    .unwrap_err();
    assert!(matches!(e, ConversionError::Failed(ConversionStep::RgbToPlanar, _)));
    assert_eq!(e.message("x"), "RGB→planar YUV conversion failed: x");
    assert!(dest.planes.iter().all(|plane| plane.data.iter().all(|byte| *byte == 9)));
}

#[test]
fn odd_heights_may_have_bytes_to_spare() {
    for format in RGB_FORMATS {
        for spare in [0usize, 5] {
            let mut src = semiplanar(YuvSubsampling::S420, 8, 3);
            src.planes[0].data.extend(vec![100; spare]);
            src.planes[1].data.extend(vec![100; spare]);
            let mut dest = blank(format, 8, 3);
            dest.planes[0].data.extend(vec![0xcd; spare]);
            let converter = YuvConverter::try_new(&src.info, &dest.info).unwrap();
            assert!(converter.can_convert(&src, &dest), "{format:?} {spare}");
            assert!(converter.convert(&src, &mut dest).is_ok(), "{format:?} {spare}");
            assert_flat(&dest, format, COLOR, 255, &format!("{format:?} {spare}"));
        }
        // One row to spare makes a pair of the last row, which is then not found; two do not.
        for (spare, found) in [(8usize, false), (16, true)] {
            let mut src = semiplanar(YuvSubsampling::S420, 8, 3);
            src.planes[0].data.extend(vec![100; spare]);
            let mut dest = blank(format, 8, 3);
            let converter = YuvConverter::try_new(&src.info, &dest.info).unwrap();
            assert_eq!(converter.can_convert(&src, &dest), found, "{format:?} {spare}");
            if found {
                assert!(converter.convert(&src, &mut dest).is_ok());
                assert_flat(&dest, format, COLOR, 255, &format!("{format:?} {spare}"));
            }
        }
    }
    // The last row of the pixels has to be found as well.
    let src = semiplanar(YuvSubsampling::S420, 8, 3);
    let mut dest = blank(RgbFormat::Rgb, 8, 3);
    let converter = YuvConverter::try_new(&src.info, &dest.info).unwrap();
    let stride = dest.planes[0].stride as usize;
    dest.planes[0].data.extend(vec![0xcd; stride]);
    assert!(!converter.can_convert(&src, &dest));
}

#[test]
fn mapped_frames_are_never_refused() {
    let describe: [(fn(u32, u32) -> VideoInfo, VideoFrame); 3] = [
        (i420_info, planar(YuvSubsampling::S420, 8, 5, false)),
        (nv12_info, semiplanar(YuvSubsampling::S420, 8, 5)),
        (nv12_info, semiplanar(YuvSubsampling::S420, 8, 4)),
    ];
    for (info, image) in describe {
        let h = image.info.height;
        for format in RGB_FORMATS {
            let mut pixels = blank(format, 8, h);
            let decode = YuvConverter::try_new(&image.info, &pixels.info).unwrap();
            assert!(decode.can_convert(&image, &pixels));
            assert!(decode.convert(&image, &mut pixels).is_ok());
            assert_flat(&pixels, format, COLOR, 255, "decoded");

            let encode = YuvConverter::try_new(&pixels.info, &image.info).unwrap();
            let planes = image.planes.iter().map(|p| (vec![0; p.data.len()], p.stride)).collect();
            let mut back = frame(info(8, h), planes);
            assert!(encode.can_convert(&pixels, &back));
            match encode.convert(&pixels, &mut back) {
                Ok(()) => assert_eq!(h, 4),
                Err(e) => {
                    assert_eq!(h, 5);
                    assert!(matches!(e, ConversionError::Failed(_, _)));
                }
            }
        }
    }
}

#[test]
fn converter_is_chosen_by_the_formats() {
    let converter = VideoConverter::new(&i420_info(8, 4), &rgb_info(RgbFormat::Rgb, 8, 4), None);
    let converter = converter.unwrap();
    assert!(matches!(converter.inner, Inner::Yuv(_)));
    let src = planar(YuvSubsampling::S420, 8, 4, false);
    let mut dest = blank(RgbFormat::Rgb, 8, 4);
    assert!(matches!(converter.frame_ref(&src, &mut dest), Some(Ok(()))));
    assert_flat(&dest, RgbFormat::Rgb, COLOR, 255, "I420 to RGB");

    let converter =
        VideoConverter::new(&rgb_info(RgbFormat::Bgra, 8, 4), &nv12_info(8, 4), None).unwrap();
    let src = flat(RgbFormat::Bgra, SOURCE, 8, 4);
    let mut dest =
        frame(nv12_info(8, 4), vec![(vec![0; 32], 8), (vec![0; 16], 8)]);
    assert!(matches!(converter.frame_ref(&src, &mut dest), Some(Ok(()))));
    assert!(all_near(&dest.planes[0].data, 124));
}

#[test]
fn stock_converter_does_the_rest() {
    let yuv = i420_info(8, 4);
    let other = nv12_info(8, 4);
    assert!(YuvConverter::try_new(&yuv, &other).is_none());
    let converter = VideoConverter::new(&yuv, &other, None).unwrap();
    assert!(matches!(converter.inner, Inner::Gst));
    let src = planar(YuvSubsampling::S420, 8, 4, false);
    let mut dest = frame(nv12_info(8, 4), vec![(vec![1; 32], 8), (vec![1; 16], 8)]);
    assert!(converter.frame_ref(&src, &mut dest).is_none());
    assert!(dest.planes[0].data.iter().all(|byte| *byte == 1));

    let disabled = Some(VideoConverterConfig { disable_fallback: Some(true) });
    assert_eq!(
        VideoConverter::new(&yuv, &other, disabled).unwrap_err(),
        ConverterError::FallbackDisabled
    );
    let allowed = Some(VideoConverterConfig { disable_fallback: Some(false) });
    assert!(VideoConverter::new(&yuv, &other, allowed).is_ok());
}

#[test]
fn invalid_info_is_refused() {
    let mut bad = i420_info(8, 4);
    bad.valid = false;
    assert_eq!(
        VideoConverter::new(&bad, &rgb_info(RgbFormat::Rgb, 8, 4), None).unwrap_err(),
        ConverterError::InvalidVideoInfo
    );
}

#[test]
fn formats_are_detected() {
    assert_eq!(detect_yuv_layout(&i420_info(8, 4)), YuvLayout::Planar);
    assert_eq!(detect_yuv_layout(&nv12_info(8, 4)), YuvLayout::SemiPlanar);
    assert_eq!(detect_yuv_layout(&gray_info(8, 4)), YuvLayout::Grayscale);
    assert_eq!(detect_yuv_subsampling(&i420_info(8, 4)), YuvSubsampling::S420);
    assert_eq!(detect_yuv_subsampling(&gray_info(8, 4)), YuvSubsampling::S400);
    assert_eq!(detect_uv_order(&nv12_info(8, 4)), UvOrder::Uv);
    assert_eq!(get_plane_order_introspected(&i420_info(8, 4)), (0, 1, 2));
    for format in RGB_FORMATS {
        assert_eq!(detect_rgb_format(&rgb_info(format, 8, 4)), format);
        assert!(is_rgb_format_supported_by_yuv(&rgb_info(format, 8, 4)));
    }
    let mut argb = rgb_info(RgbFormat::Rgba, 8, 4);
    for (c, offset) in argb.components.iter_mut().zip([1, 2, 3, 0]) {
        c.poffset = offset;
    }
    assert!(!is_rgb_format_supported_by_yuv(&argb));
    for (c, offset) in argb.components.iter_mut().zip([3, 2, 1, 0]) {
        c.poffset = offset;
    }
    assert!(!is_rgb_format_supported_by_yuv(&argb));
    let mut xrgb = padded_info(RgbFormat::Rgb);
    for (c, offset) in xrgb.components.iter_mut().zip([1, 2, 3]) {
        c.poffset = offset;
    }
    assert!(!is_rgb_format_supported_by_yuv(&xrgb));
    let mut packed = i420_info(8, 4);
    packed.format = VideoFormat::Vyuy;
    assert_eq!(detect_packed_order(&packed), PackedOrder::Vyuy);
    packed.format = VideoFormat::Other(99);
    assert_eq!(detect_packed_order(&packed), PackedOrder::Yuyv);
}

/// RGBx or BGRx.
fn padded_info(format: RgbFormat) -> VideoInfo {
    let mut info = rgb_info(format, 8, 4);
    info.format =
        if format == RgbFormat::Rgb { VideoFormat::Rgbx } else { VideoFormat::Bgrx };
    for c in &mut info.components {
        c.pstride = 4;
    }
    info
}

#[test]
fn padded_pixels_are_not_supported() {
    for format in [RgbFormat::Rgb, RgbFormat::Bgr] {
        let padded = padded_info(format);
        assert!(!is_rgb_format_supported_by_yuv(&padded));
        assert!(YuvConverter::try_new(&i420_info(8, 4), &padded).is_none());
        assert!(YuvConverter::try_new(&padded, &i420_info(8, 4)).is_none());
        assert!(YuvConverter::try_new(&padded, &rgb_info(RgbFormat::Rgba, 8, 4)).is_none());
    }
}

#[test]
fn colorimetry_is_detected() {
    assert_eq!(gst_to_yuv_range(VideoColorRange::Unknown), YuvRange::Limited);
    assert_eq!(gst_to_yuv_range(VideoColorRange::Range0_255), YuvRange::Full);
    assert_eq!(gst_to_yuv_matrix(VideoColorMatrix::Bt709), Ok(YuvStandardMatrix::Bt709));
    assert_eq!(
        gst_to_yuv_matrix(VideoColorMatrix::Rgb),
        Err(UnsupportedMatrix(VideoColorMatrix::Rgb))
    );
}

#[test]
fn samples_are_little_endian() {
    assert_eq!(read_samples(&[0x34, 0x12, 0xff, 0x03]), vec![0x1234, 0x03ff]);
}

#[test]
fn frames_are_looked_at_before_they_are_converted() {
    let pixels = flat(RgbFormat::Rgba, (1, 2, 3), 4, 4);
    let shuffle =
        YuvConverter::try_new(&rgb_info(RgbFormat::Rgba, 4, 4), &rgb_info(RgbFormat::Bgra, 4, 4))
            .unwrap();
    assert!(shuffle.can_convert(&pixels, &blank(RgbFormat::Bgra, 4, 4)));
    let without_plane = frame(rgb_info(RgbFormat::Bgra, 4, 4), vec![]);
    assert!(!shuffle.can_convert(&pixels, &without_plane));
    assert!(!shuffle.can_convert(&without_plane, &blank(RgbFormat::Bgra, 4, 4)));

    let to_i420 =
        YuvConverter::try_new(&rgb_info(RgbFormat::Rgba, 4, 4), &i420_info(4, 4)).unwrap();
    let planes = |chroma: usize| {
        frame(i420_info(4, 4), vec![(vec![0; 16], 4), (vec![0; chroma], 2), (vec![0; chroma], 2)])
    };
    assert!(to_i420.can_convert(&pixels, &planes(4)));
    assert!(!to_i420.can_convert(&pixels, &planes(3)));
}

#[test]
fn formats_are_looked_at_before_they_are_converted() {
    let rgba = rgb_info(RgbFormat::Rgba, 4, 4);
    assert!(is_conversion_defined(&i420_info(4, 4), &rgba));
    assert!(is_conversion_defined(&rgba, &nv12_info(4, 4)));
    assert!(is_conversion_defined(&gray_info(4, 4), &rgba));
    let mut without_components = i420_info(4, 4);
    without_components.components.clear();
    assert!(!is_conversion_defined(&without_components, &rgba));
    let mut too_many_planes = i420_info(4, 4);
    too_many_planes.n_planes = 5;
    assert!(!is_conversion_defined(&too_many_planes, &rgba));
    let mut halved_in_height = i420_info(4, 4);
    halved_in_height.components[1].width = 4;
    assert!(!is_conversion_defined(&rgba, &halved_in_height));
    assert!(is_conversion_defined(&i420_info(4, 4), &too_many_planes));
}
