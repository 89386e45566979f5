use michadame::codec::{capture_options, decimal_string, normalize_format_tag, prepare_capture, CodecPath};
use michadame::frame::{DecodedFrame, FrameError};
use michadame::types::{apply_saved_format_config, validate_capture_request, CaptureSelection, ConfigError, Resolution, VideoFormat};

fn format(tag: &str, sizes: Vec<(u32, u32, Vec<u32>)>) -> VideoFormat {
    VideoFormat {
        fourcc: tag.to_string(),
        description: String::new(),
        resolutions: sizes
            .into_iter()
            .map(|(width, height, framerates)| Resolution { width, height, framerates })
            .collect(),
    }
}

fn options_map(opts: &[(String, String)]) -> Vec<(&str, &str)> {
    opts.iter().map(|(k, v)| (k.as_str(), v.as_str())).collect()
}

#[test]
fn yuyv_tag_takes_raw_path_with_yuyv422() {
    assert_eq!(normalize_format_tag("YUYV"), CodecPath::RawVideo { pixel_format: "yuyv422".to_string() });
    let opts = capture_options(&normalize_format_tag("YUYV"), 640, 480, 30);
    let m = options_map(&opts);
    assert!(m.contains(&("input_format", "rawvideo")));
    assert!(m.contains(&("pixel_format", "yuyv422")));
}

#[test]
fn mjpg_tag_takes_compressed_path_without_pixel_format() {
    assert_eq!(normalize_format_tag("MJPG"), CodecPath::Mjpeg);
    let opts = capture_options(&CodecPath::Mjpeg, 1920, 1080, 30);
    let m = options_map(&opts);
    assert!(m.contains(&("input_format", "mjpeg")));
    assert!(!m.iter().any(|(k, _)| *k == "pixel_format"));
}

#[test]
fn tag_normalisation_trims_nul_padding_and_lowercases() {
    assert_eq!(normalize_format_tag("MJPG\0\0"), CodecPath::Mjpeg);
    assert_eq!(normalize_format_tag("mjpeg"), CodecPath::Mjpeg);
    assert_eq!(normalize_format_tag("H264\0"), CodecPath::RawVideo { pixel_format: "h264".to_string() });
    assert_eq!(normalize_format_tag("NV12"), CodecPath::RawVideo { pixel_format: "nv12".to_string() });
}

#[test]
fn capture_options_list_low_latency_flags_in_order() {
    let opts = capture_options(&CodecPath::RawVideo { pixel_format: "yuyv422".to_string() }, 1920, 1080, 60);
    assert_eq!(
        options_map(&opts),
        vec![
            ("video_size", "1920x1080"),
            ("framerate", "60"),
            ("f", "v4l2"),
            ("fflags", "nobuffer+discardcorrupt"),
            ("probesize", "32"),
            ("analyzeduration", "100000"),
            ("input_format", "rawvideo"),
            ("pixel_format", "yuyv422"),
        ]
    );
}

#[test]
fn decimal_strings() {
    assert_eq!(decimal_string(0), "0");
    assert_eq!(decimal_string(7), "7");
    assert_eq!(decimal_string(100000), "100000");
    assert_eq!(decimal_string(u32::MAX), "4294967295");
}

#[test]
fn advertised_framerate_is_accepted_and_others_refused() {
    let f = format("YUYV", vec![(1920, 1080, vec![15, 30])]);
    assert_eq!(validate_capture_request(&f, 1920, 1080, 30), Ok(()));
    assert_eq!(validate_capture_request(&f, 1920, 1080, 15), Ok(()));
    assert_eq!(validate_capture_request(&f, 1920, 1080, 60), Err(ConfigError::UnsupportedFramerate));
    assert_eq!(validate_capture_request(&f, 1280, 720, 30), Err(ConfigError::UnsupportedResolution));
}

#[test]
fn prepare_capture_rejects_unadvertised_rate_before_the_backend() {
    let f = format("MJPG", vec![(1920, 1080, vec![15, 30])]);
    assert_eq!(prepare_capture(&f, 1920, 1080, 60).unwrap_err(), ConfigError::UnsupportedFramerate);
    let (path, opts) = prepare_capture(&f, 1920, 1080, 30).unwrap();
    assert_eq!(path, CodecPath::Mjpeg);
    assert_eq!(opts[0], ("video_size".to_string(), "1920x1080".to_string()));
    assert_eq!(opts[1], ("framerate".to_string(), "30".to_string()));
}

#[test]
fn duplicate_sizes_any_listing_of_the_rate_counts() {
    let f = format("YUYV", vec![(640, 480, vec![15]), (640, 480, vec![30])]);
    assert_eq!(validate_capture_request(&f, 640, 480, 30), Ok(()));
}

#[test]
fn default_format_is_a_placeholder() {
    let f = VideoFormat::default();
    assert_eq!(f.fourcc, "0000");
    assert_eq!(f.description, "None");
    assert!(f.resolutions.is_empty());
}

#[test]
fn saved_format_is_restored_when_offered() {
    let formats = vec![
        format("YUYV", vec![(640, 480, vec![30])]),
        format("MJPG", vec![(1280, 720, vec![30, 60]), (1920, 1080, vec![30])]),
    ];
    let mut sel = CaptureSelection { format_index: 0, resolution: (0, 0), framerate: 0 };
    apply_saved_format_config(&mut sel, &formats, &Some("MJPG".to_string()), Some((1280, 720)), Some(60));
    assert_eq!((sel.format_index, sel.resolution, sel.framerate), (1, (1280, 720), 60));

    let mut sel = CaptureSelection { format_index: 0, resolution: (0, 0), framerate: 5 };
    apply_saved_format_config(&mut sel, &formats, &Some("MJPG".to_string()), Some((1920, 1080)), Some(60));
    assert_eq!((sel.format_index, sel.resolution, sel.framerate), (1, (1920, 1080), 5));

    let mut sel = CaptureSelection { format_index: 0, resolution: (1, 1), framerate: 5 };
    apply_saved_format_config(&mut sel, &formats, &Some("MJPG".to_string()), Some((800, 600)), Some(30));
    assert_eq!((sel.format_index, sel.resolution, sel.framerate), (1, (1, 1), 5));

    let mut sel = CaptureSelection { format_index: 0, resolution: (1, 1), framerate: 5 };
    apply_saved_format_config(&mut sel, &formats, &Some("H264".to_string()), Some((640, 480)), Some(30));
    assert_eq!((sel.format_index, sel.resolution, sel.framerate), (0, (1, 1), 5));
}

#[test]
fn rgb_plane_rows_are_packed_without_padding() {
    // 2x2 image, rows 8 bytes apart (6 pixel bytes + 2 padding).
    let data = vec![1, 2, 3, 4, 5, 6, 99, 99, 7, 8, 9, 10, 11, 12];
    let f = DecodedFrame::from_rgb_plane(&data, 8, 2, 2).unwrap();
    assert_eq!((f.width, f.height), (2, 2));
    assert_eq!(f.pixels, vec![1, 2, 3, 4, 5, 6, 7, 8, 9, 10, 11, 12]);
}

#[test]
fn rgb_plane_errors() {
    let data = vec![0u8; 10];
    assert_eq!(DecodedFrame::from_rgb_plane(&data, 5, 2, 1), Err(FrameError::StrideTooShort));
    assert_eq!(DecodedFrame::from_rgb_plane(&data, 6, 2, 2), Err(FrameError::PlaneTooShort));
    let empty = DecodedFrame::from_rgb_plane(&data, 0, 0, 3).unwrap();
    assert!(empty.pixels.is_empty());
}
