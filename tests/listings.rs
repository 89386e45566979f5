use michadame::listing::{parse_format_line, parse_format_listing, parse_framerate_line, parse_rate, parse_resolution_line};
use michadame::types::Resolution;
use michadame::usb::parse_usb_listing;

const LISTING: &str = "ioctl: VIDIOC_ENUM_FMT\n\tType: Video Capture\n\n\t[0]: 'MJPG' (Motion-JPEG, compressed)\n\t\tSize: Discrete 1920x1080\n\t\t\tInterval: Discrete 0.033s (30.000 fps)\n\t\t\tInterval: Discrete 0.067s (15.000 fps)\n\t\tSize: Discrete 1280x720\n\t\t\tInterval: Discrete 0.017s (60.000 fps)\n\t\t\tInterval: Discrete 0.017s (60.000 fps)\n\t\tSize: Discrete 640x480\n\t[1]: 'YUYV' (YUYV 4:2:2)\n\t\tSize: Discrete 640x480\n\t\t\tInterval: Discrete 0.133s (7.500 fps)\n\t[2]: 'H264' (H.264)\n\t\tSize: Discrete 320x240\n";

#[test]
fn format_header_lines() {
    let f = parse_format_line("[0]: 'YUYV' (YUYV 4:2:2)").unwrap();
    assert_eq!(f.fourcc, "YUYV");
    assert_eq!(f.description, "YUYV 4:2:2");
    assert!(f.resolutions.is_empty());
    let g = parse_format_line("[1]: 'MJPG'").unwrap();
    assert_eq!((g.fourcc.as_str(), g.description.as_str()), ("MJPG", ""));
    assert!(parse_format_line("Size: Discrete 640x480").is_none());
    assert!(parse_format_line("[0] 'YUYV'").is_none());
}

#[test]
fn size_lines() {
    let r = parse_resolution_line("Size: Discrete 1920x1080").unwrap();
    assert_eq!((r.width, r.height), (1920, 1080));
    assert!(parse_resolution_line("Size: Discrete 1920x1080x2").is_none());
    assert!(parse_resolution_line("Size: Stepwise 16x16 - 1920x1080").is_none());
    assert!(parse_resolution_line("Size: Discrete").is_none());
    assert!(parse_resolution_line("Size: Discrete 99999999999x10").is_none());
    assert_eq!(parse_resolution_line("Size: Discrete +640x480").map(|r| (r.width, r.height)), Some((640, 480)));
}

#[test]
fn interval_lines_add_new_rounded_rates() {
    let mut r = Resolution { width: 640, height: 480, framerates: vec![] };
    parse_framerate_line("Interval: Discrete 0.033s (30.000 fps)", &mut r);
    parse_framerate_line("Interval: Discrete 0.033s (30.000 fps)", &mut r);
    parse_framerate_line("Interval: Discrete 0.133s (7.500 fps)", &mut r);
    parse_framerate_line("Interval: Discrete 0.2s (5.499 fps)", &mut r);
    parse_framerate_line("Interval: Discrete 0.2s", &mut r);
    parse_framerate_line("Something (12 fps)", &mut r);
    assert_eq!(r.framerates, vec![30, 8, 5]);
}

#[test]
fn rate_words() {
    assert_eq!(parse_rate("30.000"), Some(30));
    assert_eq!(parse_rate("29.97"), Some(30));
    assert_eq!(parse_rate("7.5"), Some(8));
    assert_eq!(parse_rate(".5"), Some(1));
    assert_eq!(parse_rate("5."), Some(5));
    assert_eq!(parse_rate("-3.0"), Some(0));
    assert_eq!(parse_rate("99999999999"), Some(u32::MAX));
    assert_eq!(parse_rate("."), None);
    assert_eq!(parse_rate("fps"), None);
    assert_eq!(parse_rate(""), None);
}

#[test]
fn whole_listing_keeps_sizes_with_rates_and_formats_with_sizes() {
    let formats = parse_format_listing(LISTING);
    assert_eq!(formats.len(), 2);
    assert_eq!(formats[0].fourcc, "MJPG");
    assert_eq!(formats[0].description, "Motion-JPEG, compressed");
    let sizes: Vec<(u32, u32, Vec<u32>)> =
        formats[0].resolutions.iter().map(|r| (r.width, r.height, r.framerates.clone())).collect();
    assert_eq!(sizes, vec![(1920, 1080, vec![30, 15]), (1280, 720, vec![60])]);
    assert_eq!(formats[1].fourcc, "YUYV");
    assert_eq!(formats[1].resolutions.len(), 1);
    assert_eq!(formats[1].resolutions[0].framerates, vec![8]);
    assert!(parse_format_listing("").is_empty());
}

#[test]
fn lsusb_lines_become_id_and_name() {
    let text = "Bus 001 Device 004: ID 534d:2109 MacroSilicon USB  Video\nBus 002 Device 001: ID 1d6b:0003\nshort line\r\nBus 003 Device 002: ID 8087:0024 Hub\r\n";
    let devices = parse_usb_listing(text);
    assert_eq!(
        devices,
        vec![
            ("534d:2109".to_string(), "MacroSilicon USB Video".to_string()),
            ("8087:0024".to_string(), "Hub".to_string()),
        ]
    );
}
