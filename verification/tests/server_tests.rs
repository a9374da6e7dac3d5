use dust_manip::frame_images::{
    clear_unwanted_pixels_dust, clear_unwanted_pixels_snowballs, make_four_pixel, paint, ColorRemap,
    FourPixelConfig, ImagePoint, ViewRect,
};
use dust_manip::server::{
    hello_ack_bytes, ConnectionState, IncomingMessage, MessageHeader, MessageToSend, ScreenshotData,
    ServerAction,
};

fn screenshot(width: u32, height: u32, stride: u32, color: impl Fn(u32, u32) -> u32) -> ScreenshotData {
    let mut data = vec![0xabu8; (stride * height) as usize];
    for y in 0..height {
        for x in 0..width {
            let pos = (y * stride + x * 4) as usize;
            data[pos..pos + 4].copy_from_slice(&color(x, y).to_le_bytes());
        }
    }
    ScreenshotData { width, height, stride, data }
}

#[test]
fn header_is_read_highest_byte_first() {
    let mut data = Vec::new();
    for word in [0x55544000u32, 1, 640, 480, 2560, 32] {
        data.extend_from_slice(&word.to_be_bytes());
    }
    let header = MessageHeader::parse(&data);
    assert_eq!(
        header,
        MessageHeader {
            message_code: 0x55544000,
            screenshot_has_more: 1,
            screenshot_width: 640,
            screenshot_height: 480,
            screenshot_stride: 2560,
            screenshot_bits_per_pixel: 32,
        }
    );
    assert_eq!(header.kind(), IncomingMessage::Screenshot);
    assert!(header.is_supported_screenshot());
    assert_eq!(header.screenshot_length(), Some(1228800));
}

fn header(code: u32) -> MessageHeader {
    MessageHeader {
        message_code: code,
        screenshot_has_more: 0,
        screenshot_width: 640,
        screenshot_height: 480,
        screenshot_stride: 2560,
        screenshot_bits_per_pixel: 32,
    }
}

#[test]
fn message_codes_are_told_apart() {
    assert_eq!(header(0x55541000).kind(), IncomingMessage::Hello);
    assert_eq!(header(0x55542000).kind(), IncomingMessage::Goodbye);
    assert_eq!(header(0x55548000).kind(), IncomingMessage::Hotkey(0));
    assert_eq!(header(0x55548004).kind(), IncomingMessage::Hotkey(4));
    assert_eq!(header(0x55548005).kind(), IncomingMessage::Unknown);
    assert_eq!(header(0x55541001).kind(), IncomingMessage::Unknown);
    assert_eq!(header(0).kind(), IncomingMessage::Unknown);
}

#[test]
fn only_one_screenshot_format_is_taken() {
    let mut h = header(0x55544000);
    assert!(h.is_supported_screenshot());
    h.screenshot_bits_per_pixel = 24;
    assert!(!h.is_supported_screenshot());
    h.screenshot_bits_per_pixel = 32;
    h.screenshot_width = 641;
    assert!(!h.is_supported_screenshot());
    h.screenshot_width = 640;
    h.screenshot_height = 479;
    assert!(!h.is_supported_screenshot());
    h.screenshot_stride = u32::MAX;
    assert_eq!(h.screenshot_length(), None);
}

#[test]
fn messages_are_sent_highest_byte_first() {
    assert_eq!(MessageToSend::new_screenshot_start_delay(500).to_bytes(), vec![0x55, 0x54, 0x50, 0, 0, 0, 1, 0xf4]);
    assert_eq!(MessageToSend::new_screenshot_mode(true).to_bytes(), vec![0x55, 0x54, 0x60, 0, 0, 0, 0, 1]);
    assert_eq!(MessageToSend::new_screenshot_mode(false).to_bytes(), vec![0x55, 0x54, 0x60, 0, 0, 0, 0, 0]);
    assert_eq!(hello_ack_bytes(), vec![0x55, 0x54, 0x10, 0x01]);
}

#[test]
fn brightest_pixel_of_a_square() {
    let shot = screenshot(8, 6, 40, |x, y| 0xFF00_0000 + x * 0x010101 + y * 0x101010);
    assert_eq!(shot.get_brightest_pixel(0, 0, 1), 0xFF00_0000);
    assert_eq!(shot.get_brightest_pixel(2, 1, 3), 0xFF00_0000 + 4 * 0x010101 + 3 * 0x101010);
    assert_eq!(shot.get_brightest_pixel(7, 5, 1), 0xFF00_0000 + 7 * 0x010101 + 5 * 0x101010);
    assert_eq!(shot.get_brightest_pixel(3, 3, 0), 0xFF00_0000);
    let dark = screenshot(4, 4, 16, |_, _| 0x00FF_FFFF);
    assert_eq!(dark.get_brightest_pixel(0, 0, 4), 0xFF00_0000);
}

#[test]
fn screenshots_are_compared_pixel_by_pixel() {
    let a = screenshot(5, 4, 20, |x, y| x * 7 + y);
    let padded = screenshot(5, 4, 32, |x, y| x * 7 + y);
    let other = screenshot(5, 4, 20, |x, y| if (x, y) == (4, 3) { 1 } else { x * 7 + y });
    let wider = screenshot(6, 4, 24, |x, y| x * 7 + y);
    assert!(a.is_same_as(&a.clone()));
    assert!(a.is_same_as(&padded));
    assert!(!a.is_same_as(&other));
    assert!(!a.is_same_as(&wider));
}

fn config() -> FourPixelConfig {
    FourPixelConfig {
        pixel_match_color_1_1: 0xFF006AFF,
        pixel_replace_color_1_1: ColorRemap::single(0xFFFFFFFF, 0xFF000000, 0xFFFFFFFF),
        pixel_coord_1_1: ImagePoint { x: 0, y: 0 },
        pixel_coord_1_1_size: 2,
        pixel_match_color_1_2: 0xFF00007F,
        pixel_replace_color_1_2: ColorRemap::double(0xFF000000, 0xFF494949, 0xFF0000FF, 0xFF000000),
        pixel_coord_1_2: ImagePoint { x: 2, y: 2 },
        pixel_coord_1_2_size: 1,
        pixel_match_color_2_1: 0xFF0000FF,
        pixel_replace_color_2_1: ColorRemap::single(0xFF000000, 0xFF0000FF, 0xFF000000),
        pixel_coord_2_1: ImagePoint { x: 0, y: 0 },
        pixel_coord_2_1_size: 2,
        pixel_match_color_2_2: 0xFF21FF00,
        pixel_replace_color_2_2: ColorRemap::single(0xFFFFFFFF, 0xFF21FF00, 0xFF000000),
        pixel_coord_2_2: ImagePoint { x: 3, y: 3 },
        pixel_coord_2_2_size: 1,
    }
}

fn words(bytes: &[u8]) -> Vec<u32> {
    bytes.chunks(4).map(|c| u32::from_le_bytes([c[0], c[1], c[2], c[3]])).collect()
}

#[test]
fn remaps_know_one_or_two_colours() {
    let one = ColorRemap::single(1, 10, 20);
    assert_eq!((one.apply(1), one.apply(2)), (10, 20));
    let two = ColorRemap::double(1, 2, 10, 20);
    assert_eq!((two.apply(1), two.apply(2), two.apply(3)), (10, 10, 20));
}

#[test]
fn four_pixels_are_painted_into_the_template() {
    let first = screenshot(4, 4, 16, |x, y| if (x, y) == (1, 1) { 0xFFFFFFFF } else if (x, y) == (2, 2) { 0xFF494949 } else { 0xFF000000 });
    let second = screenshot(4, 4, 16, |x, y| if (x, y) == (3, 3) { 0xFFFFFFFF } else { 0xFF000000 });
    let config = config();
    assert!(config.check_fits(&first, &second));
    let template: Vec<u8> = [0xFF006AFFu32, 0xFF00007F, 0xFF0000FF, 0xFF21FF00, 0x12345678]
        .iter()
        .flat_map(|c| c.to_le_bytes())
        .collect();
    let mut out = vec![1, 2];
    make_four_pixel(&template, &mut out, &first, &second, &config);
    assert_eq!(&out[..2], &[1, 2]);
    assert_eq!(words(&out[2..]), vec![0xFF000000, 0xFF0000FF, 0xFF0000FF, 0xFF21FF00, 0x12345678]);
    let mut painted = Vec::new();
    paint(&template, &mut painted, &config, 1, 2, 3, 4);
    assert_eq!(words(&painted), vec![1, 2, 3, 4, 0x12345678]);
    let small = screenshot(1, 1, 4, |_, _| 0);
    assert!(!config.check_fits(&small, &second));
}

#[test]
fn dust_screenshots_become_black_and_white() {
    let shot = screenshot(4, 3, 20, |x, y| match (x, y) {
        (1, 1) => 0xFF22B14C,
        (2, 1) => 0xFF494949,
        (1, 2) => 0xFF000000,
        (2, 2) => 0xFF123456,
        _ => 0xFFFFFFFF,
    });
    let view = ViewRect::new(1, 1, 2, 2);
    let mut normal = vec![9];
    clear_unwanted_pixels_dust(&mut normal, &shot, view, false);
    assert_eq!(normal[0], 9);
    assert_eq!(words(&normal[1..]), vec![0xFF000000, 0xFFFFFFFF, 0xFF000000, 0xFFFFFFFF]);
    let mut early = Vec::new();
    clear_unwanted_pixels_dust(&mut early, &shot, view, true);
    assert_eq!(words(&early), vec![0xFF000000, 0xFF000000, 0xFF000000, 0xFFFFFFFF]);
    let mut none = Vec::new();
    clear_unwanted_pixels_dust(&mut none, &shot, ViewRect::new(4, 3, 0, 0), true);
    assert!(none.is_empty());
}

#[test]
fn snowball_screenshots_keep_only_white() {
    let shot = screenshot(3, 2, 12, |x, y| if x == y { 0xFFFFFFFF } else { 0xFF00_0000 + x });
    let mut out = Vec::new();
    clear_unwanted_pixels_snowballs(&mut out, &shot, ViewRect::new(0, 0, 3, 2));
    assert_eq!(words(&out), vec![0xFFFFFFFF, 0, 0, 0, 0xFFFFFFFF, 0]);
}

#[test]
fn screenshots_are_read_only_after_the_hello() {
    let mut state = ConnectionState::new();
    assert!(!state.got_hello);
    assert_eq!(state.on_header(&header(0x55544000)), ServerAction::Reject);
    assert_eq!(state.on_header(&header(0x12345678)), ServerAction::Reject);
    assert_eq!(state.on_header(&header(0x55548002)), ServerAction::Hotkey(2));
    assert!(!state.got_hello);
    assert_eq!(state.on_header(&header(0x55541000)), ServerAction::Acknowledge);
    assert!(state.got_hello);
    assert_eq!(state.on_header(&header(0x55544000)), ServerAction::ReadScreenshot(2560 * 480));
    assert_eq!(state.on_header(&header(0x12345678)), ServerAction::Ignore);
    assert_eq!(state.on_header(&header(0x55548004)), ServerAction::Hotkey(4));
    assert_eq!(state.on_header(&header(0x55542000)), ServerAction::Disconnect);
    assert!(state.got_hello);
    assert_eq!(state.screenshots.len(), 0);
}

#[test]
fn screenshots_of_another_format_or_size_are_not_read() {
    let mut state = ConnectionState::new();
    state.on_header(&header(0x55541000));
    let mut other = header(0x55544000);
    other.screenshot_bits_per_pixel = 24;
    assert_eq!(state.on_header(&other), ServerAction::Drain);
    let mut other = header(0x55544000);
    other.screenshot_width = 641;
    assert_eq!(state.on_header(&other), ServerAction::Drain);
    let mut large = header(0x55544000);
    large.screenshot_stride = 8_947_848;
    assert_eq!(state.on_header(&large), ServerAction::ReadScreenshot(4_294_967_040));
    large.screenshot_stride = 8_947_849;
    assert_eq!(state.on_header(&large), ServerAction::Oversized);
}

#[test]
fn repeated_screenshots_are_dropped_and_the_rest_handed_on() {
    let mut state = ConnectionState::new();
    let first = screenshot(3, 2, 16, |x, y| x + 10 * y);
    let second = screenshot(3, 2, 12, |x, y| x + 10 * y);
    let third = screenshot(3, 2, 12, |x, y| x + 10 * y + 1);
    assert_eq!(state.on_screenshot(first.clone(), 1).len(), 0);
    assert_eq!(state.screenshots.len(), 1);
    // the same picture in another stride
    assert_eq!(state.on_screenshot(second, 7).len(), 0);
    assert_eq!(state.screenshots.len(), 1);
    assert_eq!(state.on_screenshot(third.clone(), 1).len(), 0);
    assert_eq!(state.screenshots.len(), 2);
    // only the last one kept is compared
    let flushed = state.on_screenshot(first.clone(), 0);
    assert_eq!(flushed.len(), 3);
    assert_eq!(flushed[0].stride, 16);
    assert_eq!(flushed[1].data, third.data);
    assert_eq!(flushed[2].data, first.data);
    assert_eq!(state.screenshots.len(), 0);
    // a repeat of the last one kept is dropped before the rest is handed on
    assert_eq!(state.on_screenshot(third.clone(), 1).len(), 0);
    let flushed = state.on_screenshot(third.clone(), 0);
    assert_eq!(flushed.len(), 1);
    assert_eq!(state.on_screenshot(third, 0).len(), 1);
    assert_eq!(state.screenshots.len(), 0);
}
