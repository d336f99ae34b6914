use brightwheel::icon::{
    bgra, clear_indicator_mask, color, indicator_segment, is_bulb_fill, is_socket, off_color,
    on_color, tint_pixels,
};
use brightwheel::text::{decode_null_terminated, encode_null_terminated};
use brightwheel::tray::{
    brightness_value, copy_wide, hdr_value, opens_context_menu, set_tooltip, status_from, tooltip,
    Status,
};

#[test]
fn formats_complete_and_unavailable_statuses() {
    assert_eq!(
        tooltip(Status {
            brightness: Some(77),
            hdr: Some(true)
        }),
        "BrightWheel | Brightness 77% | HDR On"
    );
    assert_eq!(
        tooltip(Status::default()),
        "BrightWheel | Brightness unavailable | HDR unavailable"
    );
}

#[test]
fn copies_utf16_with_room_for_a_terminal_null() {
    let mut destination = [99_u16; 5];
    copy_wide(&mut destination, "Bright");
    assert_eq!(destination, [66, 114, 105, 103, 0]);
}

#[test]
fn tooltips_fit_the_shell_buffer() {
    let mut destination = [7_u16; 128];
    set_tooltip(&mut destination, Status { brightness: Some(5), hdr: Some(false) });
    let text = "BrightWheel | Brightness 5% | HDR Off";
    assert_eq!(decode_null_terminated(&destination), text);
    assert!(destination[text.len()..].iter().all(|unit| *unit == 0));
}

#[test]
fn shared_values_decode_into_a_status() {
    assert_eq!(status_from(-1, -1), Status { brightness: None, hdr: None });
    assert_eq!(status_from(42, 0), Status { brightness: Some(42), hdr: Some(false) });
    assert_eq!(status_from(0, 1), Status { brightness: Some(0), hdr: Some(true) });
    assert_eq!(status_from(3, 2).hdr, None);
    assert!(opens_context_menu(0x007B));
    assert!(opens_context_menu(0x0001_0205));
    assert!(!opens_context_menu(0x0202));
}

#[test]
fn encodes_a_single_terminal_null() {
    assert_eq!(
        encode_null_terminated("BrightWheel"),
        [66, 114, 105, 103, 104, 116, 87, 104, 101, 101, 108, 0]
    );
}

#[test]
fn encodes_characters_beyond_the_basic_plane_as_surrogate_pairs() {
    assert_eq!(encode_null_terminated("\u{1F4A1}é"), "\u{1F4A1}é".encode_utf16().chain(Some(0)).collect::<Vec<_>>());
}

#[test]
fn decoding_stops_at_the_first_null() {
    assert_eq!(decode_null_terminated(&[66, 114, 105, 0, 88]), "Bri");
}

#[test]
fn decoding_gives_back_the_encoded_text() {
    for text in ["BrightWheel", "Display 3", "\u{1F4A1} HDR é", ""] {
        let encoded = encode_null_terminated(text);
        assert_eq!(decode_null_terminated(&encoded), text);
        assert_eq!(decode_null_terminated(&encoded[..encoded.len() - 1]), text);
    }
}

#[test]
fn decoding_accepts_an_unterminated_slice() {
    assert_eq!(decode_null_terminated(&[72, 68, 82]), "HDR");
}

#[test]
fn interpolates_icon_color_across_brightness_range() {
    assert_eq!(color(0), off_color());
    assert_eq!(color(50), (192, 170, 94));
    assert_eq!(color(100), on_color());
    assert_eq!(color(101), on_color());
}

#[test]
fn classifies_bulb_and_socket_pixels() {
    assert!(is_bulb_fill(0xff_ff_d4_3b));
    assert!(!is_bulb_fill(0x00_ff_d4_3b));
    assert!(!is_bulb_fill(0xff_80_80_80));
    assert!(is_socket(0xff_00_00_01, 11, 16));
    assert!(!is_socket(0xff_00_00_00, 15, 16));
    assert!(!is_socket(0xff_10_10_10, 10, 16));
    assert_eq!(bgra(255, 212, 59, 230), 0xe6_e6_bf_35);
    assert_eq!(bgra(10, 20, 30, 0), 0);
}

#[test]
fn indicator_segments_sit_around_the_bulb() {
    assert_eq!(indicator_segment(2, 14, 32, 32), Some(1));
    assert_eq!(indicator_segment(6, 4, 32, 32), Some(2));
    assert_eq!(indicator_segment(16, 0, 32, 32), Some(3));
    assert_eq!(indicator_segment(26, 5, 32, 32), Some(4));
    assert_eq!(indicator_segment(30, 16, 32, 32), Some(5));
    assert_eq!(indicator_segment(16, 16, 32, 32), None);
    assert_eq!(indicator_segment(32, 2, 64, 64), Some(3));
    assert_eq!(indicator_segment(32, 28, 64, 64), None);
}

#[test]
fn tinting_moves_the_picture_down_and_lights_segments() {
    let width = 32;
    let height = 32;
    let mut source = vec![0_u32; width * height];
    source[16] = 0xff_ff_d4_3b;
    source[20 * width + 16] = 0xff_20_20_20;
    let tinted = tint_pixels(&source, width, height, 100);
    // Top row: the third segment, lit at 100%.
    assert_eq!(tinted[16], bgra(255, 212, 59, 230));
    // The bulb pixel moved three rows down, in the full-brightness color.
    assert_eq!(tinted[3 * width + 16], bgra(255, 212, 59, 255));
    // The socket pixel moved three rows down, turned black.
    assert_eq!(tinted[23 * width + 16], bgra(0, 0, 0, 255));
    let dim = tint_pixels(&source, width, height, 0);
    assert_eq!(dim[16], 0);
    assert_eq!(dim[3 * width + 16], bgra(128, 128, 128, 255));
}

#[test]
fn lit_segments_become_opaque_in_the_mask() {
    let stride = 4;
    let mut mask = vec![0xff_u8; stride * 32];
    clear_indicator_mask(&mut mask, stride, 32, 32, 20);
    // Segment 1 covers x 2..=4, y 14..=16: bits 2, 3, 4 of byte 0 in those rows.
    assert_eq!(mask[14 * stride], 0b1100_0111);
    assert_eq!(mask[16 * stride], 0b1100_0111);
    assert_eq!(mask[13 * stride], 0xff);
    // Segment 2 stays transparent at 20%.
    assert_eq!(mask[4 * stride], 0xff);
}

#[test]
fn empty_bitmaps_are_left_as_they_are() {
    assert!(tint_pixels(&Vec::new(), 0, 16, 100).is_empty());
    assert!(tint_pixels(&Vec::new(), 16, 0, 100).is_empty());
    let mut mask = vec![0xff_u8; 8];
    clear_indicator_mask(&mut mask, 0, 0, 16, 100);
    clear_indicator_mask(&mut mask, 2, 16, 0, 100);
    assert_eq!(mask, vec![0xff_u8; 8]);
}

#[test]
fn recorded_outcomes_read_back_from_the_shared_values() {
    for percent in [0, 42, 100] {
        for enabled in [false, true] {
            assert_eq!(
                status_from(brightness_value(Some(percent)), hdr_value(enabled)),
                Status { brightness: Some(percent), hdr: Some(enabled) }
            );
        }
    }
    assert_eq!(status_from(brightness_value(None), hdr_value(false)).brightness, None);
}
