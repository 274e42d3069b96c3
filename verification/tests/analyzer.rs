use klemme::analyzer_mode::AnalyzerMode;
use klemme::analyzer_mode::DecodedValue;
use klemme::analyzer_mode::Endianness;
use klemme::analyzer_mode::binary_string;
use klemme::analyzer_mode::decode;
use klemme::display::DisplayMode;
use klemme::portthread::SerialStateMessage;

// Buffer [01 .. 08], cursor 6: only the 8-bit and 16-bit tiers are
// offered; cursor 0: all four width tiers are offered.
#[test]
fn decode_width_gating() {
    let buffer = vec![0x01, 0x02, 0x03, 0x04, 0x05, 0x06, 0x07, 0x08];

    let narrow = decode(&buffer, 6, Endianness::Little);
    assert_eq!(narrow.len(), 4);
    assert!(matches!(narrow[0], DecodedValue::Binary(_)));
    assert!(matches!(narrow[1], DecodedValue::Unsigned8(_)));
    assert!(matches!(narrow[2], DecodedValue::Unsigned16(_)));
    assert!(matches!(narrow[3], DecodedValue::Signed16(_)));

    let full = decode(&buffer, 0, Endianness::Little);
    assert_eq!(full.len(), 10);
    assert!(matches!(full[4], DecodedValue::Unsigned32(_)));
    assert!(matches!(full[5], DecodedValue::Signed32(_)));
    assert!(matches!(full[6], DecodedValue::Float32Bits(_)));
    assert!(matches!(full[7], DecodedValue::Unsigned64(_)));
    assert!(matches!(full[8], DecodedValue::Signed64(_)));
    assert!(matches!(full[9], DecodedValue::Float64Bits(_)));
}

#[test]
fn decode_intermediate_width_tiers() {
    let buffer = vec![0x01, 0x02, 0x03, 0x04, 0x05];
    assert_eq!(decode(&buffer, 4, Endianness::Little).len(), 2);
    assert_eq!(decode(&buffer, 3, Endianness::Little).len(), 4);
    assert_eq!(decode(&buffer, 1, Endianness::Little).len(), 7);
    assert_eq!(decode(&buffer, 0, Endianness::Little).len(), 7);
}

#[test]
fn decode_past_the_end_yields_nothing() {
    let buffer = vec![0x01, 0x02];
    assert!(decode(&buffer, 2, Endianness::Little).is_empty());
    assert!(decode(&buffer, 100, Endianness::Big).is_empty());
    let empty: Vec<u8> = Vec::new();
    assert!(decode(&empty, 0, Endianness::Little).is_empty());
}

// Buffer [00 00 00 01], cursor 0: big endian reads the 32-bit unsigned
// value 1, little endian reads 16777216.
#[test]
fn decode_correctness_32_bit() {
    let buffer = vec![0x00, 0x00, 0x00, 0x01];

    let big = decode(&buffer, 0, Endianness::Big);
    assert_eq!(big[4], DecodedValue::Unsigned32(1));

    let little = decode(&buffer, 0, Endianness::Little);
    assert_eq!(little[4], DecodedValue::Unsigned32(16_777_216));
}

#[test]
fn decode_correctness_8_and_16_bit() {
    let buffer = vec![0x12, 0xFF];
    let big = decode(&buffer, 0, Endianness::Big);
    assert_eq!(big[0], DecodedValue::Binary(0x12));
    assert_eq!(big[1], DecodedValue::Unsigned8(0x12));
    assert_eq!(big[2], DecodedValue::Unsigned16(0x12FF));
    assert_eq!(big[3], DecodedValue::Signed16(0x12FF));

    let little = decode(&buffer, 0, Endianness::Little);
    assert_eq!(little[2], DecodedValue::Unsigned16(0xFF12));
    assert_eq!(little[3], DecodedValue::Signed16(-238));
}

#[test]
fn decode_signed_values_are_twos_complement() {
    let buffer = vec![0xFF, 0xFF, 0xFF, 0xFF, 0xFF, 0xFF, 0xFF, 0xFF];
    let items = decode(&buffer, 0, Endianness::Big);
    assert_eq!(items[3], DecodedValue::Signed16(-1));
    assert_eq!(items[5], DecodedValue::Signed32(-1));
    assert_eq!(items[8], DecodedValue::Signed64(-1));
}

// The 64-bit widths read the bytes in little-endian order whatever the
// endianness toggle says.
#[test]
fn decode_64_bit_ignores_the_endianness_toggle() {
    let buffer = vec![0x01, 0x00, 0x00, 0x00, 0x00, 0x00, 0x00, 0x00];
    let big = decode(&buffer, 0, Endianness::Big);
    let little = decode(&buffer, 0, Endianness::Little);
    assert_eq!(big[7], DecodedValue::Unsigned64(1));
    assert_eq!(little[7], DecodedValue::Unsigned64(1));
    assert_eq!(big[9], DecodedValue::Float64Bits(1));
}

#[test]
fn decode_float_bits_match_the_unsigned_reading() {
    let buffer = vec![0x3F, 0x80, 0x00, 0x00];
    let items = decode(&buffer, 0, Endianness::Big);
    assert_eq!(items[6], DecodedValue::Float32Bits(0x3F80_0000));
    // the bit pattern is the one whose float rendering is 1.0:
    if let DecodedValue::Float32Bits(bits) = items[6] {
        assert_eq!(f32::from_bits(bits), 1.0f32);
    }
}

#[test]
fn binary_string_is_most_significant_first() {
    assert_eq!(binary_string(0xA5), "10100101");
    assert_eq!(binary_string(0x00), "00000000");
    assert_eq!(binary_string(0xFF), "11111111");
    assert_eq!(binary_string(0x80), "10000000");
    assert_eq!(binary_string(0x01), "00000001");
}

#[test]
fn analyzer_mode_starts_inactive_little_endian_hex() {
    let mode = AnalyzerMode::new();
    assert!(!mode.active);
    assert!(mode.display_history.is_empty());
    assert_eq!(mode.scroll_offset, 0);
    assert_eq!(mode.analyzer_cursor_line, 0);
    assert_eq!(mode.analyzer_cursor_pos, 0);
    assert_eq!(mode.analyzer_endianness, Endianness::Little);
    assert_eq!(mode.active_display_mode, DisplayMode::Hex);
}

#[test]
fn analyzer_cursor_and_scroll_stop_at_zero() {
    let mut mode = AnalyzerMode::new();
    mode.cursor_left();
    assert_eq!(mode.analyzer_cursor_pos, 0);
    mode.cursor_right();
    mode.cursor_right();
    assert_eq!(mode.analyzer_cursor_pos, 2);
    mode.cursor_left();
    assert_eq!(mode.analyzer_cursor_pos, 1);

    mode.scroll_down();
    assert_eq!(mode.scroll_offset, 0);
    mode.scroll_up();
    assert_eq!(mode.scroll_offset, 1);

    mode.scroll_analyzer_cursor_down();
    assert_eq!(mode.analyzer_cursor_line, 0);
    mode.scroll_analyzer_cursor_up();
    assert_eq!(mode.analyzer_cursor_line, 1);
}

#[test]
fn rotate_analyzer_endianness_toggles() {
    let mut mode = AnalyzerMode::new();
    mode.rotate_analyzer_endianness();
    assert_eq!(mode.analyzer_endianness, Endianness::Big);
    mode.rotate_analyzer_endianness();
    assert_eq!(mode.analyzer_endianness, Endianness::Little);
}

#[test]
fn update_data_appends_in_order_and_sets_the_mode() {
    let mut mode = AnalyzerMode::new();
    mode.update_data(
        vec![SerialStateMessage::Started, SerialStateMessage::Stopped],
        DisplayMode::Ascii,
    );
    assert_eq!(mode.display_history.len(), 2);
    assert!(matches!(mode.display_history[0], SerialStateMessage::Started));
    assert!(matches!(mode.display_history[1], SerialStateMessage::Stopped));
    assert_eq!(mode.active_display_mode, DisplayMode::Ascii);

    mode.clear_history();
    assert!(mode.display_history.is_empty());
}

#[test]
fn add_to_history_appends_an_error_line() {
    let mut mode = AnalyzerMode::new();
    mode.add_to_history("no such port");
    assert_eq!(mode.display_history.len(), 1);
    match &mode.display_history[0] {
        SerialStateMessage::ErrorEvent(text) => assert_eq!(text, "no such port"),
        _ => panic!("the appended line must be an error event"),
    }
}

fn data_event(bytes: Vec<u8>) -> SerialStateMessage {
    SerialStateMessage::DataEvent(klemme::portthread::HistoryEntry {
        timestamp: 0,
        rx_tx: klemme::portthread::RxTx::Rx,
        data: bytes,
    })
}

// The history is shown newest first, the scroll offset hides that many
// newest entries, and the cursor line counts only data entries among the
// visible ones.
#[test]
fn cursor_line_data_picks_the_addressed_entry() {
    let mut mode = AnalyzerMode::new();
    mode.update_data(
        vec![
            data_event(vec![1]),
            SerialStateMessage::Started,
            data_event(vec![2]),
            SerialStateMessage::ErrorEvent("boom".to_string()),
            data_event(vec![3]),
        ],
        DisplayMode::Hex,
    );

    assert_eq!(mode.cursor_line_data(10), Some(vec![3]));
    mode.scroll_analyzer_cursor_up();
    assert_eq!(mode.cursor_line_data(10), Some(vec![2]));
    mode.scroll_analyzer_cursor_up();
    assert_eq!(mode.cursor_line_data(10), Some(vec![1]));
    mode.scroll_analyzer_cursor_up();
    assert_eq!(mode.cursor_line_data(10), None);

    // hiding the newest entry moves the first data line:
    let mut mode = AnalyzerMode::new();
    mode.update_data(
        vec![data_event(vec![1]), data_event(vec![2]), data_event(vec![3])],
        DisplayMode::Hex,
    );
    mode.scroll_up();
    assert_eq!(mode.cursor_line_data(10), Some(vec![2]));

    // a window of one row shows only the newest entry:
    let mut mode = AnalyzerMode::new();
    mode.update_data(vec![data_event(vec![1]), data_event(vec![2])], DisplayMode::Hex);
    assert_eq!(mode.cursor_line_data(1), Some(vec![2]));
    mode.scroll_analyzer_cursor_up();
    assert_eq!(mode.cursor_line_data(1), None);
}

#[test]
fn endianness_labels() {
    assert_eq!(Endianness::Big.label(), "Big");
    assert_eq!(Endianness::Little.label(), "Little");
    assert_eq!(Endianness::default(), Endianness::Little);
}
