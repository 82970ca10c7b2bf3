use yarden::{parse_frame_rate, parse_unsigned, Frame, DecodedVideoFrame};

#[test]
fn parses_whole_number_frame_rates() {
    assert_eq!(parse_frame_rate(b"25/1"), Some(25));
    assert_eq!(parse_frame_rate(b"25/1\n"), Some(25));
    assert_eq!(parse_frame_rate(b"  24/1 \r\n"), Some(24));
    assert_eq!(parse_frame_rate(b"60/1"), Some(60));
}

#[test]
fn rejects_fractional_or_malformed_rates() {
    // only exact whole-number rates are supported
    assert_eq!(parse_frame_rate(b"30000/1001"), None);
    assert_eq!(parse_frame_rate(b"25"), None);
    assert_eq!(parse_frame_rate(b"/1"), None);
    assert_eq!(parse_frame_rate(b""), None);
    assert_eq!(parse_frame_rate(b"a5/1"), None);
    assert_eq!(parse_frame_rate(b"25/2"), None);
}

#[test]
fn parses_probed_dimensions() {
    assert_eq!(parse_unsigned(b"1920\n"), Some(1920));
    assert_eq!(parse_unsigned(b" 1080 "), Some(1080));
    assert_eq!(parse_unsigned(b"6817"), Some(6817));
    assert_eq!(parse_unsigned(b"0"), Some(0));
    assert_eq!(parse_unsigned(b"4294967295"), Some(u32::MAX));
}

#[test]
fn rejects_malformed_numbers() {
    assert_eq!(parse_unsigned(b""), None);
    assert_eq!(parse_unsigned(b"   "), None);
    assert_eq!(parse_unsigned(b"12a3"), None);
    assert_eq!(parse_unsigned(b"-5"), None);
    // one past u32::MAX
    assert_eq!(parse_unsigned(b"4294967296"), None);
    assert_eq!(parse_unsigned(b"99999999999999999999"), None);
}

#[test]
fn pixels_enumerates_coordinates_row_by_row() {
    let f = DecodedVideoFrame {
        width: 2,
        height: 1,
        data: vec![10, 20, 30, 0, 40, 50, 60, 0],
    };
    let px = f.pixels();
    assert_eq!(px, vec![(0, 0, (10, 20, 30)), (1, 0, (40, 50, 60))]);
}
