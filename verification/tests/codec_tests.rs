use keypad_bridge::codec::{
    decode_event, encode_request, frame_report, KEY_OFFSET, MUTE_REPORT, REPORT_LENGTH,
    REQUEST_LENGTH, VOLUME_REPORT,
};

#[test]
fn lengths_and_kinds() {
    assert_eq!(REPORT_LENGTH, 32);
    assert_eq!(REQUEST_LENGTH, REPORT_LENGTH + 1);
    assert_eq!(MUTE_REPORT, 2);
    assert_eq!(VOLUME_REPORT, 3);
    assert_eq!(KEY_OFFSET, 61);
}

#[test]
fn encode_request_layout_for_every_pair() {
    for command in 0u8..=255 {
        for value in 0u8..=255 {
            let frame = encode_request(command, value);
            assert_eq!(frame.len(), 33);
            assert_eq!(frame[0], 0);
            assert_eq!(frame[1], command);
            assert_eq!(frame[2], value);
            assert!(frame[3..].iter().all(|b| *b == 0));
        }
    }
}

#[test]
fn encode_request_mute_report() {
    let mut expected = [0u8; 33];
    expected[1] = 2;
    expected[2] = 1;
    assert_eq!(encode_request(2, 1), expected);
}

#[test]
fn encode_request_volume_report() {
    let mut expected = [0u8; 33];
    expected[1] = 3;
    expected[2] = 42;
    assert_eq!(encode_request(3, 42), expected);
}

#[test]
fn encode_request_differs_from_its_arguments() {
    let frame = encode_request(0xAA, 0xBB);
    assert_eq!(&frame[..4], &[0x00, 0xAA, 0xBB, 0x00]);
}

#[test]
fn frame_report_empty_payload_is_all_zero() {
    assert_eq!(frame_report(&[]), [0u8; 33]);
}

#[test]
fn frame_report_short_payload_is_padded() {
    let frame = frame_report(&[9, 8, 7]);
    assert_eq!(&frame[..5], &[0, 9, 8, 7, 0]);
    assert!(frame[5..].iter().all(|b| *b == 0));
}

#[test]
fn frame_report_full_payload_fills_the_frame() {
    let payload: Vec<u8> = (1u8..=32).collect();
    let frame = frame_report(&payload);
    assert_eq!(frame[0], 0);
    assert_eq!(&frame[1..], &payload[..]);
}

#[test]
fn frame_report_agrees_with_encode_request() {
    assert_eq!(frame_report(&[3, 100]), encode_request(3, 100));
}

#[test]
fn decode_event_reads_layer_and_key() {
    let mut report = [0u8; 32];
    report[0] = 0;
    report[1] = 16;
    report[2] = 200;
    assert_eq!(decode_event(&report), (0, 'M'));
    report[0] = 7;
    report[1] = 23;
    assert_eq!(decode_event(&report), (7, 'T'));
}

#[test]
fn decode_event_of_an_empty_report() {
    assert_eq!(decode_event(&[0u8; 32]), (0, '='));
}

#[test]
fn decode_event_wraps_at_256() {
    let mut report = [0u8; 32];
    report[1] = 194;
    assert_eq!(decode_event(&report).1, '\u{ff}');
    report[1] = 195;
    assert_eq!(decode_event(&report).1, '\u{0}');
    report[1] = 250;
    assert_eq!(decode_event(&report).1, '7');
    report[1] = 255;
    assert_eq!(decode_event(&report).1, '<');
}

#[test]
fn decode_event_for_every_raw_key() {
    for layer in [0u8, 1, 255] {
        for raw in 0u8..=255 {
            let mut report = [0xEEu8; 32];
            report[0] = layer;
            report[1] = raw;
            let code: u32 = (u32::from(raw) + 61) % 256;
            let expected = char::from_u32(code).unwrap();
            assert_eq!(decode_event(&report), (layer, expected));
        }
    }
}
