use wsclone::ipc::frame_payload;
use wsclone::ipc::parse_hex_bytes;
use wsclone::ipc::payload_to_bytes;
use wsclone::ipc::utf8_string;

const PAYLOAD_SIZE_INFO_LENGTH: usize = 8;

#[test]
fn test_payload_to_bytes() {
    let payload = r#"{"action": "hello"}"#.to_string();
    let payload_size = payload.len();
    let bytes = payload_to_bytes(&payload).unwrap();
    let size_info_bytes = &bytes[0..PAYLOAD_SIZE_INFO_LENGTH];
    // The wire format counts in hexadecimal: 19 bytes frame as "00000013".
    let size = u16::from_str_radix(
        &String::from_utf8(size_info_bytes.to_vec()).unwrap(),
        16,
    )
    .unwrap();
    assert_eq!(size, payload_size as u16);
    let content_bytes = &bytes[PAYLOAD_SIZE_INFO_LENGTH..bytes.len()];
    let content = String::from_utf8(content_bytes.to_vec()).unwrap();
    assert_eq!(content.len(), payload_size);
    assert!(content.eq(&payload));
}

#[test]
fn frame_header_is_lower_case_hex() {
    let bytes = payload_to_bytes(r#"{"action": "hello"}"#).unwrap();
    assert_eq!(&bytes[0..8], b"00000013");
}

#[test]
fn frame_without_size_info_is_refused() {
    let data = r#"{"action": "hello"}"#.as_bytes().to_vec();
    assert!(frame_payload(&data).is_err());
}

#[test]
fn frame_with_valid_header_round_trips() {
    let data = br#"00000013{"action": "hello"}"#.to_vec();
    let payload = frame_payload(&data).unwrap();
    let text = utf8_string(payload).unwrap();
    assert_eq!(text, r#"{"action": "hello"}"#);
}

#[test]
fn framing_round_trips_through_parsing() {
    let message = "status report";
    let framed = payload_to_bytes(message).unwrap();
    let back = frame_payload(&framed).unwrap();
    assert_eq!(back, message.as_bytes());
}

#[test]
fn header_parsing_accepts_both_cases_and_rejects_junk() {
    assert_eq!(parse_hex_bytes(b"00ff"), Some(255));
    assert_eq!(parse_hex_bytes(b"00FF"), Some(255));
    assert_eq!(parse_hex_bytes(b"0019"), Some(25));
    assert_eq!(parse_hex_bytes(b"001g"), None);
    assert_eq!(parse_hex_bytes(b"+019"), None);
}

#[test]
fn frame_with_wrong_length_is_refused() {
    // The header announces 4 bytes; 3 follow.
    let data = b"00000004abc".to_vec();
    assert!(frame_payload(&data).is_err());
}
