use olg_server::codec::{decode, encode, MAX_PACKET_BYTES};
use olg_server::error::StepError;

#[test]
fn test_encode_prepends_marker() {
    let packet = encode("rcon test_password map_restart").unwrap();
    assert_eq!(packet, b"\xff\xff\xff\xffrcon test_password map_restart".to_vec());
    assert_eq!(packet.len(), 4 + "rcon test_password map_restart".len());
    assert_eq!(&packet[..4], b"\xff\xff\xff\xff");
}

#[test]
fn test_encode_empty_command() {
    let packet = encode("").unwrap();
    assert_eq!(packet, vec![0xff, 0xff, 0xff, 0xff]);
}

#[test]
fn test_encode_multibyte_command() {
    let packet = encode("héllo").unwrap();
    let mut expected = vec![0xff, 0xff, 0xff, 0xff];
    expected.extend_from_slice("héllo".as_bytes());
    assert_eq!(packet, expected);
}

#[test]
fn test_encode_largest_fitting_command() {
    let command = "a".repeat(MAX_PACKET_BYTES - 4);
    let packet = encode(&command).unwrap();
    assert_eq!(packet.len(), MAX_PACKET_BYTES);
}

#[test]
fn test_encode_command_too_large() {
    let command = "a".repeat(MAX_PACKET_BYTES - 3);
    assert_eq!(encode(&command), Err(StepError::CommandTooLarge));
}

#[test]
fn test_decode_rejects_short_input() {
    assert_eq!(decode(b""), Err(StepError::ProtocolError));
    assert_eq!(decode(b"\xff"), Err(StepError::ProtocolError));
    assert_eq!(decode(b"\xff\xff\xff"), Err(StepError::ProtocolError));
}

#[test]
fn test_decode_rejects_wrong_marker() {
    assert_eq!(decode(b"\x00\x00\x00\x00hello"), Err(StepError::ProtocolError));
    assert_eq!(decode(b"\xff\xff\xff\x00hello"), Err(StepError::ProtocolError));
    assert_eq!(decode(b"hello world"), Err(StepError::ProtocolError));
}

#[test]
fn test_decode_bare_marker() {
    assert_eq!(decode(b"\xff\xff\xff\xff"), Ok(String::new()));
}

#[test]
fn test_decode_plain_payload() {
    assert_eq!(decode(b"\xff\xff\xff\xffhello"), Ok("hello".to_string()));
}

#[test]
fn test_decode_strips_one_linefeed() {
    assert_eq!(decode(b"\xff\xff\xff\xff\nhello"), Ok("hello".to_string()));
    assert_eq!(decode(b"\xff\xff\xff\xff\n\nhello"), Ok("\nhello".to_string()));
    assert_eq!(decode(b"\xff\xff\xff\xff\n"), Ok(String::new()));
}

#[test]
fn test_decode_lossy_payload() {
    assert_eq!(decode(b"\xff\xff\xff\xffok\xfe"), Ok("ok\u{FFFD}".to_string()));
}
