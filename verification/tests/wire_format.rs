use bootleg_networking::frame::{
    check_naia_message_len, decode_frame_header, generate_message_bin, parse_datagram,
    NAIA_MAX_FRAME_LEN,
};
use bootleg_networking::shared::{MessageChannelID, SendMessageError};

#[test]
fn message_channel_id_keeps_its_byte() {
    assert_eq!(MessageChannelID::new(42).id, 42);
    assert_eq!(MessageChannelID::new(0), MessageChannelID { id: 0 });
}

#[test]
fn frame_of_short_message() {
    let frame = generate_message_bin(&[1, 2, 3], &MessageChannelID::new(7));
    assert_eq!(frame, vec![0, 0, 0, 3, 7, 1, 2, 3]);
}

#[test]
fn frame_of_empty_message() {
    let frame = generate_message_bin(&[], &MessageChannelID::new(255));
    assert_eq!(frame, vec![0, 0, 0, 0, 255]);
}

#[test]
fn frame_length_is_big_endian() {
    let payload = vec![9u8; 300];
    let frame = generate_message_bin(&payload, &MessageChannelID::new(1));
    assert_eq!(&frame[..5], &[0, 0, 1, 44, 1]);
    assert_eq!(frame.len(), 305);
    assert_eq!(&frame[5..], &payload[..]);
    let big = vec![0u8; 0x01_02_03];
    let frame = generate_message_bin(&big, &MessageChannelID::new(4));
    assert_eq!(&frame[..5], &[0, 1, 2, 3, 4]);
}

#[test]
fn header_is_read_back() {
    let frame = generate_message_bin(&[5; 10], &MessageChannelID::new(3));
    let (len, channel) = decode_frame_header(&frame[..5], 64).unwrap();
    assert_eq!(len, 10);
    assert_eq!(channel.id, 3);
}

#[test]
fn header_announcing_too_much_is_refused() {
    assert!(decode_frame_header(&[0, 0, 0, 65, 3], 64).is_none());
    assert!(decode_frame_header(&[1, 0, 0, 0, 3], 2048).is_none());
    assert_eq!(decode_frame_header(&[0, 0, 0, 64, 3], 64).unwrap().0, 64);
}

#[test]
fn datagram_round_trip_with_trailing_bytes() {
    let payload = b"hello world".to_vec();
    let mut buffer = generate_message_bin(&payload, &MessageChannelID::new(9));
    buffer.extend_from_slice(&[0xAA; 20]);
    let (channel, got) = parse_datagram(&buffer, 2048).unwrap();
    assert_eq!(channel.id, 9);
    assert_eq!(got, payload);
}

#[test]
fn datagram_too_long_is_refused() {
    let payload = vec![1u8; 100];
    let buffer = generate_message_bin(&payload, &MessageChannelID::new(2));
    assert!(parse_datagram(&buffer, 99).is_none());
    assert_eq!(parse_datagram(&buffer, 100).unwrap().1, payload);
}

#[test]
fn naia_length_limit() {
    assert_eq!(NAIA_MAX_FRAME_LEN, 1095);
    let channel = MessageChannelID::new(0);
    assert!(check_naia_message_len(&vec![0u8; 1090], &channel).is_ok());
    match check_naia_message_len(&vec![0u8; 1091], &channel) {
        Err(SendMessageError::MessageTooLarge) => {}
        other => panic!("unexpected {:?}", other),
    }
    assert!(check_naia_message_len(&[], &channel).is_ok());
}
