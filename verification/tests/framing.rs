use gaia_client_socket::header::{MessageHeader, control_frame, decode_header, encode_header, frame_data};

#[test]
fn header_round_trip_client_handshake() {
    assert_eq!(
        decode_header(encode_header(MessageHeader::ClientHandshake)),
        Some(MessageHeader::ClientHandshake)
    );
}

#[test]
fn header_round_trip_server_handshake() {
    assert_eq!(
        decode_header(encode_header(MessageHeader::ServerHandshake)),
        Some(MessageHeader::ServerHandshake)
    );
}

#[test]
fn header_round_trip_data() {
    assert_eq!(decode_header(encode_header(MessageHeader::Data)), Some(MessageHeader::Data));
}

#[test]
fn header_round_trip_heartbeat() {
    assert_eq!(
        decode_header(encode_header(MessageHeader::Heartbeat)),
        Some(MessageHeader::Heartbeat)
    );
}

#[test]
fn header_bytes_are_distinct() {
    let tags = [
        MessageHeader::ClientHandshake,
        MessageHeader::ServerHandshake,
        MessageHeader::Data,
        MessageHeader::Heartbeat,
    ];
    for a in 0..tags.len() {
        for b in 0..tags.len() {
            if a != b {
                assert_ne!(encode_header(tags[a]), encode_header(tags[b]));
            }
        }
    }
}

#[test]
fn unknown_bytes_decode_to_nothing() {
    assert_eq!(decode_header(0), None);
    assert_eq!(decode_header(5), None);
    assert_eq!(decode_header(255), None);
}

#[test]
fn control_frame_is_one_tag_byte() {
    assert_eq!(control_frame(MessageHeader::Heartbeat), vec![encode_header(MessageHeader::Heartbeat)]);
    assert_eq!(
        control_frame(MessageHeader::ClientHandshake),
        vec![encode_header(MessageHeader::ClientHandshake)]
    );
}

#[test]
fn data_frame_is_tag_then_payload() {
    let payload = vec![10u8, 20, 30];
    let frame = frame_data(&payload);
    assert_eq!(frame[0], encode_header(MessageHeader::Data));
    assert_eq!(&frame[1..], &payload[..]);
}

#[test]
fn data_frame_of_empty_payload_is_bare_tag() {
    let frame = frame_data(&Vec::new());
    assert_eq!(frame, vec![encode_header(MessageHeader::Data)]);
}
