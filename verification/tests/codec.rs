use telemetry_node::codec::connack::{decode_connack, encode_connack, ConnectAck};
use telemetry_node::codec::connect::{decode_connect, encode_connect, ConnectRequest};
use telemetry_node::codec::error::{DecodeError, EncodeError};
use telemetry_node::codec::inbound::{decode_inbound, Inbound};
use telemetry_node::codec::publish::{
    check_topic, decode_publish, encode_publish, Delivery, PublishFrame, QoS,
};
use telemetry_node::codec::remaining_length::{decode_remaining_length, encode_remaining_length};
use telemetry_node::codec::subscribe::{encode_disconnect, encode_subscribe};
use telemetry_node::codec::wire::{frame_progress, split_frame, FrameProgress};

#[test]
fn remaining_length_boundaries() {
    let cases: [(u32, usize); 8] = [
        (0, 1),
        (127, 1),
        (128, 2),
        (16_383, 2),
        (16_384, 3),
        (2_097_151, 3),
        (2_097_152, 4),
        (268_435_455, 4),
    ];
    for (value, size) in cases {
        let field = encode_remaining_length(value).unwrap();
        assert_eq!(field.len(), size, "size of {}", value);
        assert_eq!(decode_remaining_length(&field), Ok((value, size)));
    }
    assert_eq!(encode_remaining_length(268_435_456), Err(EncodeError::FrameTooLarge));
    assert_eq!(encode_remaining_length(u32::MAX), Err(EncodeError::FrameTooLarge));
}

#[test]
fn remaining_length_exact_bytes() {
    assert_eq!(encode_remaining_length(0).unwrap(), vec![0x00]);
    assert_eq!(encode_remaining_length(127).unwrap(), vec![0x7f]);
    assert_eq!(encode_remaining_length(128).unwrap(), vec![0x80, 0x01]);
    assert_eq!(encode_remaining_length(321).unwrap(), vec![0xc1, 0x02]);
    assert_eq!(encode_remaining_length(16_383).unwrap(), vec![0xff, 0x7f]);
    assert_eq!(encode_remaining_length(16_384).unwrap(), vec![0x80, 0x80, 0x01]);
    assert_eq!(encode_remaining_length(2_097_151).unwrap(), vec![0xff, 0xff, 0x7f]);
    assert_eq!(encode_remaining_length(2_097_152).unwrap(), vec![0x80, 0x80, 0x80, 0x01]);
    assert_eq!(encode_remaining_length(268_435_455).unwrap(), vec![0xff, 0xff, 0xff, 0x7f]);
}

#[test]
fn remaining_length_decode_errors() {
    assert_eq!(decode_remaining_length(&[]), Err(DecodeError::Truncated));
    assert_eq!(decode_remaining_length(&[0x80]), Err(DecodeError::Truncated));
    assert_eq!(decode_remaining_length(&[0xff, 0xff, 0xff]), Err(DecodeError::Truncated));
    assert_eq!(decode_remaining_length(&[0x80, 0x80, 0x80, 0x80]), Err(DecodeError::Malformed));
    assert_eq!(
        decode_remaining_length(&[0x80, 0x80, 0x80, 0x80, 0x01]),
        Err(DecodeError::Malformed)
    );
    // What follows the field is not looked at.
    assert_eq!(decode_remaining_length(&[0x05, 0xff, 0xff]), Ok((5, 1)));
    assert_eq!(decode_remaining_length(&[0xc1, 0x02, 0x80]), Ok((321, 2)));
}

#[test]
fn remaining_length_roundtrip_sweep() {
    let mut value: u32 = 0;
    while value <= 268_435_455 {
        let field = encode_remaining_length(value).unwrap();
        assert_eq!(decode_remaining_length(&field), Ok((value, field.len())));
        value = value * 3 + 1;
    }
}

#[test]
fn connect_frame_bytes() {
    let request = ConnectRequest::new("node-1", true, 60).unwrap();
    assert_eq!(request.client_id(), "node-1");
    assert!(request.clean_session());
    assert_eq!(request.keep_alive(), 60);
    let frame = encode_connect(&request);
    let expected: Vec<u8> = vec![
        0x10, 18, 0x00, 0x04, b'M', b'Q', b'T', b'T', 0x04, 0x02, 0x00, 60, 0x00, 0x06, b'n',
        b'o', b'd', b'e', b'-', b'1',
    ];
    assert_eq!(frame, expected);
}

#[test]
fn connect_roundtrip() {
    for (id, clean, keep_alive) in [
        ("a", false, 0u16),
        ("node-1", true, 60),
        ("caf\u{e9}-\u{1f321}", true, 65_535),
        ("abcdefghijklmnopqrstuvw", false, 300),
    ] {
        let request = ConnectRequest::new(id, clean, keep_alive).unwrap();
        let decoded = decode_connect(&encode_connect(&request)).unwrap();
        assert_eq!(decoded, request);
        assert_eq!(decoded.client_id(), id);
        assert_eq!(decoded.clean_session(), clean);
        assert_eq!(decoded.keep_alive(), keep_alive);
        assert_eq!(decoded.clone(), request);
    }
}

#[test]
fn connect_request_rejects_bad_identifiers() {
    assert_eq!(ConnectRequest::new("", true, 60), Err(EncodeError::EmptyClientId));
    assert_eq!(
        ConnectRequest::new("abcdefghijklmnopqrstuvwx", true, 60),
        Err(EncodeError::ClientIdTooLong)
    );
    // The limit counts bytes, not characters.
    assert_eq!(
        ConnectRequest::new("\u{e9}\u{e9}\u{e9}\u{e9}\u{e9}\u{e9}\u{e9}\u{e9}\u{e9}\u{e9}\u{e9}\u{e9}", true, 60),
        Err(EncodeError::ClientIdTooLong)
    );
    assert!(ConnectRequest::new("abcdefghijklmnopqrstuvw", true, 60).is_ok());
}

#[test]
fn decode_connect_errors() {
    let good = encode_connect(&ConnectRequest::new("node-1", true, 60).unwrap());
    assert_eq!(decode_connect(&[]), Err(DecodeError::Truncated));
    assert_eq!(decode_connect(&good[..good.len() - 1]), Err(DecodeError::Truncated));
    let mut trailing = good.clone();
    trailing.push(0);
    assert_eq!(decode_connect(&trailing), Err(DecodeError::Malformed));
    let mut wrong_header = good.clone();
    wrong_header[0] = 0x20;
    assert_eq!(decode_connect(&wrong_header), Err(DecodeError::Malformed));
    let mut wrong_name = good.clone();
    wrong_name[4] = b'X';
    assert_eq!(decode_connect(&wrong_name), Err(DecodeError::Malformed));
    let mut wrong_level = good.clone();
    wrong_level[8] = 3;
    assert_eq!(decode_connect(&wrong_level), Err(DecodeError::Malformed));
    let mut wrong_flags = good.clone();
    wrong_flags[9] = 0x04;
    assert_eq!(decode_connect(&wrong_flags), Err(DecodeError::Malformed));
    let mut wrong_length = good.clone();
    wrong_length[13] = 5;
    assert_eq!(decode_connect(&wrong_length), Err(DecodeError::Malformed));
    let mut not_text = good.clone();
    not_text[14] = 0xff;
    assert_eq!(decode_connect(&not_text), Err(DecodeError::Malformed));
    // An empty identifier is no valid request.
    let empty_id: Vec<u8> =
        vec![0x10, 12, 0x00, 0x04, b'M', b'Q', b'T', b'T', 0x04, 0x02, 0x00, 60, 0x00, 0x00];
    assert_eq!(decode_connect(&empty_id), Err(DecodeError::Malformed));
}

#[test]
fn connack_mapping() {
    let verdicts = [
        ConnectAck::Accepted,
        ConnectAck::ProtocolRejected,
        ConnectAck::IdentifierRejected,
        ConnectAck::ServerUnavailable,
        ConnectAck::BadCredentials,
        ConnectAck::NotAuthorized,
    ];
    for code in 0u8..=255 {
        let frame = [0x20, 0x02, 0x00, code];
        if code <= 5 {
            assert_eq!(decode_connack(&frame), Ok(verdicts[code as usize]));
            assert_eq!(ConnectAck::from_code(code), Some(verdicts[code as usize]));
            assert_eq!(verdicts[code as usize].code(), code);
        } else {
            assert_eq!(decode_connack(&frame), Err(DecodeError::UnknownReturnCode));
            assert_eq!(ConnectAck::from_code(code), None);
        }
    }
}

#[test]
fn connack_framing_errors() {
    assert_eq!(decode_connack(&[]), Err(DecodeError::Truncated));
    assert_eq!(decode_connack(&[0x20]), Err(DecodeError::Truncated));
    assert_eq!(decode_connack(&[0x20, 0x02]), Err(DecodeError::Truncated));
    assert_eq!(decode_connack(&[0x20, 0x02, 0x00]), Err(DecodeError::Truncated));
    assert_eq!(decode_connack(&[0x20, 0x02, 0x00, 0x00, 0x00]), Err(DecodeError::Malformed));
    assert_eq!(decode_connack(&[0x30, 0x02, 0x00, 0x00]), Err(DecodeError::Malformed));
    assert_eq!(decode_connack(&[0x20, 0x01, 0x00]), Err(DecodeError::Malformed));
    assert_eq!(decode_connack(&[0x20, 0x03, 0x00, 0x00, 0x00]), Err(DecodeError::Malformed));
    // The flags byte is not looked at.
    assert_eq!(decode_connack(&[0x20, 0x02, 0x01, 0x00]), Ok(ConnectAck::Accepted));
}

#[test]
fn connack_roundtrip() {
    assert_eq!(encode_connack(false, ConnectAck::Accepted), vec![0x20, 0x02, 0x00, 0x00]);
    assert_eq!(encode_connack(true, ConnectAck::NotAuthorized), vec![0x20, 0x02, 0x01, 0x05]);
    for verdict in [ConnectAck::Accepted, ConnectAck::IdentifierRejected, ConnectAck::BadCredentials] {
        assert_eq!(decode_connack(&encode_connack(false, verdict)), Ok(verdict));
    }
}

#[test]
fn topic_validation() {
    assert_eq!(check_topic("a/b"), Ok(()));
    assert_eq!(check_topic(""), Err(EncodeError::EmptyTopic));
    assert_eq!(check_topic("#"), Err(EncodeError::WildcardInTopic));
    assert_eq!(check_topic("a/#"), Err(EncodeError::WildcardInTopic));
    assert_eq!(check_topic("a/+/b"), Err(EncodeError::WildcardInTopic));
    assert_eq!(check_topic("caf\u{e9}/\u{1f321}"), Ok(()));
    let longest = "t".repeat(65_535);
    assert_eq!(check_topic(&longest), Ok(()));
    let too_long = "t".repeat(65_536);
    assert_eq!(check_topic(&too_long), Err(EncodeError::TopicTooLong));
    // Length is judged before the characters.
    let long_wild = "#".repeat(65_536);
    assert_eq!(check_topic(&long_wild), Err(EncodeError::TopicTooLong));
}

#[test]
fn publish_topic_errors() {
    let payload = b"x";
    assert!(encode_publish("a/b", Delivery::AtMostOnce, false, payload).is_ok());
    assert_eq!(
        encode_publish("", Delivery::AtMostOnce, false, payload),
        Err(EncodeError::EmptyTopic)
    );
    assert_eq!(
        encode_publish("a/#", Delivery::AtMostOnce, false, payload),
        Err(EncodeError::WildcardInTopic)
    );
    assert_eq!(
        encode_publish("+", Delivery::AtLeastOnce(1), false, payload),
        Err(EncodeError::WildcardInTopic)
    );
    let longest = "t".repeat(65_535);
    let frame = encode_publish(&longest, Delivery::AtMostOnce, false, payload).unwrap();
    assert_eq!(frame.len(), 1 + 3 + 2 + 65_535 + 1);
    assert_eq!(&frame[..6], &[0x30, 0x82, 0x80, 0x04, 0xff, 0xff]);
    let too_long = "t".repeat(65_536);
    assert_eq!(
        encode_publish(&too_long, Delivery::AtMostOnce, false, payload),
        Err(EncodeError::TopicTooLong)
    );
}

#[test]
fn publish_frame_too_large() {
    // Topic "t" takes 3 bytes of the content.
    let fits = vec![0u8; 268_435_455 - 3];
    let frame = encode_publish("t", Delivery::AtMostOnce, false, &fits).unwrap();
    assert_eq!(frame.len(), 1 + 4 + 268_435_455);
    assert_eq!(&frame[..5], &[0x30, 0xff, 0xff, 0xff, 0x7f]);
    drop(frame);
    let too_large = vec![0u8; 268_435_455 - 2];
    assert_eq!(
        encode_publish("t", Delivery::AtMostOnce, false, &too_large),
        Err(EncodeError::FrameTooLarge)
    );
    // With a packet identifier two bytes fewer fit.
    assert_eq!(
        encode_publish("t", Delivery::AtLeastOnce(7), false, &fits),
        Err(EncodeError::FrameTooLarge)
    );
}

#[test]
fn publish_end_to_end() {
    let payload = "23\u{b0}C 47%RH".as_bytes();
    let frame = encode_publish("measurements", Delivery::AtMostOnce, false, payload).unwrap();
    let mut expected: Vec<u8> = vec![0x30, 2 + 12 + 11, 0x00, 12];
    expected.extend_from_slice(b"measurements");
    expected.extend_from_slice(&[b'2', b'3', 0xc2, 0xb0, b'C', b' ', b'4', b'7', b'%', b'R', b'H']);
    assert_eq!(frame, expected);
    let decoded = decode_publish(&frame).unwrap();
    assert_eq!(decoded.topic, "measurements");
    assert_eq!(decoded.payload, payload);
    assert_eq!(decoded.delivery, Delivery::AtMostOnce);
    assert_eq!(decoded.delivery.qos(), QoS::AtMostOnce);
    assert_eq!(frame[0] & 0x06, 0);
    assert!(!decoded.retain);
}

#[test]
fn publish_roundtrip_all_levels() {
    for delivery in [
        Delivery::AtMostOnce,
        Delivery::AtLeastOnce(1),
        Delivery::AtLeastOnce(0xabcd),
        Delivery::ExactlyOnce(65_535),
    ] {
        for retain in [false, true] {
            for payload in [&b""[..], &b"x"[..], &[0u8, 255, 128, 35, 43][..]] {
                let frame = encode_publish("a/b", delivery, retain, payload).unwrap();
                assert_eq!(frame[0] >> 4, 3);
                assert_eq!((frame[0] >> 1) & 3, delivery.qos().level());
                assert_eq!(frame[0] & 1 == 1, retain);
                let decoded = decode_publish(&frame).unwrap();
                assert_eq!(
                    decoded,
                    PublishFrame {
                        topic: "a/b".to_string(),
                        delivery,
                        retain,
                        payload: payload.to_vec(),
                    }
                );
            }
        }
    }
}

#[test]
fn publish_packet_identifier_on_the_wire() {
    let frame = encode_publish("t", Delivery::AtLeastOnce(0x1234), true, b"pq").unwrap();
    assert_eq!(frame, vec![0x33, 7, 0x00, 0x01, b't', 0x12, 0x34, b'p', b'q']);
    let frame = encode_publish("t", Delivery::ExactlyOnce(2), false, b"").unwrap();
    assert_eq!(frame, vec![0x34, 5, 0x00, 0x01, b't', 0x00, 0x02]);
    assert_eq!(Delivery::of(QoS::AtMostOnce, 9), Delivery::AtMostOnce);
    assert_eq!(Delivery::of(QoS::AtLeastOnce, 9), Delivery::AtLeastOnce(9));
    assert_eq!(Delivery::of(QoS::ExactlyOnce, 9), Delivery::ExactlyOnce(9));
    assert_eq!(Delivery::AtMostOnce.packet_id(), None);
    assert_eq!(Delivery::ExactlyOnce(9).packet_id(), Some(9));
}

#[test]
fn decode_publish_errors() {
    assert_eq!(decode_publish(&[]), Err(DecodeError::Truncated));
    assert_eq!(decode_publish(&[0x30, 0x05, 0x00, 0x01]), Err(DecodeError::Truncated));
    assert_eq!(decode_publish(&[0x40, 0x03, 0x00, 0x01, b't']), Err(DecodeError::Malformed));
    // Both delivery bits set.
    assert_eq!(decode_publish(&[0x36, 0x03, 0x00, 0x01, b't']), Err(DecodeError::Malformed));
    // No room for the topic length.
    assert_eq!(decode_publish(&[0x30, 0x01, 0x00]), Err(DecodeError::Malformed));
    // The topic is longer than the content.
    assert_eq!(decode_publish(&[0x30, 0x03, 0x00, 0x02, b't']), Err(DecodeError::Malformed));
    // An empty topic, a wildcard, bytes that are no text.
    assert_eq!(decode_publish(&[0x30, 0x02, 0x00, 0x00]), Err(DecodeError::Malformed));
    assert_eq!(decode_publish(&[0x30, 0x03, 0x00, 0x01, b'#']), Err(DecodeError::Malformed));
    assert_eq!(decode_publish(&[0x30, 0x03, 0x00, 0x01, 0xff]), Err(DecodeError::Malformed));
    // No room for the packet identifier.
    assert_eq!(decode_publish(&[0x32, 0x04, 0x00, 0x01, b't', 0x00]), Err(DecodeError::Malformed));
    // The duplicate flag is not looked at.
    let decoded = decode_publish(&[0x3a, 0x05, 0x00, 0x01, b't', 0x00, 0x07]).unwrap();
    assert_eq!(decoded.delivery, Delivery::AtLeastOnce(7));
    assert!(decoded.payload.is_empty());
}

#[test]
fn decoded_text_is_the_text_on_the_wire() {
    // Two-byte and four-byte characters survive the trip as characters.
    let frame = encode_publish("caf\u{e9}/\u{1f321}", Delivery::AtMostOnce, false, b"").unwrap();
    let decoded = decode_publish(&frame).unwrap();
    assert_eq!(decoded.topic.chars().count(), 6);
    assert_eq!(decoded.topic, "caf\u{e9}/\u{1f321}");
    // A truncated character is refused.
    let mut cut = frame.clone();
    let last = cut.len() - 1;
    cut[last] = b'x';
    assert_eq!(decode_publish(&cut), Err(DecodeError::Malformed));
}

#[test]
fn decoded_text_must_be_well_formed() {
    fn publish_with_topic(topic: &[u8]) -> Vec<u8> {
        let mut frame = vec![0x30, 2 + topic.len() as u8, 0x00, topic.len() as u8];
        frame.extend_from_slice(topic);
        frame
    }
    // The largest scalar, and the smallest of each width.
    for topic in [
        &[0xf4, 0x8f, 0xbf, 0xbf][..],
        &[0xc2, 0x80][..],
        &[0xe0, 0xa0, 0x80][..],
        &[0xf0, 0x90, 0x80, 0x80][..],
    ] {
        let decoded = decode_publish(&publish_with_topic(topic)).unwrap();
        assert_eq!(decoded.topic.as_bytes(), topic);
        assert_eq!(decoded.topic.chars().count(), 1);
    }
    // Overlong encodings, a surrogate, a value past the last scalar, a lone
    // continuation byte, a cut sequence.
    for topic in [
        &[0xc0, 0x80][..],
        &[0xe0, 0x80, 0x80][..],
        &[0xf0, 0x80, 0x80, 0x80][..],
        &[0xed, 0xa0, 0x80][..],
        &[0xf4, 0x90, 0x80, 0x80][..],
        &[0x80][..],
        &[0xe2, 0x82][..],
    ] {
        assert_eq!(decode_publish(&publish_with_topic(topic)), Err(DecodeError::Malformed));
    }
}

#[test]
fn subscribe_frame_bytes() {
    let frame = encode_subscribe(1, "a/#", QoS::AtMostOnce).unwrap();
    assert_eq!(frame, vec![0x82, 8, 0x00, 0x01, 0x00, 0x03, b'a', b'/', b'#', 0x00]);
    let frame = encode_subscribe(0x0102, "t", QoS::ExactlyOnce).unwrap();
    assert_eq!(frame, vec![0x82, 6, 0x01, 0x02, 0x00, 0x01, b't', 0x02]);
    assert_eq!(encode_subscribe(1, "", QoS::AtMostOnce), Err(EncodeError::EmptyTopic));
    let too_long = "t".repeat(65_536);
    assert_eq!(encode_subscribe(1, &too_long, QoS::AtMostOnce), Err(EncodeError::TopicTooLong));
    assert_eq!(encode_disconnect(), vec![0xe0, 0x00]);
}

#[test]
fn inbound_frames() {
    assert_eq!(
        decode_inbound(&[0x20, 0x02, 0x00, 0x00]),
        Ok(Inbound::ConnAck(ConnectAck::Accepted))
    );
    assert_eq!(
        decode_inbound(&[0x20, 0x02, 0x00, 0x09]),
        Err(DecodeError::UnknownReturnCode)
    );
    assert_eq!(decode_inbound(&[0x40, 0x02, 0x12, 0x34]), Ok(Inbound::PubAck(0x1234)));
    assert_eq!(decode_inbound(&[0x40, 0x01, 0x12]), Err(DecodeError::Malformed));
    assert_eq!(decode_inbound(&[0x90, 0x03, 0x00, 0x07, 0x00]), Ok(Inbound::SubAck(7)));
    assert_eq!(decode_inbound(&[0x90, 0x02, 0x00, 0x07]), Err(DecodeError::Malformed));
    assert_eq!(decode_inbound(&[0xd0, 0x00]), Err(DecodeError::Malformed));
    assert_eq!(decode_inbound(&[]), Err(DecodeError::Truncated));
    assert_eq!(decode_inbound(&[0x40, 0x02, 0x12]), Err(DecodeError::Truncated));
    let frame = encode_publish("t", Delivery::AtLeastOnce(3), false, b"hi").unwrap();
    assert_eq!(
        decode_inbound(&frame),
        Ok(Inbound::Publish(PublishFrame {
            topic: "t".to_string(),
            delivery: Delivery::AtLeastOnce(3),
            retain: false,
            payload: b"hi".to_vec(),
        }))
    );
}

#[test]
fn frames_split_into_header_and_content() {
    assert_eq!(split_frame(&[0x20, 0x02, 0x00, 0x05]), Ok((0x20, &[0x00, 0x05][..])));
    assert_eq!(split_frame(&[0xe0, 0x00]), Ok((0xe0, &[][..])));
    assert_eq!(split_frame(&[]), Err(DecodeError::Truncated));
    assert_eq!(split_frame(&[0x20]), Err(DecodeError::Truncated));
    assert_eq!(split_frame(&[0x20, 0x02, 0x00]), Err(DecodeError::Truncated));
    assert_eq!(split_frame(&[0x20, 0x02, 0x00, 0x05, 0x00]), Err(DecodeError::Malformed));
    assert_eq!(split_frame(&[0x20, 0x80, 0x80, 0x80, 0x80]), Err(DecodeError::Malformed));
    let mut long = vec![0x30, 0x80, 0x01];
    long.extend_from_slice(&[7u8; 128]);
    assert_eq!(split_frame(&long), Ok((0x30, &[7u8; 128][..])));
}

#[test]
fn frame_progress_guides_reading() {
    assert_eq!(frame_progress(&[]), FrameProgress::Need(1));
    assert_eq!(frame_progress(&[0x20]), FrameProgress::Need(1));
    assert_eq!(frame_progress(&[0x20, 0x02]), FrameProgress::Need(2));
    assert_eq!(frame_progress(&[0x20, 0x02, 0x00]), FrameProgress::Need(1));
    assert_eq!(frame_progress(&[0x20, 0x02, 0x00, 0x00]), FrameProgress::Complete);
    assert_eq!(frame_progress(&[0x20, 0x02, 0x00, 0x00, 0x00]), FrameProgress::Invalid);
    assert_eq!(frame_progress(&[0x30, 0x80]), FrameProgress::Need(1));
    assert_eq!(frame_progress(&[0x30, 0x80, 0x01]), FrameProgress::Need(128));
    assert_eq!(frame_progress(&[0x30, 0xff, 0xff, 0xff, 0x7f]), FrameProgress::Need(268_435_455));
    assert_eq!(frame_progress(&[0x30, 0x80, 0x80, 0x80, 0x80]), FrameProgress::Invalid);
    assert_eq!(frame_progress(&[0xe0, 0x00]), FrameProgress::Complete);
}

#[test]
fn reading_by_progress_recovers_each_frame() {
    let mut stream: Vec<u8> = Vec::new();
    let first = encode_publish("a/b", Delivery::AtMostOnce, false, &[9u8; 300]).unwrap();
    let second = encode_connack(false, ConnectAck::Accepted);
    let third = encode_publish("c", Delivery::AtLeastOnce(5), true, b"").unwrap();
    stream.extend_from_slice(&first);
    stream.extend_from_slice(&second);
    stream.extend_from_slice(&third);
    let mut at = 0;
    let mut frames: Vec<Vec<u8>> = Vec::new();
    while at < stream.len() {
        let mut buffer: Vec<u8> = Vec::new();
        loop {
            match frame_progress(&buffer) {
                FrameProgress::Need(n) => {
                    buffer.extend_from_slice(&stream[at..at + n]);
                    at += n;
                }
                FrameProgress::Complete => break,
                FrameProgress::Invalid => panic!("the stream holds valid frames only"),
            }
        }
        frames.push(buffer);
    }
    assert_eq!(frames, vec![first, second, third]);
}
