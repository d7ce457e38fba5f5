use message_relay::publisher::frame::{put_bytes, put_length_delimited, put_varint, wrap_frame};
use message_relay::publisher::json::{channel_list, encode_message};
use message_relay::publisher::{
    art_change_envelope, direct_envelope, direct_relay, encode_record, message_envelope,
    sequenced_message_envelope, EncodeError, Encoder, Envelope,
};
use message_relay::types::{
    CentrifugoEventType, CentrifugoMessage, CentrifugoMethod, CentrifugoPayload, Message,
    MessageOutbox, Timestamp,
};

fn text(bytes: &[u8]) -> String {
    String::from_utf8(bytes.to_vec()).unwrap()
}

fn frame_row(content: &[u8]) -> MessageOutbox {
    MessageOutbox {
        content: content.to_vec(),
        created_at: Timestamp { seconds: 1, nanos: 2 },
        sequence_number: 5,
        epoch: Some(0),
        chat_id: "chat-1".to_string(),
    }
}

#[test]
fn wire_names_are_lower_case() {
    assert_eq!(CentrifugoMethod::Publish.as_str(), "publish");
    assert_eq!(CentrifugoMethod::Broadcast.as_str(), "broadcast");
    assert_eq!(CentrifugoEventType::Message.as_str(), "message");
    assert_eq!(CentrifugoEventType::UserAdded.as_str(), "user_added");
    assert_eq!(CentrifugoEventType::UserRemoved.as_str(), "user_removed");
    assert_eq!(CentrifugoEventType::GenericChange.as_str(), "generic_change");
}

#[test]
fn a_message_goes_out_as_a_broadcast_document() {
    let envelope = message_envelope("chat-1", b"hello", "messages", "relay").unwrap();
    assert_eq!(envelope.destination, "relay.messages.chat-1");
    assert_eq!(
        text(&envelope.payload),
        "{\"method\":\"broadcast\",\"payload\":{\"channels\":[\"messages:chat-1\"],\
         \"event_type\":\"message\",\"data\":\"aGVsbG8=\"}}"
    );
}

#[test]
fn a_change_goes_out_as_a_generic_change() {
    let envelope = art_change_envelope("chat-1", b"\x00\x01\x02", "arts", "relay").unwrap();
    assert_eq!(envelope.destination, "relay.arts.chat-1");
    assert_eq!(
        text(&envelope.payload),
        "{\"method\":\"broadcast\",\"payload\":{\"channels\":[\"arts:chat-1\"],\
         \"event_type\":\"generic_change\",\"data\":\"AAEC\"}}"
    );
}

#[test]
fn an_empty_payload_has_empty_data() {
    let envelope = message_envelope("c", b"", "n", "s").unwrap();
    assert_eq!(
        text(&envelope.payload),
        "{\"method\":\"broadcast\",\"payload\":{\"channels\":[\"n:c\"],\
         \"event_type\":\"message\",\"data\":\"\"}}"
    );
}

#[test]
fn the_document_is_json_that_names_its_parts() {
    let envelope = message_envelope("chat \"one\"\n", &[0xfb, 0xff], "name\\space", "relay")
        .unwrap();
    let value: serde_json::Value = serde_json::from_slice(&envelope.payload).unwrap();
    assert_eq!(value["method"], serde_json::Value::from("broadcast"));
    assert_eq!(
        value["payload"]["channels"],
        serde_json::Value::from(vec!["name\\space:chat \"one\"\n"])
    );
    assert_eq!(value["payload"]["event_type"], serde_json::Value::from("message"));
    assert_eq!(value["payload"]["data"], serde_json::Value::from("+/8="));
    assert_eq!(
        text(&envelope.payload),
        "{\"method\":\"broadcast\",\"payload\":{\"channels\":[\"name\\\\space:chat \\\"one\\\"\\n\"],\
         \"event_type\":\"message\",\"data\":\"+/8=\"}}"
    );
}

#[test]
fn channels_are_separated_by_commas() {
    assert_eq!(channel_list(&vec![]), "");
    assert_eq!(channel_list(&vec!["a".to_string()]), "\"a\"");
    assert_eq!(
        channel_list(&vec!["a".to_string(), "b\tc".to_string(), "".to_string()]),
        "\"a\",\"b\\tc\",\"\""
    );
}

#[test]
fn any_envelope_can_be_written() {
    let message = CentrifugoMessage {
        method: CentrifugoMethod::Publish,
        payload: CentrifugoPayload {
            channels: vec!["one".to_string(), "two".to_string()],
            event_type: CentrifugoEventType::UserRemoved,
            data: "plain".to_string(),
        },
    };
    assert_eq!(
        text(&encode_message(&message)),
        "{\"method\":\"publish\",\"payload\":{\"channels\":[\"one\",\"two\"],\
         \"event_type\":\"user_removed\",\"data\":\"plain\"}}"
    );
    let message = CentrifugoMessage {
        method: CentrifugoMethod::Broadcast,
        payload: CentrifugoPayload {
            channels: vec![],
            event_type: CentrifugoEventType::UserAdded,
            data: "\u{e9}".to_string(),
        },
    };
    assert_eq!(
        encode_message(&message),
        "{\"method\":\"broadcast\",\"payload\":{\"channels\":[],\
         \"event_type\":\"user_added\",\"data\":\"\u{e9}\"}}"
            .as_bytes()
            .to_vec()
    );
}

#[test]
fn the_direct_relay_changes_nothing() {
    let message = Message { chat_id: "chat-1".to_string(), data: b"hello".to_vec() };
    assert_eq!(
        direct_envelope(&message, "chat"),
        Envelope { destination: "chat.chat-1".to_string(), payload: b"hello".to_vec() }
    );
    assert_eq!(
        direct_relay("", &[], ""),
        Envelope { destination: ".".to_string(), payload: vec![] }
    );
}

#[test]
fn varints_have_seven_bits_to_a_byte() {
    let cases: Vec<(u64, Vec<u8>)> = vec![
        (0, vec![0x00]),
        (1, vec![0x01]),
        (127, vec![0x7f]),
        (128, vec![0x80, 0x01]),
        (300, vec![0xac, 0x02]),
        (16_384, vec![0x80, 0x80, 0x01]),
        (
            u64::MAX,
            vec![0xff, 0xff, 0xff, 0xff, 0xff, 0xff, 0xff, 0xff, 0xff, 0x01],
        ),
    ];
    for (value, expected) in cases {
        let mut buf = vec![0xaa];
        put_varint(&mut buf, value);
        assert_eq!(buf[0], 0xaa);
        assert_eq!(buf[1..].to_vec(), expected);
    }
}

#[test]
fn fields_are_appended_with_their_length() {
    let mut buf = vec![1, 2];
    put_bytes(&mut buf, &[3, 4]);
    assert_eq!(buf, vec![1, 2, 3, 4]);
    put_length_delimited(&mut buf, 0x1a, &[9, 8, 7]);
    assert_eq!(buf, vec![1, 2, 3, 4, 0x1a, 3, 9, 8, 7]);
    let mut long = Vec::new();
    put_length_delimited(&mut long, 0x12, &[0x55; 200]);
    assert_eq!(long[..3].to_vec(), vec![0x12, 0xc8, 0x01]);
    assert_eq!(long.len(), 203);
}

#[test]
fn a_frame_is_wrapped_with_number_and_time() {
    assert_eq!(
        wrap_frame(5, Timestamp { seconds: 1, nanos: 2 }, &[0x08, 0x01]),
        vec![0x08, 0x05, 0x12, 0x04, 0x08, 0x01, 0x10, 0x02, 0x1a, 0x02, 0x08, 0x01]
    );
}

#[test]
fn a_zero_number_and_a_zero_time_take_no_room() {
    assert_eq!(
        wrap_frame(0, Timestamp { seconds: 0, nanos: 0 }, &[]),
        vec![0x12, 0x00, 0x1a, 0x00]
    );
}

#[test]
fn a_time_before_the_epoch_is_written_in_full_width() {
    let all_ones = vec![0xff, 0xff, 0xff, 0xff, 0xff, 0xff, 0xff, 0xff, 0xff, 0x01];
    let mut expected = vec![0x08, 0x07, 0x12, 22, 0x08];
    expected.extend(all_ones.clone());
    expected.push(0x10);
    expected.extend(all_ones);
    expected.extend([0x1a, 0x00]);
    assert_eq!(
        wrap_frame(7, Timestamp { seconds: -1, nanos: u32::MAX }, &[]),
        expected
    );
    assert_eq!(
        wrap_frame(0, Timestamp { seconds: 0, nanos: 300 }, &[]),
        vec![0x12, 0x03, 0x10, 0xac, 0x02, 0x1a, 0x00]
    );
    assert_eq!(
        wrap_frame(0, Timestamp { seconds: 128, nanos: 0 }, &[]),
        vec![0x12, 0x03, 0x08, 0x80, 0x01, 0x1a, 0x00]
    );
}

#[test]
fn a_negative_number_wraps_around() {
    assert_eq!(
        wrap_frame(-1, Timestamp { seconds: 0, nanos: 0 }, &[0x0a, 0x00]),
        vec![
            0x08, 0xff, 0xff, 0xff, 0xff, 0xff, 0xff, 0xff, 0xff, 0xff, 0x01, 0x12, 0x00, 0x1a,
            0x02, 0x0a, 0x00
        ]
    );
}

#[test]
fn a_wrapped_frame_reads_back_as_its_three_fields() {
    let inner = vec![0x0a, 0x03, b'a', b'b', b'c', 0x10, 0x2a];
    let wrapped = wrap_frame(
        1_000_000,
        Timestamp { seconds: 1_700_000_000, nanos: 999_999_999 },
        &inner,
    );
    let mut rest: &[u8] = &wrapped;
    let (tag, wire) = prost::encoding::decode_key(&mut rest).unwrap();
    assert_eq!((tag, wire), (1, prost::encoding::WireType::Varint));
    assert_eq!(prost::encoding::decode_varint(&mut rest).unwrap(), 1_000_000);
    let (tag, wire) = prost::encoding::decode_key(&mut rest).unwrap();
    assert_eq!((tag, wire), (2, prost::encoding::WireType::LengthDelimited));
    let len = prost::encoding::decode_varint(&mut rest).unwrap() as usize;
    let created: prost_types::Timestamp = prost::Message::decode(&rest[..len]).unwrap();
    assert_eq!(
        created,
        prost_types::Timestamp { seconds: 1_700_000_000, nanos: 999_999_999 }
    );
    rest = &rest[len..];
    let (tag, wire) = prost::encoding::decode_key(&mut rest).unwrap();
    assert_eq!((tag, wire), (3, prost::encoding::WireType::LengthDelimited));
    let len = prost::encoding::decode_varint(&mut rest).unwrap() as usize;
    assert_eq!(rest.to_vec(), inner);
    assert_eq!(len, inner.len());
}

#[test]
fn a_stored_frame_goes_out_wrapped_inside_a_message() {
    let envelope =
        sequenced_message_envelope(&frame_row(&[0x08, 0x01]), "messages", "relay").unwrap();
    assert_eq!(envelope.destination, "relay.messages.chat-1");
    assert_eq!(
        text(&envelope.payload),
        "{\"method\":\"broadcast\",\"payload\":{\"channels\":[\"messages:chat-1\"],\
         \"event_type\":\"message\",\"data\":\"CAUSBAgBEAIaAggB\"}}"
    );
}

#[test]
fn a_malformed_frame_is_refused() {
    for content in [vec![0xff], vec![0x0a, 0x05, 0x01], vec![0x00, 0x00], vec![0x0c]] {
        assert_eq!(
            sequenced_message_envelope(&frame_row(&content), "messages", "relay"),
            Err(EncodeError::MalformedFrame)
        );
    }
    assert!(sequenced_message_envelope(&frame_row(&[]), "messages", "relay").is_ok());
}

#[test]
fn each_encoder_has_its_envelope() {
    let row = frame_row(&[0x08, 0x01]);
    assert_eq!(
        encode_record(Encoder::Direct, &row, "messages", "relay"),
        Ok(Envelope { destination: "relay.chat-1".to_string(), payload: vec![0x08, 0x01] })
    );
    assert_eq!(
        encode_record(Encoder::Broadcast(CentrifugoEventType::UserAdded), &row, "groups", "relay"),
        Ok(Envelope {
            destination: "relay.groups.chat-1".to_string(),
            payload: b"{\"method\":\"broadcast\",\"payload\":{\"channels\":[\"groups:chat-1\"],\
                       \"event_type\":\"user_added\",\"data\":\"CAE=\"}}"
                .to_vec(),
        })
    );
    assert_eq!(
        encode_record(Encoder::SequencedFrame, &row, "messages", "relay"),
        sequenced_message_envelope(&row, "messages", "relay")
    );
    assert_eq!(
        encode_record(Encoder::SequencedFrame, &frame_row(&[0x07]), "messages", "relay"),
        Err(EncodeError::MalformedFrame)
    );
}
