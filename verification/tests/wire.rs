use clicks_remote::events::{
    Beat, ControlAction, IpAddress, JumpModeChange, MessageKinds, Request, SmallMessage,
    SubscriberInfo, Timecode, TransportState, KIND_BEAT_DATA, KIND_EVENT, KIND_HEARTBEAT,
    KIND_SHUTDOWN,
};
use clicks_remote::text::TextBuffer;
use clicks_remote::wire::{decode_message, encode_message, encode_request};

#[test]
fn heartbeat_encodes_little_endian() {
    let bytes = encode_message(&SmallMessage::Heartbeat(0x0102030405060708));
    assert_eq!(bytes, vec![0, 0x08, 0x07, 0x06, 0x05, 0x04, 0x03, 0x02, 0x01]);
}

#[test]
fn transport_data_encodes_flag_and_timecode() {
    let m = SmallMessage::TransportData(TransportState {
        running: true,
        ltc: Timecode { h: 1, m: 2, s: 3, f: 4 },
    });
    assert_eq!(encode_message(&m), vec![1, 1, 1, 2, 3, 4]);
}

#[test]
fn beat_data_encodes_tempo_and_index() {
    let m = SmallMessage::BeatData(Beat { tempo: 300, index: 2 });
    assert_eq!(encode_message(&m), vec![2, 44, 1, 2, 0]);
}

#[test]
fn message_round_trips_through_the_codec() {
    let samples = [
        SmallMessage::Heartbeat(0),
        SmallMessage::Heartbeat(u64::MAX),
        SmallMessage::TransportData(TransportState {
            running: false,
            ltc: Timecode { h: 23, m: 59, s: 59, f: 29 },
        }),
        SmallMessage::BeatData(Beat { tempo: 120, index: 1 }),
        SmallMessage::ShutdownOccured,
        SmallMessage::EventOccured(65535),
    ];
    for m in samples {
        assert_eq!(decode_message(&encode_message(&m)), Some(m));
    }
}

#[test]
fn decode_tolerates_trailing_bytes() {
    let mut bytes = encode_message(&SmallMessage::ShutdownOccured);
    bytes.extend_from_slice(&[0xde, 0xad, 0xbe, 0xef]);
    assert_eq!(decode_message(&bytes), Some(SmallMessage::ShutdownOccured));
}

#[test]
fn decode_rejects_empty_truncated_and_unknown() {
    assert_eq!(decode_message(&vec![]), None);
    assert_eq!(decode_message(&vec![0, 1, 2]), None); // truncated heartbeat
    assert_eq!(decode_message(&vec![2, 44]), None); // truncated beat
    assert_eq!(decode_message(&vec![9]), None); // unknown tag
}

#[test]
fn ping_encodes_to_one_byte() {
    assert_eq!(encode_request(&Request::Ping), vec![0]);
}

#[test]
fn control_actions_encode_to_their_codes() {
    assert_eq!(encode_request(&Request::ControlAction(ControlAction::LoadNextCue)), vec![2, 0]);
    assert_eq!(
        encode_request(&Request::ControlAction(ControlAction::TransportStop)),
        vec![2, 4]
    );
    assert_eq!(
        encode_request(&Request::ControlAction(ControlAction::ChangeJumpMode(
            JumpModeChange::Toggle
        ))),
        vec![2, 5, 0]
    );
}

#[test]
fn subscribe_encodes_identifier_address_kinds_and_contact() {
    let info = SubscriberInfo {
        identifier: TextBuffer::from_bytes(b"unit"),
        address: IpAddress::new([10, 0, 0, 2], 1234),
        message_kinds: MessageKinds::none()
            .with(KIND_HEARTBEAT)
            .with(KIND_BEAT_DATA)
            .with(KIND_SHUTDOWN)
            .with(KIND_EVENT),
        last_contact: 5,
    };
    let bytes = encode_request(&Request::Subscribe(info));
    let expected = vec![
        1, // tag
        4, b'u', b'n', b'i', b't', // length-prefixed identifier
        10, 0, 0, 2, // answer address octets
        0xd2, 0x04, // port 1234, little-endian
        29, // heartbeat | beat | shutdown | event
        5, 0, 0, 0, 0, 0, 0, 0, // last contact
    ];
    assert_eq!(bytes, expected);
}

#[test]
fn message_kind_sets_combine_and_test_bits() {
    let kinds = MessageKinds::none().with(KIND_HEARTBEAT).with(KIND_SHUTDOWN);
    assert_eq!(kinds.bits, KIND_HEARTBEAT | KIND_SHUTDOWN);
    assert!(kinds.contains(KIND_HEARTBEAT));
    assert!(kinds.contains(KIND_SHUTDOWN));
    assert!(!kinds.contains(KIND_BEAT_DATA));
    assert!(!kinds.contains(KIND_EVENT));
    // Bits this controller does not know survive untouched, so a newer
    // peer's sets stay readable.
    let forward = MessageKinds { bits: 0b1010_0000 }.with(KIND_HEARTBEAT);
    assert_eq!(forward.bits, 0b1010_0001);
}

#[test]
fn identifier_truncates_silently_at_capacity() {
    let long = [b'x'; 40];
    let buf: TextBuffer<32> = TextBuffer::from_bytes(&long);
    assert_eq!(buf.len(), 32);
    let info = SubscriberInfo {
        identifier: buf,
        address: IpAddress::unset(),
        message_kinds: MessageKinds::none(),
        last_contact: 0,
    };
    let bytes = encode_request(&Request::Subscribe(info));
    assert_eq!(bytes[1], 32);
    assert_eq!(bytes.len(), 2 + 32 + 4 + 2 + 1 + 8);
}
