use rusty_bee::ieee802154::IEEE802154SenderReceiverCtx;
use rusty_bee::mac::decode;
use rusty_bee::mac::encode;
use rusty_bee::mac::encode_ack;
use rusty_bee::mac::encode_association_request;
use rusty_bee::mac::encode_beacon_request;
use rusty_bee::mac::encode_data_request;
use rusty_bee::mac::CapabilityInformation;
use rusty_bee::mac::FrameContent;
use rusty_bee::mac::FrameVersion;
use rusty_bee::mac::MacAddress;
use rusty_bee::mac::MacCommand;
use rusty_bee::mac::MacFrame;
use rusty_bee::mac::MacFrameType;
use rusty_bee::mac::MacHeader;

#[test]
fn generates_correct_beacon_request_packet() {
    let mut ctx: IEEE802154SenderReceiverCtx = Default::default();

    let mut packet = vec![0u8; 128];
    let len = ctx.generate_broadcast_beacon(&mut packet);

    assert_eq!(&packet[..len], b"\x03\x08\x2a\xff\xff\xff\xff\x07");
}

#[test]
fn beacon_request_round_trips_for_any_sequence_number() {
    let bytes = encode_beacon_request(7);
    let (frame, consumed) = decode(&bytes).unwrap();
    assert_eq!(consumed, bytes.len());
    assert_eq!(frame.header.frame_type, MacFrameType::MacCommand);
    assert_eq!(frame.header.seq, 7);
    assert_eq!(
        frame.header.destination,
        Some(MacAddress::Short(0xffff, 0xffff))
    );
    assert_eq!(frame.header.source, None);
    assert_eq!(
        frame.content,
        FrameContent::Command(MacCommand::BeaconRequest)
    );
    assert_eq!(encode(&frame), bytes);
}

#[test]
fn association_request_round_trips() {
    let capabilities = CapabilityInformation {
        full_function_device: true,
        mains_power: true,
        allocate_address: true,
        frame_protection: false,
        idle_receive: true,
    };
    let bytes = encode_association_request(0x42_42_42_42_42_42_42_42, 0xd721, 0x8dbc, 43, capabilities);
    let (frame, _) = decode(&bytes).unwrap();
    assert!(frame.header.ack_request);
    assert_eq!(
        frame.header.destination,
        Some(MacAddress::Short(0xd721, 0x8dbc))
    );
    assert_eq!(
        frame.header.source,
        Some(MacAddress::Extended(0xffff, 0x42_42_42_42_42_42_42_42))
    );
    assert_eq!(
        frame.content,
        FrameContent::Command(MacCommand::AssociationRequest(capabilities))
    );
    assert_eq!(encode(&frame), bytes);
}

#[test]
fn data_request_round_trips_with_pan_id_compression() {
    let bytes = encode_data_request(0xd721, 0x42_42_42_42_42_42_42_42, 0xd721, 0x8dbc, 44);
    // compressed source: no second PAN id on the wire
    assert_eq!(bytes.len(), 16);
    let (frame, _) = decode(&bytes).unwrap();
    assert!(frame.header.pan_id_compress);
    assert_eq!(
        frame.header.source,
        Some(MacAddress::Extended(0xd721, 0x42_42_42_42_42_42_42_42))
    );
    assert_eq!(frame.content, FrameContent::Command(MacCommand::DataRequest));
    assert_eq!(encode(&frame), bytes);
}

#[test]
fn acknowledgement_is_three_bytes_and_round_trips() {
    let bytes = encode_ack(9);
    assert_eq!(bytes, vec![0x02, 0x00, 0x09]);
    let (frame, _) = decode(&bytes).unwrap();
    assert_eq!(frame.header.frame_type, MacFrameType::Acknowledgement);
    assert_eq!(frame.header.seq, 9);
    assert_eq!(frame.content, FrameContent::Acknowledgement);
    assert_eq!(encode(&frame), bytes);
}

#[test]
fn association_response_round_trips() {
    let frame = MacFrame {
        header: MacHeader {
            frame_type: MacFrameType::MacCommand,
            security: false,
            frame_pending: false,
            ack_request: true,
            pan_id_compress: false,
            seq_no_suppress: false,
            ie_present: false,
            version: FrameVersion::Ieee802154_2003,
            seq: 77,
            destination: Some(MacAddress::Extended(0xd721, 0x42_42_42_42_42_42_42_42)),
            source: None,
            },
        content: FrameContent::Command(MacCommand::AssociationResponse(0x1234, 0)),
        payload: Vec::new(),
        footer: [0, 0],
    };
    let bytes = encode(&frame);
    let (decoded, consumed) = decode(&bytes).unwrap();
    assert_eq!(consumed, bytes.len());
    assert_eq!(
        decoded.content,
        FrameContent::Command(MacCommand::AssociationResponse(0x1234, 0))
    );
    assert_eq!(decoded.header.seq, 77);
    assert_eq!(encode(&decoded), bytes);
}

#[test]
fn data_frame_with_payload_round_trips() {
    let frame = MacFrame {
        header: MacHeader {
            frame_type: MacFrameType::Data,
            security: false,
            frame_pending: false,
            ack_request: false,
            pan_id_compress: false,
            seq_no_suppress: false,
            ie_present: false,
            version: FrameVersion::Ieee802154_2006,
            seq: 200,
            destination: Some(MacAddress::Short(0x00aa, 0x0001)),
            source: Some(MacAddress::Short(0x00aa, 0x0002)),
        },
        content: FrameContent::Data,
        payload: vec![0xde, 0xad, 0xbe, 0xef],
        footer: [0, 0],
    };
    let bytes = encode(&frame);
    let (decoded, _) = decode(&bytes).unwrap();
    assert_eq!(decoded.payload, vec![0xde, 0xad, 0xbe, 0xef]);
    assert_eq!(decoded.header.version, FrameVersion::Ieee802154_2006);
    assert_eq!(encode(&decoded), bytes);
}

#[test]
fn decode_rejects_truncated_and_malformed_frames() {
    // too short for even a header
    assert!(decode(&[]).is_err());
    assert!(decode(&[0x02, 0x00]).is_err());
    // reserved frame-control bit 7 set
    assert!(decode(&[0x82, 0x00, 0x01]).is_err());
    // security bit set: auxiliary security headers are unsupported
    assert!(decode(&[0x0a, 0x00, 0x01]).is_err());
    // command frame with an unrecognized command identifier
    assert!(decode(&[0x03, 0x08, 0x01, 0xff, 0xff, 0xff, 0xff, 0x33]).is_err());
    // reserved addressing mode 1
    assert!(decode(&[0x01, 0x04, 0x01]).is_err());
}
