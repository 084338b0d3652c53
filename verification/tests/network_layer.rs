use rusty_bee::network_layer::security::KeyIdentifier;
use rusty_bee::network_layer::security::MessageIntegritySize;
use rusty_bee::network_layer::security::SecurityControlField;
use rusty_bee::network_layer::DiscoverRoute;
use rusty_bee::network_layer::FrameControlField;
use rusty_bee::network_layer::FrameType;
use rusty_bee::network_layer::ZigbeePacket;

#[test]
fn parses_data_frame_control_field_correctly() {
    let fcf = FrameControlField::from(0x0208);

    assert_eq!(fcf.frame_type, FrameType::Data);
    assert_eq!(fcf.protocol_version, 2);
    assert_eq!(fcf.discover_route, DiscoverRoute::SurpressRouteDiscovery);
    assert_eq!(fcf.multicast_present, false);
    assert_eq!(fcf.security_present, true);
    assert_eq!(fcf.source_route_present, false);
    assert_eq!(fcf.destination_present, false);
    assert_eq!(fcf.source_address_present, false);
    assert_eq!(fcf.end_device_initiator, false);
}

#[test]
fn parses_command_frame_control_field_correctly() {
    let fcf = FrameControlField::from(0x1a09);

    assert_eq!(fcf.frame_type, FrameType::Command);
    assert_eq!(fcf.protocol_version, 2);
    assert_eq!(fcf.discover_route, DiscoverRoute::SurpressRouteDiscovery);
    assert_eq!(fcf.multicast_present, false);
    assert_eq!(fcf.security_present, true);
    assert_eq!(fcf.source_route_present, false);
    assert_eq!(fcf.destination_present, true);
    assert_eq!(fcf.source_address_present, true);
    assert_eq!(fcf.end_device_initiator, false);
}

#[test]
fn parses_full_broadcast_packet() {
    let packet = b"\
\x09\x1a\xbc\x8d\x81\x01\x1d\x79\xe1\xc2\xd9\x01\x01\x88\x17\x00\
\x9e\xc0\x81\x08\x01\x88\x17\x00\x28\xe7\x08\x14\x01\x3b\xbd\x5d\
\x0b\x01\x88\x17\x00\x00\xdc\x0e\x9a\x26\x3f\x28\x6a\xf1\
";

    let packet = ZigbeePacket::try_parse_from(&packet[..]).unwrap();

    assert_eq!(packet.destination, 0x8dbc);
    assert_eq!(packet.source, 0x0181);
    assert_eq!(packet.radius, 29);
    assert_eq!(packet.sequence_number, 121);
    assert_eq!(packet.extended_destination, Some(0x00_17_88_01_01_d9_c2_e1));
    assert_eq!(packet.extended_source, Some(0x00_17_88_01_08_81_c0_9e));

    let security_header = packet.security_header.unwrap();
    assert_eq!(
        security_header.security_control_field.key_identifier,
        KeyIdentifier::Network
    );
    assert_eq!(security_header.frame_counter, 18090215);
    assert_eq!(security_header.key_message_number, 0);
    assert_eq!(
        security_header.message_integrity_code,
        [0x3f, 0x28, 0x6a, 0xf1]
    );

    assert_eq!(packet.payload, b"\xDC\x0E\x9A\x26".to_vec());
}

#[test]
fn parses_network_key_security_control_field() {
    let scf = SecurityControlField::try_from(0x28).unwrap();

    assert_eq!(scf.using_encryption, true);
    assert_eq!(scf.message_integrity_size, MessageIntegritySize::B32);
    assert_eq!(scf.key_identifier, KeyIdentifier::Network);
    assert_eq!(scf.using_extended_nonce, true);
}

#[test]
fn relay_list_is_skipped_and_never_reaches_an_output_field() {
    // frame control 0x0400: data frame with a source route
    let with_relays = |relays: [u8; 3]| -> Vec<u8> {
        let mut bytes = vec![
            0x00, 0x04, // frame control
            0x01, 0x00, // destination
            0x02, 0x00, // source
            0x05, // radius
            0x09, // sequence number
            0x03, // relay count
            0x01, // relay index
        ];
        bytes.extend_from_slice(&relays);
        bytes.extend_from_slice(&[0xde, 0xad]);
        bytes
    };

    let first = ZigbeePacket::try_parse_from(&with_relays([0xaa, 0xbb, 0xcc])).unwrap();
    let second = ZigbeePacket::try_parse_from(&with_relays([0x11, 0x22, 0x33])).unwrap();

    // the cursor advanced by exactly 2 + 3 bytes: the payload is what follows
    assert_eq!(first.payload, vec![0xde, 0xad]);
    assert_eq!(first.destination, 0x0001);
    assert_eq!(first.source, 0x0002);
    assert_eq!(first.radius, 5);
    assert_eq!(first.sequence_number, 9);
    assert_eq!(first, second);
}

#[test]
fn truncated_relay_list_is_a_parse_error() {
    // relay count says 3 but only two relay bytes follow
    let bytes = vec![
        0x00, 0x04, 0x01, 0x00, 0x02, 0x00, 0x05, 0x09, 0x03, 0x01, 0xaa, 0xbb,
    ];
    assert!(ZigbeePacket::try_parse_from(&bytes).is_err());
}

#[test]
fn short_reads_are_parse_errors() {
    assert!(ZigbeePacket::try_parse_from(&[]).is_err());
    assert!(ZigbeePacket::try_parse_from(&[0x00]).is_err());
    // fixed header only, but an extended destination is announced
    assert!(
        ZigbeePacket::try_parse_from(&[0x00, 0x08, 0x01, 0x00, 0x02, 0x00, 0x05, 0x09]).is_err()
    );
    // security announced but the packet ends inside the security header
    assert!(
        ZigbeePacket::try_parse_from(&[0x00, 0x02, 0x01, 0x00, 0x02, 0x00, 0x05, 0x09, 0x00, 0x01])
            .is_err()
    );
    // the security header parses but runs into the four integrity-code bytes
    assert!(ZigbeePacket::try_parse_from(&[
        0x00, 0x02, 0x01, 0x00, 0x02, 0x00, 0x05, 0x09, // fixed header
        0x00, // security control, no extended nonce
        0x01, 0x00, 0x00, 0x00, // frame counter
        0x07, // key sequence number
    ])
    .is_err());
}

#[test]
fn packet_without_options_has_everything_after_the_header_as_payload() {
    let bytes = vec![0x00, 0x00, 0x01, 0x00, 0x02, 0x00, 0x05, 0x09, 0x33, 0x44];
    let packet = ZigbeePacket::try_parse_from(&bytes).unwrap();
    assert_eq!(packet.extended_destination, None);
    assert_eq!(packet.extended_source, None);
    assert_eq!(packet.multicast_control, None);
    assert!(packet.security_header.is_none());
    assert_eq!(packet.payload, vec![0x33, 0x44]);
}
