use rusty_bee::combine_device_id;
use rusty_bee::ieee802154::IEEE802154Driver;
use rusty_bee::ieee802154::ReceiveError;
use rusty_bee::initialize_zigbee_stack;
use rusty_bee::mac::encode;
use rusty_bee::mac::FrameContent;
use rusty_bee::mac::FrameVersion;
use rusty_bee::mac::MacAddress;
use rusty_bee::mac::MacCommand;
use rusty_bee::mac::MacFrame;
use rusty_bee::mac::MacFrameType;
use rusty_bee::mac::MacHeader;
use rusty_bee::radio_driver::PacketConfigurationRegister0;
use rusty_bee::radio_driver::PacketConfigurationRegister1;
use rusty_bee::radio_driver::PacketPreambleType;
use rusty_bee::radio_driver::RadioDriver;
use rusty_bee::registers::MemoryRegisterFile;
use rusty_bee::registers::RegisterId;
use rusty_bee::NRF52840ZigbeeHardware;
use rusty_bee::ZigbeeHardware;

const TX_IDLE: u32 = 10;
const RX_IDLE: u32 = 2;

fn quiet_radio() -> MemoryRegisterFile {
    // the transmitter is idle for the transmission, then the receiver is idle
    MemoryRegisterFile::new(0, 0, vec![TX_IDLE, TX_IDLE, TX_IDLE, RX_IDLE], Vec::new())
}

#[test]
fn it_works() {
    let result = 2 + 2;
    assert_eq!(result, 4);
}

pub struct TestHardware {}

impl TestHardware {
    pub fn new() -> Self {
        Self {}
    }
}

impl ZigbeeHardware for TestHardware {
    fn connect(&self) -> bool {
        false
    }
}

#[test]
fn lib_it_works() {
    let hardware = TestHardware::new();

    let result = initialize_zigbee_stack(&hardware);
    assert_eq!(result, false);
}

#[test]
fn platform_hardware_connects() {
    let hardware = NRF52840ZigbeeHardware::new();
    assert!(initialize_zigbee_stack(&hardware));
}

#[test]
fn combines_device_identity_halves() {
    assert_eq!(combine_device_id(0x1234_5678, 0x9abc_def0), 0x1234_5678_9abc_def0);
}

#[test]
fn frequency_register_uses_low_base_below_2400() {
    let mut radio = RadioDriver::new(quiet_radio(), 16);
    assert!(radio.set_frequency(2360).is_ok());
    assert_eq!(radio.backing.register_value(RegisterId::Frequency), 0x100);
    assert!(radio.set_frequency(2399).is_ok());
    assert_eq!(radio.backing.register_value(RegisterId::Frequency), 0x100 | 39);
}

#[test]
fn frequency_register_uses_high_base_from_2400() {
    let mut radio = RadioDriver::new(quiet_radio(), 16);
    assert!(radio.set_frequency(2400).is_ok());
    assert_eq!(radio.backing.register_value(RegisterId::Frequency), 0);
    assert!(radio.set_frequency(2425).is_ok());
    assert_eq!(radio.backing.register_value(RegisterId::Frequency), 25);
    assert!(radio.set_frequency(2500).is_ok());
    assert_eq!(radio.backing.register_value(RegisterId::Frequency), 100);
}

#[test]
fn frequencies_outside_the_band_are_range_errors() {
    let mut radio = RadioDriver::new(quiet_radio(), 16);
    assert!(radio.set_frequency(2425).is_ok());
    assert!(radio.set_frequency(2359).is_err());
    assert!(radio.set_frequency(2501).is_err());
    // a rejected frequency writes nothing
    assert_eq!(radio.backing.register_value(RegisterId::Frequency), 25);
}

#[test]
fn packs_packet_configuration_words_bit_exactly() {
    let pcnf0 = PacketConfigurationRegister0::new(8, 0, 0, false, PacketPreambleType::ThirtyTwoBit, true);
    assert_eq!(pcnf0.pack_into_register(), (8 << 0) | (2 << 24) | (1 << 26));

    let pcnf1 = PacketConfigurationRegister1::new(255, 4, 3);
    assert_eq!(pcnf1.pack_into_register(), 255 | (4 << 8) | (3 << 16));

    let read_back = PacketConfigurationRegister1::from_register(255 | (4 << 8) | (3 << 16));
    assert_eq!(read_back.max_packet_length, 255);
    assert_eq!(read_back.padded_packet_length, 4);
    assert_eq!(read_back.base_address_length, 3);
    assert_eq!(read_back.pack_into_register(), pcnf1.pack_into_register());
}

#[test]
fn construction_configures_the_radio_and_reads_the_device_identity() {
    let backing = MemoryRegisterFile::new(0x1234_5678, 0x9abc_def0, vec![TX_IDLE], Vec::new());
    let engine = IEEE802154Driver::new(backing, 16);

    assert_eq!(engine.mac_address, 0x1234_5678_9abc_def0);
    let regs = &engine.radio_driver.backing;
    assert_eq!(regs.register_value(RegisterId::Mode), 15);
    assert_eq!(regs.register_value(RegisterId::Frequency), 25);
    assert_eq!(regs.register_value(RegisterId::CrcPolynomial), 0x011021);
    assert_eq!(regs.register_value(RegisterId::CrcConfiguration), 2 | (1 << 8));
    assert_eq!(
        regs.register_value(RegisterId::PacketConfiguration1) & 0xff,
        255
    );
    assert_eq!(
        regs.register_value(RegisterId::PacketConfiguration0),
        (8 << 0) | (2 << 24) | (1 << 26)
    );
    assert!(engine.sender_reciever_ctx.short_address.is_none());
    assert!(engine.sender_reciever_ctx.full_address.is_none());
}

#[test]
fn broadcast_beacon_places_the_length_prefixed_frame_in_the_buffer() {
    let backing = MemoryRegisterFile::new(0, 0, vec![TX_IDLE], Vec::new());
    let mut engine = IEEE802154Driver::new(backing, 16);

    engine.broadcast_beacon();

    assert_eq!(
        engine.radio_driver.backing.packet_buffer,
        vec![10, 0x03, 0x08, 0x2a, 0xff, 0xff, 0xff, 0xff, 0x07]
    );
}

#[test]
fn ack_wait_succeeds_on_the_first_matching_acknowledgement() {
    // one incoming frame: an acknowledgement echoing sequence number 43
    let backing = MemoryRegisterFile::new(
        0,
        0,
        vec![TX_IDLE, TX_IDLE, TX_IDLE, RX_IDLE],
        vec![vec![4, 0x02, 0x00, 43]],
    );
    let mut engine = IEEE802154Driver::new(backing, 16);

    let (result, _log) = engine.write_packet_and_expect_ack(43, &[0x02, 0x00, 0x2b], 5);

    assert!(result.is_ok());
    // the first receive attempt already succeeded
    assert_eq!(engine.radio_driver.backing.buffer_reads, 1);
}

#[test]
fn ack_wait_ignores_acknowledgements_with_the_wrong_sequence_number() {
    let backing = MemoryRegisterFile::new(
        0,
        0,
        vec![TX_IDLE, TX_IDLE, TX_IDLE, RX_IDLE],
        vec![vec![4, 0x02, 0x00, 99]],
    );
    let mut engine = IEEE802154Driver::new(backing, 16);

    let (result, _log) = engine.write_packet_and_expect_ack(43, &[0x02, 0x00, 0x2b], 5);

    assert!(result.is_err());
    assert_eq!(engine.radio_driver.backing.buffer_reads, 30);
}

#[test]
fn ack_wait_fails_after_exactly_thirty_attempts() {
    // every reception delivers undecodable bytes
    let backing = MemoryRegisterFile::new(
        0,
        0,
        vec![TX_IDLE, TX_IDLE, TX_IDLE, RX_IDLE],
        vec![vec![4, 0xff, 0xff, 0xff]],
    );
    let mut engine = IEEE802154Driver::new(backing, 16);

    let (result, _log) = engine.write_packet_and_expect_ack(43, &[0x02, 0x00, 0x2b], 5);

    assert!(result.is_err());
    // a parse error counts as a failed attempt and the loop continues,
    // for exactly thirty attempts, never more
    assert_eq!(engine.radio_driver.backing.buffer_reads, 30);
}

#[test]
fn association_flow_records_addresses_and_acknowledges_responses() {
    // build the coordinator's association response, addressed to this
    // device's extended address, asking for acknowledgement
    let response = MacFrame {
        header: MacHeader {
            frame_type: MacFrameType::MacCommand,
            security: false,
            frame_pending: false,
            ack_request: true,
            pan_id_compress: false,
            seq_no_suppress: false,
            ie_present: false,
            version: FrameVersion::Ieee802154_2003,
            seq: 99,
            destination: Some(MacAddress::Extended(0xd721, 0x42_42_42_42_42_42_42_42)),
            source: None,
        },
        content: FrameContent::Command(MacCommand::AssociationResponse(0x1234, 0)),
        payload: Vec::new(),
        footer: [0, 0],
    };
    let response_bytes = encode(&response);
    let mut response_raw = vec![(response_bytes.len() + 1) as u8];
    response_raw.extend_from_slice(&response_bytes);

    let backing = MemoryRegisterFile::new(
        0,
        0,
        vec![TX_IDLE, TX_IDLE, TX_IDLE, RX_IDLE],
        vec![
            vec![4, 0x02, 0x00, 43], // acknowledgement of the association request
            vec![4, 0x02, 0x00, 44], // acknowledgement of the data request
            response_raw,
        ],
    );
    let mut engine = IEEE802154Driver::new(backing, 16);

    engine.send_assosciation_request();
    // the handshake was acknowledged: the extended identity is active
    assert_eq!(
        engine.sender_reciever_ctx.full_address,
        Some(MacAddress::Extended(0xd721, 0x42_42_42_42_42_42_42_42))
    );
    assert!(engine.sender_reciever_ctx.short_address.is_none());

    // the response arrives through the ordinary receive path
    let (frame, _) = engine.read_packet().unwrap();
    assert_eq!(
        frame.content,
        FrameContent::Command(MacCommand::AssociationResponse(0x1234, 0))
    );
    // the assigned short address was recorded
    assert_eq!(
        engine.sender_reciever_ctx.short_address,
        Some(MacAddress::Short(0xd721, 0x1234))
    );
    // the frame asked for acknowledgement: an ack echoing its sequence
    // number was transmitted
    assert_eq!(
        engine.radio_driver.backing.packet_buffer,
        vec![5, 0x02, 0x00, 99]
    );
}

#[test]
fn frames_for_other_devices_are_returned_but_not_acknowledged() {
    let other = MacFrame {
        header: MacHeader {
            frame_type: MacFrameType::Data,
            security: false,
            frame_pending: false,
            ack_request: true,
            pan_id_compress: false,
            seq_no_suppress: false,
            ie_present: false,
            version: FrameVersion::Ieee802154_2003,
            seq: 5,
            destination: Some(MacAddress::Short(0xd721, 0x7777)),
            source: None,
        },
        content: FrameContent::Data,
        payload: vec![1, 2, 3],
        footer: [0, 0],
    };
    let other_bytes = encode(&other);
    let mut raw = vec![(other_bytes.len() + 1) as u8];
    raw.extend_from_slice(&other_bytes);

    let backing = MemoryRegisterFile::new(0, 0, vec![RX_IDLE], vec![raw.clone()]);
    let mut engine = IEEE802154Driver::new(backing, 16);

    let (frame, _) = engine.read_packet().unwrap();
    assert_eq!(frame.payload, vec![1, 2, 3]);
    // no acknowledgement went out: the buffer still holds the received bytes
    assert_eq!(engine.radio_driver.backing.packet_buffer, raw);
}

#[test]
fn radio_that_never_goes_idle_makes_receive_unavailable() {
    // the state register reads Disabled forever
    let backing = MemoryRegisterFile::new(0, 0, vec![0], Vec::new());
    let mut engine = IEEE802154Driver::new(backing, 4);

    assert_eq!(engine.read_packet(), Err(ReceiveError::RadioUnavailable));
    assert_eq!(engine.radio_driver.backing.buffer_reads, 0);
}

#[test]
fn undecodable_bytes_are_a_malformed_frame() {
    // a zero length prefix can never frame a packet
    let backing = MemoryRegisterFile::new(0, 0, vec![RX_IDLE], vec![vec![0, 0x02, 0x00]]);
    let mut engine = IEEE802154Driver::new(backing, 16);
    assert_eq!(engine.read_packet(), Err(ReceiveError::MalformedFrame));

    // a frame-control word with a reserved bit set is rejected
    let backing = MemoryRegisterFile::new(0, 0, vec![RX_IDLE], vec![vec![4, 0x82, 0x00, 0x07]]);
    let mut engine = IEEE802154Driver::new(backing, 16);
    assert_eq!(engine.read_packet(), Err(ReceiveError::MalformedFrame));
}
