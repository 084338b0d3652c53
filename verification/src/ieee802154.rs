//! The MAC session engine: beacon broadcast, the association handshake,
//! automatic acknowledgement of inbound frames addressed to this device,
//! and dispatch of recognized command content. It drives the radio driver
//! for raw bytes and the frame codec for structure.

use vstd::prelude::*;

use crate::mac::decode;
use crate::mac::encode_ack;
use crate::mac::encode_association_request;
use crate::mac::encode_beacon_request;
use crate::mac::encode_data_request;
use crate::mac::spec_ack_frame;
use crate::mac::spec_association_request_frame;
use crate::mac::spec_beacon_request_frame;
use crate::mac::spec_data_request_frame;
use crate::mac::spec_decode_frame;
use crate::mac::spec_encode_frame;
use crate::mac::CapabilityInformation;
use crate::mac::FrameContent;
use crate::mac::FrameModel;
use crate::mac::MacAddress;
use crate::mac::MacCommand;
use crate::mac::MacFrame;
use crate::mac::MacFrameType;
use crate::radio_driver::spec_frequency_register;
use crate::radio_driver::spec_pack_pcnf0;
use crate::radio_driver::spec_radio_mode_value;
use crate::radio_driver::PacketConfigurationRegister0;
use crate::radio_driver::PacketPreambleType;
use crate::radio_driver::RadioDriver;
use crate::radio_driver::RadioMode;
use crate::registers::RegisterFile;
use crate::registers::RegisterId;

verus! {

/// The fixed extended address this device joins with.
pub const FULL_ADDRESS: u64 = 0x42_42_42_42_42_42_42_42;

/// The personal-area-network identifier of the coordinator being joined.
pub const PAN_ID: u16 = 0xd721;

/// The short address of the coordinator being joined.
pub const COORDINATOR_SHORT_ADDRESS: u16 = 0x8dbc;

/// The capabilities this device announces when it asks to associate: a
/// mains-powered, full-function device that listens while idle and wants a
/// short address allocated.
pub open spec fn spec_device_capabilities() -> CapabilityInformation {
    CapabilityInformation {
        full_function_device: true,
        mains_power: true,
        allocate_address: true,
        frame_protection: false,
        idle_receive: true,
    }
}

/// The capabilities this device announces when it asks to associate.
pub fn device_capabilities() -> (r: CapabilityInformation)
    ensures
        r == spec_device_capabilities(),
{
    CapabilityInformation {
        full_function_device: true,
        mains_power: true,
        allocate_address: true,
        frame_protection: false,
        idle_receive: true,
    }
}

/// What filling a caller's buffer with an encoding does: when the encoding
/// fits, it overwrites the buffer's first bytes and its length is handed
/// back; when it does not fit, the buffer is untouched and zero is handed
/// back.
pub open spec fn spec_write_into(
    before: Seq<u8>,
    after: Seq<u8>,
    encoding: Seq<u8>,
    len: usize,
) -> bool {
    if encoding.len() <= before.len() {
        len == encoding.len() && after == encoding + before.skip(encoding.len() as int)
    } else {
        len == 0 && after == before
    }
}

fn write_prefix(buffer: &mut Vec<u8>, encoded: &Vec<u8>) -> (len: usize)
    ensures
        final(buffer)@.len() == old(buffer)@.len(),
        spec_write_into(old(buffer)@, final(buffer)@, encoded@, len),
{
    if encoded.len() > buffer.len() {
        return 0;
    }
    let mut i: usize = 0;
    assert(buffer@ =~= encoded@.subrange(0, 0) + old(buffer)@.skip(0));
    while i < encoded.len()
        invariant
            i <= encoded@.len(),
            encoded@.len() <= buffer@.len(),
            buffer@.len() == old(buffer)@.len(),
            buffer@ == encoded@.subrange(0, i as int) + old(buffer)@.skip(i as int),
        decreases encoded@.len() - i,
    {
        let v = encoded[i];
        *vstd::std_specs::vec::vec_index_mut(buffer, i) = v;
        i = i + 1;
        assert(buffer@ =~= encoded@.subrange(0, i as int) + old(buffer)@.skip(i as int));
    }
    assert(buffer@ =~= encoded@ + old(buffer)@.skip(encoded@.len() as int));
    encoded.len()
}

/// Session state: the addresses this device currently answers to. The
/// short address arrives in an association response; the extended one
/// becomes active once an association request is acknowledged.
#[derive(Clone, Copy, PartialEq, Debug)]
pub struct IEEE802154SenderReceiverCtx {
    pub short_address: Option<MacAddress>,
    pub full_address: Option<MacAddress>,
}

impl Default for IEEE802154SenderReceiverCtx {
    /// A session that answers to no address yet.
    fn default() -> (r: IEEE802154SenderReceiverCtx)
        ensures
            r.short_address is None,
            r.full_address is None,
    {
        IEEE802154SenderReceiverCtx { short_address: None, full_address: None }
    }
}

impl IEEE802154SenderReceiverCtx {
    /// Writes the beacon request frame (sequence number 42) into the
    /// buffer, handing back its length — or zero if it does not fit.
    pub fn generate_broadcast_beacon(&mut self, buffer: &mut Vec<u8>) -> (len: usize)
        ensures
            *final(self) == *old(self),
            final(buffer)@.len() == old(buffer)@.len(),
            spec_write_into(
                old(buffer)@,
                final(buffer)@,
                spec_encode_frame(spec_beacon_request_frame(42)),
                len,
            ),
    {
        let encoded = encode_beacon_request(42);
        write_prefix(buffer, &encoded)
    }

    /// Writes the association request frame (sequence number 43, this
    /// device's capabilities, broadcast source PAN) into the buffer.
    pub fn generate_assosciation_request(&mut self, buffer: &mut Vec<u8>) -> (len: usize)
        ensures
            *final(self) == *old(self),
            final(buffer)@.len() == old(buffer)@.len(),
            spec_write_into(
                old(buffer)@,
                final(buffer)@,
                spec_encode_frame(
                    spec_association_request_frame(
                        FULL_ADDRESS,
                        PAN_ID,
                        COORDINATOR_SHORT_ADDRESS,
                        43,
                        spec_device_capabilities(),
                    ),
                ),
                len,
            ),
    {
        let encoded = encode_association_request(
            FULL_ADDRESS,
            PAN_ID,
            COORDINATOR_SHORT_ADDRESS,
            43,
            device_capabilities(),
        );
        write_prefix(buffer, &encoded)
    }

    /// Writes the data request frame (sequence number 44, PAN id
    /// compressed) into the buffer.
    pub fn generate_data_request(&mut self, buffer: &mut Vec<u8>) -> (len: usize)
        ensures
            *final(self) == *old(self),
            final(buffer)@.len() == old(buffer)@.len(),
            spec_write_into(
                old(buffer)@,
                final(buffer)@,
                spec_encode_frame(
                    spec_data_request_frame(
                        PAN_ID,
                        FULL_ADDRESS,
                        PAN_ID,
                        COORDINATOR_SHORT_ADDRESS,
                        44,
                    ),
                ),
                len,
            ),
    {
        let encoded = encode_data_request(PAN_ID, FULL_ADDRESS, PAN_ID, COORDINATOR_SHORT_ADDRESS, 44);
        write_prefix(buffer, &encoded)
    }

    /// Writes an acknowledgement frame echoing `sequence_number` into the
    /// buffer.
    pub fn generate_ack_packet(&mut self, sequence_number: u8, buffer: &mut Vec<u8>) -> (len: usize)
        ensures
            *final(self) == *old(self),
            final(buffer)@.len() == old(buffer)@.len(),
            spec_write_into(
                old(buffer)@,
                final(buffer)@,
                spec_encode_frame(spec_ack_frame(sequence_number)),
                len,
            ),
    {
        let encoded = encode_ack(sequence_number);
        write_prefix(buffer, &encoded)
    }
}

/// The radio channels this configuration surface offers; a single fixed
/// channel for now.
pub enum Channel {
    FIFTEEN,
}

/// The on-air packet layout used for IEEE 802.15.4 frames: an 8-bit
/// length field, no S0 or S1, a 32-bit preamble, and the CRC counted into
/// the length.
pub open spec fn spec_ieee_packet_configuration() -> PacketConfigurationRegister0 {
    PacketConfigurationRegister0 {
        length_field_num_bits: 8,
        s0_field_num_bytes: 0,
        s1_field_num_bits: 0,
        include_s1_field_in_buffer: false,
        preamble_length: PacketPreambleType::ThirtyTwoBit,
        crc_included_in_length: true,
    }
}

/// Puts the radio in IEEE 802.15.4 mode, programs the packet layout and
/// the 16-bit CRC the standard asks for, and tunes to the channel.
pub fn configure_radio_driver<R: RegisterFile>(radio: &mut RadioDriver<R>, channel: Channel)
    ensures
        final(radio).poll_budget == old(radio).poll_budget,
        final(radio).backing.buffer() == old(radio).backing.buffer(),
        final(radio).backing.reg_val(RegisterId::Mode) == spec_radio_mode_value(
            RadioMode::IEEE802154,
        ),
        final(radio).backing.reg_val(RegisterId::PacketConfiguration0) == spec_pack_pcnf0(
            spec_ieee_packet_configuration(),
        ),
        final(radio).backing.reg_val(RegisterId::CrcConfiguration) == ((2u32 & 0x3) | (1u32 << 8)),
        final(radio).backing.reg_val(RegisterId::CrcPolynomial) == 0x011021,
        final(radio).backing.reg_val(RegisterId::CrcInitialValue) == 0,
        final(radio).backing.reg_val(RegisterId::Frequency) == spec_frequency_register(2425),
        forall|id: RegisterId|
            !(id == RegisterId::Mode || id == RegisterId::PacketConfiguration0 || id
                == RegisterId::CrcConfiguration || id == RegisterId::CrcPolynomial || id
                == RegisterId::CrcInitialValue || id == RegisterId::Frequency) ==> final(radio).backing.reg_val(id) == old(radio).backing.reg_val(id),
{
    radio.set_radio_mode(RadioMode::IEEE802154);
    let packet_config = PacketConfigurationRegister0::new(
        8,
        0,
        0,
        false,
        PacketPreambleType::ThirtyTwoBit,
        true,
    );
    radio.set_packet_format(packet_config);
    radio.set_crc_configuration(2, true, 0x011021);
    match channel {
        Channel::FIFTEEN => {
            let r = radio.set_frequency(2425);
            assert(r is Ok);
        },
    }
}

/// Why a receive attempt produced no frame: the radio never reached the
/// awaited state within the poll budget, or the bytes it delivered were
/// not a well-formed frame.
#[derive(Clone, Copy, PartialEq, Eq, Structural, Debug)]
pub enum ReceiveError {
    MalformedFrame,
    RadioUnavailable,
}

/// Whether a frame with the given destination is addressed to this
/// session: to its extended address or to its short one, when it has them.
pub open spec fn spec_intended_for(
    ctx: IEEE802154SenderReceiverCtx,
    destination: Option<MacAddress>,
) -> bool {
    (ctx.full_address is Some && ctx.full_address == destination) || (ctx.short_address is Some
        && ctx.short_address == destination)
}

/// The short address a session holds after dispatching a frame's content:
/// an association response records the address the coordinator assigned;
/// everything else leaves the session as it was.
pub open spec fn spec_dispatched_short_address(
    prev: Option<MacAddress>,
    frame_type: MacFrameType,
    content: FrameContent,
) -> Option<MacAddress> {
    match (frame_type, content) {
        (
            MacFrameType::MacCommand,
            FrameContent::Command(MacCommand::AssociationResponse(address, _)),
        ) => Some(MacAddress::Short(PAN_ID, address)),
        _ => prev,
    }
}

/// The buffer layout handed to the radio: an on-air length counting the
/// frame and the radio's two CRC bytes, then the frame itself.
pub open spec fn spec_on_air_bytes(frame_bytes: Seq<u8>) -> Seq<u8> {
    seq![((frame_bytes.len() + 2) as u8)] + frame_bytes
}

/// What a successful receive means: the radio delivered `raw`, whose
/// leading on-air length was in range, and the frame decoded out of the
/// bytes under that length, consuming all of them.
pub open spec fn spec_received_frame(raw: Seq<u8>, frame: FrameModel, consumed: int) -> bool {
    &&& 1 <= raw.len()
    &&& 1 <= raw[0] <= raw.len()
    &&& spec_decode_frame(raw.subrange(1, raw[0] as int)) == Some(frame)
    &&& consumed == raw[0] - 1
}

/// The MAC engine: the radio driver it transmits and receives through,
/// the device identity read at construction, and the association session
/// state.
pub struct IEEE802154Driver<R: RegisterFile> {
    pub radio_driver: RadioDriver<R>,
    pub mac_address: u64,
    pub sender_reciever_ctx: IEEE802154SenderReceiverCtx,
}

impl<R: RegisterFile> IEEE802154Driver<R> {
    /// Brings the radio up on channel fifteen and seeds the device
    /// identity from the factory registers.
    pub fn new(backing: R, poll_budget: u64) -> (r: IEEE802154Driver<R>)
        ensures
            r.sender_reciever_ctx.short_address is None,
            r.sender_reciever_ctx.full_address is None,
            r.radio_driver.poll_budget == poll_budget,
            r.radio_driver.backing.reg_val(RegisterId::Mode) == spec_radio_mode_value(
                RadioMode::IEEE802154,
            ),
            r.radio_driver.backing.reg_val(RegisterId::PacketConfiguration0) == spec_pack_pcnf0(
                spec_ieee_packet_configuration(),
            ),
            r.radio_driver.backing.reg_val(RegisterId::PacketConfiguration1) & 0xFF == 255,
            r.radio_driver.backing.reg_val(RegisterId::CrcConfiguration) == ((2u32 & 0x3) | (1u32
                << 8)),
            r.radio_driver.backing.reg_val(RegisterId::CrcPolynomial) == 0x011021,
            r.radio_driver.backing.reg_val(RegisterId::CrcInitialValue) == 0,
            r.radio_driver.backing.reg_val(RegisterId::Frequency) == spec_frequency_register(2425),
            r.radio_driver.backing.buffer() == backing.buffer(),
    {
        let mut radio_driver = RadioDriver::new(backing, poll_budget);
        configure_radio_driver(&mut radio_driver, Channel::FIFTEEN);
        let high = radio_driver.backing.read_register(RegisterId::DeviceIdHigh);
        let low = radio_driver.backing.read_register(RegisterId::DeviceIdLow);
        let mac_address = crate::combine_device_id(high, low);
        IEEE802154Driver { radio_driver, mac_address, sender_reciever_ctx: Default::default() }
    }

    /// Whether the frame is addressed to an address this session answers
    /// to.
    fn packet_intended_for_us(&self, frame: &MacFrame) -> (r: bool)
        ensures
            r == spec_intended_for(self.sender_reciever_ctx, frame.header.destination),
    {
        let by_full = match (self.sender_reciever_ctx.full_address, frame.header.destination) {
            (Some(a), Some(d)) => a == d,
            _ => false,
        };
        if by_full {
            return true;
        }
        match (self.sender_reciever_ctx.short_address, frame.header.destination) {
            (Some(a), Some(d)) => a == d,
            _ => false,
        }
    }

    /// Transmits an acknowledgement echoing the given sequence number;
    /// fire and forget.
    fn ack_frame(&mut self, sequence_num: u8)
        ensures
            final(self).sender_reciever_ctx == old(self).sender_reciever_ctx,
            final(self).mac_address == old(self).mac_address,
            final(self).radio_driver.poll_budget == old(self).radio_driver.poll_budget,
            final(self).radio_driver.backing.buffer() == spec_on_air_bytes(
                spec_encode_frame(spec_ack_frame(sequence_num)),
            ),
            forall|id: RegisterId|
                !(id == RegisterId::Shortcuts || id == RegisterId::TaskTxEnable || id
                    == RegisterId::TaskStart) ==> final(self).radio_driver.backing.reg_val(id)
                    == old(self).radio_driver.backing.reg_val(id),
    {
        let mut packet: Vec<u8> = vec![0u8; 128];
        assert(spec_encode_frame(spec_ack_frame(sequence_num)).len() == 3);
        let len = self.sender_reciever_ctx.generate_ack_packet(sequence_num, &mut packet);
        let frame_bytes = vstd::slice::slice_subrange(packet.as_slice(), 0, len);
        let _ = self.radio_driver.write_packet_blocking(frame_bytes, (len + 2) as u8);
    }

    /// Acknowledges the frame when it asks for acknowledgement; a frame
    /// that does not leaves everything untouched. The caller has already
    /// checked that the frame is addressed to this device.
    fn maybe_ack_frame(&mut self, frame: &MacFrame)
        ensures
            final(self).sender_reciever_ctx == old(self).sender_reciever_ctx,
            final(self).mac_address == old(self).mac_address,
            final(self).radio_driver.poll_budget == old(self).radio_driver.poll_budget,
            frame.header.ack_request ==> final(self).radio_driver.backing.buffer()
                == spec_on_air_bytes(spec_encode_frame(spec_ack_frame(frame.header.seq))),
            !frame.header.ack_request ==> *final(self) == *old(self),
            forall|id: RegisterId|
                !(id == RegisterId::Shortcuts || id == RegisterId::TaskTxEnable || id
                    == RegisterId::TaskStart) ==> final(self).radio_driver.backing.reg_val(id)
                    == old(self).radio_driver.backing.reg_val(id),
    {
        if !frame.header.ack_request {
            return ;
        }
        self.ack_frame(frame.header.seq);
    }

    /// Dispatches recognized command content: an association response
    /// records the short address the coordinator assigned to this device.
    fn react_to_packet(&mut self, frame: &MacFrame)
        ensures
            final(self).mac_address == old(self).mac_address,
            final(self).radio_driver == old(self).radio_driver,
            final(self).sender_reciever_ctx.full_address == old(self).sender_reciever_ctx.full_address,
            final(self).sender_reciever_ctx.short_address == spec_dispatched_short_address(
                old(self).sender_reciever_ctx.short_address,
                frame.header.frame_type,
                frame.content,
            ),
    {
        match (frame.header.frame_type, frame.content) {
            (
                MacFrameType::MacCommand,
                FrameContent::Command(MacCommand::AssociationResponse(address, _status)),
            ) => {
                self.sender_reciever_ctx.short_address = Some(
                    MacAddress::Short(PAN_ID, address),
                );
            },
            _ => {},
        }
    }

    /// Receives one packet and decodes it. When the frame is addressed to
    /// this device it is acknowledged if it asks for that, and its content
    /// dispatched; the decoded frame (or the error) is handed back either
    /// way. Frames for other devices and undecodable bytes are the
    /// caller's to discard.
    pub fn read_packet(&mut self) -> (r: Result<(MacFrame, usize), ReceiveError>)
        ensures
            final(self).mac_address == old(self).mac_address,
            final(self).radio_driver.poll_budget == old(self).radio_driver.poll_budget,
            final(self).sender_reciever_ctx.full_address == old(self).sender_reciever_ctx.full_address,
            forall|id: RegisterId|
                !(id == RegisterId::Shortcuts || id == RegisterId::TaskTxEnable || id
                    == RegisterId::TaskRxEnable || id == RegisterId::TaskStart) ==> final(self).radio_driver.backing.reg_val(id) == old(self).radio_driver.backing.reg_val(id),
            match r {
                Ok(p) => {
                    &&& final(self).sender_reciever_ctx.short_address == (if spec_intended_for(
                        old(self).sender_reciever_ctx,
                        p.0@.header.destination,
                    ) {
                        spec_dispatched_short_address(
                            old(self).sender_reciever_ctx.short_address,
                            p.0@.header.frame_type,
                            p.0@.content,
                        )
                    } else {
                        old(self).sender_reciever_ctx.short_address
                    })
                    &&& exists|raw: Seq<u8>|
                        {
                            &&& #[trigger] spec_received_frame(raw, p.0@, p.1 as int)
                            &&& final(self).radio_driver.backing.buffer() == (
                            if spec_intended_for(old(self).sender_reciever_ctx, p.0@.header.destination)
                                && p.0@.header.ack_request {
                                spec_on_air_bytes(
                                    spec_encode_frame(spec_ack_frame(p.0@.header.seq)),
                                )
                            } else {
                                raw
                            })
                        }
                },
                Err(e) => {
                    &&& final(self).sender_reciever_ctx == old(self).sender_reciever_ctx
                    &&& (e == ReceiveError::RadioUnavailable ==> final(self).radio_driver.backing.buffer() == old(self).radio_driver.backing.buffer())
                },
            },
    {
        let bytes = match self.radio_driver.read_packet_blocking() {
            Some(b) => b,
            None => {
                return Err(ReceiveError::RadioUnavailable);
            },
        };
        if bytes.len() == 0 {
            return Err(ReceiveError::MalformedFrame);
        }
        let length = bytes[0];
        if length == 0 || (length as usize) > bytes.len() {
            return Err(ReceiveError::MalformedFrame);
        }
        let mac_bytes = vstd::slice::slice_subrange(bytes.as_slice(), 1, length as usize);
        match decode(mac_bytes) {
            Err(_) => Err(ReceiveError::MalformedFrame),
            Ok((frame, consumed)) => {
                let intended = self.packet_intended_for_us(&frame);
                if intended {
                    self.maybe_ack_frame(&frame);
                    self.react_to_packet(&frame);
                }
                proof {
                    assert(spec_received_frame(bytes@, frame@, consumed as int));
                }
                Ok((frame, consumed))
            },
        }
    }

    /// Transmits the packet, then listens up to thirty times for an
    /// acknowledgement echoing `sequence_num`; a parse failure, a radio
    /// failure or any other frame spends one attempt and the wait goes on.
    /// The ghost log holds one entry per receive attempt, so the result's
    /// whole story is in `spec_ack_wait_post`: the wait stops at the first
    /// matching acknowledgement, and failure means thirty fruitless
    /// attempts, never more.
    pub fn write_packet_and_expect_ack(
        &mut self,
        sequence_num: u8,
        packet: &[u8],
        length: u8,
    ) -> (r: (Result<(), ()>, Ghost<Seq<Option<FrameModel>>>))
        ensures
            spec_ack_wait_post(r.1@, sequence_num, r.0 is Ok),
            final(self).mac_address == old(self).mac_address,
            final(self).radio_driver.poll_budget == old(self).radio_driver.poll_budget,
            final(self).sender_reciever_ctx.full_address == old(self).sender_reciever_ctx.full_address,
            forall|id: RegisterId|
                !(id == RegisterId::Shortcuts || id == RegisterId::TaskTxEnable || id
                    == RegisterId::TaskRxEnable || id == RegisterId::TaskStart) ==> final(self).radio_driver.backing.reg_val(id) == old(self).radio_driver.backing.reg_val(id),
    {
        let _ = self.radio_driver.write_packet_blocking(packet, length);
        let ghost mut log: Seq<Option<FrameModel>> = Seq::empty();
        let mut attempts: u64 = 0;
        let mut succeeded = false;
        while attempts < 30 && !succeeded
            invariant
                attempts <= 30,
                log.len() == attempts as int,
                succeeded ==> attempts >= 1 && spec_is_matching_ack(
                    log[log.len() - 1],
                    sequence_num,
                ),
                forall|i: int|
                    0 <= i < log.len() - (if succeeded {
                        1int
                    } else {
                        0int
                    }) ==> !spec_is_matching_ack(#[trigger] log[i], sequence_num),
                self.mac_address == old(self).mac_address,
                self.radio_driver.poll_budget == old(self).radio_driver.poll_budget,
                self.sender_reciever_ctx.full_address == old(self).sender_reciever_ctx.full_address,
                forall|id: RegisterId|
                    !(id == RegisterId::Shortcuts || id == RegisterId::TaskTxEnable || id
                        == RegisterId::TaskRxEnable || id == RegisterId::TaskStart)
                        ==> self.radio_driver.backing.reg_val(id) == old(self).radio_driver.backing.reg_val(id),
            decreases 30 - attempts,
        {
            match self.read_packet() {
                Ok((frame, _consumed)) => {
                    let matching = frame.header.frame_type == MacFrameType::Acknowledgement
                        && frame.header.seq == sequence_num;
                    proof {
                        log = log.push(Some(frame@));
                    }
                    if matching {
                        succeeded = true;
                    }
                },
                Err(_) => {
                    proof {
                        log = log.push(None);
                    }
                },
            }
            attempts = attempts + 1;
        }
        if succeeded {
            (Ok(()), Ghost(log))
        } else {
            (Err(()), Ghost(log))
        }
    }

    /// Encodes and transmits a beacon request; fire and forget, no session
    /// state changes.
    pub fn broadcast_beacon(&mut self)
        ensures
            final(self).sender_reciever_ctx == old(self).sender_reciever_ctx,
            final(self).mac_address == old(self).mac_address,
            final(self).radio_driver.poll_budget == old(self).radio_driver.poll_budget,
            final(self).radio_driver.backing.buffer() == spec_on_air_bytes(
                spec_encode_frame(spec_beacon_request_frame(42)),
            ),
            forall|id: RegisterId|
                !(id == RegisterId::Shortcuts || id == RegisterId::TaskTxEnable || id
                    == RegisterId::TaskStart) ==> final(self).radio_driver.backing.reg_val(id)
                    == old(self).radio_driver.backing.reg_val(id),
    {
        let mut packet: Vec<u8> = vec![0u8; 128];
        assert(spec_encode_frame(spec_beacon_request_frame(42)).len() == 8);
        let len = self.sender_reciever_ctx.generate_broadcast_beacon(&mut packet);
        let frame_bytes = vstd::slice::slice_subrange(packet.as_slice(), 0, len);
        let _ = self.radio_driver.write_packet_blocking(frame_bytes, (len + 2) as u8);
    }

    /// Runs the association handshake: sends the association request
    /// (sequence 43) and waits for its acknowledgement; on success records
    /// the extended identity as active and sends the data request
    /// (sequence 44), again awaiting acknowledgement. An unacknowledged
    /// phase abandons the sequence — the session keeps its prior state and
    /// there is no automatic retry. The ghost result reports which of the
    /// two phases were acknowledged.
    pub fn send_assosciation_request(&mut self) -> (r: Ghost<(bool, bool)>)
        ensures
            final(self).mac_address == old(self).mac_address,
            final(self).radio_driver.poll_budget == old(self).radio_driver.poll_budget,
            r@.0 ==> final(self).sender_reciever_ctx.full_address == Some(
                MacAddress::Extended(PAN_ID, FULL_ADDRESS),
            ),
            !r@.0 ==> final(self).sender_reciever_ctx.full_address == old(self).sender_reciever_ctx.full_address && !r@.1,
            forall|id: RegisterId|
                !(id == RegisterId::Shortcuts || id == RegisterId::TaskTxEnable || id
                    == RegisterId::TaskRxEnable || id == RegisterId::TaskStart) ==> final(self).radio_driver.backing.reg_val(id) == old(self).radio_driver.backing.reg_val(id),
    {
        let mut packet: Vec<u8> = vec![0u8; 128];
        assert(spec_encode_frame(
            spec_association_request_frame(
                FULL_ADDRESS,
                PAN_ID,
                COORDINATOR_SHORT_ADDRESS,
                43,
                spec_device_capabilities(),
            ),
        ).len() == 19);
        let len = self.sender_reciever_ctx.generate_assosciation_request(&mut packet);
        let frame_bytes = vstd::slice::slice_subrange(packet.as_slice(), 0, len);
        let (acked, _log) = self.write_packet_and_expect_ack(43, frame_bytes, (len + 2) as u8);
        match acked {
            Ok(_) => {
                self.sender_reciever_ctx.full_address = Some(
                    MacAddress::Extended(PAN_ID, FULL_ADDRESS),
                );
            },
            Err(_) => {
                return Ghost((false, false));
            },
        }
        assert(spec_encode_frame(
            spec_data_request_frame(PAN_ID, FULL_ADDRESS, PAN_ID, COORDINATOR_SHORT_ADDRESS, 44),
        ).len() == 16);
        let len2 = self.sender_reciever_ctx.generate_data_request(&mut packet);
        let frame_bytes2 = vstd::slice::slice_subrange(packet.as_slice(), 0, len2);
        let (data_acked, _log2) = self.write_packet_and_expect_ack(
            44,
            frame_bytes2,
            (len2 + 2) as u8,
        );
        match data_acked {
            Ok(_) => Ghost((true, true)),
            Err(_) => Ghost((true, false)),
        }
    }
}

/// Whether one receive attempt produced the awaited acknowledgement: a
/// decoded frame of acknowledgement type echoing the sequence number.
pub open spec fn spec_is_matching_ack(outcome: Option<FrameModel>, sequence_num: u8) -> bool {
    match outcome {
        Some(f) => f.header.frame_type == MacFrameType::Acknowledgement && f.header.seq
            == sequence_num,
        None => false,
    }
}

/// What the bounded acknowledgement wait did, read off its attempt log:
/// at most thirty attempts; success exactly when the last logged attempt
/// is the matching acknowledgement; no earlier attempt matched (the wait
/// stops at the first match); and a failed wait spent all thirty
/// attempts.
pub open spec fn spec_ack_wait_post(
    log: Seq<Option<FrameModel>>,
    sequence_num: u8,
    succeeded: bool,
) -> bool {
    &&& log.len() <= 30
    &&& (succeeded <==> (log.len() >= 1 && spec_is_matching_ack(
        log[log.len() - 1],
        sequence_num,
    )))
    &&& forall|i: int|
        0 <= i < log.len() - 1 ==> !spec_is_matching_ack(#[trigger] log[i], sequence_num)
    &&& (!succeeded ==> log.len() == 30)
}

/// Law: the acknowledgement wait succeeds immediately when the first
/// receive attempt already yields the matching acknowledgement — exactly
/// one attempt is then on the log and the wait reports success. Together
/// with `spec_ack_wait_post` itself, which makes a failed wait spend
/// exactly thirty attempts, this is the whole retry story.
pub proof fn lemma_first_matching_ack_succeeds(
    log: Seq<Option<FrameModel>>,
    sequence_num: u8,
    succeeded: bool,
)
    requires
        spec_ack_wait_post(log, sequence_num, succeeded),
        log.len() >= 1,
        spec_is_matching_ack(log[0], sequence_num),
    ensures
        succeeded,
        log.len() == 1,
{
    if log.len() > 1 {
        assert(!spec_is_matching_ack(log[0], sequence_num));
        assert(false);
    }
}

} // verus!
