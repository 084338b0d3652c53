//! The radio peripheral driver: packet-format and CRC configuration words,
//! frequency selection, and blocking transmit and receive built on
//! busy-wait polling of the radio's state register. Every poll loop runs
//! under the driver's poll budget, so a hardware state machine that never
//! reaches the awaited state makes the operation report failure instead of
//! hanging.

use vstd::prelude::*;

use crate::registers::RegisterFile;
use crate::registers::RegisterId;

verus! {

/// The preamble length selection of the packet configuration.
#[derive(Clone, Copy, PartialEq, Eq, Structural, Debug)]
pub enum PacketPreambleType {
    EightBit,
    SixteenBit,
    ThirtyTwoBit,
    LongRange,
}

/// The two-bit field value of a preamble selection.
pub open spec fn spec_preamble_bits(p: PacketPreambleType) -> u32 {
    match p {
        PacketPreambleType::EightBit => 0,
        PacketPreambleType::SixteenBit => 1,
        PacketPreambleType::ThirtyTwoBit => 2,
        PacketPreambleType::LongRange => 3,
    }
}

/// The two-bit field value of a preamble selection.
pub fn preamble_bits(p: PacketPreambleType) -> (r: u32)
    ensures
        r == spec_preamble_bits(p),
{
    match p {
        PacketPreambleType::EightBit => 0,
        PacketPreambleType::SixteenBit => 1,
        PacketPreambleType::ThirtyTwoBit => 2,
        PacketPreambleType::LongRange => 3,
    }
}

/// Configures the on-air packet layout: the widths of the length, S0 and
/// S1 fields, whether S1 is kept in the buffer, the preamble, and whether
/// the CRC counts into the length field.
#[derive(Clone, Copy, PartialEq, Eq, Structural, Debug)]
pub struct PacketConfigurationRegister0 {
    pub length_field_num_bits: u8,
    pub s0_field_num_bytes: u8,
    pub s1_field_num_bits: u8,
    pub include_s1_field_in_buffer: bool,
    pub preamble_length: PacketPreambleType,
    pub crc_included_in_length: bool,
}

/// The bit-exact packing of the first packet configuration word: length
/// width in bits 0-3, S0 presence in bit 8, S1 width in bits 16-19, the
/// S1-in-buffer flag in bit 20, the preamble selection in bits 24-25, and
/// the CRC-in-length flag in bit 26.
pub open spec fn spec_pack_pcnf0(c: PacketConfigurationRegister0) -> u32 {
    ((c.length_field_num_bits as u32) & 0xF) | (((c.s0_field_num_bytes as u32) & 0x1) << 8) | (((
    c.s1_field_num_bits as u32) & 0xF) << 16) | ((if c.include_s1_field_in_buffer {
        1u32
    } else {
        0u32
    }) << 20) | ((spec_preamble_bits(c.preamble_length) & 0x3) << 24) | ((
    if c.crc_included_in_length {
        1u32
    } else {
        0u32
    }) << 26)
}

impl PacketConfigurationRegister0 {
    /// A configuration from its fields.
    pub fn new(
        length_field_num_bits: u8,
        s0_field_num_bytes: u8,
        s1_field_num_bits: u8,
        include_s1_field_in_buffer: bool,
        preamble_length: PacketPreambleType,
        crc_included_in_length: bool,
    ) -> (r: PacketConfigurationRegister0)
        ensures
            r == (PacketConfigurationRegister0 {
                length_field_num_bits,
                s0_field_num_bytes,
                s1_field_num_bits,
                include_s1_field_in_buffer,
                preamble_length,
                crc_included_in_length,
            }),
    {
        PacketConfigurationRegister0 {
            length_field_num_bits,
            s0_field_num_bytes,
            s1_field_num_bits,
            include_s1_field_in_buffer,
            preamble_length,
            crc_included_in_length,
        }
    }

    /// Packs the configuration into its register word.
    pub fn pack_into_register(&self) -> (r: u32)
        ensures
            r == spec_pack_pcnf0(*self),
    {
        let s1_incl: u32 = if self.include_s1_field_in_buffer {
            1
        } else {
            0
        };
        let crc_incl: u32 = if self.crc_included_in_length {
            1
        } else {
            0
        };
        ((self.length_field_num_bits as u32) & 0xF) | (((self.s0_field_num_bytes as u32) & 0x1)
            << 8) | (((self.s1_field_num_bits as u32) & 0xF) << 16) | (s1_incl << 20) | ((
        preamble_bits(self.preamble_length) & 0x3) << 24) | (crc_incl << 26)
    }
}

/// Configures packet lengths: the longest accepted payload, the length
/// the radio pads to, and the base address length.
#[derive(Clone, Copy, PartialEq, Eq, Structural, Debug)]
pub struct PacketConfigurationRegister1 {
    pub max_packet_length: u8,
    pub padded_packet_length: u8,
    pub base_address_length: u8,
}

/// The bit-exact packing of the second packet configuration word: maximum
/// packet length in byte 0, padded length in byte 1, base address length
/// in byte 2.
pub open spec fn spec_pack_pcnf1(c: PacketConfigurationRegister1) -> u32 {
    ((c.max_packet_length as u32) & 0xFF) | (((c.padded_packet_length as u32) & 0xFF) << 8) | (((
    c.base_address_length as u32) & 0xFF) << 16)
}

impl PacketConfigurationRegister1 {
    /// A configuration from its fields.
    pub fn new(max_packet_length: u8, padded_packet_length: u8, base_address_length: u8) -> (r:
        PacketConfigurationRegister1)
        ensures
            r == (PacketConfigurationRegister1 {
                max_packet_length,
                padded_packet_length,
                base_address_length,
            }),
    {
        PacketConfigurationRegister1 {
            max_packet_length,
            padded_packet_length,
            base_address_length,
        }
    }

    /// The configuration a register word holds.
    pub fn from_register(register: u32) -> (r: PacketConfigurationRegister1)
        ensures
            r.max_packet_length == register & 0xFF,
            r.padded_packet_length == (register >> 8) & 0xFF,
            r.base_address_length == (register >> 16) & 0xFF,
    {
        proof {
            assert(register & 0xFF < 256 && (register >> 8) & 0xFF < 256 && (register >> 16) & 0xFF
                < 256) by (bit_vector);
        }
        PacketConfigurationRegister1::new(
            (register & 0xFF) as u8,
            ((register >> 8) & 0xFF) as u8,
            ((register >> 16) & 0xFF) as u8,
        )
    }

    /// Packs the configuration into its register word.
    pub fn pack_into_register(&self) -> (r: u32)
        ensures
            r == spec_pack_pcnf1(*self),
    {
        ((self.max_packet_length as u32) & 0xFF) | (((self.padded_packet_length as u32) & 0xFF)
            << 8) | (((self.base_address_length as u32) & 0xFF) << 16)
    }
}

/// The transmitter output power, in decibel-milliwatts.
#[derive(Clone, Copy, PartialEq, Eq, Structural, Debug)]
pub enum TransmissionPower {
    Positive8dBm,
    Positive7dBm,
    Positive6dBm,
    Positive5dBm,
    Positive4dBm,
    Positive3dBm,
    Positive2dBm,
    ZerodBM,
    Negative4dBm,
    Negative8dBm,
    Negative12dBm,
    Negative16dBm,
    Negative20dBm,
    Negative30dBm,
    Negative40dBm,
}

/// The register value of a transmission power selection.
pub open spec fn spec_transmission_power_value(p: TransmissionPower) -> u32 {
    match p {
        TransmissionPower::Positive8dBm => 0x8,
        TransmissionPower::Positive7dBm => 0x7,
        TransmissionPower::Positive6dBm => 0x6,
        TransmissionPower::Positive5dBm => 0x5,
        TransmissionPower::Positive4dBm => 0x4,
        TransmissionPower::Positive3dBm => 0x3,
        TransmissionPower::Positive2dBm => 0x2,
        TransmissionPower::ZerodBM => 0x0,
        TransmissionPower::Negative4dBm => 0xFC,
        TransmissionPower::Negative8dBm => 0xF8,
        TransmissionPower::Negative12dBm => 0xF4,
        TransmissionPower::Negative16dBm => 0xF0,
        TransmissionPower::Negative20dBm => 0xEC,
        TransmissionPower::Negative30dBm => 0xE2,
        TransmissionPower::Negative40dBm => 0xD8,
    }
}

/// The register value of a transmission power selection.
pub fn transmission_power_value(p: TransmissionPower) -> (r: u32)
    ensures
        r == spec_transmission_power_value(p),
{
    match p {
        TransmissionPower::Positive8dBm => 0x8,
        TransmissionPower::Positive7dBm => 0x7,
        TransmissionPower::Positive6dBm => 0x6,
        TransmissionPower::Positive5dBm => 0x5,
        TransmissionPower::Positive4dBm => 0x4,
        TransmissionPower::Positive3dBm => 0x3,
        TransmissionPower::Positive2dBm => 0x2,
        TransmissionPower::ZerodBM => 0x0,
        TransmissionPower::Negative4dBm => 0xFC,
        TransmissionPower::Negative8dBm => 0xF8,
        TransmissionPower::Negative12dBm => 0xF4,
        TransmissionPower::Negative16dBm => 0xF0,
        TransmissionPower::Negative20dBm => 0xEC,
        TransmissionPower::Negative30dBm => 0xE2,
        TransmissionPower::Negative40dBm => 0xD8,
    }
}

/// The data rate and modulation of the radio.
#[derive(Clone, Copy, PartialEq, Eq, Structural, Debug)]
pub enum RadioMode {
    Nrf1Mbit,
    Nrf2Mbit,
    Ble1Mbit,
    Ble2Mbit,
    BleLR125kbit,
    BleLR500kbit,
    IEEE802154,
}

/// The register value of a radio mode selection.
pub open spec fn spec_radio_mode_value(m: RadioMode) -> u32 {
    match m {
        RadioMode::Nrf1Mbit => 0,
        RadioMode::Nrf2Mbit => 1,
        RadioMode::Ble1Mbit => 3,
        RadioMode::Ble2Mbit => 4,
        RadioMode::BleLR125kbit => 5,
        RadioMode::BleLR500kbit => 6,
        RadioMode::IEEE802154 => 15,
    }
}

/// The register value of a radio mode selection.
pub fn radio_mode_value(m: RadioMode) -> (r: u32)
    ensures
        r == spec_radio_mode_value(m),
{
    match m {
        RadioMode::Nrf1Mbit => 0,
        RadioMode::Nrf2Mbit => 1,
        RadioMode::Ble1Mbit => 3,
        RadioMode::Ble2Mbit => 4,
        RadioMode::BleLR125kbit => 5,
        RadioMode::BleLR500kbit => 6,
        RadioMode::IEEE802154 => 15,
    }
}

/// The states of the radio's hardware state machine, as its read-only
/// state register reports them.
#[derive(Clone, Copy, PartialEq, Eq, Structural, Debug)]
pub enum RadioState {
    Disabled,
    /// Ramping up to receive.
    RxRampUp,
    /// Ready to receive.
    RxIdle,
    /// Receiving.
    Rx,
    /// Disabling the receiver.
    RxDisable,
    /// Ramping up to transmit.
    TxRampUp,
    /// Ready to transmit.
    TxIdle,
    /// Transmitting.
    Tx,
    /// Disabling the transmitter.
    TxDisable,
}

/// The value the state register reports for each state.
pub open spec fn spec_radio_state_value(s: RadioState) -> u32 {
    match s {
        RadioState::Disabled => 0,
        RadioState::RxRampUp => 1,
        RadioState::RxIdle => 2,
        RadioState::Rx => 3,
        RadioState::RxDisable => 4,
        RadioState::TxRampUp => 9,
        RadioState::TxIdle => 10,
        RadioState::Tx => 11,
        RadioState::TxDisable => 12,
    }
}

/// The value the state register reports for each state.
pub fn radio_state_value(s: RadioState) -> (r: u32)
    ensures
        r == spec_radio_state_value(s),
{
    match s {
        RadioState::Disabled => 0,
        RadioState::RxRampUp => 1,
        RadioState::RxIdle => 2,
        RadioState::Rx => 3,
        RadioState::RxDisable => 4,
        RadioState::TxRampUp => 9,
        RadioState::TxIdle => 10,
        RadioState::Tx => 11,
        RadioState::TxDisable => 12,
    }
}

/// The frequency register encoding: frequencies from 2400 MHz up count
/// from a 2400 MHz base; lower ones count from 2360 MHz with the
/// base-select bit (bit 8) set.
pub open spec fn spec_frequency_register(frequency: u32) -> u32
    recommends
        2360 <= frequency <= 2500,
{
    if frequency < 2400 {
        ((frequency - 2360) as u32) | 0x100
    } else {
        (frequency - 2400) as u32
    }
}

/// Law: for 2360-2399 MHz the encoded register value has the base-select
/// bit set and its low seven bits hold the offset from 2360; for 2400-2500
/// MHz the bit is clear and the low bits hold the offset from 2400.
pub proof fn lemma_frequency_encoding(frequency: u32)
    ensures
        2360 <= frequency < 2400 ==> spec_frequency_register(frequency) & 0x100 != 0
            && spec_frequency_register(frequency) & 0x7F == frequency - 2360,
        2400 <= frequency <= 2500 ==> spec_frequency_register(frequency) & 0x100 == 0
            && spec_frequency_register(frequency) & 0x7F == frequency - 2400,
{
    if 2360 <= frequency && frequency < 2400 {
        let x = (frequency - 2360) as u32;
        assert(x < 0x80 ==> ((x | 0x100) & 0x100 != 0 && (x | 0x100) & 0x7F == x)) by (bit_vector);
    }
    if 2400 <= frequency && frequency <= 2500 {
        let x = (frequency - 2400) as u32;
        assert(x < 0x80 ==> (x & 0x100 == 0 && x & 0x7F == x)) by (bit_vector);
    }
}

/// Drives the radio peripheral through a register file: owns the backing
/// and the poll budget that bounds every busy-wait loop.
pub struct RadioDriver<R: RegisterFile> {
    pub backing: R,
    /// How many state-register polls a single wait may spend before the
    /// operation reports failure.
    pub poll_budget: u64,
}

impl<R: RegisterFile> RadioDriver<R> {
    /// Takes ownership of the register backing and raises the radio's
    /// maximum packet length to 255 bytes, leaving the rest of that
    /// configuration word as the hardware had it.
    pub fn new(backing: R, poll_budget: u64) -> (r: RadioDriver<R>)
        ensures
            r.poll_budget == poll_budget,
            r.backing.reg_val(RegisterId::PacketConfiguration1) & 0xFF == 255,
            forall|id: RegisterId|
                id != RegisterId::PacketConfiguration1 ==> r.backing.reg_val(id) == backing.reg_val(
                    id,
                ),
            r.backing.buffer() == backing.buffer(),
    {
        let mut driver = RadioDriver { backing, poll_budget };
        let current = driver.backing.read_register(RegisterId::PacketConfiguration1);
        let mut configuration = PacketConfigurationRegister1::from_register(current);
        configuration.max_packet_length = 255;
        let packed = configuration.pack_into_register();
        assert(packed & 0xFF == 255) by {
            let p = configuration.padded_packet_length as u32;
            let bb = configuration.base_address_length as u32;
            assert(((255u32 & 0xFF) | ((p & 0xFF) << 8) | ((bb & 0xFF) << 16)) & 0xFF == 255)
                by (bit_vector);
        };
        driver.backing.write_register(RegisterId::PacketConfiguration1, packed);
        driver
    }

    /// Selects the data rate and modulation.
    pub fn set_radio_mode(&mut self, mode: RadioMode)
        ensures
            final(self).poll_budget == old(self).poll_budget,
            final(self).backing.buffer() == old(self).backing.buffer(),
            forall|id: RegisterId|
                final(self).backing.reg_val(id) == (if id == RegisterId::Mode {
                    spec_radio_mode_value(mode)
                } else {
                    old(self).backing.reg_val(id)
                }),
    {
        let value = radio_mode_value(mode);
        self.backing.write_register(RegisterId::Mode, value);
    }

    /// Writes the on-air packet layout configuration.
    pub fn set_packet_format(&mut self, config: PacketConfigurationRegister0)
        ensures
            final(self).poll_budget == old(self).poll_budget,
            final(self).backing.buffer() == old(self).backing.buffer(),
            forall|id: RegisterId|
                final(self).backing.reg_val(id) == (if id == RegisterId::PacketConfiguration0 {
                    spec_pack_pcnf0(config)
                } else {
                    old(self).backing.reg_val(id)
                }),
    {
        let packed = config.pack_into_register();
        self.backing.write_register(RegisterId::PacketConfiguration0, packed);
    }

    /// Writes the CRC configuration: the CRC length in bytes (its low two
    /// bits), whether address bytes are skipped (bit 8), the polynomial,
    /// and a zero initial value.
    pub fn set_crc_configuration(&mut self, length: u8, skip_address: bool, polynomial: u32)
        ensures
            final(self).poll_budget == old(self).poll_budget,
            final(self).backing.buffer() == old(self).backing.buffer(),
            final(self).backing.reg_val(RegisterId::CrcConfiguration) == ((length as u32) & 0x3) | (
            (if skip_address {
                1u32
            } else {
                0u32
            }) << 8),
            final(self).backing.reg_val(RegisterId::CrcPolynomial) == polynomial,
            final(self).backing.reg_val(RegisterId::CrcInitialValue) == 0,
            forall|id: RegisterId|
                !(id == RegisterId::CrcConfiguration || id == RegisterId::CrcPolynomial || id
                    == RegisterId::CrcInitialValue) ==> final(self).backing.reg_val(id) == old(
                    self,
                ).backing.reg_val(id),
    {
        let skip: u32 = if skip_address {
            1
        } else {
            0
        };
        self.backing.write_register(
            RegisterId::CrcConfiguration,
            ((length as u32) & 0x3) | (skip << 8),
        );
        self.backing.write_register(RegisterId::CrcPolynomial, polynomial);
        self.backing.write_register(RegisterId::CrcInitialValue, 0);
    }

    /// Programs the channel frequency. Frequencies outside 2360-2500 MHz
    /// are rejected with a range error and nothing is written.
    pub fn set_frequency(&mut self, frequency: u32) -> (r: Result<(), ()>)
        ensures
            r is Ok <==> 2360 <= frequency <= 2500,
            r is Err ==> *final(self) == *old(self),
            r is Ok ==> {
                &&& final(self).poll_budget == old(self).poll_budget
                &&& final(self).backing.buffer() == old(self).backing.buffer()
                &&& forall|id: RegisterId|
                    final(self).backing.reg_val(id) == (if id == RegisterId::Frequency {
                        spec_frequency_register(frequency)
                    } else {
                        old(self).backing.reg_val(id)
                    })
            },
    {
        if frequency < 2360 || frequency > 2500 {
            return Err(());
        }
        let register: u32 = if frequency < 2400 {
            (frequency - 2360) | 0x100
        } else {
            frequency - 2400
        };
        self.backing.write_register(RegisterId::Frequency, register);
        Ok(())
    }

    /// Polls the state register until it reads `target`, spending at most
    /// the poll budget; reports whether the state was reached.
    fn wait_for_state(&mut self, target: u32) -> (reached: bool)
        ensures
            final(self).poll_budget == old(self).poll_budget,
            final(self).backing.buffer() == old(self).backing.buffer(),
            forall|id: RegisterId|
                final(self).backing.reg_val(id) == old(self).backing.reg_val(id),
    {
        let ghost pre = *self;
        let budget = self.poll_budget;
        let mut polls: u64 = 0;
        while polls < budget
            invariant
                pre == *old(self),
                self.poll_budget == pre.poll_budget,
                self.backing.buffer() == pre.backing.buffer(),
                forall|id: RegisterId| self.backing.reg_val(id) == pre.backing.reg_val(id),
            decreases budget - polls,
        {
            let state = self.backing.read_register(RegisterId::State);
            if state == target {
                return true;
            }
            polls = polls + 1;
        }
        false
    }

    /// Copies the length-prefixed packet into the radio's buffer, ramps the
    /// transmitter up if it is not already idle, starts the transmission
    /// and waits for it to finish; reports whether both waits saw the
    /// transmitter idle within the poll budget.
    pub fn write_packet_blocking(&mut self, packet: &[u8], on_air_length: u8) -> (completed: bool)
        ensures
            final(self).poll_budget == old(self).poll_budget,
            final(self).backing.buffer() == seq![on_air_length] + packet@,
            forall|id: RegisterId|
                !(id == RegisterId::Shortcuts || id == RegisterId::TaskTxEnable || id
                    == RegisterId::TaskStart) ==> final(self).backing.reg_val(id) == old(
                    self,
                ).backing.reg_val(id),
    {
        let mut buffer: Vec<u8> = Vec::new();
        buffer.push(on_air_length);
        buffer.extend_from_slice(packet);
        assert(buffer@ =~= seq![on_air_length] + packet@);
        self.backing.write_buffer(buffer.as_slice());
        self.backing.write_register(RegisterId::Shortcuts, 0);
        let tx_idle = radio_state_value(RadioState::TxIdle);
        let state = self.backing.read_register(RegisterId::State);
        if state != tx_idle {
            self.backing.write_register(RegisterId::TaskTxEnable, 1);
        }
        if !self.wait_for_state(tx_idle) {
            return false;
        }
        self.backing.write_register(RegisterId::TaskStart, 1);
        self.wait_for_state(tx_idle)
    }

    /// Ramps the receiver up if it is not already idle, starts a reception,
    /// waits for it to complete, and hands out the length-prefixed packet
    /// the radio left in the buffer; `None` when either wait exhausted the
    /// poll budget.
    pub fn read_packet_blocking(&mut self) -> (r: Option<Vec<u8>>)
        ensures
            final(self).poll_budget == old(self).poll_budget,
            forall|id: RegisterId|
                !(id == RegisterId::Shortcuts || id == RegisterId::TaskRxEnable || id
                    == RegisterId::TaskStart) ==> final(self).backing.reg_val(id) == old(
                    self,
                ).backing.reg_val(id),
            match r {
                Some(bytes) => bytes@ == final(self).backing.buffer(),
                None => final(self).backing.buffer() == old(self).backing.buffer(),
            },
    {
        self.backing.write_register(RegisterId::Shortcuts, 0);
        let rx_idle = radio_state_value(RadioState::RxIdle);
        let state = self.backing.read_register(RegisterId::State);
        if state != rx_idle {
            self.backing.write_register(RegisterId::TaskRxEnable, 1);
        }
        if !self.wait_for_state(rx_idle) {
            return None;
        }
        self.backing.write_register(RegisterId::TaskStart, 1);
        if !self.wait_for_state(rx_idle) {
            return None;
        }
        Some(self.backing.read_buffer())
    }
}

} // verus!
