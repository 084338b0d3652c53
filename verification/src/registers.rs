//! Typed access to the radio peripheral's registers and its single DMA
//! packet buffer, behind an interface so the driver logic above it can be
//! exercised without real hardware: one implementation here is backed by
//! plain memory; a hardware-backed one maps the peripheral's addresses.

use vstd::prelude::*;

use crate::wire::clone_bytes;

verus! {

/// The registers the driver works with: write-only task triggers, the
/// shortcut mask, configuration words, the read-only radio state, and the
/// two halves of the factory device-identity word.
#[derive(Clone, Copy, PartialEq, Eq, Structural, Debug)]
pub enum RegisterId {
    /// Starts the transmitter ramp-up.
    TaskTxEnable,
    /// Starts the receiver ramp-up.
    TaskRxEnable,
    /// Starts sending or receiving one packet.
    TaskStart,
    /// The mask of hardware task chains; this driver keeps it zero.
    Shortcuts,
    /// Channel frequency selection.
    Frequency,
    /// Data rate and modulation.
    Mode,
    /// On-air packet layout: length field, S0 and S1 fields, preamble.
    PacketConfiguration0,
    /// Maximum and padded packet length, base address length.
    PacketConfiguration1,
    /// CRC length and whether addresses are skipped.
    CrcConfiguration,
    /// The CRC polynomial.
    CrcPolynomial,
    /// The CRC initial value.
    CrcInitialValue,
    /// The hardware state machine's current state; read-only, driven by
    /// the radio itself.
    State,
    /// High half of the factory device identity; read-only.
    DeviceIdHigh,
    /// Low half of the factory device identity; read-only.
    DeviceIdLow,
}

/// Register-level access to the radio peripheral. The `reg_val` view holds
/// the last value software wrote to each register, and `buffer` the bytes
/// software last placed in, or found in, the packet buffer. Reads promise
/// nothing about the value they return: the hardware drives the state
/// register (and, through DMA, the packet buffer) on its own.
pub trait RegisterFile: Sized {
    /// The last value software wrote to each register. The default view is
    /// degenerate; an implementation meant for verified callers overrides
    /// it with its real state.
    open spec fn reg_val(&self, id: RegisterId) -> u32 {
        0
    }

    /// The bytes software last placed in, or found in, the packet buffer.
    /// The default view is degenerate, as for `reg_val`.
    open spec fn buffer(&self) -> Seq<u8> {
        Seq::empty()
    }

    /// Writes one register.
    fn write_register(&mut self, id: RegisterId, value: u32)
        ensures
            forall|r: RegisterId|
                final(self).reg_val(r) == (if r == id {
                    value
                } else {
                    old(self).reg_val(r)
                }),
            final(self).buffer() == old(self).buffer(),
    ;

    /// Reads one register. The result is whatever the hardware presents at
    /// this moment, so nothing ties it to an earlier write.
    fn read_register(&mut self, id: RegisterId) -> (value: u32)
        ensures
            forall|r: RegisterId| final(self).reg_val(r) == old(self).reg_val(r),
            final(self).buffer() == old(self).buffer(),
    ;

    /// Fills the packet buffer with the bytes to transmit.
    fn write_buffer(&mut self, bytes: &[u8])
        ensures
            final(self).buffer() == bytes@,
            forall|r: RegisterId| final(self).reg_val(r) == old(self).reg_val(r),
    ;

    /// Hands out the packet buffer as the radio's DMA left it; the view is
    /// brought up to date with what was found there, which a reception may
    /// have changed arbitrarily.
    fn read_buffer(&mut self) -> (bytes: Vec<u8>)
        ensures
            bytes@ == final(self).buffer(),
            forall|r: RegisterId| final(self).reg_val(r) == old(self).reg_val(r),
    ;
}

/// A register file backed by plain memory, for exercising the stack with
/// no radio present. Reads of the state register walk a script (its last
/// entry repeats once exhausted, and an empty script reads as zero), and
/// each buffer read hands out the next scripted incoming frame, so a test
/// can stage state transitions and traffic.
pub struct MemoryRegisterFile {
    pub task_tx_enable: u32,
    pub task_rx_enable: u32,
    pub task_start: u32,
    pub shortcuts: u32,
    pub frequency: u32,
    pub mode: u32,
    pub packet_configuration_0: u32,
    pub packet_configuration_1: u32,
    pub crc_configuration: u32,
    pub crc_polynomial: u32,
    pub crc_initial_value: u32,
    pub state: u32,
    pub device_id_high: u32,
    pub device_id_low: u32,
    /// Values the state register will present, one per read.
    pub state_script: Vec<u32>,
    pub state_script_pos: usize,
    /// Frames a reception will leave in the packet buffer, one per read.
    pub rx_frames: Vec<Vec<u8>>,
    pub rx_pos: usize,
    pub packet_buffer: Vec<u8>,
    /// How many times the packet buffer was read out.
    pub buffer_reads: u64,
}

impl MemoryRegisterFile {
    /// A register file whose device-identity registers read as given, with
    /// every other register zero and an empty packet buffer.
    pub fn new(
        device_id_high: u32,
        device_id_low: u32,
        state_script: Vec<u32>,
        rx_frames: Vec<Vec<u8>>,
    ) -> (r: MemoryRegisterFile)
        ensures
            r.reg_val(RegisterId::DeviceIdHigh) == device_id_high,
            r.reg_val(RegisterId::DeviceIdLow) == device_id_low,
            forall|id: RegisterId|
                !(id == RegisterId::DeviceIdHigh || id == RegisterId::DeviceIdLow) ==> r.reg_val(
                    id,
                ) == 0,
            r.buffer() == Seq::<u8>::empty(),
            r.buffer_reads == 0,
    {
        MemoryRegisterFile {
            task_tx_enable: 0,
            task_rx_enable: 0,
            task_start: 0,
            shortcuts: 0,
            frequency: 0,
            mode: 0,
            packet_configuration_0: 0,
            packet_configuration_1: 0,
            crc_configuration: 0,
            crc_polynomial: 0,
            crc_initial_value: 0,
            state: 0,
            device_id_high,
            device_id_low,
            state_script,
            state_script_pos: 0,
            rx_frames,
            rx_pos: 0,
            packet_buffer: Vec::new(),
            buffer_reads: 0,
        }
    }

    /// The last value written to a register, without touching the scripts.
    pub fn register_value(&self, id: RegisterId) -> (value: u32)
        ensures
            value == self.reg_val(id),
    {
        match id {
            RegisterId::TaskTxEnable => self.task_tx_enable,
            RegisterId::TaskRxEnable => self.task_rx_enable,
            RegisterId::TaskStart => self.task_start,
            RegisterId::Shortcuts => self.shortcuts,
            RegisterId::Frequency => self.frequency,
            RegisterId::Mode => self.mode,
            RegisterId::PacketConfiguration0 => self.packet_configuration_0,
            RegisterId::PacketConfiguration1 => self.packet_configuration_1,
            RegisterId::CrcConfiguration => self.crc_configuration,
            RegisterId::CrcPolynomial => self.crc_polynomial,
            RegisterId::CrcInitialValue => self.crc_initial_value,
            RegisterId::State => self.state,
            RegisterId::DeviceIdHigh => self.device_id_high,
            RegisterId::DeviceIdLow => self.device_id_low,
        }
    }
}

impl RegisterFile for MemoryRegisterFile {
    open spec fn reg_val(&self, id: RegisterId) -> u32 {
        match id {
            RegisterId::TaskTxEnable => self.task_tx_enable,
            RegisterId::TaskRxEnable => self.task_rx_enable,
            RegisterId::TaskStart => self.task_start,
            RegisterId::Shortcuts => self.shortcuts,
            RegisterId::Frequency => self.frequency,
            RegisterId::Mode => self.mode,
            RegisterId::PacketConfiguration0 => self.packet_configuration_0,
            RegisterId::PacketConfiguration1 => self.packet_configuration_1,
            RegisterId::CrcConfiguration => self.crc_configuration,
            RegisterId::CrcPolynomial => self.crc_polynomial,
            RegisterId::CrcInitialValue => self.crc_initial_value,
            RegisterId::State => self.state,
            RegisterId::DeviceIdHigh => self.device_id_high,
            RegisterId::DeviceIdLow => self.device_id_low,
        }
    }

    open spec fn buffer(&self) -> Seq<u8> {
        self.packet_buffer@
    }

    fn write_register(&mut self, id: RegisterId, value: u32) {
        match id {
            RegisterId::TaskTxEnable => {
                self.task_tx_enable = value;
            },
            RegisterId::TaskRxEnable => {
                self.task_rx_enable = value;
            },
            RegisterId::TaskStart => {
                self.task_start = value;
            },
            RegisterId::Shortcuts => {
                self.shortcuts = value;
            },
            RegisterId::Frequency => {
                self.frequency = value;
            },
            RegisterId::Mode => {
                self.mode = value;
            },
            RegisterId::PacketConfiguration0 => {
                self.packet_configuration_0 = value;
            },
            RegisterId::PacketConfiguration1 => {
                self.packet_configuration_1 = value;
            },
            RegisterId::CrcConfiguration => {
                self.crc_configuration = value;
            },
            RegisterId::CrcPolynomial => {
                self.crc_polynomial = value;
            },
            RegisterId::CrcInitialValue => {
                self.crc_initial_value = value;
            },
            RegisterId::State => {
                self.state = value;
            },
            RegisterId::DeviceIdHigh => {
                self.device_id_high = value;
            },
            RegisterId::DeviceIdLow => {
                self.device_id_low = value;
            },
        }
    }

    fn read_register(&mut self, id: RegisterId) -> (value: u32) {
        match id {
            RegisterId::State => {
                let v = if self.state_script_pos < self.state_script.len() {
                    self.state_script[self.state_script_pos]
                } else if self.state_script.len() > 0 {
                    self.state_script[self.state_script.len() - 1]
                } else {
                    0
                };
                if self.state_script_pos < self.state_script.len() {
                    self.state_script_pos = self.state_script_pos + 1;
                }
                v
            },
            _ => self.register_value(id),
        }
    }

    fn write_buffer(&mut self, bytes: &[u8]) {
        self.packet_buffer = clone_bytes(bytes);
    }

    fn read_buffer(&mut self) -> (bytes: Vec<u8>) {
        let frame = if self.rx_pos < self.rx_frames.len() {
            let f = clone_bytes(self.rx_frames[self.rx_pos].as_slice());
            self.rx_pos = self.rx_pos + 1;
            f
        } else if self.rx_frames.len() > 0 {
            clone_bytes(self.rx_frames[self.rx_frames.len() - 1].as_slice())
        } else {
            clone_bytes(self.packet_buffer.as_slice())
        };
        self.packet_buffer = clone_bytes(frame.as_slice());
        if self.buffer_reads < u64::MAX {
            self.buffer_reads = self.buffer_reads + 1;
        }
        frame
    }
}

} // verus!
