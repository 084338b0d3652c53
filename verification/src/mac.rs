//! IEEE 802.15.4 MAC frame codec: frame data model, the canonical byte
//! encoding (footer mode "none": the two CRC bytes are produced and checked
//! by the radio hardware and never appear in these buffers), and a decoder
//! that accepts exactly the canonical encodings.
//!
//! Field layout follows IEEE 802.15.4-2003: a 2-byte frame control word, a
//! 1-byte sequence number, addressing fields selected by the frame-control
//! addressing modes, then for command frames a command identifier and its
//! parameters, then the payload.

use vstd::prelude::*;

use crate::wire::le16_at;
use crate::wire::lemma_le16_round_trip;
use crate::wire::lemma_le64_round_trip;
use crate::wire::lemma_subrange_adjacent;
use crate::wire::le16_bytes;
use crate::wire::le64_at;
use crate::wire::le64_bytes;
use crate::wire::push_u16_le;
use crate::wire::push_u64_le;
use crate::wire::read_u16_le;
use crate::wire::read_u64_le;
use crate::wire::read_u8;
use crate::wire::ParseError;

verus! {

/// A MAC-level device address: absent, short (PAN id and 16-bit address) or
/// extended (PAN id and 64-bit address); absence is the `None` of an
/// `Option<MacAddress>`.
#[derive(Clone, Copy, PartialEq, Eq, Structural, Debug)]
pub enum MacAddress {
    Short(u16, u16),
    Extended(u16, u64),
}

/// The frame type held in bits 0-2 of the frame control word.
#[derive(Clone, Copy, PartialEq, Eq, Structural, Debug)]
pub enum MacFrameType {
    Beacon,
    Data,
    Acknowledgement,
    MacCommand,
}

/// The frame version held in bits 12-13 of the frame control word.
#[derive(Clone, Copy, PartialEq, Eq, Structural, Debug)]
pub enum FrameVersion {
    Ieee802154_2003,
    Ieee802154_2006,
    Ieee802154,
}

/// The capability bitmap carried by an association request.
#[derive(Clone, Copy, PartialEq, Eq, Structural, Debug)]
pub struct CapabilityInformation {
    pub full_function_device: bool,
    pub mains_power: bool,
    pub allocate_address: bool,
    pub frame_protection: bool,
    pub idle_receive: bool,
}

/// The recognized MAC command frames.
#[derive(Clone, Copy, PartialEq, Eq, Structural, Debug)]
pub enum MacCommand {
    BeaconRequest,
    AssociationRequest(CapabilityInformation),
    /// Short address assigned by the coordinator, and the raw status byte of
    /// its decision (zero means success).
    AssociationResponse(u16, u8),
    DataRequest,
}

/// What a frame carries beyond its header: nothing structured (data and
/// acknowledgement frames) or a recognized command.
#[derive(Clone, Copy, PartialEq, Eq, Structural, Debug)]
pub enum FrameContent {
    Data,
    Command(MacCommand),
    Acknowledgement,
}

/// The fields of the frame control word plus the sequence number and the
/// two addresses.
#[derive(Clone, Copy, PartialEq, Debug)]
pub struct MacHeader {
    pub frame_type: MacFrameType,
    /// Auxiliary security headers are not supported; the decoder rejects
    /// frames with this bit set, so a decoded header always has `false` here.
    pub security: bool,
    pub frame_pending: bool,
    pub ack_request: bool,
    pub pan_id_compress: bool,
    pub seq_no_suppress: bool,
    pub ie_present: bool,
    pub version: FrameVersion,
    pub seq: u8,
    pub destination: Option<MacAddress>,
    pub source: Option<MacAddress>,
}

/// A decoded MAC frame. The footer is a placeholder: with footer mode
/// "none" the CRC lives only in the hardware and the field carries no
/// information.
#[derive(Clone, PartialEq, Debug)]
pub struct MacFrame {
    pub header: MacHeader,
    pub content: FrameContent,
    pub payload: Vec<u8>,
    pub footer: [u8; 2],
}

/// The mathematical model of a MAC frame: the header and content as plain
/// data, the payload as a byte sequence. The footer is not modelled, since
/// it never reaches the wire.
pub ghost struct FrameModel {
    pub header: MacHeader,
    pub content: FrameContent,
    pub payload: Seq<u8>,
}

impl View for MacFrame {
    type V = FrameModel;

    open spec fn view(&self) -> FrameModel {
        FrameModel { header: self.header, content: self.content, payload: self.payload@ }
    }
}

/// Bits 0-2 of the frame control word for a frame type.
pub open spec fn spec_frame_type_bits(t: MacFrameType) -> u16 {
    match t {
        MacFrameType::Beacon => 0,
        MacFrameType::Data => 1,
        MacFrameType::Acknowledgement => 2,
        MacFrameType::MacCommand => 3,
    }
}

/// The frame type for bits 0-2 of the frame control word; values above 3
/// are reserved.
pub open spec fn spec_frame_type_of(bits: u16) -> Option<MacFrameType> {
    if bits == 0 {
        Some(MacFrameType::Beacon)
    } else if bits == 1 {
        Some(MacFrameType::Data)
    } else if bits == 2 {
        Some(MacFrameType::Acknowledgement)
    } else if bits == 3 {
        Some(MacFrameType::MacCommand)
    } else {
        None
    }
}

/// Bits 12-13 of the frame control word for a frame version.
pub open spec fn spec_version_bits(v: FrameVersion) -> u16 {
    match v {
        FrameVersion::Ieee802154_2003 => 0,
        FrameVersion::Ieee802154_2006 => 1,
        FrameVersion::Ieee802154 => 2,
    }
}

/// The frame version for bits 12-13 of the frame control word; 3 is
/// reserved.
pub open spec fn spec_version_of(bits: u16) -> Option<FrameVersion> {
    if bits == 0 {
        Some(FrameVersion::Ieee802154_2003)
    } else if bits == 1 {
        Some(FrameVersion::Ieee802154_2006)
    } else if bits == 2 {
        Some(FrameVersion::Ieee802154)
    } else {
        None
    }
}

/// The addressing mode an address encodes as: 0 absent, 2 short, 3
/// extended (mode 1 is reserved).
pub open spec fn spec_addr_mode_bits(a: Option<MacAddress>) -> u16 {
    match a {
        None => 0,
        Some(MacAddress::Short(_, _)) => 2,
        Some(MacAddress::Extended(_, _)) => 3,
    }
}

/// The PAN identifier of an address, when one is present.
pub open spec fn spec_pan_of(a: Option<MacAddress>) -> Option<u16> {
    match a {
        None => None,
        Some(MacAddress::Short(pan, _)) => Some(pan),
        Some(MacAddress::Extended(pan, _)) => Some(pan),
    }
}

/// The capability bitmap byte of an association request: bit 1 device type,
/// bit 2 power source, bit 3 receiver on when idle, bit 6 security
/// capability, bit 7 allocate address.
pub open spec fn spec_capability_byte(c: CapabilityInformation) -> u8 {
    (if c.full_function_device {
        0x02u8
    } else {
        0u8
    }) | (if c.mains_power {
        0x04u8
    } else {
        0u8
    }) | (if c.idle_receive {
        0x08u8
    } else {
        0u8
    }) | (if c.frame_protection {
        0x40u8
    } else {
        0u8
    }) | (if c.allocate_address {
        0x80u8
    } else {
        0u8
    })
}

/// The capability bitmap decoded from its byte; bits 0, 4 and 5 are
/// reserved and must be clear.
pub open spec fn spec_capability_of(v: u8) -> Option<CapabilityInformation> {
    if v & 0x31 != 0 {
        None
    } else {
        Some(
            CapabilityInformation {
                full_function_device: (v >> 1) & 1 == 1,
                mains_power: (v >> 2) & 1 == 1,
                allocate_address: (v >> 7) & 1 == 1,
                frame_protection: (v >> 6) & 1 == 1,
                idle_receive: (v >> 3) & 1 == 1,
            },
        )
    }
}

/// The 16-bit frame control word of a header.
pub open spec fn spec_frame_control(h: MacHeader) -> u16 {
    spec_frame_type_bits(h.frame_type) | (if h.security {
        0x8u16
    } else {
        0u16
    }) | (if h.frame_pending {
        0x10u16
    } else {
        0u16
    }) | (if h.ack_request {
        0x20u16
    } else {
        0u16
    }) | (if h.pan_id_compress {
        0x40u16
    } else {
        0u16
    }) | (if h.seq_no_suppress {
        0x100u16
    } else {
        0u16
    }) | (if h.ie_present {
        0x200u16
    } else {
        0u16
    }) | (spec_addr_mode_bits(h.destination) << 10) | (spec_version_bits(h.version) << 12) | (
    spec_addr_mode_bits(h.source) << 14)
}

/// The bytes of the destination addressing fields: PAN id then address.
pub open spec fn spec_encode_dest(h: MacHeader) -> Seq<u8> {
    match h.destination {
        None => Seq::empty(),
        Some(MacAddress::Short(pan, addr)) => le16_bytes(pan) + le16_bytes(addr),
        Some(MacAddress::Extended(pan, addr)) => le16_bytes(pan) + le64_bytes(addr),
    }
}

/// The bytes of the source addressing fields; with PAN id compression the
/// source PAN id is omitted (it is the destination's).
pub open spec fn spec_encode_src(h: MacHeader) -> Seq<u8> {
    match h.source {
        None => Seq::empty(),
        Some(MacAddress::Short(pan, addr)) => (if h.pan_id_compress {
            Seq::empty()
        } else {
            le16_bytes(pan)
        }) + le16_bytes(addr),
        Some(MacAddress::Extended(pan, addr)) => (if h.pan_id_compress {
            Seq::empty()
        } else {
            le16_bytes(pan)
        }) + le64_bytes(addr),
    }
}

/// The bytes of the content: empty for data and acknowledgement frames, a
/// command identifier and its parameters for command frames.
pub open spec fn spec_encode_content(c: FrameContent) -> Seq<u8> {
    match c {
        FrameContent::Data => Seq::empty(),
        FrameContent::Acknowledgement => Seq::empty(),
        FrameContent::Command(cmd) => match cmd {
            MacCommand::BeaconRequest => seq![0x07u8],
            MacCommand::AssociationRequest(cap) => seq![0x01u8, spec_capability_byte(cap)],
            MacCommand::AssociationResponse(addr, status) => seq![0x02u8] + le16_bytes(addr)
                + seq![status],
            MacCommand::DataRequest => seq![0x04u8],
        },
    }
}

/// The canonical byte encoding of a frame: frame control, sequence number,
/// addressing, content, payload.
pub open spec fn spec_encode_frame(f: FrameModel) -> Seq<u8> {
    le16_bytes(spec_frame_control(f.header)) + seq![f.header.seq] + spec_encode_dest(f.header)
        + spec_encode_src(f.header) + spec_encode_content(f.content) + f.payload
}

/// Decodes the destination addressing fields at `off` under the given
/// addressing mode, yielding the address and the offset after it.
pub open spec fn spec_decode_dest(b: Seq<u8>, off: int, mode: u16) -> Option<
    (Option<MacAddress>, int),
> {
    if mode == 0 {
        Some((None, off))
    } else if mode == 2 {
        if off + 4 <= b.len() {
            Some((Some(MacAddress::Short(le16_at(b, off), le16_at(b, off + 2))), off + 4))
        } else {
            None
        }
    } else if mode == 3 {
        if off + 10 <= b.len() {
            Some((Some(MacAddress::Extended(le16_at(b, off), le64_at(b, off + 2))), off + 10))
        } else {
            None
        }
    } else {
        None
    }
}

/// Decodes the source addressing fields at `off`. With PAN id compression
/// the source PAN id is taken from the destination, which must then be
/// present.
pub open spec fn spec_decode_src(
    b: Seq<u8>,
    off: int,
    mode: u16,
    compress: bool,
    dest: Option<MacAddress>,
) -> Option<(Option<MacAddress>, int)> {
    if mode == 0 {
        Some((None, off))
    } else if mode == 2 {
        if compress {
            match spec_pan_of(dest) {
                None => None,
                Some(pan) => if off + 2 <= b.len() {
                    Some((Some(MacAddress::Short(pan, le16_at(b, off))), off + 2))
                } else {
                    None
                },
            }
        } else {
            if off + 4 <= b.len() {
                Some((Some(MacAddress::Short(le16_at(b, off), le16_at(b, off + 2))), off + 4))
            } else {
                None
            }
        }
    } else if mode == 3 {
        if compress {
            match spec_pan_of(dest) {
                None => None,
                Some(pan) => if off + 8 <= b.len() {
                    Some((Some(MacAddress::Extended(pan, le64_at(b, off))), off + 8))
                } else {
                    None
                },
            }
        } else {
            if off + 10 <= b.len() {
                Some((Some(MacAddress::Extended(le16_at(b, off), le64_at(b, off + 2))), off + 10))
            } else {
                None
            }
        }
    } else {
        None
    }
}

/// Decodes the content at `off` for the given frame type, yielding the
/// content and the offset after it. Beacon frames carry structured beacon
/// data this engine never consumes, so they are rejected here.
pub open spec fn spec_decode_content(b: Seq<u8>, off: int, ft: MacFrameType) -> Option<
    (FrameContent, int),
> {
    match ft {
        MacFrameType::Beacon => None,
        MacFrameType::Data => Some((FrameContent::Data, off)),
        MacFrameType::Acknowledgement => Some((FrameContent::Acknowledgement, off)),
        MacFrameType::MacCommand => if off + 1 <= b.len() {
            let id = b[off];
            if id == 0x07 {
                Some((FrameContent::Command(MacCommand::BeaconRequest), off + 1))
            } else if id == 0x01 {
                if off + 2 <= b.len() {
                    match spec_capability_of(b[off + 1]) {
                        None => None,
                        Some(cap) => Some(
                            (FrameContent::Command(MacCommand::AssociationRequest(cap)), off + 2),
                        ),
                    }
                } else {
                    None
                }
            } else if id == 0x02 {
                if off + 4 <= b.len() {
                    Some(
                        (
                            FrameContent::Command(
                                MacCommand::AssociationResponse(le16_at(b, off + 1), b[off + 3]),
                            ),
                            off + 4,
                        ),
                    )
                } else {
                    None
                }
            } else if id == 0x04 {
                Some((FrameContent::Command(MacCommand::DataRequest), off + 1))
            } else {
                None
            }
        } else {
            None
        },
    }
}

/// Decodes a whole frame, accepting exactly the canonical encodings:
/// reserved frame-control bits must be clear, reserved enumeration values
/// and unrecognized command identifiers are rejected, and whatever follows
/// the content becomes the payload.
pub open spec fn spec_decode_frame(b: Seq<u8>) -> Option<FrameModel> {
    if b.len() < 3 {
        None
    } else {
        let fc = le16_at(b, 0);
        if (fc >> 3) & 1 == 1 {
            // a frame with an auxiliary security header is not supported
            None
        } else if (fc >> 7) & 1 == 1 {
            // reserved bit
            None
        } else {
            match (spec_frame_type_of(fc & 0x7), spec_version_of((fc >> 12) & 0x3)) {
                (Some(frame_type), Some(version)) => {
                    let compress = (fc >> 6) & 1 == 1;
                    match spec_decode_dest(b, 3, (fc >> 10) & 0x3) {
                        None => None,
                        Some((dest, off1)) => match spec_decode_src(
                            b,
                            off1,
                            (fc >> 14) & 0x3,
                            compress,
                            dest,
                        ) {
                            None => None,
                            Some((src, off2)) => match spec_decode_content(b, off2, frame_type) {
                                None => None,
                                Some((content, off3)) => Some(
                                    FrameModel {
                                        header: MacHeader {
                                            frame_type,
                                            security: false,
                                            frame_pending: (fc >> 4) & 1 == 1,
                                            ack_request: (fc >> 5) & 1 == 1,
                                            pan_id_compress: compress,
                                            seq_no_suppress: (fc >> 8) & 1 == 1,
                                            ie_present: (fc >> 9) & 1 == 1,
                                            version,
                                            seq: b[2],
                                            destination: dest,
                                            source: src,
                                        },
                                        content,
                                        payload: b.subrange(off3, b.len() as int),
                                    },
                                ),
                            },
                        },
                    }
                },
                _ => None,
            }
        }
    }
}

/// Bits 0-2 of the frame control word for a frame type.
pub fn frame_type_bits(t: MacFrameType) -> (r: u16)
    ensures
        r == spec_frame_type_bits(t),
{
    match t {
        MacFrameType::Beacon => 0,
        MacFrameType::Data => 1,
        MacFrameType::Acknowledgement => 2,
        MacFrameType::MacCommand => 3,
    }
}

/// Bits 12-13 of the frame control word for a frame version.
pub fn version_bits(v: FrameVersion) -> (r: u16)
    ensures
        r == spec_version_bits(v),
{
    match v {
        FrameVersion::Ieee802154_2003 => 0,
        FrameVersion::Ieee802154_2006 => 1,
        FrameVersion::Ieee802154 => 2,
    }
}

/// The addressing mode an address encodes as.
pub fn addr_mode_bits(a: &Option<MacAddress>) -> (r: u16)
    ensures
        r == spec_addr_mode_bits(*a),
{
    match a {
        None => 0,
        Some(MacAddress::Short(_, _)) => 2,
        Some(MacAddress::Extended(_, _)) => 3,
    }
}

/// The capability bitmap byte of an association request.
pub fn capability_byte(c: &CapabilityInformation) -> (r: u8)
    ensures
        r == spec_capability_byte(*c),
{
    (if c.full_function_device {
        0x02u8
    } else {
        0u8
    }) | (if c.mains_power {
        0x04u8
    } else {
        0u8
    }) | (if c.idle_receive {
        0x08u8
    } else {
        0u8
    }) | (if c.frame_protection {
        0x40u8
    } else {
        0u8
    }) | (if c.allocate_address {
        0x80u8
    } else {
        0u8
    })
}

/// The 16-bit frame control word of a header.
pub fn frame_control_word(h: &MacHeader) -> (r: u16)
    ensures
        r == spec_frame_control(*h),
{
    let ft = frame_type_bits(h.frame_type);
    let sec: u16 = if h.security {
        0x8
    } else {
        0
    };
    let pend: u16 = if h.frame_pending {
        0x10
    } else {
        0
    };
    let ack: u16 = if h.ack_request {
        0x20
    } else {
        0
    };
    let comp: u16 = if h.pan_id_compress {
        0x40
    } else {
        0
    };
    let sns: u16 = if h.seq_no_suppress {
        0x100
    } else {
        0
    };
    let ie: u16 = if h.ie_present {
        0x200
    } else {
        0
    };
    let dm = addr_mode_bits(&h.destination);
    let vb = version_bits(h.version);
    let sm = addr_mode_bits(&h.source);
    ft | sec | pend | ack | comp | sns | ie | (dm << 10) | (vb << 12) | (sm << 14)
}

/// Encodes a frame into its canonical bytes.
pub fn encode(frame: &MacFrame) -> (r: Vec<u8>)
    ensures
        r@ == spec_encode_frame(frame@),
{
    let mut out: Vec<u8> = Vec::new();
    let fc = frame_control_word(&frame.header);
    push_u16_le(&mut out, fc);
    out.push(frame.header.seq);
    assert(out@ =~= le16_bytes(spec_frame_control(frame@.header)) + seq![frame@.header.seq]);
    let ghost prefix1 = out@;
    match &frame.header.destination {
        None => {},
        Some(MacAddress::Short(pan, addr)) => {
            push_u16_le(&mut out, *pan);
            push_u16_le(&mut out, *addr);
        },
        Some(MacAddress::Extended(pan, addr)) => {
            push_u16_le(&mut out, *pan);
            push_u64_le(&mut out, *addr);
        },
    }
    assert(out@ =~= prefix1 + spec_encode_dest(frame@.header));
    let ghost prefix2 = out@;
    match &frame.header.source {
        None => {},
        Some(MacAddress::Short(pan, addr)) => {
            if !frame.header.pan_id_compress {
                push_u16_le(&mut out, *pan);
            }
            push_u16_le(&mut out, *addr);
        },
        Some(MacAddress::Extended(pan, addr)) => {
            if !frame.header.pan_id_compress {
                push_u16_le(&mut out, *pan);
            }
            push_u64_le(&mut out, *addr);
        },
    }
    assert(out@ =~= prefix2 + spec_encode_src(frame@.header));
    let ghost prefix3 = out@;
    match &frame.content {
        FrameContent::Data => {},
        FrameContent::Acknowledgement => {},
        FrameContent::Command(cmd) => match cmd {
            MacCommand::BeaconRequest => {
                out.push(0x07);
            },
            MacCommand::AssociationRequest(cap) => {
                out.push(0x01);
                out.push(capability_byte(cap));
            },
            MacCommand::AssociationResponse(addr, status) => {
                out.push(0x02);
                push_u16_le(&mut out, *addr);
                out.push(*status);
            },
            MacCommand::DataRequest => {
                out.push(0x04);
            },
        },
    }
    assert(out@ =~= prefix3 + spec_encode_content(frame@.content));
    out.extend_from_slice(frame.payload.as_slice());
    assert(out@ =~= spec_encode_frame(frame@));
    out
}

/// The frame type for bits 0-2 of the frame control word.
pub fn frame_type_of(bits: u16) -> (r: Option<MacFrameType>)
    ensures
        r == spec_frame_type_of(bits),
{
    if bits == 0 {
        Some(MacFrameType::Beacon)
    } else if bits == 1 {
        Some(MacFrameType::Data)
    } else if bits == 2 {
        Some(MacFrameType::Acknowledgement)
    } else if bits == 3 {
        Some(MacFrameType::MacCommand)
    } else {
        None
    }
}

/// The frame version for bits 12-13 of the frame control word.
pub fn version_of(bits: u16) -> (r: Option<FrameVersion>)
    ensures
        r == spec_version_of(bits),
{
    if bits == 0 {
        Some(FrameVersion::Ieee802154_2003)
    } else if bits == 1 {
        Some(FrameVersion::Ieee802154_2006)
    } else if bits == 2 {
        Some(FrameVersion::Ieee802154)
    } else {
        None
    }
}

/// The capability bitmap decoded from its byte.
pub fn capability_of(v: u8) -> (r: Option<CapabilityInformation>)
    ensures
        r == spec_capability_of(v),
{
    if v & 0x31 != 0 {
        None
    } else {
        Some(
            CapabilityInformation {
                full_function_device: (v >> 1) & 1 == 1,
                mains_power: (v >> 2) & 1 == 1,
                allocate_address: (v >> 7) & 1 == 1,
                frame_protection: (v >> 6) & 1 == 1,
                idle_receive: (v >> 3) & 1 == 1,
            },
        )
    }
}

fn decode_dest(bytes: &[u8], offset: &mut usize, mode: u16) -> (r: Result<
    Option<MacAddress>,
    ParseError,
>)
    requires
        *old(offset) <= bytes@.len(),
    ensures
        match r {
            Ok(a) => spec_decode_dest(bytes@, *old(offset) as int, mode) == Some(
                (a, *final(offset) as int),
            ) && *final(offset) <= bytes@.len(),
            Err(_) => spec_decode_dest(bytes@, *old(offset) as int, mode) is None,
        },
{
    if mode == 0 {
        Ok(None)
    } else if mode == 2 {
        let pan = match read_u16_le(bytes, offset) {
            Ok(v) => v,
            Err(e) => {
                return Err(e);
            },
        };
        let addr = match read_u16_le(bytes, offset) {
            Ok(v) => v,
            Err(e) => {
                return Err(e);
            },
        };
        Ok(Some(MacAddress::Short(pan, addr)))
    } else if mode == 3 {
        let pan = match read_u16_le(bytes, offset) {
            Ok(v) => v,
            Err(e) => {
                return Err(e);
            },
        };
        let addr = match read_u64_le(bytes, offset) {
            Ok(v) => v,
            Err(e) => {
                return Err(e);
            },
        };
        Ok(Some(MacAddress::Extended(pan, addr)))
    } else {
        Err(ParseError)
    }
}

fn decode_src(
    bytes: &[u8],
    offset: &mut usize,
    mode: u16,
    compress: bool,
    dest: Option<MacAddress>,
) -> (r: Result<Option<MacAddress>, ParseError>)
    requires
        *old(offset) <= bytes@.len(),
    ensures
        match r {
            Ok(a) => spec_decode_src(bytes@, *old(offset) as int, mode, compress, dest) == Some(
                (a, *final(offset) as int),
            ) && *final(offset) <= bytes@.len(),
            Err(_) => spec_decode_src(bytes@, *old(offset) as int, mode, compress, dest) is None,
        },
{
    if mode == 0 {
        Ok(None)
    } else if mode == 2 {
        let pan = if compress {
            match dest {
                None => {
                    return Err(ParseError);
                },
                Some(MacAddress::Short(pan, _)) => pan,
                Some(MacAddress::Extended(pan, _)) => pan,
            }
        } else {
            match read_u16_le(bytes, offset) {
                Ok(v) => v,
                Err(e) => {
                    return Err(e);
                },
            }
        };
        let addr = match read_u16_le(bytes, offset) {
            Ok(v) => v,
            Err(e) => {
                return Err(e);
            },
        };
        Ok(Some(MacAddress::Short(pan, addr)))
    } else if mode == 3 {
        let pan = if compress {
            match dest {
                None => {
                    return Err(ParseError);
                },
                Some(MacAddress::Short(pan, _)) => pan,
                Some(MacAddress::Extended(pan, _)) => pan,
            }
        } else {
            match read_u16_le(bytes, offset) {
                Ok(v) => v,
                Err(e) => {
                    return Err(e);
                },
            }
        };
        let addr = match read_u64_le(bytes, offset) {
            Ok(v) => v,
            Err(e) => {
                return Err(e);
            },
        };
        Ok(Some(MacAddress::Extended(pan, addr)))
    } else {
        Err(ParseError)
    }
}

fn decode_content(bytes: &[u8], offset: &mut usize, ft: MacFrameType) -> (r: Result<
    FrameContent,
    ParseError,
>)
    requires
        *old(offset) <= bytes@.len(),
    ensures
        match r {
            Ok(c) => spec_decode_content(bytes@, *old(offset) as int, ft) == Some(
                (c, *final(offset) as int),
            ) && *final(offset) <= bytes@.len(),
            Err(_) => spec_decode_content(bytes@, *old(offset) as int, ft) is None,
        },
{
    match ft {
        MacFrameType::Beacon => Err(ParseError),
        MacFrameType::Data => Ok(FrameContent::Data),
        MacFrameType::Acknowledgement => Ok(FrameContent::Acknowledgement),
        MacFrameType::MacCommand => {
            let id = match read_u8(bytes, offset) {
                Ok(v) => v,
                Err(e) => {
                    return Err(e);
                },
            };
            if id == 0x07 {
                Ok(FrameContent::Command(MacCommand::BeaconRequest))
            } else if id == 0x01 {
                let cap_bits = match read_u8(bytes, offset) {
                    Ok(v) => v,
                    Err(e) => {
                        return Err(e);
                    },
                };
                match capability_of(cap_bits) {
                    Some(cap) => Ok(FrameContent::Command(MacCommand::AssociationRequest(cap))),
                    None => Err(ParseError),
                }
            } else if id == 0x02 {
                let addr = match read_u16_le(bytes, offset) {
                    Ok(v) => v,
                    Err(e) => {
                        return Err(e);
                    },
                };
                let status = match read_u8(bytes, offset) {
                    Ok(v) => v,
                    Err(e) => {
                        return Err(e);
                    },
                };
                Ok(FrameContent::Command(MacCommand::AssociationResponse(addr, status)))
            } else if id == 0x04 {
                Ok(FrameContent::Command(MacCommand::DataRequest))
            } else {
                Err(ParseError)
            }
        },
    }
}

/// Decodes a frame from its bytes, accepting exactly the canonical
/// encodings; the second result is the number of bytes consumed, which is
/// the whole input since the payload runs to its end. Any malformed or
/// truncated input yields the one undifferentiated `ParseError`.
pub fn decode(bytes: &[u8]) -> (r: Result<(MacFrame, usize), ParseError>)
    ensures
        match r {
            Ok(p) => spec_decode_frame(bytes@) == Some(p.0@) && p.1 == bytes@.len(),
            Err(_) => spec_decode_frame(bytes@) is None,
        },
{
    let mut offset: usize = 0;
    let fc = match read_u16_le(bytes, &mut offset) {
        Ok(v) => v,
        Err(e) => {
            return Err(e);
        },
    };
    let seq = match read_u8(bytes, &mut offset) {
        Ok(v) => v,
        Err(e) => {
            return Err(e);
        },
    };
    if (fc >> 3) & 1 == 1 {
        return Err(ParseError);
    }
    if (fc >> 7) & 1 == 1 {
        return Err(ParseError);
    }
    let frame_type = match frame_type_of(fc & 0x7) {
        Some(t) => t,
        None => {
            return Err(ParseError);
        },
    };
    let version = match version_of((fc >> 12) & 0x3) {
        Some(v) => v,
        None => {
            return Err(ParseError);
        },
    };
    let compress = (fc >> 6) & 1 == 1;
    let dest = match decode_dest(bytes, &mut offset, (fc >> 10) & 0x3) {
        Ok(d) => d,
        Err(e) => {
            return Err(e);
        },
    };
    let src = match decode_src(bytes, &mut offset, (fc >> 14) & 0x3, compress, dest) {
        Ok(s) => s,
        Err(e) => {
            return Err(e);
        },
    };
    let content = match decode_content(bytes, &mut offset, frame_type) {
        Ok(c) => c,
        Err(e) => {
            return Err(e);
        },
    };
    let tail = vstd::slice::slice_subrange(bytes, offset, bytes.len());
    let payload = crate::wire::clone_bytes(tail);
    let frame = MacFrame {
        header: MacHeader {
            frame_type,
            security: false,
            frame_pending: (fc >> 4) & 1 == 1,
            ack_request: (fc >> 5) & 1 == 1,
            pan_id_compress: compress,
            seq_no_suppress: (fc >> 8) & 1 == 1,
            ie_present: (fc >> 9) & 1 == 1,
            version,
            seq,
            destination: dest,
            source: src,
        },
        content,
        payload,
        footer: [0, 0],
    };
    Ok((frame, bytes.len()))
}

/// The beacon request frame: a broadcast MAC command asking coordinators
/// in range to identify themselves.
pub open spec fn spec_beacon_request_frame(seq: u8) -> FrameModel {
    FrameModel {
        header: MacHeader {
            frame_type: MacFrameType::MacCommand,
            security: false,
            frame_pending: false,
            ack_request: false,
            pan_id_compress: false,
            seq_no_suppress: false,
            ie_present: false,
            version: FrameVersion::Ieee802154_2003,
            seq,
            destination: Some(MacAddress::Short(0xffff, 0xffff)),
            source: None,
        },
        content: FrameContent::Command(MacCommand::BeaconRequest),
        payload: Seq::empty(),
    }
}

/// The association request frame: sent with acknowledgement requested from
/// the broadcast source PAN, carrying the device's capabilities.
pub open spec fn spec_association_request_frame(
    src_extended: u64,
    dst_pan: u16,
    dst_short: u16,
    seq: u8,
    capabilities: CapabilityInformation,
) -> FrameModel {
    FrameModel {
        header: MacHeader {
            frame_type: MacFrameType::MacCommand,
            security: false,
            frame_pending: false,
            ack_request: true,
            pan_id_compress: false,
            seq_no_suppress: false,
            ie_present: false,
            version: FrameVersion::Ieee802154_2003,
            seq,
            destination: Some(MacAddress::Short(dst_pan, dst_short)),
            source: Some(MacAddress::Extended(0xffff, src_extended)),
        },
        content: FrameContent::Command(MacCommand::AssociationRequest(capabilities)),
        payload: Seq::empty(),
    }
}

/// The data request frame: sent with acknowledgement requested and the PAN
/// id compressed, polling the coordinator for pending data.
pub open spec fn spec_data_request_frame(
    src_pan: u16,
    src_extended: u64,
    dst_pan: u16,
    dst_short: u16,
    seq: u8,
) -> FrameModel {
    FrameModel {
        header: MacHeader {
            frame_type: MacFrameType::MacCommand,
            security: false,
            frame_pending: false,
            ack_request: true,
            pan_id_compress: true,
            seq_no_suppress: false,
            ie_present: false,
            version: FrameVersion::Ieee802154_2003,
            seq,
            destination: Some(MacAddress::Short(dst_pan, dst_short)),
            source: Some(MacAddress::Extended(src_pan, src_extended)),
        },
        content: FrameContent::Command(MacCommand::DataRequest),
        payload: Seq::empty(),
    }
}

/// The acknowledgement frame: no addressing, echoing a sequence number.
pub open spec fn spec_ack_frame(seq: u8) -> FrameModel {
    FrameModel {
        header: MacHeader {
            frame_type: MacFrameType::Acknowledgement,
            security: false,
            frame_pending: false,
            ack_request: false,
            pan_id_compress: false,
            seq_no_suppress: false,
            ie_present: false,
            version: FrameVersion::Ieee802154_2003,
            seq,
            destination: None,
            source: None,
        },
        content: FrameContent::Acknowledgement,
        payload: Seq::empty(),
    }
}

/// Encodes a beacon request with the given sequence number.
pub fn encode_beacon_request(seq: u8) -> (r: Vec<u8>)
    ensures
        r@ == spec_encode_frame(spec_beacon_request_frame(seq)),
{
    let frame = MacFrame {
        header: MacHeader {
            frame_type: MacFrameType::MacCommand,
            security: false,
            frame_pending: false,
            ack_request: false,
            pan_id_compress: false,
            seq_no_suppress: false,
            ie_present: false,
            version: FrameVersion::Ieee802154_2003,
            seq,
            destination: Some(MacAddress::Short(0xffff, 0xffff)),
            source: None,
        },
        content: FrameContent::Command(MacCommand::BeaconRequest),
        payload: Vec::new(),
        footer: [0, 0],
    };
    assert(frame@.payload =~= spec_beacon_request_frame(seq).payload);
    encode(&frame)
}

/// Encodes an association request.
pub fn encode_association_request(
    src_extended: u64,
    dst_pan: u16,
    dst_short: u16,
    seq: u8,
    capabilities: CapabilityInformation,
) -> (r: Vec<u8>)
    ensures
        r@ == spec_encode_frame(
            spec_association_request_frame(src_extended, dst_pan, dst_short, seq, capabilities),
        ),
{
    let frame = MacFrame {
        header: MacHeader {
            frame_type: MacFrameType::MacCommand,
            security: false,
            frame_pending: false,
            ack_request: true,
            pan_id_compress: false,
            seq_no_suppress: false,
            ie_present: false,
            version: FrameVersion::Ieee802154_2003,
            seq,
            destination: Some(MacAddress::Short(dst_pan, dst_short)),
            source: Some(MacAddress::Extended(0xffff, src_extended)),
        },
        content: FrameContent::Command(MacCommand::AssociationRequest(capabilities)),
        payload: Vec::new(),
        footer: [0, 0],
    };
    assert(frame@.payload =~= spec_association_request_frame(
        src_extended,
        dst_pan,
        dst_short,
        seq,
        capabilities,
    ).payload);
    encode(&frame)
}

/// Encodes a data request.
pub fn encode_data_request(
    src_pan: u16,
    src_extended: u64,
    dst_pan: u16,
    dst_short: u16,
    seq: u8,
) -> (r: Vec<u8>)
    ensures
        r@ == spec_encode_frame(
            spec_data_request_frame(src_pan, src_extended, dst_pan, dst_short, seq),
        ),
{
    let frame = MacFrame {
        header: MacHeader {
            frame_type: MacFrameType::MacCommand,
            security: false,
            frame_pending: false,
            ack_request: true,
            pan_id_compress: true,
            seq_no_suppress: false,
            ie_present: false,
            version: FrameVersion::Ieee802154_2003,
            seq,
            destination: Some(MacAddress::Short(dst_pan, dst_short)),
            source: Some(MacAddress::Extended(src_pan, src_extended)),
        },
        content: FrameContent::Command(MacCommand::DataRequest),
        payload: Vec::new(),
        footer: [0, 0],
    };
    assert(frame@.payload =~= spec_data_request_frame(
        src_pan,
        src_extended,
        dst_pan,
        dst_short,
        seq,
    ).payload);
    encode(&frame)
}

/// Encodes an acknowledgement echoing the given sequence number.
pub fn encode_ack(seq: u8) -> (r: Vec<u8>)
    ensures
        r@ == spec_encode_frame(spec_ack_frame(seq)),
{
    let frame = MacFrame {
        header: MacHeader {
            frame_type: MacFrameType::Acknowledgement,
            security: false,
            frame_pending: false,
            ack_request: false,
            pan_id_compress: false,
            seq_no_suppress: false,
            ie_present: false,
            version: FrameVersion::Ieee802154_2003,
            seq,
            destination: None,
            source: None,
        },
        content: FrameContent::Acknowledgement,
        payload: Vec::new(),
        footer: [0, 0],
    };
    assert(frame@.payload =~= spec_ack_frame(seq).payload);
    encode(&frame)
}

/// A capability byte the decoder accepts is reproduced exactly by
/// re-encoding the decoded bitmap.
pub proof fn lemma_capability_round_trip(v: u8)
    requires
        v & 0x31 == 0,
    ensures
        spec_capability_of(v) is Some,
        spec_capability_byte(spec_capability_of(v)->0) == v,
{
    assert((v >> 1) & 1 <= 1 && (v >> 2) & 1 <= 1 && (v >> 3) & 1 <= 1 && (v >> 6) & 1 <= 1 && (v
        >> 7) & 1 <= 1) by (bit_vector);
    assert(1u8 << 1 == 0x02 && 0u8 << 1 == 0 && 1u8 << 2 == 0x04 && 0u8 << 2 == 0 && 1u8 << 3
        == 0x08 && 0u8 << 3 == 0 && 1u8 << 6 == 0x40 && 0u8 << 6 == 0 && 1u8 << 7 == 0x80 && 0u8
        << 7 == 0) by (bit_vector);
    assert(v & 0x31 == 0 ==> v == (((v >> 1) & 1) << 1) | (((v >> 2) & 1) << 2) | (((v >> 3) & 1)
        << 3) | (((v >> 6) & 1) << 6) | (((v >> 7) & 1) << 7)) by (bit_vector);
}

/// A frame control word whose reserved bits are clear reassembles exactly
/// from the header fields decoded out of it.
proof fn lemma_frame_control_reassembly(fc: u16, h: MacHeader)
    requires
        (fc >> 3) & 1 == 0,
        (fc >> 7) & 1 == 0,
        spec_frame_type_bits(h.frame_type) == fc & 0x7,
        h.security == false,
        h.frame_pending == ((fc >> 4) & 1 == 1),
        h.ack_request == ((fc >> 5) & 1 == 1),
        h.pan_id_compress == ((fc >> 6) & 1 == 1),
        h.seq_no_suppress == ((fc >> 8) & 1 == 1),
        h.ie_present == ((fc >> 9) & 1 == 1),
        spec_addr_mode_bits(h.destination) == (fc >> 10) & 0x3,
        spec_version_bits(h.version) == (fc >> 12) & 0x3,
        spec_addr_mode_bits(h.source) == (fc >> 14) & 0x3,
    ensures
        spec_frame_control(h) == fc,
{
    assert((fc >> 4) & 1 <= 1 && (fc >> 5) & 1 <= 1 && (fc >> 6) & 1 <= 1 && (fc >> 8) & 1 <= 1 && (
    fc >> 9) & 1 <= 1) by (bit_vector);
    assert(1u16 << 4 == 0x10 && 0u16 << 4 == 0 && 1u16 << 5 == 0x20 && 0u16 << 5 == 0 && 1u16 << 6
        == 0x40 && 0u16 << 6 == 0 && 1u16 << 8 == 0x100 && 0u16 << 8 == 0 && 1u16 << 9 == 0x200
        && 0u16 << 9 == 0) by (bit_vector);
    assert(((fc >> 3) & 1 == 0 && (fc >> 7) & 1 == 0) ==> fc == (fc & 0x7) | 0 | (((fc >> 4) & 1)
        << 4) | (((fc >> 5) & 1) << 5) | (((fc >> 6) & 1) << 6) | (((fc >> 8) & 1) << 8) | (((fc
        >> 9) & 1) << 9) | (((fc >> 10) & 0x3) << 10) | (((fc >> 12) & 0x3) << 12) | (((fc >> 14)
        & 0x3) << 14)) by (bit_vector);
}

/// Law (idempotence of the codec): decoding a frame and re-encoding it with
/// the identical field values reproduces the original bytes exactly, for
/// every input the decoder accepts — so for every supported content
/// variant, addressing combination and payload.
#[verifier::rlimit(100)]
pub proof fn lemma_decode_encode_round_trip(b: Seq<u8>)
    requires
        spec_decode_frame(b) is Some,
    ensures
        spec_encode_frame(spec_decode_frame(b)->0) == b,
{
    let f = spec_decode_frame(b)->0;
    let h = f.header;
    let fc = le16_at(b, 0);
    let dm = (fc >> 10) & 0x3;
    let vb = (fc >> 12) & 0x3;
    let sm = (fc >> 14) & 0x3;
    let compress = (fc >> 6) & 1 == 1;
    let (dest, off1) = spec_decode_dest(b, 3, dm)->0;
    let (src, off2) = spec_decode_src(b, off1, sm, compress, dest)->0;
    let (content, off3) = spec_decode_content(b, off2, h.frame_type)->0;
    assert(3 <= off1 && off1 <= off2 && off2 <= off3 && off3 <= b.len());
    // the frame control word reassembles from the decoded header fields
    assert(spec_frame_type_bits(h.frame_type) == fc & 0x7);
    assert(spec_addr_mode_bits(h.destination) == dm);
    assert(spec_addr_mode_bits(h.source) == sm);
    assert(spec_version_bits(h.version) == vb);
    assert((fc >> 3) & 1 <= 1 && (fc >> 7) & 1 <= 1) by (bit_vector);
    lemma_frame_control_reassembly(fc, h);
    // each encoded piece is the corresponding piece of the input
    lemma_le16_round_trip(b, 0);
    assert(seq![h.seq] =~= b.subrange(2, 3));
    assert(spec_encode_dest(h) == b.subrange(3, off1)) by {
        if dm == 0 {
            assert(spec_encode_dest(h) =~= b.subrange(3, 3));
        } else if dm == 2 {
            lemma_le16_round_trip(b, 3);
            lemma_le16_round_trip(b, 5);
            lemma_subrange_adjacent(b, 3, 5, 7);
        } else {
            lemma_le16_round_trip(b, 3);
            lemma_le64_round_trip(b, 5);
            lemma_subrange_adjacent(b, 3, 5, 13);
        }
    };
    assert(spec_encode_src(h) == b.subrange(off1, off2)) by {
        if sm == 0 {
            assert(spec_encode_src(h) =~= b.subrange(off1, off1));
        } else if sm == 2 {
            if compress {
                lemma_le16_round_trip(b, off1);
                assert(Seq::<u8>::empty() + le16_bytes(le16_at(b, off1)) =~= b.subrange(
                    off1,
                    off1 + 2,
                ));
            } else {
                lemma_le16_round_trip(b, off1);
                lemma_le16_round_trip(b, off1 + 2);
                lemma_subrange_adjacent(b, off1, off1 + 2, off1 + 4);
            }
        } else {
            if compress {
                lemma_le64_round_trip(b, off1);
                assert(Seq::<u8>::empty() + le64_bytes(le64_at(b, off1)) =~= b.subrange(
                    off1,
                    off1 + 8,
                ));
            } else {
                lemma_le16_round_trip(b, off1);
                lemma_le64_round_trip(b, off1 + 2);
                lemma_subrange_adjacent(b, off1, off1 + 2, off1 + 10);
            }
        }
    };
    assert(spec_encode_content(f.content) == b.subrange(off2, off3)) by {
        match h.frame_type {
            MacFrameType::Beacon => {
                assert(false);
            },
            MacFrameType::Data => {
                assert(spec_encode_content(f.content) =~= b.subrange(off2, off2));
            },
            MacFrameType::Acknowledgement => {
                assert(spec_encode_content(f.content) =~= b.subrange(off2, off2));
            },
            MacFrameType::MacCommand => {
                let id = b[off2];
                if id == 0x07 || id == 0x04 {
                    assert(spec_encode_content(f.content) =~= b.subrange(off2, off2 + 1));
                } else if id == 0x01 {
                    lemma_capability_round_trip(b[off2 + 1]);
                    assert(spec_encode_content(f.content) =~= b.subrange(off2, off2 + 2));
                } else {
                    lemma_le16_round_trip(b, off2 + 1);
                    assert(spec_encode_content(f.content) =~= b.subrange(off2, off2 + 4));
                }
            },
        }
    };
    // the pieces, in order, are the whole input
    assert(le16_bytes(spec_frame_control(h)) == b.subrange(0, 2));
    lemma_subrange_adjacent(b, 0, 2, 3);
    assert(le16_bytes(spec_frame_control(h)) + seq![h.seq] == b.subrange(0, 3));
    lemma_subrange_adjacent(b, 0, 3, off1);
    assert(le16_bytes(spec_frame_control(h)) + seq![h.seq] + spec_encode_dest(h) == b.subrange(
        0,
        off1,
    ));
    lemma_subrange_adjacent(b, 0, off1, off2);
    assert(le16_bytes(spec_frame_control(h)) + seq![h.seq] + spec_encode_dest(h)
        + spec_encode_src(h) == b.subrange(0, off2));
    lemma_subrange_adjacent(b, 0, off2, off3);
    assert(le16_bytes(spec_frame_control(h)) + seq![h.seq] + spec_encode_dest(h)
        + spec_encode_src(h) + spec_encode_content(f.content) == b.subrange(0, off3));
    lemma_subrange_adjacent(b, 0, off3, b.len() as int);
    assert(f.payload == b.subrange(off3, b.len() as int));
    assert(spec_encode_frame(f) == b.subrange(0, b.len() as int));
    assert(b.subrange(0, b.len() as int) =~= b);
}

/// Law: a beacon request round-trips through the codec for every sequence
/// number — it decodes back to a command frame carrying a beacon request,
/// addressed to the broadcast PAN and the broadcast short address.
pub proof fn lemma_beacon_request_round_trip(seq: u8)
    ensures
        spec_decode_frame(spec_encode_frame(spec_beacon_request_frame(seq))) == Some(
            spec_beacon_request_frame(seq),
        ),
{
    let f = spec_beacon_request_frame(seq);
    let b = spec_encode_frame(f);
    assert(3u16 | 0 | 0 | 0 | 0 | 0 | 0 | (2u16 << 10) | (0u16 << 12) | (0u16 << 14) == 0x803)
        by (bit_vector);
    assert(spec_frame_control(f.header) == 0x803);
    assert(0x803u16 & 0xff == 0x03 && (0x803u16 >> 8) & 0xff == 0x08) by (bit_vector);
    assert(0xffffu16 & 0xff == 0xff && (0xffffu16 >> 8) & 0xff == 0xff) by (bit_vector);
    assert(b =~= seq![0x03u8, 0x08u8, seq, 0xffu8, 0xffu8, 0xffu8, 0xffu8, 0x07u8]);
    let fc = le16_at(b, 0);
    assert(fc == (0x03u8 as u16) | ((0x08u8 as u16) << 8));
    assert((0x03u8 as u16) | ((0x08u8 as u16) << 8) == 0x803) by (bit_vector);
    assert((0x803u16 >> 3) & 1 == 0 && (0x803u16 >> 7) & 1 == 0 && 0x803u16 & 0x7 == 3 && (0x803u16
        >> 4) & 1 == 0 && (0x803u16 >> 5) & 1 == 0 && (0x803u16 >> 6) & 1 == 0 && (0x803u16 >> 8)
        & 1 == 0 && (0x803u16 >> 9) & 1 == 0 && (0x803u16 >> 10) & 0x3 == 2 && (0x803u16 >> 12)
        & 0x3 == 0 && (0x803u16 >> 14) & 0x3 == 0) by (bit_vector);
    assert(le16_at(b, 3) == (0xffu8 as u16) | ((0xffu8 as u16) << 8));
    assert((0xffu8 as u16) | ((0xffu8 as u16) << 8) == 0xffff) by (bit_vector);
    assert(spec_decode_dest(b, 3, 2) == Some(
        (Some(MacAddress::Short(0xffffu16, 0xffffu16)), 7int),
    ));
    assert(spec_decode_src(b, 7, 0, false, Some(MacAddress::Short(0xffffu16, 0xffffu16))) == Some(
        (None::<MacAddress>, 7int),
    ));
    assert(b[7] == 0x07);
    assert(spec_decode_content(b, 7, MacFrameType::MacCommand) == Some(
        (FrameContent::Command(MacCommand::BeaconRequest), 8int),
    ));
    let g = spec_decode_frame(b)->0;
    assert(g.payload =~= f.payload);
    assert(g.header == f.header);
    assert(spec_decode_frame(b) == Some(f));
}

} // verus!
