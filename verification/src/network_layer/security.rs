//! The optional security header of a network-layer packet: a control byte,
//! a frame counter, an optional extended source, a key sequence number, and
//! a message integrity code taken from the tail of the whole packet.

use vstd::prelude::*;

use crate::wire::le32_at;
use crate::wire::le64_at;
use crate::wire::read_u32_le;
use crate::wire::read_u64_le;
use crate::wire::read_u8;
use crate::wire::ParseError;

verus! {

/// Which key secured the payload, from bits 3-4 of the control byte.
#[derive(Clone, Copy, PartialEq, Eq, Structural, Debug)]
pub enum KeyIdentifier {
    Data,
    Network,
    KeyTransport,
    KeyLoad,
}

impl KeyIdentifier {
    /// The key identifier for a two-bit value; values above 3 are out of
    /// range.
    pub fn try_from(value: u8) -> (r: Result<KeyIdentifier, ()>)
        ensures
            r == spec_key_identifier_try_from(value),
    {
        if value == 0 {
            Ok(KeyIdentifier::Data)
        } else if value == 1 {
            Ok(KeyIdentifier::Network)
        } else if value == 2 {
            Ok(KeyIdentifier::KeyTransport)
        } else if value == 3 {
            Ok(KeyIdentifier::KeyLoad)
        } else {
            Err(())
        }
    }
}

/// The key identifier for a two-bit value.
pub open spec fn spec_key_identifier_try_from(value: u8) -> Result<KeyIdentifier, ()> {
    if value == 0 {
        Ok(KeyIdentifier::Data)
    } else if value == 1 {
        Ok(KeyIdentifier::Network)
    } else if value == 2 {
        Ok(KeyIdentifier::KeyTransport)
    } else if value == 3 {
        Ok(KeyIdentifier::KeyLoad)
    } else {
        Err(())
    }
}

/// The width of the message integrity code named by a two-bit value.
#[derive(Clone, Copy, PartialEq, Eq, Structural, Debug)]
pub enum MessageIntegritySize {
    Absent,
    B32,
    B64,
    B128,
}

impl MessageIntegritySize {
    /// The integrity-code width for a two-bit value; values above 3 are out
    /// of range.
    pub fn try_from(value: u8) -> (r: Result<MessageIntegritySize, ()>)
        ensures
            r == spec_message_integrity_size_try_from(value),
    {
        if value == 0 {
            Ok(MessageIntegritySize::Absent)
        } else if value == 1 {
            Ok(MessageIntegritySize::B32)
        } else if value == 2 {
            Ok(MessageIntegritySize::B64)
        } else if value == 3 {
            Ok(MessageIntegritySize::B128)
        } else {
            Err(())
        }
    }
}

/// The integrity-code width for a two-bit value.
pub open spec fn spec_message_integrity_size_try_from(value: u8) -> Result<
    MessageIntegritySize,
    (),
> {
    if value == 0 {
        Ok(MessageIntegritySize::Absent)
    } else if value == 1 {
        Ok(MessageIntegritySize::B32)
    } else if value == 2 {
        Ok(MessageIntegritySize::B64)
    } else if value == 3 {
        Ok(MessageIntegritySize::B128)
    } else {
        Err(())
    }
}

/// The decoded security control byte. Whether the payload is encrypted and
/// the integrity-code width are fixed to "encrypted, 32-bit code" no matter
/// what the low three bits say: profiles predating the 2004 one leave those
/// bits meaningless, and this stack speaks to such networks.
#[derive(Clone, Copy, PartialEq, Eq, Structural, Debug)]
pub struct SecurityControlField {
    pub using_encryption: bool,
    pub message_integrity_size: MessageIntegritySize,
    pub key_identifier: KeyIdentifier,
    pub using_extended_nonce: bool,
}

/// The decoding of a security control byte: key identifier from bits 3-4,
/// extended-nonce flag from bit 5, encryption and integrity-code width
/// fixed.
pub open spec fn spec_security_control_field(field: u8) -> SecurityControlField {
    SecurityControlField {
        using_encryption: true,
        message_integrity_size: MessageIntegritySize::B32,
        key_identifier: if (field >> 3) & 0x3 == 0 {
            KeyIdentifier::Data
        } else if (field >> 3) & 0x3 == 1 {
            KeyIdentifier::Network
        } else if (field >> 3) & 0x3 == 2 {
            KeyIdentifier::KeyTransport
        } else {
            KeyIdentifier::KeyLoad
        },
        using_extended_nonce: (field >> 5) & 1 == 1,
    }
}

impl SecurityControlField {
    /// Decodes a security control byte.
    pub fn from(field: u8) -> (r: SecurityControlField)
        ensures
            r == spec_security_control_field(field),
    {
        let bits = (field >> 3) & 0x3;
        let key_identifier = if bits == 0 {
            KeyIdentifier::Data
        } else if bits == 1 {
            KeyIdentifier::Network
        } else if bits == 2 {
            KeyIdentifier::KeyTransport
        } else {
            KeyIdentifier::KeyLoad
        };
        SecurityControlField {
            using_encryption: true,
            message_integrity_size: MessageIntegritySize::B32,
            key_identifier,
            using_extended_nonce: (field >> 5) & 1 == 1,
        }
    }

    /// Decodes a security control byte; every byte decodes, so this never
    /// fails.
    pub fn try_from(field: u8) -> (r: Result<SecurityControlField, ()>)
        ensures
            r is Ok,
            r->Ok_0 == spec_security_control_field(field),
    {
        Ok(SecurityControlField::from(field))
    }
}

/// A parsed security header.
#[derive(Clone, PartialEq, Debug)]
pub struct SecurityHeader {
    pub security_control_field: SecurityControlField,
    pub frame_counter: u32,
    pub extended_source: Option<u64>,
    pub key_message_number: u8,
    pub message_integrity_code: [u8; 4],
}

/// The mathematical model of a security header; the integrity code is a
/// four-byte sequence.
pub ghost struct SecurityHeaderModel {
    pub security_control_field: SecurityControlField,
    pub frame_counter: u32,
    pub extended_source: Option<u64>,
    pub key_message_number: u8,
    pub message_integrity_code: Seq<u8>,
}

impl View for SecurityHeader {
    type V = SecurityHeaderModel;

    open spec fn view(&self) -> SecurityHeaderModel {
        SecurityHeaderModel {
            security_control_field: self.security_control_field,
            frame_counter: self.frame_counter,
            extended_source: self.extended_source,
            key_message_number: self.key_message_number,
            message_integrity_code: self.message_integrity_code@,
        }
    }
}

/// Parses a security header at `off`: control byte, 32-bit frame counter,
/// extended source if and only if the extended-nonce flag is set, key
/// sequence number; the integrity code is the last four bytes of the whole
/// packet, an absolute tail reference. Yields the header and the offset
/// after the key sequence number.
pub open spec fn spec_parse_security(b: Seq<u8>, off: int) -> Option<(SecurityHeaderModel, int)> {
    if off < 0 || off + 6 > b.len() {
        None
    } else {
        let scf = spec_security_control_field(b[off]);
        let frame_counter = le32_at(b, off + 1);
        if scf.using_extended_nonce {
            if off + 14 > b.len() {
                None
            } else {
                Some(
                    (
                        SecurityHeaderModel {
                            security_control_field: scf,
                            frame_counter,
                            extended_source: Some(le64_at(b, off + 5)),
                            key_message_number: b[off + 13],
                            message_integrity_code: b.subrange(b.len() - 4, b.len() as int),
                        },
                        off + 14,
                    ),
                )
            }
        } else {
            Some(
                (
                    SecurityHeaderModel {
                        security_control_field: scf,
                        frame_counter,
                        extended_source: None,
                        key_message_number: b[off + 5],
                        message_integrity_code: b.subrange(b.len() - 4, b.len() as int),
                    },
                    off + 6,
                ),
            )
        }
    }
}

impl SecurityHeader {
    /// Parses a security header at the cursor, advancing it past the key
    /// sequence number; any short read yields the one undifferentiated
    /// `ParseError`.
    pub fn try_parse_from(packet: &[u8], offset: &mut usize) -> (r: Result<
        SecurityHeader,
        ParseError,
    >)
        ensures
            match r {
                Ok(h) => spec_parse_security(packet@, *old(offset) as int) == Some(
                    (h@, *final(offset) as int),
                ) && *final(offset) <= packet@.len(),
                Err(_) => spec_parse_security(packet@, *old(offset) as int) is None,
            },
    {
        let control_byte = match read_u8(packet, offset) {
            Ok(v) => v,
            Err(e) => {
                return Err(e);
            },
        };
        let security_control_field = SecurityControlField::from(control_byte);
        let frame_counter = match read_u32_le(packet, offset) {
            Ok(v) => v,
            Err(e) => {
                return Err(e);
            },
        };
        let extended_source = if security_control_field.using_extended_nonce {
            match read_u64_le(packet, offset) {
                Ok(v) => Some(v),
                Err(e) => {
                    return Err(e);
                },
            }
        } else {
            None
        };
        let key_message_number = match read_u8(packet, offset) {
            Ok(v) => v,
            Err(e) => {
                return Err(e);
            },
        };
        // at least six bytes were just read, so the packet has a four-byte tail
        let n = packet.len();
        let message_integrity_code = [packet[n - 4], packet[n - 3], packet[n - 2], packet[n - 1]];
        assert(message_integrity_code@ =~= packet@.subrange(n - 4, n as int));
        Ok(
            SecurityHeader {
                security_control_field,
                frame_counter,
                extended_source,
                key_message_number,
                message_integrity_code,
            },
        )
    }
}

/// Parsing a security header reads nothing before `off`: on two equally
/// long buffers that agree from `off` on, it parses to the same header.
pub proof fn lemma_parse_security_depends_on_tail(b1: Seq<u8>, b2: Seq<u8>, off: int)
    requires
        b2.len() == b1.len(),
        forall|i: int| off <= i < b1.len() ==> b2[i] == b1[i],
    ensures
        spec_parse_security(b2, off) == spec_parse_security(b1, off),
{
    if off < 0 || off + 6 > b1.len() {
    } else {
        assert(b2.subrange(b2.len() - 4, b2.len() as int) =~= b1.subrange(
            b1.len() - 4,
            b1.len() as int,
        ));
        assert(le32_at(b2, off + 1) == le32_at(b1, off + 1));
        if spec_security_control_field(b1[off]).using_extended_nonce && off + 14 <= b1.len() {
            assert(le64_at(b2, off + 5) == le64_at(b1, off + 5));
        }
    }
}

} // verus!
