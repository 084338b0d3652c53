//! Zigbee network-layer packet codec: parses a MAC payload into its
//! frame-control fields, addressing, routing and security headers, and the
//! application payload. All multi-byte fields are little-endian. Any short
//! read at any step yields the single undifferentiated `ParseError`.

use vstd::prelude::*;

pub mod security;

use crate::wire::clone_bytes;
use crate::wire::le16_at;
use crate::wire::le64_at;
use crate::wire::read_u16_le;
use crate::wire::read_u64_le;
use crate::wire::read_u8;
use security::lemma_parse_security_depends_on_tail;
use security::spec_parse_security;
use security::SecurityHeader;
use security::SecurityHeaderModel;

pub use crate::wire::ParseError;

verus! {

/// The network-layer frame type, from bits 0-1 of the frame control field.
#[derive(Clone, Copy, PartialEq, Eq, Structural, Debug)]
pub enum FrameType {
    Data,
    Command,
    Reserved,
    InterPAN,
}

/// The frame type for a two-bit value.
pub open spec fn spec_frame_type_try_from(value: u8) -> Result<FrameType, ()> {
    if value == 0 {
        Ok(FrameType::Data)
    } else if value == 1 {
        Ok(FrameType::Command)
    } else if value == 2 {
        Ok(FrameType::Reserved)
    } else if value == 3 {
        Ok(FrameType::InterPAN)
    } else {
        Err(())
    }
}

impl FrameType {
    /// The frame type for a two-bit value; values above 3 are out of range.
    pub fn try_from(value: u8) -> (r: Result<FrameType, ()>)
        ensures
            r == spec_frame_type_try_from(value),
    {
        if value == 0 {
            Ok(FrameType::Data)
        } else if value == 1 {
            Ok(FrameType::Command)
        } else if value == 2 {
            Ok(FrameType::Reserved)
        } else if value == 3 {
            Ok(FrameType::InterPAN)
        } else {
            Err(())
        }
    }
}

/// Whether receivers should discover a route, from bits 6-7 of the frame
/// control field.
#[derive(Clone, Copy, PartialEq, Eq, Structural, Debug)]
pub enum DiscoverRoute {
    SurpressRouteDiscovery,
    EnableRouteDiscovery,
    Reserved,
}

/// The discover-route setting for a two-bit value; both 2 and 3 are
/// reserved.
pub open spec fn spec_discover_route_try_from(value: u8) -> Result<DiscoverRoute, ()> {
    if value == 0 {
        Ok(DiscoverRoute::SurpressRouteDiscovery)
    } else if value == 1 {
        Ok(DiscoverRoute::EnableRouteDiscovery)
    } else if value == 2 || value == 3 {
        Ok(DiscoverRoute::Reserved)
    } else {
        Err(())
    }
}

impl DiscoverRoute {
    /// The discover-route setting for a two-bit value; values above 3 are
    /// out of range.
    pub fn try_from(value: u8) -> (r: Result<DiscoverRoute, ()>)
        ensures
            r == spec_discover_route_try_from(value),
    {
        if value == 0 {
            Ok(DiscoverRoute::SurpressRouteDiscovery)
        } else if value == 1 {
            Ok(DiscoverRoute::EnableRouteDiscovery)
        } else if value == 2 || value == 3 {
            Ok(DiscoverRoute::Reserved)
        } else {
            Err(())
        }
    }
}

/// The decoded 16-bit network-layer frame control field.
#[derive(Clone, Copy, PartialEq, Eq, Structural, Debug)]
pub struct FrameControlField {
    pub frame_type: FrameType,
    pub protocol_version: u8,
    pub discover_route: DiscoverRoute,
    pub multicast_present: bool,
    pub security_present: bool,
    pub source_route_present: bool,
    pub destination_present: bool,
    pub source_address_present: bool,
    pub end_device_initiator: bool,
}

/// The decoding of the frame control field: bits 0-1 frame type, 2-5
/// protocol version, 6-7 discover route, then one presence flag per bit
/// from 8 to 13. Every 16-bit value decodes.
pub open spec fn spec_frame_control_field(field: u16) -> FrameControlField {
    FrameControlField {
        frame_type: if field & 0x3 == 0 {
            FrameType::Data
        } else if field & 0x3 == 1 {
            FrameType::Command
        } else if field & 0x3 == 2 {
            FrameType::Reserved
        } else {
            FrameType::InterPAN
        },
        protocol_version: ((field >> 2) & 0xf) as u8,
        discover_route: if (field >> 6) & 0x3 == 0 {
            DiscoverRoute::SurpressRouteDiscovery
        } else if (field >> 6) & 0x3 == 1 {
            DiscoverRoute::EnableRouteDiscovery
        } else {
            DiscoverRoute::Reserved
        },
        multicast_present: (field >> 8) & 1 == 1,
        security_present: (field >> 9) & 1 == 1,
        source_route_present: (field >> 10) & 1 == 1,
        destination_present: (field >> 11) & 1 == 1,
        source_address_present: (field >> 12) & 1 == 1,
        end_device_initiator: (field >> 13) & 1 == 1,
    }
}

impl FrameControlField {
    /// Decodes the 16-bit frame control field; every value decodes.
    pub fn from(field: u16) -> (r: FrameControlField)
        ensures
            r == spec_frame_control_field(field),
    {
        let type_bits = field & 0x3;
        let frame_type = if type_bits == 0 {
            FrameType::Data
        } else if type_bits == 1 {
            FrameType::Command
        } else if type_bits == 2 {
            FrameType::Reserved
        } else {
            FrameType::InterPAN
        };
        let route_bits = (field >> 6) & 0x3;
        let discover_route = if route_bits == 0 {
            DiscoverRoute::SurpressRouteDiscovery
        } else if route_bits == 1 {
            DiscoverRoute::EnableRouteDiscovery
        } else {
            DiscoverRoute::Reserved
        };
        FrameControlField {
            frame_type,
            protocol_version: ((field >> 2) & 0xf) as u8,
            discover_route,
            multicast_present: (field >> 8) & 1 == 1,
            security_present: (field >> 9) & 1 == 1,
            source_route_present: (field >> 10) & 1 == 1,
            destination_present: (field >> 11) & 1 == 1,
            source_address_present: (field >> 12) & 1 == 1,
            end_device_initiator: (field >> 13) & 1 == 1,
        }
    }
}

/// A parsed network-layer packet; the payload is copied out of the input
/// buffer.
#[derive(Clone, PartialEq, Debug)]
pub struct ZigbeePacket {
    pub frame_control_field: FrameControlField,
    pub destination: u16,
    pub source: u16,
    pub radius: u8,
    pub sequence_number: u8,
    pub extended_destination: Option<u64>,
    pub extended_source: Option<u64>,
    pub multicast_control: Option<u8>,
    pub security_header: Option<SecurityHeader>,
    pub payload: Vec<u8>,
}

/// The mathematical model of a parsed packet.
pub ghost struct PacketModel {
    pub frame_control_field: FrameControlField,
    pub destination: u16,
    pub source: u16,
    pub radius: u8,
    pub sequence_number: u8,
    pub extended_destination: Option<u64>,
    pub extended_source: Option<u64>,
    pub multicast_control: Option<u8>,
    pub security_header: Option<SecurityHeaderModel>,
    pub payload: Seq<u8>,
}

impl View for ZigbeePacket {
    type V = PacketModel;

    open spec fn view(&self) -> PacketModel {
        PacketModel {
            frame_control_field: self.frame_control_field,
            destination: self.destination,
            source: self.source,
            radius: self.radius,
            sequence_number: self.sequence_number,
            extended_destination: self.extended_destination,
            extended_source: self.extended_source,
            multicast_control: self.multicast_control,
            security_header: match self.security_header {
                None => None,
                Some(h) => Some(h@),
            },
            payload: self.payload@,
        }
    }
}

/// The offset just past the fixed header and the optional addressing
/// fields: 8 fixed bytes, then 8 for each extended address present and 1
/// for the multicast control byte.
pub open spec fn spec_addressing_end(fcf: FrameControlField) -> int {
    8 + (if fcf.destination_present {
        8int
    } else {
        0int
    }) + (if fcf.source_address_present {
        8int
    } else {
        0int
    }) + (if fcf.multicast_present {
        1int
    } else {
        0int
    })
}

/// The offset just past the source-route section, when it fits: without
/// source routing nothing is consumed; with it, a relay count, a relay
/// index, and exactly `relay count` relay bytes are skipped.
pub open spec fn spec_routing_end(b: Seq<u8>, fcf: FrameControlField) -> Option<int> {
    let a = spec_addressing_end(fcf);
    if !fcf.source_route_present {
        Some(a)
    } else {
        if a + 2 <= b.len() && a + 2 + b[a] <= b.len() {
            Some(a + 2 + b[a])
        } else {
            None
        }
    }
}

/// Parses a whole network-layer packet: frame control, destination,
/// source, radius, sequence number, the optional fields its flags select,
/// then the payload — everything left, minus the four-byte integrity code
/// when a security header is present.
pub open spec fn spec_parse_packet(b: Seq<u8>) -> Option<PacketModel> {
    if b.len() < 8 {
        None
    } else {
        let fcf = spec_frame_control_field(le16_at(b, 0));
        let a = spec_addressing_end(fcf);
        if a > b.len() {
            None
        } else {
            let ext_dst_off = 8int;
            let ext_src_off = ext_dst_off + (if fcf.destination_present {
                8int
            } else {
                0int
            });
            let mcast_off = ext_src_off + (if fcf.source_address_present {
                8int
            } else {
                0int
            });
            match spec_routing_end(b, fcf) {
                None => None,
                Some(r_end) => {
                    let base = PacketModel {
                        frame_control_field: fcf,
                        destination: le16_at(b, 2),
                        source: le16_at(b, 4),
                        radius: b[6],
                        sequence_number: b[7],
                        extended_destination: if fcf.destination_present {
                            Some(le64_at(b, ext_dst_off))
                        } else {
                            None
                        },
                        extended_source: if fcf.source_address_present {
                            Some(le64_at(b, ext_src_off))
                        } else {
                            None
                        },
                        multicast_control: if fcf.multicast_present {
                            Some(b[mcast_off])
                        } else {
                            None
                        },
                        security_header: None,
                        payload: Seq::empty(),
                    };
                    if fcf.security_present {
                        match spec_parse_security(b, r_end) {
                            None => None,
                            Some((sh, s_end)) => if s_end + 4 <= b.len() {
                                Some(
                                    PacketModel {
                                        security_header: Some(sh),
                                        payload: b.subrange(s_end, b.len() - 4),
                                        ..base
                                    },
                                )
                            } else {
                                // the security fields may not run into the
                                // integrity code
                                None
                            },
                        }
                    } else {
                        Some(
                            PacketModel { payload: b.subrange(r_end, b.len() as int), ..base },
                        )
                    }
                },
            }
        }
    }
}

impl ZigbeePacket {
    /// Parses a network-layer packet from the bytes of a MAC payload.
    pub fn try_parse_from(packet: &[u8]) -> (r: Result<ZigbeePacket, ParseError>)
        ensures
            match r {
                Ok(p) => spec_parse_packet(packet@) == Some(p@),
                Err(_) => spec_parse_packet(packet@) is None,
            },
    {
        let mut offset: usize = 0;

        let fcf_word = match read_u16_le(packet, &mut offset) {
            Ok(v) => v,
            Err(e) => {
                return Err(e);
            },
        };
        let fcf = FrameControlField::from(fcf_word);

        let destination = match read_u16_le(packet, &mut offset) {
            Ok(v) => v,
            Err(e) => {
                return Err(e);
            },
        };
        let source = match read_u16_le(packet, &mut offset) {
            Ok(v) => v,
            Err(e) => {
                return Err(e);
            },
        };

        let radius = match read_u8(packet, &mut offset) {
            Ok(v) => v,
            Err(e) => {
                return Err(e);
            },
        };
        let sequence_number = match read_u8(packet, &mut offset) {
            Ok(v) => v,
            Err(e) => {
                return Err(e);
            },
        };

        let extended_destination = if fcf.destination_present {
            match read_u64_le(packet, &mut offset) {
                Ok(v) => Some(v),
                Err(e) => {
                    return Err(e);
                },
            }
        } else {
            None
        };
        let extended_source = if fcf.source_address_present {
            match read_u64_le(packet, &mut offset) {
                Ok(v) => Some(v),
                Err(e) => {
                    return Err(e);
                },
            }
        } else {
            None
        };
        let multicast_control = if fcf.multicast_present {
            match read_u8(packet, &mut offset) {
                Ok(v) => Some(v),
                Err(e) => {
                    return Err(e);
                },
            }
        } else {
            None
        };

        if fcf.source_route_present {
            let relay_count = match read_u8(packet, &mut offset) {
                Ok(v) => v,
                Err(e) => {
                    return Err(e);
                },
            };
            let _relay_index = match read_u8(packet, &mut offset) {
                Ok(v) => v,
                Err(e) => {
                    return Err(e);
                },
            };
            // skip the relay list itself; its bytes are never retained
            if relay_count as usize <= packet.len() - offset {
                offset = offset + relay_count as usize;
            } else {
                return Err(ParseError);
            }
        }

        let security_header = if fcf.security_present {
            match SecurityHeader::try_parse_from(packet, &mut offset) {
                Ok(h) => Some(h),
                Err(e) => {
                    return Err(e);
                },
            }
        } else {
            None
        };

        // with an integrity code at the tail, the payload stops before it
        let end_index = match security_header {
            Some(_) => packet.len() - 4,
            None => packet.len(),
        };
        if offset > end_index {
            return Err(ParseError);
        }
        let payload = clone_bytes(vstd::slice::slice_subrange(packet, offset, end_index));

        Ok(
            ZigbeePacket {
                frame_control_field: fcf,
                destination,
                source,
                radius,
                sequence_number,
                extended_destination,
                extended_source,
                multicast_control,
                security_header,
                payload,
            },
        )
    }
}

/// Law: in a packet with a security header, the payload is exactly the
/// bytes between the security header and the four-byte integrity code, and
/// the header's integrity code is exactly those trailing four bytes.
pub proof fn lemma_security_payload_excludes_mic(b: Seq<u8>)
    requires
        spec_parse_packet(b) is Some,
        spec_parse_packet(b)->0.security_header is Some,
    ensures
        spec_parse_packet(b)->0.payload.len() + 4 <= b.len(),
        spec_parse_packet(b)->0.payload == b.subrange(
            b.len() - 4 - spec_parse_packet(b)->0.payload.len(),
            b.len() - 4,
        ),
        spec_parse_packet(b)->0.security_header->0.message_integrity_code == b.subrange(
            b.len() - 4,
            b.len() as int,
        ),
{
    let p = spec_parse_packet(b)->0;
    let fcf = spec_frame_control_field(le16_at(b, 0));
    let r_end = spec_routing_end(b, fcf)->0;
    let (sh, s_end) = spec_parse_security(b, r_end)->0;
    assert(p.payload.len() == b.len() - 4 - s_end);
    assert(b.len() - 4 - p.payload.len() == s_end);
}

/// The span of the relay list inside a source-routed packet: it starts two
/// bytes past the addressing fields (after the relay count and the relay
/// index) and holds `relay count` bytes.
pub open spec fn spec_relay_region(b: Seq<u8>) -> (int, int) {
    let a = spec_addressing_end(spec_frame_control_field(le16_at(b, 0)));
    (a + 2, a + 2 + b[a])
}

/// Law: in a source-routed packet the read cursor advances by exactly
/// 2 + relay-count bytes over the routing section, and none of the relay
/// bytes appear in any output field — rewriting them arbitrarily leaves
/// every field of the parse unchanged.
pub proof fn lemma_relay_list_skipped(b1: Seq<u8>, b2: Seq<u8>)
    requires
        spec_parse_packet(b1) is Some,
        spec_parse_packet(b1)->0.frame_control_field.source_route_present,
        b2.len() == b1.len(),
        forall|i: int|
            0 <= i < b1.len() && !(spec_relay_region(b1).0 <= i < spec_relay_region(b1).1)
                ==> b2[i] == b1[i],
    ensures
        spec_routing_end(b1, spec_frame_control_field(le16_at(b1, 0))) == Some(
            spec_relay_region(b1).1,
        ),
        spec_parse_packet(b2) == spec_parse_packet(b1),
{
    let fcf1 = spec_frame_control_field(le16_at(b1, 0));
    let a = spec_addressing_end(fcf1);
    let lo = spec_relay_region(b1).0;
    let hi = spec_relay_region(b1).1;
    assert(8 <= a && a + 2 <= b1.len() && hi <= b1.len());
    assert(le16_at(b2, 0) == le16_at(b1, 0));
    let fcf2 = spec_frame_control_field(le16_at(b2, 0));
    assert(fcf2 == fcf1);
    assert(b2[6] == b1[6] && b2[7] == b1[7]);
    assert(le16_at(b2, 2) == le16_at(b1, 2) && le16_at(b2, 4) == le16_at(b1, 4));
    let ext_src_off = 8 + (if fcf1.destination_present {
        8int
    } else {
        0int
    });
    let mcast_off = ext_src_off + (if fcf1.source_address_present {
        8int
    } else {
        0int
    });
    if fcf1.destination_present {
        assert(le64_at(b2, 8) == le64_at(b1, 8));
    }
    if fcf1.source_address_present {
        assert(le64_at(b2, ext_src_off) == le64_at(b1, ext_src_off));
    }
    if fcf1.multicast_present {
        assert(b2[mcast_off] == b1[mcast_off]);
    }
    assert(b2[a] == b1[a]);
    assert(spec_routing_end(b2, fcf2) == Some(hi));
    if fcf1.security_present {
        lemma_parse_security_depends_on_tail(b1, b2, hi);
        if spec_parse_security(b1, hi) is Some {
            let (sh, s_end) = spec_parse_security(b1, hi)->0;
            if s_end + 4 <= b1.len() {
                assert(b2.subrange(s_end, b2.len() - 4) =~= b1.subrange(s_end, b1.len() - 4));
            }
        }
    } else {
        assert(b2.subrange(hi, b2.len() as int) =~= b1.subrange(hi, b1.len() as int));
    }
}

} // verus!
