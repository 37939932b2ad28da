//! ICMP and ICMPv6 echo inspection.
//!
//! The active prober and its anchors exchange ICMP echoes; these parsers
//! pull out what a consumer may want to log about them. They never touch
//! the timestamp store — accounting happens at the frame level.

use vstd::prelude::*;

use crate::frame::spec_be16;
use crate::frame::be16;

verus! {

pub const ICMP_HEADER_MIN_LEN: usize = 4;

pub const ICMP_ECHO_LEN: usize = 8;

pub const ICMP_ECHO_REPLY: u8 = 0;

pub const ICMP_ECHO_REQUEST: u8 = 8;

/// What an ICMP packet says: an echo with its identifier and sequence
/// number, or some other message type.
#[derive(Clone, Copy, Debug, PartialEq, Eq, Structural)]
pub enum IcmpInfo {
    EchoReply { identifier: u16, sequence_number: u16 },
    EchoRequest { identifier: u16, sequence_number: u16 },
    Other { icmp_type: u8 },
}

/// Parse of an ICMP packet: `None` for one too short to carry its
/// claimed message, echo fields for echoes, the bare type otherwise.
pub open spec fn spec_parse_icmp(p: Seq<u8>) -> Option<IcmpInfo> {
    if p.len() < ICMP_HEADER_MIN_LEN {
        None
    } else if p[0] == ICMP_ECHO_REPLY {
        if p.len() < ICMP_ECHO_LEN {
            None
        } else {
            Some(
                IcmpInfo::EchoReply {
                    identifier: spec_be16(p[4], p[5]),
                    sequence_number: spec_be16(p[6], p[7]),
                },
            )
        }
    } else if p[0] == ICMP_ECHO_REQUEST {
        if p.len() < ICMP_ECHO_LEN {
            None
        } else {
            Some(
                IcmpInfo::EchoRequest {
                    identifier: spec_be16(p[4], p[5]),
                    sequence_number: spec_be16(p[6], p[7]),
                },
            )
        }
    } else {
        Some(IcmpInfo::Other { icmp_type: p[0] })
    }
}

/// Inspect one ICMP packet.
pub fn handle_icmp_packet(packet: &[u8]) -> (r: Option<IcmpInfo>)
    ensures
        r == spec_parse_icmp(packet@),
{
    if packet.len() < ICMP_HEADER_MIN_LEN {
        return None;
    }
    let icmp_type = packet[0];
    if icmp_type == ICMP_ECHO_REPLY {
        if packet.len() < ICMP_ECHO_LEN {
            None
        } else {
            Some(
                IcmpInfo::EchoReply {
                    identifier: be16(packet[4], packet[5]),
                    sequence_number: be16(packet[6], packet[7]),
                },
            )
        }
    } else if icmp_type == ICMP_ECHO_REQUEST {
        if packet.len() < ICMP_ECHO_LEN {
            None
        } else {
            Some(
                IcmpInfo::EchoRequest {
                    identifier: be16(packet[4], packet[5]),
                    sequence_number: be16(packet[6], packet[7]),
                },
            )
        }
    } else {
        Some(IcmpInfo::Other { icmp_type })
    }
}

/// Inspect one ICMPv6 packet: its message type, if the header is whole.
pub fn handle_icmpv6_packet(packet: &[u8]) -> (r: Option<u8>)
    ensures
        packet@.len() >= ICMP_HEADER_MIN_LEN ==> r == Some(packet@[0]),
        packet@.len() < ICMP_HEADER_MIN_LEN ==> r is None,
{
    if packet.len() < ICMP_HEADER_MIN_LEN {
        None
    } else {
        Some(packet[0])
    }
}

} // verus!
