//! TCP segment inspection for ACK cross-checking.
//!
//! Segments carrying the ACK flag feed the `AckStore`: an outbound ACK's
//! sequence number is recorded as outstanding, an inbound ACK's sequence
//! number is marked answered. Anything else leaves the store alone.

use vstd::prelude::*;

use crate::ack_store::spec_add_ack;
use crate::ack_store::AckStore;
use crate::frame::PacketDirection;

verus! {

pub const TCP_HEADER_MIN_LEN: usize = 20;

pub const TCP_FLAG_ACK: u8 = 0x10;

/// A 32-bit big-endian field.
pub open spec fn spec_be32(b0: u8, b1: u8, b2: u8, b3: u8) -> u32 {
    (b0 * 0x1000000 + b1 * 0x10000 + b2 * 0x100 + b3) as u32
}

/// A 32-bit big-endian field.
pub fn be32(b0: u8, b1: u8, b2: u8, b3: u8) -> (r: u32)
    ensures
        r == spec_be32(b0, b1, b2, b3),
{
    (b0 as u32) * 0x1000000 + (b1 as u32) * 0x10000 + (b2 as u32) * 0x100 + (b3 as u32)
}

/// What a TCP segment asks of the ACK store: nothing for a short or
/// non-ACK segment or an unknown direction, otherwise record or clear
/// the segment's sequence number depending on direction.
pub enum AckAction {
    Ignore,
    AddAck(u32),
    RemoveAck(u32),
}

/// The action a segment maps to.
pub open spec fn spec_tcp_ack_action(p: Seq<u8>, direction: PacketDirection) -> AckAction {
    if p.len() < TCP_HEADER_MIN_LEN {
        AckAction::Ignore
    } else if p[13] & TCP_FLAG_ACK == 0 {
        AckAction::Ignore
    } else {
        let sequence = spec_be32(p[4], p[5], p[6], p[7]);
        match direction {
            PacketDirection::Sending => AckAction::AddAck(sequence),
            PacketDirection::Receiving => AckAction::RemoveAck(sequence),
            PacketDirection::Unknown => AckAction::Ignore,
        }
    }
}

/// Inspect one TCP segment and update the ACK store accordingly.
pub fn handle_tcp_packet(store: &mut AckStore, direction: PacketDirection, packet: &[u8])
    requires
        old(store).wf(),
    ensures
        final(store).wf(),
        spec_tcp_ack_action(packet@, direction) matches AckAction::Ignore ==> *final(store)
            == *old(store),
        spec_tcp_ack_action(packet@, direction) matches AckAction::AddAck(s) ==> {
            &&& final(store).queue() == spec_add_ack(old(store).queue(), old(store).index(), s).0
            &&& final(store).index() == spec_add_ack(old(store).queue(), old(store).index(), s).1
        },
        spec_tcp_ack_action(packet@, direction) matches AckAction::RemoveAck(s) ==> {
            &&& final(store).queue() == old(store).queue()
            &&& final(store).index() == old(store).index().insert(s, false)
        },
{
    if packet.len() < TCP_HEADER_MIN_LEN {
        return ;
    }
    let flags = packet[13];
    if flags & TCP_FLAG_ACK == 0 {
        return ;
    }
    let sequence = be32(packet[4], packet[5], packet[6], packet[7]);
    match direction {
        PacketDirection::Sending => store.add_ack(sequence),
        PacketDirection::Receiving => store.remove_ack(sequence),
        PacketDirection::Unknown => (),
    }
}

} // verus!
