//! The packet classifier.
//!
//! For each captured link-layer frame the classifier decides the packet's
//! direction, whether the packet is interesting — non-local source and
//! destination, an allowed transport protocol — and, if so, which
//! timestamp to record. Frames that fail any test pass through without
//! touching the store, so local chatter, broadcasts and unsupported
//! protocols can never mask a real outage.

use vstd::prelude::*;

use crate::clock::get_now_truncated;
use crate::ip::ipv4_broadcast;
use crate::ip::ipv4_private;
use crate::ip::ipv6_link_local;
use crate::ip::spec_ipv4_broadcast;
use crate::ip::spec_ipv4_private;
use crate::ip::spec_ipv6_link_local;
use crate::shared_data::apply_update;
use crate::shared_data::spec_max;
use crate::shared_data::SharedData;
use crate::shared_data::StoreUpdate;

verus! {

pub const ETHERNET_HEADER_LEN: usize = 14;

pub const IPV4_HEADER_MIN_LEN: usize = 20;

pub const IPV6_HEADER_LEN: usize = 40;

pub const ETHERTYPE_IPV4: u16 = 0x0800;

pub const ETHERTYPE_IPV6: u16 = 0x86DD;

pub const PROTO_ICMP: u8 = 1;

pub const PROTO_TCP: u8 = 6;

pub const PROTO_UDP: u8 = 17;

pub const PROTO_ICMPV6: u8 = 58;

/// Which way a frame crossed the interface. `Unknown` stands for an
/// interface without a MAC address; such frames are dropped from
/// accounting.
#[derive(Clone, Copy, Debug, PartialEq, Eq, Structural)]
pub enum PacketDirection {
    Sending,
    Receiving,
    Unknown,
}

/// The classifier's verdict on one frame: leave the store alone, record a
/// transmission, or record a reception.
#[derive(Clone, Copy, Debug, PartialEq, Eq, Structural)]
pub enum Accounting {
    Skip,
    RecordTx,
    RecordRx,
}

/// A 16-bit big-endian field.
pub open spec fn spec_be16(hi: u8, lo: u8) -> u16 {
    (hi * 256 + lo) as u16
}

/// A 16-bit big-endian field.
pub fn be16(hi: u8, lo: u8) -> (r: u16)
    ensures
        r == spec_be16(hi, lo),
{
    (hi as u16) * 256 + (lo as u16)
}

/// The transport protocols that count as connectivity evidence: TCP, UDP,
/// ICMP and ICMPv6. A flood of anything else (ARP, say) must not mask an
/// outage.
pub open spec fn spec_allowed_protocol(proto: u8) -> bool {
    proto == PROTO_TCP || proto == PROTO_UDP || proto == PROTO_ICMP || proto == PROTO_ICMPV6
}

/// The transport protocols that count as connectivity evidence.
pub fn allowed_protocol(proto: u8) -> (r: bool)
    ensures
        r == spec_allowed_protocol(proto),
{
    proto == PROTO_TCP || proto == PROTO_UDP || proto == PROTO_ICMP || proto == PROTO_ICMPV6
}

/// Direction of a frame whose source MAC is `source`: sent by us exactly
/// when it equals the interface's own MAC; unknowable when the interface
/// has none.
pub open spec fn spec_mac_direction(source: Seq<u8>, iface_mac: Option<[u8; 6]>) -> PacketDirection {
    match iface_mac {
        None => PacketDirection::Unknown,
        Some(mac) => if source == mac@ {
            PacketDirection::Sending
        } else {
            PacketDirection::Receiving
        },
    }
}

/// Compare the frame's source MAC to the interface's MAC to decide the
/// packet direction.
pub fn get_direction(source_mac: &[u8; 6], iface_mac: &Option<[u8; 6]>) -> (r: PacketDirection)
    ensures
        r == spec_mac_direction(source_mac@, *iface_mac),
{
    match iface_mac {
        None => PacketDirection::Unknown,
        Some(mac) => {
            let same = source_mac[0] == mac[0] && source_mac[1] == mac[1] && source_mac[2]
                == mac[2] && source_mac[3] == mac[3] && source_mac[4] == mac[4] && source_mac[5]
                == mac[5];
            if same {
                proof {
                    assert(source_mac@ =~= mac@);
                }
                PacketDirection::Sending
            } else {
                proof {
                    if source_mac@ == mac@ {
                        assert(source_mac@[0] == mac@[0]);
                        assert(source_mac@[1] == mac@[1]);
                        assert(source_mac@[2] == mac@[2]);
                        assert(source_mac@[3] == mac@[3]);
                        assert(source_mac@[4] == mac@[4]);
                        assert(source_mac@[5] == mac@[5]);
                    }
                }
                PacketDirection::Receiving
            }
        },
    }
}

/// Verdict on an IPv4 packet (the frame's payload) seen in the given
/// direction: drop local, broadcast and disallowed-protocol traffic, and
/// do not let unanswered outbound UDP count as transmission evidence.
pub open spec fn spec_classify_ipv4(p: Seq<u8>, direction: PacketDirection) -> Accounting {
    if p.len() < IPV4_HEADER_MIN_LEN {
        Accounting::Skip
    } else {
        let src_local = spec_ipv4_private(p[12], p[13]);
        let dst_local = spec_ipv4_private(p[16], p[17]);
        let src_bcast = spec_ipv4_broadcast(p[12], p[13], p[14], p[15]);
        let dst_bcast = spec_ipv4_broadcast(p[16], p[17], p[18], p[19]);
        let proto = p[9];
        if direction == PacketDirection::Unknown {
            Accounting::Skip
        } else if (src_local && direction == PacketDirection::Receiving) || (src_local
            && dst_local) {
            Accounting::Skip
        } else if src_bcast || dst_bcast {
            Accounting::Skip
        } else if !spec_allowed_protocol(proto) {
            Accounting::Skip
        } else if direction == PacketDirection::Sending && proto == PROTO_UDP {
            Accounting::Skip
        } else if direction == PacketDirection::Sending {
            Accounting::RecordTx
        } else {
            Accounting::RecordRx
        }
    }
}

/// Verdict on an IPv6 packet seen in the given direction; link-local
/// plays the role that RFC1918 plays for IPv4, and IPv6 has no broadcast.
pub open spec fn spec_classify_ipv6(p: Seq<u8>, direction: PacketDirection) -> Accounting {
    if p.len() < IPV6_HEADER_LEN {
        Accounting::Skip
    } else {
        let src_local = spec_ipv6_link_local(p[8], p[9]);
        let dst_local = spec_ipv6_link_local(p[24], p[25]);
        let proto = p[6];
        if direction == PacketDirection::Unknown {
            Accounting::Skip
        } else if (src_local && direction == PacketDirection::Receiving) || (src_local
            && dst_local) {
            Accounting::Skip
        } else if !spec_allowed_protocol(proto) {
            Accounting::Skip
        } else if direction == PacketDirection::Sending && proto == PROTO_UDP {
            Accounting::Skip
        } else if direction == PacketDirection::Sending {
            Accounting::RecordTx
        } else {
            Accounting::RecordRx
        }
    }
}

/// Verdict on a whole link-layer frame: parse the Ethernet header, decide
/// direction from the source MAC, and dispatch on the ethertype. Anything
/// that is neither IPv4 nor IPv6 passes without accounting.
pub open spec fn spec_classify_frame(frame: Seq<u8>, iface_mac: Option<[u8; 6]>) -> Accounting {
    if frame.len() < ETHERNET_HEADER_LEN {
        Accounting::Skip
    } else {
        let ethertype = spec_be16(frame[12], frame[13]);
        let direction = spec_mac_direction(frame.subrange(6, 12), iface_mac);
        if ethertype == ETHERTYPE_IPV4 {
            spec_classify_ipv4(frame.subrange(14, frame.len() as int), direction)
        } else if ethertype == ETHERTYPE_IPV6 {
            spec_classify_ipv6(frame.subrange(14, frame.len() as int), direction)
        } else {
            Accounting::Skip
        }
    }
}

/// What a verdict does to the timestamp store at clock sample `now`.
pub open spec fn spec_apply_accounting(s: SharedData, acc: Accounting, now: u64) -> SharedData {
    match acc {
        Accounting::Skip => s,
        Accounting::RecordTx => apply_update(s, StoreUpdate::Tx(now)),
        Accounting::RecordRx => apply_update(s, StoreUpdate::Rx(now)),
    }
}

/// The verdict a bare direction maps to, once the packet has passed every
/// filter.
pub open spec fn spec_direction_accounting(direction: PacketDirection) -> Accounting {
    match direction {
        PacketDirection::Sending => Accounting::RecordTx,
        PacketDirection::Receiving => Accounting::RecordRx,
        PacketDirection::Unknown => Accounting::Skip,
    }
}

/// Record a packet that passed every filter: a transmission updates the
/// TX timestamp, a reception updates both (a fresh reception is proof
/// that a prior transmission was delivered and answered, so it resets
/// TX), an unknown direction records nothing.
pub fn update_state_rxtx(state: &mut SharedData, direction: &PacketDirection, now: u64)
    ensures
        *final(state) == spec_apply_accounting(
            *old(state),
            spec_direction_accounting(*direction),
            now,
        ),
{
    match direction {
        PacketDirection::Sending => state.record_tx(now),
        PacketDirection::Receiving => state.record_rx(now),
        PacketDirection::Unknown => (),
    }
}

/// Classify an IPv4 packet and account it in the store.
pub fn handle_ipv4_packet(
    state: &mut SharedData,
    payload: &[u8],
    direction: PacketDirection,
    now: u64,
)
    ensures
        *final(state) == spec_apply_accounting(
            *old(state),
            spec_classify_ipv4(payload@, direction),
            now,
        ),
{
    if payload.len() < IPV4_HEADER_MIN_LEN {
        return ;
    }
    if direction == PacketDirection::Unknown {
        return ;
    }
    let src_local = ipv4_private(payload[12], payload[13]);
    let dst_local = ipv4_private(payload[16], payload[17]);
    if (src_local && direction == PacketDirection::Receiving) || (src_local && dst_local) {
        return ;
    }
    if ipv4_broadcast(payload[12], payload[13], payload[14], payload[15]) || ipv4_broadcast(
        payload[16],
        payload[17],
        payload[18],
        payload[19],
    ) {
        return ;
    }
    let proto = payload[9];
    if !allowed_protocol(proto) {
        return ;
    }
    if direction == PacketDirection::Sending && proto == PROTO_UDP {
        return ;
    }
    update_state_rxtx(state, &direction, now);
}

/// Classify an IPv6 packet and account it in the store.
pub fn handle_ipv6_packet(
    state: &mut SharedData,
    payload: &[u8],
    direction: PacketDirection,
    now: u64,
)
    ensures
        *final(state) == spec_apply_accounting(
            *old(state),
            spec_classify_ipv6(payload@, direction),
            now,
        ),
{
    if payload.len() < IPV6_HEADER_LEN {
        return ;
    }
    if direction == PacketDirection::Unknown {
        return ;
    }
    let src_local = ipv6_link_local(payload[8], payload[9]);
    let dst_local = ipv6_link_local(payload[24], payload[25]);
    if (src_local && direction == PacketDirection::Receiving) || (src_local && dst_local) {
        return ;
    }
    let proto = payload[6];
    if !allowed_protocol(proto) {
        return ;
    }
    if direction == PacketDirection::Sending && proto == PROTO_UDP {
        return ;
    }
    update_state_rxtx(state, &direction, now);
}

/// Classify a whole captured frame and account it in the store at clock
/// sample `now`.
pub fn handle_ethernet_frame(
    state: &mut SharedData,
    iface_mac: &Option<[u8; 6]>,
    frame: &[u8],
    now: u64,
)
    ensures
        *final(state) == spec_apply_accounting(
            *old(state),
            spec_classify_frame(frame@, *iface_mac),
            now,
        ),
{
    if frame.len() < ETHERNET_HEADER_LEN {
        return ;
    }
    let ethertype = be16(frame[12], frame[13]);
    let source_mac: [u8; 6] = [frame[6], frame[7], frame[8], frame[9], frame[10], frame[11]];
    proof {
        assert(source_mac@ =~= frame@.subrange(6, 12));
    }
    let direction = get_direction(&source_mac, iface_mac);
    if ethertype == ETHERTYPE_IPV4 {
        let payload = &frame[ETHERNET_HEADER_LEN..frame.len()];
        proof {
            assert(payload@ =~= frame@.subrange(14, frame@.len() as int));
        }
        handle_ipv4_packet(state, payload, direction, now);
    } else if ethertype == ETHERTYPE_IPV6 {
        let payload = &frame[ETHERNET_HEADER_LEN..frame.len()];
        proof {
            assert(payload@ =~= frame@.subrange(14, frame@.len() as int));
        }
        handle_ipv6_packet(state, payload, direction, now);
    }
}

/// Classify one captured frame and account it at the clock's current
/// sample. Whatever the clock returns: a skipped frame leaves the store
/// untouched, a transmission never moves RX, and a reception leaves both
/// fields equal and no lower than anything already recorded.
pub fn observe_frame(state: &mut SharedData, iface_mac: &Option<[u8; 6]>, frame: &[u8])
    ensures
        spec_classify_frame(frame@, *iface_mac) == Accounting::Skip ==> *final(state) == *old(
            state,
        ),
        spec_classify_frame(frame@, *iface_mac) == Accounting::RecordTx ==> {
            &&& final(state).last_rx_pkt == old(state).last_rx_pkt
            &&& final(state).last_tx_pkt >= old(state).last_tx_pkt
        },
        spec_classify_frame(frame@, *iface_mac) == Accounting::RecordRx ==> {
            &&& final(state).last_tx_pkt == final(state).last_rx_pkt
            &&& final(state).last_rx_pkt >= spec_max(old(state).last_tx_pkt, old(state).last_rx_pkt)
        },
{
    let now = get_now_truncated();
    handle_ethernet_frame(state, iface_mac, frame, now);
}

/// The locality filter: an inbound IPv4 frame whose source address is
/// RFC1918 private is never accounted — the store is left exactly as it
/// was, whatever the clock read.
pub proof fn lemma_locality_filter(
    frame: Seq<u8>,
    iface_mac: Option<[u8; 6]>,
    s: SharedData,
    now: u64,
)
    requires
        frame.len() >= ETHERNET_HEADER_LEN + IPV4_HEADER_MIN_LEN,
        spec_be16(frame[12], frame[13]) == ETHERTYPE_IPV4,
        spec_mac_direction(frame.subrange(6, 12), iface_mac) == PacketDirection::Receiving,
        spec_ipv4_private(frame[26], frame[27]),
    ensures
        spec_classify_frame(frame, iface_mac) == Accounting::Skip,
        spec_apply_accounting(s, spec_classify_frame(frame, iface_mac), now) == s,
{
    let p = frame.subrange(14, frame.len() as int);
    assert(p[12] == frame[26]);
    assert(p[13] == frame[27]);
}

} // verus!
