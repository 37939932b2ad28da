//! The packet classifier: direction, locality, protocol and recording.

use n_rt_onl::frame::get_direction;
use n_rt_onl::frame::handle_ethernet_frame;
use n_rt_onl::frame::observe_frame;
use n_rt_onl::frame::update_state_rxtx;
use n_rt_onl::frame::PacketDirection;
use n_rt_onl::frame::PROTO_ICMP;
use n_rt_onl::frame::PROTO_TCP;
use n_rt_onl::frame::PROTO_UDP;
use n_rt_onl::ip::Ipv4Address;
use n_rt_onl::ip::Ipv6Address;
use n_rt_onl::ip::Ipv6Ext;
use n_rt_onl::shared_data::SharedData;

const IFACE_MAC: [u8; 6] = [0x02, 0x00, 0x00, 0xaa, 0xbb, 0xcc];
const PEER_MAC: [u8; 6] = [0x02, 0x00, 0x00, 0x11, 0x22, 0x33];

fn eth_frame(src_mac: [u8; 6], ethertype: u16, payload: &[u8]) -> Vec<u8> {
    let mut f = vec![0u8; 6];
    f.extend_from_slice(&src_mac);
    f.push((ethertype >> 8) as u8);
    f.push((ethertype & 0xff) as u8);
    f.extend_from_slice(payload);
    f
}

fn ipv4_packet(proto: u8, src: [u8; 4], dst: [u8; 4]) -> Vec<u8> {
    let mut p = vec![0u8; 20];
    p[0] = 0x45;
    p[9] = proto;
    p[12..16].copy_from_slice(&src);
    p[16..20].copy_from_slice(&dst);
    p
}

fn ipv6_packet(next_header: u8, src: [u8; 16], dst: [u8; 16]) -> Vec<u8> {
    let mut p = vec![0u8; 40];
    p[6] = next_header;
    p[8..24].copy_from_slice(&src);
    p[24..40].copy_from_slice(&dst);
    p
}

fn v6(first: u8, second: u8) -> [u8; 16] {
    let mut a = [0u8; 16];
    a[0] = first;
    a[1] = second;
    a[15] = 1;
    a
}

#[test]
fn direction_follows_the_source_mac() {
    assert_eq!(get_direction(&IFACE_MAC, &Some(IFACE_MAC)), PacketDirection::Sending);
    assert_eq!(get_direction(&PEER_MAC, &Some(IFACE_MAC)), PacketDirection::Receiving);
    assert_eq!(get_direction(&PEER_MAC, &None), PacketDirection::Unknown);
}

#[test]
fn inbound_private_ipv4_is_never_accounted() {
    // The locality filter: an RFC1918 source on a received frame leaves
    // the store exactly as it was.
    let mut store = SharedData::new(500);
    let pkt = ipv4_packet(PROTO_TCP, [192, 168, 1, 5], [10, 0, 0, 7]);
    let frame = eth_frame(PEER_MAC, 0x0800, &pkt);
    handle_ethernet_frame(&mut store, &Some(IFACE_MAC), &frame, 9_999);
    assert_eq!(store.last_rx_pkt, 500);
    assert_eq!(store.last_tx_pkt, 500);
}

#[test]
fn private_to_private_outbound_is_not_accounted() {
    // Scenario: traffic entirely between 192.168/16 endpoints never
    // advances the timestamps, in either direction.
    let mut store = SharedData::new(500);
    let pkt = ipv4_packet(PROTO_TCP, [192, 168, 1, 5], [192, 168, 1, 9]);
    let out = eth_frame(IFACE_MAC, 0x0800, &pkt);
    let inb = eth_frame(PEER_MAC, 0x0800, &pkt);
    handle_ethernet_frame(&mut store, &Some(IFACE_MAC), &out, 9_999);
    handle_ethernet_frame(&mut store, &Some(IFACE_MAC), &inb, 9_999);
    assert_eq!(store.snapshot(), (500, 500));
}

#[test]
fn outbound_tcp_to_public_updates_tx_only() {
    let mut store = SharedData::new(500);
    let pkt = ipv4_packet(PROTO_TCP, [192, 168, 1, 5], [1, 1, 1, 1]);
    let frame = eth_frame(IFACE_MAC, 0x0800, &pkt);
    handle_ethernet_frame(&mut store, &Some(IFACE_MAC), &frame, 2_000);
    assert_eq!(store.last_tx_pkt, 2_000);
    assert_eq!(store.last_rx_pkt, 500);
}

#[test]
fn inbound_public_tcp_resets_both_timestamps() {
    let mut store = SharedData::new(500);
    store.record_tx(1_000);
    let pkt = ipv4_packet(PROTO_TCP, [1, 1, 1, 1], [192, 168, 1, 5]);
    let frame = eth_frame(PEER_MAC, 0x0800, &pkt);
    handle_ethernet_frame(&mut store, &Some(IFACE_MAC), &frame, 3_000);
    assert_eq!(store.last_rx_pkt, 3_000);
    assert_eq!(store.last_tx_pkt, 3_000);
}

#[test]
fn broadcast_is_not_accounted() {
    let mut store = SharedData::new(500);
    let pkt = ipv4_packet(PROTO_TCP, [8, 8, 8, 8], [255, 255, 255, 255]);
    let frame = eth_frame(PEER_MAC, 0x0800, &pkt);
    handle_ethernet_frame(&mut store, &Some(IFACE_MAC), &frame, 9_999);
    assert_eq!(store.snapshot(), (500, 500));
}

#[test]
fn outbound_udp_does_not_count_as_tx_evidence() {
    // Unanswered outbound UDP must not mask an outage.
    let mut store = SharedData::new(500);
    let pkt = ipv4_packet(PROTO_UDP, [192, 168, 1, 5], [1, 1, 1, 1]);
    let frame = eth_frame(IFACE_MAC, 0x0800, &pkt);
    handle_ethernet_frame(&mut store, &Some(IFACE_MAC), &frame, 9_999);
    assert_eq!(store.snapshot(), (500, 500));
}

#[test]
fn inbound_udp_still_counts_as_rx() {
    let mut store = SharedData::new(500);
    let pkt = ipv4_packet(PROTO_UDP, [1, 1, 1, 1], [192, 168, 1, 5]);
    let frame = eth_frame(PEER_MAC, 0x0800, &pkt);
    handle_ethernet_frame(&mut store, &Some(IFACE_MAC), &frame, 4_000);
    assert_eq!(store.snapshot(), (4_000, 4_000));
}

#[test]
fn unsupported_protocol_is_not_accounted() {
    // Scenario: a flood of frames that are not TCP/UDP/ICMP — here OSPF
    // (89) and a non-IP ethertype (ARP) — must not move the timestamps.
    let mut store = SharedData::new(500);
    let pkt = ipv4_packet(89, [1, 1, 1, 1], [9, 9, 9, 9]);
    let frame = eth_frame(PEER_MAC, 0x0800, &pkt);
    handle_ethernet_frame(&mut store, &Some(IFACE_MAC), &frame, 9_999);
    let arp = eth_frame(PEER_MAC, 0x0806, &[0u8; 28]);
    handle_ethernet_frame(&mut store, &Some(IFACE_MAC), &arp, 9_999);
    assert_eq!(store.snapshot(), (500, 500));
}

#[test]
fn unknown_direction_drops_the_packet() {
    let mut store = SharedData::new(500);
    let pkt = ipv4_packet(PROTO_ICMP, [1, 1, 1, 1], [9, 9, 9, 9]);
    let frame = eth_frame(PEER_MAC, 0x0800, &pkt);
    handle_ethernet_frame(&mut store, &None, &frame, 9_999);
    assert_eq!(store.snapshot(), (500, 500));
}

#[test]
fn truncated_headers_are_not_accounted() {
    let mut store = SharedData::new(500);
    let short_v4 = eth_frame(PEER_MAC, 0x0800, &[0u8; 19]);
    handle_ethernet_frame(&mut store, &Some(IFACE_MAC), &short_v4, 9_999);
    let short_v6 = eth_frame(PEER_MAC, 0x86dd, &[0u8; 39]);
    handle_ethernet_frame(&mut store, &Some(IFACE_MAC), &short_v6, 9_999);
    let tiny = [0u8; 13];
    handle_ethernet_frame(&mut store, &Some(IFACE_MAC), &tiny, 9_999);
    assert_eq!(store.snapshot(), (500, 500));
}

#[test]
fn inbound_link_local_ipv6_is_never_accounted() {
    // fe9a:: lies in fe80::/10 even though its first segment is not
    // 0xfe80; the filter must catch it.
    let mut store = SharedData::new(500);
    for src in [v6(0xfe, 0x80), v6(0xfe, 0x9a), v6(0xfe, 0xbf)] {
        let pkt = ipv6_packet(PROTO_TCP, src, v6(0x20, 0x01));
        let frame = eth_frame(PEER_MAC, 0x86dd, &pkt);
        handle_ethernet_frame(&mut store, &Some(IFACE_MAC), &frame, 9_999);
    }
    assert_eq!(store.snapshot(), (500, 500));
}

#[test]
fn inbound_public_ipv6_is_accounted() {
    // fec0:: is just outside fe80::/10 and must not be filtered.
    let mut store = SharedData::new(500);
    let pkt = ipv6_packet(PROTO_TCP, v6(0xfe, 0xc0), v6(0x20, 0x01));
    let frame = eth_frame(PEER_MAC, 0x86dd, &pkt);
    handle_ethernet_frame(&mut store, &Some(IFACE_MAC), &frame, 6_000);
    assert_eq!(store.snapshot(), (6_000, 6_000));
}

#[test]
fn address_predicates_follow_iana() {
    assert!(Ipv4Address { octets: [10, 0, 0, 1] }.is_private());
    assert!(Ipv4Address { octets: [172, 16, 0, 1] }.is_private());
    assert!(Ipv4Address { octets: [172, 31, 255, 1] }.is_private());
    assert!(!Ipv4Address { octets: [172, 32, 0, 1] }.is_private());
    assert!(Ipv4Address { octets: [192, 168, 0, 1] }.is_private());
    assert!(!Ipv4Address { octets: [192, 167, 0, 1] }.is_private());
    assert!(!Ipv4Address { octets: [8, 8, 8, 8] }.is_private());
    assert!(Ipv4Address { octets: [255, 255, 255, 255] }.is_broadcast());
    assert!(!Ipv4Address { octets: [255, 255, 255, 0] }.is_broadcast());
    assert!(Ipv6Address { octets: v6(0xfe, 0x80) }.is_link_local());
    assert!(Ipv6Address { octets: v6(0xfe, 0xbf) }.is_link_local());
    assert!(!Ipv6Address { octets: v6(0xfe, 0xc0) }.is_link_local());
    assert!(!Ipv6Address { octets: v6(0xfe, 0x7f) }.is_link_local());
    assert!(!Ipv6Address { octets: v6(0x20, 0x01) }.is_link_local());
}

#[test]
fn observe_frame_accounts_at_the_live_clock() {
    // Through the real clock: an accountable reception leaves both
    // fields equal and moved forward; a filtered one changes nothing.
    let mut store = SharedData::new(0);
    let pkt = ipv4_packet(PROTO_TCP, [1, 1, 1, 1], [192, 168, 1, 5]);
    let frame = eth_frame(PEER_MAC, 0x0800, &pkt);
    observe_frame(&mut store, &Some(IFACE_MAC), &frame);
    assert_eq!(store.last_tx_pkt, store.last_rx_pkt);
    assert!(store.last_rx_pkt > 0);

    let before = store.snapshot();
    let private = ipv4_packet(PROTO_TCP, [192, 168, 1, 7], [192, 168, 1, 5]);
    let filtered = eth_frame(PEER_MAC, 0x0800, &private);
    observe_frame(&mut store, &Some(IFACE_MAC), &filtered);
    assert_eq!(store.snapshot(), before);
}

#[test]
fn update_state_rxtx_maps_direction_to_fields() {
    let mut store = SharedData::new(100);
    update_state_rxtx(&mut store, &PacketDirection::Sending, 200);
    assert_eq!(store.snapshot(), (200, 100));
    update_state_rxtx(&mut store, &PacketDirection::Receiving, 300);
    assert_eq!(store.snapshot(), (300, 300));
    update_state_rxtx(&mut store, &PacketDirection::Unknown, 400);
    assert_eq!(store.snapshot(), (300, 300));
}
