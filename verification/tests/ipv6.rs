use rawnet::checksum::compute_checksum;
use rawnet::ip6;
use rawnet::link6;
use rawnet::{EndpointV6, Unpacked};

const OUR_MAC: [u8; 6] = [0x02, 0x11, 0x22, 0x33, 0x44, 0x55];
const GW_MAC: [u8; 6] = [0x02, 0xAA, 0xBB, 0xCC, 0xDD, 0xEE];
const OUR_IP: [u8; 16] = [0x20, 0x01, 0x0D, 0xB8, 0, 0, 0, 0, 0, 0, 0, 0, 0, 0, 0, 0x42];
const SERVER_IP: [u8; 16] = [0x20, 0x01, 0x48, 0x60, 0x48, 0x06, 0x00, 0x04, 0, 0, 0, 0, 0, 0,
    0, 0];

fn src() -> EndpointV6 {
    EndpointV6 { addr: OUR_IP, port: 4567 }
}

fn dest() -> EndpointV6 {
    EndpointV6 { addr: SERVER_IP, port: 123 }
}

/// An IPv6 datagram that only carries an ICMPv6 type and flags byte.
fn icmp_frame(next_header: u8, icmp_type: u8, flags: u8) -> Vec<u8> {
    let mut ip = vec![0u8; 48];
    ip[0] = 0x60;
    ip[6] = next_header;
    ip[40] = icmp_type;
    ip[44] = flags;
    ip
}

fn eth_wrap(src_mac: [u8; 6], payload: &[u8]) -> Vec<u8> {
    let mut f = Vec::new();
    f.extend_from_slice(&[0x33, 0x33, 0x00, 0x00, 0x00, 0x01]);
    f.extend_from_slice(&src_mac);
    f.extend_from_slice(&[0x86, 0xDD]);
    f.extend_from_slice(payload);
    f
}

#[test]
fn router_signal_cases() {
    // Router Advertisement
    assert!(ip6::icmpv6_check_neighbor(&icmp_frame(58, 134, 0)));
    // Neighbor Advertisement with the router flag
    assert!(ip6::icmpv6_check_neighbor(&icmp_frame(58, 136, 0x80)));
    // Neighbor Advertisement without the router flag
    assert!(!ip6::icmpv6_check_neighbor(&icmp_frame(58, 136, 0x7F)));
    // any other ICMPv6 type
    assert!(!ip6::icmpv6_check_neighbor(&icmp_frame(58, 133, 0x80)));
    assert!(!ip6::icmpv6_check_neighbor(&icmp_frame(58, 135, 0x80)));
    // any non-ICMPv6 next header
    assert!(!ip6::icmpv6_check_neighbor(&icmp_frame(17, 134, 0)));
    // too short to carry the type byte
    assert!(!ip6::icmpv6_check_neighbor(&icmp_frame(58, 134, 0)[0..40]));
}

#[test]
fn unpack_icmp_returns_router_mac() {
    let frame = eth_wrap(GW_MAC, &icmp_frame(58, 134, 0));
    assert_eq!(link6::unpack_icmp(&frame), Some(GW_MAC));
    let frame = eth_wrap(GW_MAC, &icmp_frame(58, 136, 0x80));
    assert_eq!(link6::unpack_icmp(&frame), Some(GW_MAC));
    let frame = eth_wrap(GW_MAC, &icmp_frame(58, 136, 0));
    assert_eq!(link6::unpack_icmp(&frame), None);
    // wrong EtherType
    let mut frame = eth_wrap(GW_MAC, &icmp_frame(58, 134, 0));
    frame[12] = 0x08;
    frame[13] = 0x00;
    assert_eq!(link6::unpack_icmp(&frame), None);
}

#[test]
fn router_solicitation_checksum_verifies() {
    let frame = link6::create_eth_router_solicitation(&OUR_MAC, &OUR_IP);
    assert_eq!(frame.len(), 14 + 40 + 8);
    assert_eq!(&frame[0..6], &[0x33, 0x33, 0x00, 0x00, 0x00, 0x02]);
    assert_eq!(&frame[12..14], &[0x86, 0xDD]);
    // ICMPv6 type 133, code 0
    assert_eq!(frame[54], 133);
    assert_eq!(frame[55], 0);
    // recompute the checksum over the pseudo-header and the message,
    // with the transmitted checksum in place: it must verify to zero
    let mut check = Vec::new();
    check.extend_from_slice(&OUR_IP);
    check.extend_from_slice(&frame[38..54]);
    check.extend_from_slice(&[0, 8, 0, 0, 0, 58]);
    check.extend_from_slice(&frame[54..62]);
    assert_eq!(compute_checksum(&check), 0x0000);
}

#[test]
fn roundtrip_v6_recovers_timestamp() {
    let frame = link6::create_ethernet_packet(&GW_MAC, &OUR_MAC, &src(), &dest());
    assert_eq!(frame.len(), 14 + 40 + 56);
    match link6::unpack_ethernet_packet(&frame, &OUR_MAC, &GW_MAC, &src(), &dest()) {
        Unpacked::Time(s) => assert_eq!(s, "1900-01-01 00:00:00"),
        _ => panic!("expected a timestamp"),
    }
}

#[test]
fn udp_v6_bit_flip_is_corruption() {
    let frame = link6::create_ethernet_packet(&GW_MAC, &OUR_MAC, &src(), &dest());
    // flip a payload byte inside the UDP segment: the pseudo-header
    // checksum no longer verifies
    let mut flipped = frame.clone();
    let last = flipped.len() - 1;
    flipped[last] ^= 0x01;
    match link6::unpack_ethernet_packet(&flipped, &OUR_MAC, &GW_MAC, &src(), &dest()) {
        Unpacked::Corrupt => {}
        _ => panic!("expected corruption"),
    }
}

#[test]
fn ip_v6_unpack_wrong_address() {
    let frame = link6::create_ethernet_packet(&GW_MAC, &OUR_MAC, &src(), &dest());
    let other = EndpointV6 { addr: [0xFE; 16], port: 4567 };
    match link6::unpack_ethernet_packet(&frame, &OUR_MAC, &GW_MAC, &src(), &other) {
        Unpacked::NoMatch => {}
        _ => panic!("expected no match"),
    }
}

#[test]
fn ip_v6_unpack_wrong_next_header() {
    let frame = link6::create_ethernet_packet(&GW_MAC, &OUR_MAC, &src(), &dest());
    let mut packet = frame[14..].to_vec();
    packet[6] = 6;
    match ip6::unpack(&packet, &src(), &dest()) {
        Unpacked::NoMatch => {}
        _ => panic!("expected no match"),
    }
}
