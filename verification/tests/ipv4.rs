use rawnet::checksum::compute_checksum;
use rawnet::ip4;
use rawnet::link4;
use rawnet::ntp;
use rawnet::udp4;
use rawnet::{EndpointV4, Unpacked};

const OUR_MAC: [u8; 6] = [0x02, 0x11, 0x22, 0x33, 0x44, 0x55];
const GW_MAC: [u8; 6] = [0x02, 0xAA, 0xBB, 0xCC, 0xDD, 0xEE];
const OUR_IP: [u8; 4] = [192, 168, 0, 2];
const GW_IP: [u8; 4] = [192, 168, 0, 1];
const SERVER_IP: [u8; 4] = [216, 239, 35, 12];

fn src() -> EndpointV4 {
    EndpointV4 { addr: OUR_IP, port: 4567 }
}

fn dest() -> EndpointV4 {
    EndpointV4 { addr: SERVER_IP, port: 123 }
}

/// The reply a responder would send to our ARP request.
fn arp_reply_frame(sender_mac: [u8; 6], sender_ip: [u8; 4], target_mac: [u8; 6],
    target_ip: [u8; 4]) -> Vec<u8> {
    let mut f = Vec::new();
    f.extend_from_slice(&target_mac);
    f.extend_from_slice(&sender_mac);
    f.extend_from_slice(&[0x08, 0x06, 0x00, 0x01, 0x08, 0x00, 0x06, 0x04, 0x00, 0x02]);
    f.extend_from_slice(&sender_mac);
    f.extend_from_slice(&sender_ip);
    f.extend_from_slice(&target_mac);
    f.extend_from_slice(&target_ip);
    f
}

#[test]
fn ntp_request_payload_bytes() {
    let mut data = Vec::new();
    ntp::add_request_payload(&mut data);
    assert_eq!(data.len(), 48);
    assert_eq!(data[0], 0x1B);
    assert!(data[1..].iter().all(|&b| b == 0));
}

#[test]
fn ntp_timestamp_formatting() {
    // seconds field 3_806_528_257 NTP seconds, which is 1_597_539_457
    // seconds past the Unix epoch
    let mut payload = [0u8; 48];
    payload[40] = 0xE2;
    payload[41] = 0xE3;
    payload[42] = 0x03;
    payload[43] = 0x01;
    assert_eq!(ntp::get_timestamp(&payload).unwrap(), "2020-08-16 00:57:37");
}

#[test]
fn ntp_timestamp_short_payload() {
    let payload = [0u8; 47];
    assert!(ntp::get_timestamp(&payload).is_none());
}

#[test]
fn udp_segment_bytes() {
    let data = udp4::create_packet(123, 4567);
    assert_eq!(data.len(), 56);
    // source port 4567 = 0x11D7, destination port 123, length 56,
    // zero checksum
    assert_eq!(&data[0..8], &[0x11, 0xD7, 0x00, 0x7B, 0x00, 56, 0x00, 0x00]);
    assert_eq!(data[8], 0x1B);
}

#[test]
fn udp_unpack_wrong_port() {
    let data = udp4::create_packet(123, 4567);
    assert!(udp4::unpack(&data, 4567, 123).is_some());
    assert!(udp4::unpack(&data, 4568, 123).is_none());
    assert!(udp4::unpack(&data, 4567, 124).is_none());
}

#[test]
fn ip_packet_checksum_verifies() {
    let packet = ip4::create_ip_packet(&src(), &dest());
    assert_eq!(packet.len(), 76);
    assert_eq!(packet[0], 0x45);
    assert_eq!(&packet[2..4], &[0x00, 76]);
    // recomputing the header checksum over the finished header, field
    // included, yields zero
    assert_eq!(compute_checksum(&packet[0..20]), 0x0000);
}

#[test]
fn roundtrip_recovers_timestamp() {
    // the request payload carries a zero transmit timestamp: the start
    // of the NTP epoch
    let frame = link4::create_ethernet_packet(&GW_MAC, &OUR_MAC, &src(), &dest());
    match link4::unwrap_ethernet_packet(&frame, &OUR_MAC, &GW_MAC, &src(), &dest()) {
        Unpacked::Time(s) => assert_eq!(s, "1900-01-01 00:00:00"),
        _ => panic!("expected a timestamp"),
    }
}

#[test]
fn ethernet_unpack_wrong_mac() {
    let frame = link4::create_ethernet_packet(&GW_MAC, &OUR_MAC, &src(), &dest());
    match link4::unwrap_ethernet_packet(&frame, &GW_MAC, &OUR_MAC, &src(), &dest()) {
        Unpacked::NoMatch => {}
        _ => panic!("expected no match"),
    }
}

#[test]
fn ip_bit_flip_is_corruption() {
    let packet = ip4::create_ip_packet(&src(), &dest());
    // flip one bit in each header byte outside the header-length nibble
    for k in 0..20 {
        let mut flipped = packet.clone();
        flipped[k] ^= 0x80;
        match ip4::unpack(&flipped, &src(), &dest()) {
            Unpacked::Corrupt => {}
            _ => panic!("flip in byte {} not detected", k),
        }
    }
    // a flip inside the stored checksum field is detected as well
    let mut flipped = packet.clone();
    flipped[10] ^= 0x01;
    assert!(matches!(ip4::unpack(&flipped, &src(), &dest()), Unpacked::Corrupt));
}

#[test]
fn ip_unpack_wrong_protocol() {
    let mut packet = ip4::create_ip_packet(&src(), &dest());
    packet[9] = 6;
    // fix the checksum for the changed protocol byte
    packet[10] = 0;
    packet[11] = 0;
    let c = compute_checksum(&packet[0..20]);
    packet[10] = (c >> 8) as u8;
    packet[11] = (c & 0xFF) as u8;
    assert!(matches!(ip4::unpack(&packet, &src(), &dest()), Unpacked::NoMatch));
}

#[test]
fn arp_request_bytes() {
    let frame = link4::create_arp(OUR_MAC, OUR_IP, GW_IP);
    assert_eq!(frame.len(), 42);
    assert_eq!(&frame[0..6], &[0xFF; 6]);
    assert_eq!(&frame[6..12], &OUR_MAC);
    assert_eq!(&frame[12..14], &[0x08, 0x06]);
    assert_eq!(&frame[14..22], &[0x00, 0x01, 0x08, 0x00, 0x06, 0x04, 0x00, 0x01]);
    assert_eq!(&frame[22..28], &OUR_MAC);
    assert_eq!(&frame[28..32], &OUR_IP);
    assert_eq!(&frame[32..38], &[0x00; 6]);
    assert_eq!(&frame[38..42], &GW_IP);
}

#[test]
fn arp_reply_roundtrip() {
    let reply = arp_reply_frame(GW_MAC, GW_IP, OUR_MAC, OUR_IP);
    assert_eq!(link4::unwrap_arp(&reply, OUR_MAC, OUR_IP, GW_IP), Some(GW_MAC));
}

#[test]
fn arp_reply_wrong_opcode() {
    let mut reply = arp_reply_frame(GW_MAC, GW_IP, OUR_MAC, OUR_IP);
    reply[21] = 0x01;
    assert_eq!(link4::unwrap_arp(&reply, OUR_MAC, OUR_IP, GW_IP), None);
}

#[test]
fn arp_reply_wrong_sender_ip() {
    let reply = arp_reply_frame(GW_MAC, [10, 0, 0, 9], OUR_MAC, OUR_IP);
    assert_eq!(link4::unwrap_arp(&reply, OUR_MAC, OUR_IP, GW_IP), None);
}

#[test]
fn arp_reply_wrong_target_mac() {
    let reply = arp_reply_frame(GW_MAC, GW_IP, [0x02, 0, 0, 0, 0, 1], OUR_IP);
    assert_eq!(link4::unwrap_arp(&reply, OUR_MAC, OUR_IP, GW_IP), None);
}

#[test]
fn arp_reply_too_short() {
    let reply = arp_reply_frame(GW_MAC, GW_IP, OUR_MAC, OUR_IP);
    assert_eq!(link4::unwrap_arp(&reply[0..41], OUR_MAC, OUR_IP, GW_IP), None);
}
