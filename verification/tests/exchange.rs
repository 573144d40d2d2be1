use rawnet::exchange::{
    arp_resolve_step, discovery_resolve_step, query_step_v4, query_step_v6, QueryPhase,
    ResolvePhase, ARP_TIMEOUT_MS, DISCOVERY_TIMEOUT_MS, QUERY_TIMEOUT_MS,
};
use rawnet::link4;
use rawnet::link6;
use rawnet::{EndpointV4, EndpointV6};

const OUR_MAC: [u8; 6] = [0x02, 0x11, 0x22, 0x33, 0x44, 0x55];
const GW_MAC: [u8; 6] = [0x02, 0xAA, 0xBB, 0xCC, 0xDD, 0xEE];
const OUR_IP: [u8; 4] = [192, 168, 0, 2];
const GW_IP: [u8; 4] = [192, 168, 0, 1];

fn arp_reply_frame() -> Vec<u8> {
    let mut f = Vec::new();
    f.extend_from_slice(&OUR_MAC);
    f.extend_from_slice(&GW_MAC);
    f.extend_from_slice(&[0x08, 0x06, 0x00, 0x01, 0x08, 0x00, 0x06, 0x04, 0x00, 0x02]);
    f.extend_from_slice(&GW_MAC);
    f.extend_from_slice(&GW_IP);
    f.extend_from_slice(&OUR_MAC);
    f.extend_from_slice(&OUR_IP);
    f
}

#[test]
fn arp_step_resolves_on_match() {
    // a matching reply resolves, even past the deadline
    let reply = arp_reply_frame();
    assert!(matches!(
        arp_resolve_step(&reply, OUR_MAC, OUR_IP, GW_IP, 0),
        ResolvePhase::Resolved(m) if m == GW_MAC
    ));
    assert!(matches!(
        arp_resolve_step(&reply, OUR_MAC, OUR_IP, GW_IP, ARP_TIMEOUT_MS + 1000),
        ResolvePhase::Resolved(m) if m == GW_MAC
    ));
}

#[test]
fn arp_step_times_out_without_match() {
    // a foreign frame keeps the phase waiting until the bound elapses,
    // and never resolves
    let noise = vec![0u8; 64];
    assert!(matches!(
        arp_resolve_step(&noise, OUR_MAC, OUR_IP, GW_IP, ARP_TIMEOUT_MS),
        ResolvePhase::AwaitingReply
    ));
    assert!(matches!(
        arp_resolve_step(&noise, OUR_MAC, OUR_IP, GW_IP, ARP_TIMEOUT_MS + 1),
        ResolvePhase::TimedOut
    ));
}

#[test]
fn discovery_step_outcomes() {
    let mut frame = vec![0u8; 62];
    frame[0..6].copy_from_slice(&[0x33, 0x33, 0, 0, 0, 1]);
    frame[6..12].copy_from_slice(&GW_MAC);
    frame[12] = 0x86;
    frame[13] = 0xDD;
    frame[14 + 6] = 58;
    frame[14 + 40] = 134;
    assert!(matches!(
        discovery_resolve_step(&frame, DISCOVERY_TIMEOUT_MS + 1),
        ResolvePhase::Resolved(m) if m == GW_MAC
    ));
    // type 135 announces no router
    frame[14 + 40] = 135;
    assert!(matches!(
        discovery_resolve_step(&frame, DISCOVERY_TIMEOUT_MS),
        ResolvePhase::AwaitingReply
    ));
    assert!(matches!(
        discovery_resolve_step(&frame, DISCOVERY_TIMEOUT_MS + 1),
        ResolvePhase::TimedOut
    ));
}

#[test]
fn query_step_v4_outcomes() {
    let src = EndpointV4 { addr: OUR_IP, port: 4567 };
    let dest = EndpointV4 { addr: [216, 239, 35, 12], port: 123 };
    let frame = link4::create_ethernet_packet(&GW_MAC, &OUR_MAC, &src, &dest);
    assert!(matches!(
        query_step_v4(&frame, &OUR_MAC, &GW_MAC, &src, &dest, QUERY_TIMEOUT_MS + 1),
        QueryPhase::Done(s) if s == "1900-01-01 00:00:00"
    ));
    // a corrupt header aborts the phase
    let mut corrupt = frame.clone();
    corrupt[14 + 12] ^= 0x01;
    assert!(matches!(
        query_step_v4(&corrupt, &OUR_MAC, &GW_MAC, &src, &dest, 0),
        QueryPhase::Corrupted
    ));
    // noise keeps the phase waiting until the bound elapses
    let noise = vec![0u8; 64];
    assert!(matches!(
        query_step_v4(&noise, &OUR_MAC, &GW_MAC, &src, &dest, QUERY_TIMEOUT_MS),
        QueryPhase::AwaitingReply
    ));
    assert!(matches!(
        query_step_v4(&noise, &OUR_MAC, &GW_MAC, &src, &dest, QUERY_TIMEOUT_MS + 1),
        QueryPhase::TimedOut
    ));
}

#[test]
fn query_step_v6_outcomes() {
    let src = EndpointV6 {
        addr: [0x20, 0x01, 0x0D, 0xB8, 0, 0, 0, 0, 0, 0, 0, 0, 0, 0, 0, 0x42],
        port: 4567,
    };
    let dest = EndpointV6 {
        addr: [0x20, 0x01, 0x48, 0x60, 0x48, 0x06, 0x00, 0x04, 0, 0, 0, 0, 0, 0, 0, 0],
        port: 123,
    };
    let frame = link6::create_ethernet_packet(&GW_MAC, &OUR_MAC, &src, &dest);
    assert!(matches!(
        query_step_v6(&frame, &OUR_MAC, &GW_MAC, &src, &dest, 0),
        QueryPhase::Done(s) if s == "1900-01-01 00:00:00"
    ));
    let mut corrupt = frame.clone();
    let last = corrupt.len() - 1;
    corrupt[last] ^= 0x01;
    assert!(matches!(
        query_step_v6(&corrupt, &OUR_MAC, &GW_MAC, &src, &dest, 0),
        QueryPhase::Corrupted
    ));
    let noise = vec![0u8; 64];
    assert!(matches!(
        query_step_v6(&noise, &OUR_MAC, &GW_MAC, &src, &dest, QUERY_TIMEOUT_MS + 1),
        QueryPhase::TimedOut
    ));
}
