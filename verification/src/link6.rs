//! Link layer (Ethernet) for the IPv6 path: framing of the IPv6 datagram
//! and of the ICMPv6 router discovery messages.

use vstd::prelude::*;
use vstd::slice::slice_subrange;
use crate::buf::{eq_at, push_slice};
use crate::ip6::{
    create_ip_packet, icmpv6_check_neighbor, icmpv6_create_router_solicitation, ip6_packet,
    ip6_parse, router_neighbor_signal, rs_packet, unpack as ip_unpack,
};
use crate::{EndpointV6, ParsedFrame, Unpacked};

verus! {

/// The Ethernet frame wrapping the IPv6 datagram: destination MAC,
/// source MAC, EtherType 0x86DD, then the datagram.
pub open spec fn eth6_frame(
    src_mac: [u8; 6],
    dest_mac: [u8; 6],
    src: EndpointV6,
    dest: EndpointV6,
) -> Seq<u8> {
    dest_mac@ + src_mac@ + seq![0x86u8, 0xDDu8] + ip6_packet(src, dest)
}

/// What parsing an inbound Ethernet frame yields: the result of the IPv6
/// layer when the frame is addressed to us, comes from the gateway and
/// carries IPv6; no match otherwise.
pub open spec fn eth6_parse(
    frame: Seq<u8>,
    our_mac: [u8; 6],
    gateway_mac: [u8; 6],
    src: EndpointV6,
    dest: EndpointV6,
) -> ParsedFrame {
    if frame.len() < 14 {
        ParsedFrame::NoMatch
    } else if frame.subrange(0, 6) == our_mac@ && frame.subrange(6, 12) == gateway_mac@
        && frame.subrange(12, 14) == seq![0x86u8, 0xDDu8] {
        ip6_parse(frame.skip(14), src, dest)
    } else {
        ParsedFrame::NoMatch
    }
}

/// The source MAC of a frame that announces a router: present when the
/// frame carries IPv6 and its payload is a router/neighbor advertisement
/// with the router flag.
pub open spec fn icmp_router_source(frame: Seq<u8>) -> Option<Seq<u8>> {
    if frame.len() >= 14 && frame.subrange(12, 14) == seq![0x86u8, 0xDDu8]
        && router_neighbor_signal(frame.skip(14)) {
        Some(frame.subrange(6, 12))
    } else {
        None
    }
}

/// The Ethernet frame wrapping the Router Solicitation, addressed to the
/// all-routers multicast MAC address.
pub open spec fn eth_rs_frame(our_mac: [u8; 6], our_ip: Seq<u8>) -> Seq<u8> {
    seq![0x33u8, 0x33u8, 0u8, 0u8, 0u8, 0x02u8] + our_mac@ + seq![0x86u8, 0xDDu8] + rs_packet(
        our_ip,
    )
}

/// Builds the Ethernet frame carrying the IPv6 NTP request.
pub fn create_ethernet_packet(
    src_mac: &[u8; 6],
    dest_mac: &[u8; 6],
    src: &EndpointV6,
    dest: &EndpointV6,
) -> (r: Vec<u8>)
    ensures
        r@ == eth6_frame(*src_mac, *dest_mac, *src, *dest),
{
    let mut frame: Vec<u8> = Vec::new();
    push_slice(&mut frame, dest_mac.as_slice());
    push_slice(&mut frame, src_mac.as_slice());
    // EtherType 0x86DD (IPv6)
    frame.push(0x86);
    frame.push(0xDD);
    create_ip_packet(&mut frame, src, dest);
    proof {
        assert(frame@ =~= eth6_frame(*src_mac, *dest_mac, *src, *dest));
    }
    frame
}

/// Parses an inbound Ethernet frame bottom-up through the IPv6, UDP and
/// NTP layers, yielding the reply's formatted timestamp when every layer
/// matches.
pub fn unpack_ethernet_packet(
    frame: &[u8],
    our_mac: &[u8; 6],
    gateway_mac: &[u8; 6],
    src: &EndpointV6,
    dest: &EndpointV6,
) -> (r: Unpacked)
    ensures
        r@ == eth6_parse(frame@, *our_mac, *gateway_mac, *src, *dest),
{
    if frame.len() < 14 {
        return Unpacked::NoMatch;
    }
    // check we are destination and the gateway is the source
    if !eq_at(frame, 0, our_mac.as_slice()) {
        return Unpacked::NoMatch;
    }
    if !eq_at(frame, 6, gateway_mac.as_slice()) {
        return Unpacked::NoMatch;
    }
    // check EtherType
    let ethertype: [u8; 2] = [0x86, 0xDD];
    if !eq_at(frame, 12, ethertype.as_slice()) {
        return Unpacked::NoMatch;
    }
    let rest = slice_subrange(frame, 14, frame.len());
    proof {
        assert(rest@ =~= frame@.skip(14));
    }
    ip_unpack(rest, src, dest)
}

/// Checks whether an inbound frame announces a router and, if so,
/// returns its source MAC address as the discovered gateway.
pub fn unpack_icmp(frame: &[u8]) -> (r: Option<[u8; 6]>)
    ensures
        (r is Some <==> icmp_router_source(frame@) is Some),
        r matches Some(m) ==> icmp_router_source(frame@) == Some(m@),
{
    if frame.len() < 14 {
        return None;
    }
    // Check EtherType
    let ethertype: [u8; 2] = [0x86, 0xDD];
    if !eq_at(frame, 12, ethertype.as_slice()) {
        return None;
    }
    // Save possible source (the router?)
    let src: [u8; 6] = [frame[6], frame[7], frame[8], frame[9], frame[10], frame[11]];
    let rest = slice_subrange(frame, 14, frame.len());
    proof {
        assert(rest@ =~= frame@.skip(14));
        assert(src@ =~= frame@.subrange(6, 12));
    }
    // Check if it announces a router, and if yes, return its MAC
    if icmpv6_check_neighbor(rest) {
        Some(src)
    } else {
        None
    }
}

/// Builds the Ethernet frame carrying the ICMPv6 Router Solicitation.
pub fn create_eth_router_solicitation(our_mac: &[u8; 6], ip: &[u8; 16]) -> (r: Vec<u8>)
    ensures
        r@ == eth_rs_frame(*our_mac, ip@),
{
    let mut frame: Vec<u8> = Vec::new();
    // destination: all-routers multicast MAC
    let routers_mac: [u8; 6] = [0x33, 0x33, 0x00, 0x00, 0x00, 0x02];
    push_slice(&mut frame, routers_mac.as_slice());
    push_slice(&mut frame, our_mac.as_slice());
    // EtherType 0x86DD (IPv6)
    frame.push(0x86);
    frame.push(0xDD);
    icmpv6_create_router_solicitation(&mut frame, ip);
    proof {
        assert(frame@ =~= eth_rs_frame(*our_mac, ip@));
    }
    frame
}

/// Round trip: parsing the frame we built, addressed back to us, walks
/// every layer down to the NTP payload — the pseudo-header checksum
/// verifies — and recovers the formatted timestamp it carries.
pub proof fn lemma_ip_frame_roundtrip_v6(
    our_mac: [u8; 6],
    gateway_mac: [u8; 6],
    src: EndpointV6,
    dest: EndpointV6,
)
    ensures
        eth6_parse(eth6_frame(gateway_mac, our_mac, src, dest), our_mac, gateway_mac, src, dest)
            == ParsedFrame::Time(crate::ntp::unix_time_string(-crate::ntp::ntp_unix_offset())),
{
    let f = eth6_frame(gateway_mac, our_mac, src, dest);
    let p = ip6_packet(src, dest);
    assert(f.len() == 14 + p.len());
    assert(f.subrange(0, 6) =~= our_mac@);
    assert(f.subrange(6, 12) =~= gateway_mac@);
    assert(f.subrange(12, 14) =~= seq![0x86u8, 0xDDu8]);
    assert(f.skip(14) =~= p);
    crate::ip6::lemma_ip6_packet_parses(src, dest);
}

} // verus!
