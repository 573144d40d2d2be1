//! IPv6 (network layer): a fixed 40-byte header around the UDP segment,
//! and the ICMPv6 messages used to discover the gateway (Router
//! Solicitation out, Router/Neighbor Advertisement in).

use vstd::prelude::*;
use vstd::slice::slice_subrange;
use crate::buf::{eq_at, push_slice};
use crate::checksum::{checksum_of, compute_checksum, hi8, lo8};
use crate::udp6::{create_packet, udp6_parse, udp6_segment, unpack as udp_unpack};
use crate::{EndpointV6, ParsedFrame, Unpacked};

verus! {

/// The complete IPv6 datagram: version 6, zero traffic class and flow
/// label, payload length 56, next header 17 (UDP), hop limit 60, the two
/// addresses, then the UDP segment.
pub open spec fn ip6_packet(src: EndpointV6, dest: EndpointV6) -> Seq<u8> {
    seq![0x60u8, 0u8, 0u8, 0u8, 0u8, 56u8, 17u8, 60u8] + src.addr@ + dest.addr@ + udp6_segment(
        dest,
        src,
    )
}

/// What parsing an inbound IPv6 datagram yields: the UDP layer's result
/// when the addresses match the expected pair and the next header is
/// UDP; no match otherwise.
pub open spec fn ip6_parse(frame: Seq<u8>, src: EndpointV6, dest: EndpointV6) -> ParsedFrame {
    if frame.len() < 40 {
        ParsedFrame::NoMatch
    } else if frame.subrange(8, 24) == src.addr@ && frame.subrange(24, 40) == dest.addr@
        && frame[6] == 17 {
        udp6_parse(frame.skip(40), src, dest)
    } else {
        ParsedFrame::NoMatch
    }
}

/// True when the frame is an ICMPv6 message announcing a router: a
/// Router Advertisement (type 134), or a Neighbor Advertisement (type
/// 136) whose router flag is set.
pub open spec fn router_neighbor_signal(frame: Seq<u8>) -> bool {
    &&& frame.len() > 40
    &&& frame[6] == 58
    &&& (frame[40] == 134 || (frame[40] == 136 && frame.len() > 44 && (frame[44] & 0x80) != 0))
}

/// The 16-byte all-routers link-local multicast address `ff02::2`.
pub open spec fn all_routers() -> Seq<u8> {
    seq![
        0xFFu8,
        0x02u8,
        0u8,
        0u8,
        0u8,
        0u8,
        0u8,
        0u8,
        0u8,
        0u8,
        0u8,
        0u8,
        0u8,
        0u8,
        0u8,
        0x02u8,
    ]
}

/// The pseudo-header the Router Solicitation checksum is computed over:
/// our address, the all-routers address, the 8-byte ICMPv6 length, the
/// next-header number 58, then the message body with a zero checksum
/// field.
pub open spec fn rs_pseudo(our_ip: Seq<u8>) -> Seq<u8> {
    our_ip + all_routers() + seq![0u8, 8u8] + seq![0u8, 0u8, 0u8, 58u8] + seq![
        133u8,
        0u8,
        0u8,
        0u8,
        0u8,
        0u8,
        0u8,
        0u8,
    ]
}

/// The IPv6 Router Solicitation datagram: a 40-byte header with next
/// header 58 (ICMPv6) and hop limit 255, addressed to the all-routers
/// multicast group, followed by the 8-byte type-133 message.
pub open spec fn rs_packet(our_ip: Seq<u8>) -> Seq<u8> {
    let c = checksum_of(rs_pseudo(our_ip));
    seq![0x60u8, 0u8, 0u8, 0u8, 0u8, 8u8, 58u8, 0xFFu8] + our_ip + all_routers() + seq![
        133u8,
        0u8,
        hi8(c),
        lo8(c),
        0u8,
        0u8,
        0u8,
        0u8,
    ]
}

/// Appends the IPv6 datagram around the UDP segment to `data`, with the
/// payload length backfilled once the segment is in place.
pub fn create_ip_packet(data: &mut Vec<u8>, src: &EndpointV6, dest: &EndpointV6)
    ensures
        final(data)@ == old(data)@ + ip6_packet(*src, *dest),
{
    // version 6, traffic class 0, flow label 0
    data.push(0x60);
    data.push(0);
    data.push(0);
    data.push(0);
    // payload length index, for the backfill below
    let plen_idx = data.len();
    // payload length (backfilled), next header 17 = UDP, hop limit 60
    data.push(0);
    data.push(0);
    data.push(17);
    data.push(60);
    // source and destination addresses
    push_slice(data, src.addr.as_slice());
    push_slice(data, dest.addr.as_slice());
    // the UDP segment
    create_packet(data, dest, src);
    // backfill the payload length: everything after the 40-byte header
    let plen: u16 = (data.len() - (plen_idx + 36)) as u16;
    data[plen_idx] = (plen / 256) as u8;
    data[plen_idx + 1] = (plen % 256) as u8;
    proof {
        assert(data@ =~= old(data)@ + ip6_packet(*src, *dest));
    }
}

/// Parses an inbound IPv6 datagram: checks the expected address pair and
/// the UDP next-header, then delegates the payload to the UDP layer.
pub fn unpack(frame: &[u8], src: &EndpointV6, dest: &EndpointV6) -> (r: Unpacked)
    ensures
        r@ == ip6_parse(frame@, *src, *dest),
{
    if frame.len() < 40 {
        return Unpacked::NoMatch;
    }
    // check we are addressed
    if !eq_at(frame, 8, src.addr.as_slice()) {
        return Unpacked::NoMatch;
    }
    if !eq_at(frame, 24, dest.addr.as_slice()) {
        return Unpacked::NoMatch;
    }
    // check the IP protocol number
    if frame[6] != 17 {
        return Unpacked::NoMatch;
    }
    let rest = slice_subrange(frame, 40, frame.len());
    proof {
        assert(rest@ =~= frame@.skip(40));
    }
    udp_unpack(rest, src, dest)
}

/// Checks whether an inbound IPv6 datagram is an ICMPv6 advertisement
/// announcing a router whose link address we may use as gateway.
pub fn icmpv6_check_neighbor(frame: &[u8]) -> (r: bool)
    ensures
        r == router_neighbor_signal(frame@),
{
    // Check if ICMPv6, with the type byte in range
    if frame.len() <= 40 || frame[6] != 58 {
        return false;
    }
    // Router advertisement announces a router directly
    if frame[40] == 134 {
        return true;
    }
    // anything but a neighbor advertisement is no signal
    if frame[40] != 136 {
        return false;
    }
    // a neighbor advertisement counts only with the router flag set
    if frame.len() <= 44 {
        return false;
    }
    frame[44] & 0x80 != 0
}

/// Appends an ICMPv6 Router Solicitation datagram to `data`, used to ask
/// the routers on the link to announce themselves.
pub fn icmpv6_create_router_solicitation(data: &mut Vec<u8>, our_ip: &[u8; 16])
    ensures
        final(data)@ == old(data)@ + rs_packet(our_ip@),
{
    // version 6, traffic class 0, flow label 0
    data.push(0x60);
    data.push(0);
    data.push(0);
    data.push(0);
    let plen_idx = data.len();
    // payload length (backfilled), next header 58 = ICMPv6, hop limit 255
    data.push(0);
    data.push(0);
    data.push(58);
    data.push(0xFF);
    // source address
    push_slice(data, our_ip.as_slice());
    // destination: all-routers link-local multicast
    let routers: [u8; 16] = [0xFF, 0x02, 0, 0, 0, 0, 0, 0, 0, 0, 0, 0, 0, 0, 0, 0x02];
    push_slice(data, routers.as_slice());
    // the ICMPv6 message: type 133 (Router Solicitation), code 0,
    // checksum (backfilled) and four reserved bytes
    let icmp_idx = data.len();
    data.push(133);
    data.push(0);
    data.push(0);
    data.push(0);
    data.push(0);
    data.push(0);
    data.push(0);
    data.push(0);
    let msg_len: u16 = (data.len() - icmp_idx) as u16;
    // the pseudo-header for the checksum
    let mut check: Vec<u8> = Vec::new();
    push_slice(&mut check, our_ip.as_slice());
    push_slice(&mut check, routers.as_slice());
    // ICMPv6 message length
    check.push((msg_len / 256) as u8);
    check.push((msg_len % 256) as u8);
    // three zero bytes and the next-header number
    check.push(0);
    check.push(0);
    check.push(0);
    check.push(58);
    // the message itself, checksum field still zero
    let msg = slice_subrange(data.as_slice(), icmp_idx, data.len());
    push_slice(&mut check, msg);
    proof {
        assert(check@ =~= rs_pseudo(our_ip@));
    }
    if check.len() % 2 == 1 {
        // align to 16-bit words
        check.push(0);
    }
    let c = compute_checksum(check.as_slice());
    // backfill the payload length and the ICMPv6 checksum
    data[plen_idx] = (msg_len / 256) as u8;
    data[plen_idx + 1] = (msg_len % 256) as u8;
    data[icmp_idx + 2] = (c / 256) as u8;
    data[icmp_idx + 3] = (c % 256) as u8;
    proof {
        assert(data@ =~= old(data)@ + rs_packet(our_ip@));
    }
}

/// Parsing the datagram we built with the same endpoint pair recovers
/// the request payload's formatted timestamp.
pub proof fn lemma_ip6_packet_parses(src: EndpointV6, dest: EndpointV6)
    ensures
        ip6_parse(ip6_packet(src, dest), src, dest) == ParsedFrame::Time(
            crate::ntp::unix_time_string(-crate::ntp::ntp_unix_offset()),
        ),
{
    let p = ip6_packet(src, dest);
    assert(p.len() == 96);
    assert(p.subrange(8, 24) =~= src.addr@);
    assert(p.subrange(24, 40) =~= dest.addr@);
    assert(p[6] == 17);
    assert(p.skip(40) =~= udp6_segment(dest, src));
    crate::udp6::lemma_udp6_segment_parses(dest, src);
}

} // verus!
