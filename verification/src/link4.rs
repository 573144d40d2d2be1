//! Link layer (Ethernet) for the IPv4 path: ARP request/reply frames to
//! resolve the gateway's MAC address, and Ethernet framing of the IPv4
//! datagram.

use vstd::prelude::*;
use vstd::slice::slice_subrange;
use crate::buf::{eq_at, push_slice};
use crate::ip4::{create_ip_packet, ip4_packet, ip4_parse, unpack as ip_unpack};
use crate::ntp::{ntp_unix_offset, unix_time_string};
use crate::{EndpointV4, ParsedFrame, Unpacked};

verus! {

/// The ARP request asking for the MAC address that owns `lookup_ip`:
/// Ethernet broadcast, EtherType 0x0806, hardware space Ethernet,
/// protocol space IPv4, opcode 1, our MAC and IP as sender, zero MAC and
/// `lookup_ip` as target.
pub open spec fn arp_request(mac: [u8; 6], curr_ip: [u8; 4], lookup_ip: [u8; 4]) -> Seq<u8> {
    seq![0xFFu8, 0xFFu8, 0xFFu8, 0xFFu8, 0xFFu8, 0xFFu8] + mac@ + seq![
        0x08u8,
        0x06u8,
        0x00u8,
        0x01u8,
        0x08u8,
        0x00u8,
        0x06u8,
        0x04u8,
        0x00u8,
        0x01u8,
    ] + mac@ + curr_ip@ + seq![0u8, 0u8, 0u8, 0u8, 0u8, 0u8] + lookup_ip@
}

/// The ARP reply a responder would send back: addressed to `target_mac`,
/// opcode 2, with the responder's own MAC and IP as sender and ours as
/// target.
pub open spec fn arp_reply(
    sender_mac: [u8; 6],
    sender_ip: [u8; 4],
    target_mac: [u8; 6],
    target_ip: [u8; 4],
) -> Seq<u8> {
    target_mac@ + sender_mac@ + seq![
        0x08u8,
        0x06u8,
        0x00u8,
        0x01u8,
        0x08u8,
        0x00u8,
        0x06u8,
        0x04u8,
        0x00u8,
        0x02u8,
    ] + sender_mac@ + sender_ip@ + target_mac@ + target_ip@
}

/// What parsing a frame as an ARP reply yields: the sender's MAC address
/// when every field matches the exchange we started, nothing otherwise.
pub open spec fn arp_parse(
    frame: Seq<u8>,
    mac: [u8; 6],
    curr_ip: [u8; 4],
    lookup_ip: [u8; 4],
) -> Option<Seq<u8>> {
    if frame.len() < 42 {
        None
    } else if frame.subrange(0, 6) == mac@ && frame.subrange(12, 14) == seq![0x08u8, 0x06u8]
        && frame.subrange(14, 18) == seq![0x00u8, 0x01u8, 0x08u8, 0x00u8] && frame.subrange(18, 22)
        == seq![0x06u8, 0x04u8, 0x00u8, 0x02u8] && frame.subrange(28, 32) == lookup_ip@
        && frame.subrange(32, 38) == mac@ && frame.subrange(38, 42) == curr_ip@ {
        Some(frame.subrange(22, 28))
    } else {
        None
    }
}

/// The Ethernet frame wrapping the IPv4 datagram: destination MAC, source
/// MAC, EtherType 0x0800, then the datagram.
pub open spec fn eth4_frame(
    src_mac: [u8; 6],
    dest_mac: [u8; 6],
    src: EndpointV4,
    dest: EndpointV4,
) -> Seq<u8> {
    dest_mac@ + src_mac@ + seq![0x08u8, 0x00u8] + ip4_packet(src, dest)
}

/// What parsing an inbound Ethernet frame yields: the result of the IPv4
/// layer when the frame is addressed to us, comes from the gateway and
/// carries IPv4; no match otherwise.
pub open spec fn eth4_parse(
    frame: Seq<u8>,
    our_mac: [u8; 6],
    gateway_mac: [u8; 6],
    src: EndpointV4,
    dest: EndpointV4,
) -> ParsedFrame {
    if frame.len() < 14 {
        ParsedFrame::NoMatch
    } else if frame.subrange(0, 6) == our_mac@ && frame.subrange(6, 12) == gateway_mac@
        && frame.subrange(12, 14) == seq![0x08u8, 0x00u8] {
        ip4_parse(frame.skip(14), src, dest)
    } else {
        ParsedFrame::NoMatch
    }
}

/// Builds the broadcast ARP request used to find the gateway's MAC
/// address.
pub fn create_arp(mac: [u8; 6], curr_ip: [u8; 4], lookup_ip: [u8; 4]) -> (r: Vec<u8>)
    ensures
        r@ == arp_request(mac, curr_ip, lookup_ip),
{
    let mut frame: Vec<u8> = Vec::new();
    // destination is broadcast
    let broadcast: [u8; 6] = [0xFF, 0xFF, 0xFF, 0xFF, 0xFF, 0xFF];
    push_slice(&mut frame, broadcast.as_slice());
    // source
    push_slice(&mut frame, mac.as_slice());
    // ethertype 0x0806, hardware space Ethernet, protocol space IPv4,
    // address lengths, opcode request
    let fixed: [u8; 10] = [0x08, 0x06, 0x00, 0x01, 0x08, 0x00, 0x06, 0x04, 0x00, 0x01];
    push_slice(&mut frame, fixed.as_slice());
    // sender MAC and IP
    push_slice(&mut frame, mac.as_slice());
    push_slice(&mut frame, curr_ip.as_slice());
    // target MAC (unknown) and IP
    let zero_mac: [u8; 6] = [0, 0, 0, 0, 0, 0];
    push_slice(&mut frame, zero_mac.as_slice());
    push_slice(&mut frame, lookup_ip.as_slice());
    proof {
        assert(frame@ =~= arp_request(mac, curr_ip, lookup_ip));
    }
    frame
}

/// Checks whether `frame` is the ARP reply answering our request and, if
/// so, returns the MAC address we asked for.
pub fn unwrap_arp(frame: &[u8], mac: [u8; 6], curr_ip: [u8; 4], lookup_ip: [u8; 4]) -> (r: Option<
    [u8; 6],
>)
    ensures
        (r is Some <==> arp_parse(frame@, mac, curr_ip, lookup_ip) is Some),
        r matches Some(m) ==> arp_parse(frame@, mac, curr_ip, lookup_ip) == Some(m@),
{
    if frame.len() < 42 {
        return None;
    }
    // Check if we are destination
    if !eq_at(frame, 0, mac.as_slice()) {
        return None;
    }
    // Check if is ARP
    let ethertype: [u8; 2] = [0x08, 0x06];
    if !eq_at(frame, 12, ethertype.as_slice()) {
        return None;
    }
    // Check Ethernet/IPv4 address spaces
    let spaces: [u8; 4] = [0x00, 0x01, 0x08, 0x00];
    if !eq_at(frame, 14, spaces.as_slice()) {
        return None;
    }
    // Check MAC/IP lengths and reply opcode
    let lengths_opcode: [u8; 4] = [0x06, 0x04, 0x00, 0x02];
    if !eq_at(frame, 18, lengths_opcode.as_slice()) {
        return None;
    }
    // sender MAC (the address we searched for)
    let outp: [u8; 6] = [frame[22], frame[23], frame[24], frame[25], frame[26], frame[27]];
    // sender IP must be the address we queried
    if !eq_at(frame, 28, lookup_ip.as_slice()) {
        return None;
    }
    // target MAC and IP must be ours
    if !eq_at(frame, 32, mac.as_slice()) {
        return None;
    }
    if !eq_at(frame, 38, curr_ip.as_slice()) {
        return None;
    }
    proof {
        assert(outp@ =~= frame@.subrange(22, 28));
    }
    Some(outp)
}

/// Builds the Ethernet frame carrying the IPv4 NTP request.
pub fn create_ethernet_packet(
    src_mac: &[u8; 6],
    dest_mac: &[u8; 6],
    src: &EndpointV4,
    dest: &EndpointV4,
) -> (r: Vec<u8>)
    ensures
        r@ == eth4_frame(*src_mac, *dest_mac, *src, *dest),
{
    let mut frame: Vec<u8> = Vec::new();
    push_slice(&mut frame, dest_mac.as_slice());
    push_slice(&mut frame, src_mac.as_slice());
    // EtherType 0x0800 (IPv4)
    frame.push(0x08);
    frame.push(0x00);
    let payload = create_ip_packet(src, dest);
    push_slice(&mut frame, payload.as_slice());
    proof {
        assert(frame@ =~= eth4_frame(*src_mac, *dest_mac, *src, *dest));
    }
    frame
}

/// Parses an inbound Ethernet frame bottom-up through the IPv4, UDP and
/// NTP layers, yielding the reply's formatted timestamp when every layer
/// matches.
pub fn unwrap_ethernet_packet(
    frame: &[u8],
    our_mac: &[u8; 6],
    gateway_mac: &[u8; 6],
    src: &EndpointV4,
    dest: &EndpointV4,
) -> (r: Unpacked)
    ensures
        r@ == eth4_parse(frame@, *our_mac, *gateway_mac, *src, *dest),
{
    if frame.len() < 14 {
        return Unpacked::NoMatch;
    }
    // check we are destination and the gateway is the source
    if !eq_at(frame, 0, our_mac.as_slice()) {
        return Unpacked::NoMatch;
    }
    if !eq_at(frame, 6, gateway_mac.as_slice()) {
        return Unpacked::NoMatch;
    }
    // check EtherType
    let ethertype: [u8; 2] = [0x08, 0x00];
    if !eq_at(frame, 12, ethertype.as_slice()) {
        return Unpacked::NoMatch;
    }
    let rest = slice_subrange(frame, 14, frame.len());
    proof {
        assert(rest@ =~= frame@.skip(14));
    }
    ip_unpack(rest, src, dest)
}

/// Parsing the reply that answers our ARP request recovers exactly the
/// sender MAC address encoded in it.
pub proof fn lemma_arp_roundtrip(
    sender_mac: [u8; 6],
    sender_ip: [u8; 4],
    target_mac: [u8; 6],
    target_ip: [u8; 4],
)
    ensures
        arp_parse(arp_reply(sender_mac, sender_ip, target_mac, target_ip), target_mac, target_ip,
            sender_ip) == Some(sender_mac@),
{
    let f = arp_reply(sender_mac, sender_ip, target_mac, target_ip);
    assert(f.len() == 42);
    assert(f.subrange(0, 6) =~= target_mac@);
    assert(f.subrange(12, 14) =~= seq![0x08u8, 0x06u8]);
    assert(f.subrange(14, 18) =~= seq![0x00u8, 0x01u8, 0x08u8, 0x00u8]);
    assert(f.subrange(18, 22) =~= seq![0x06u8, 0x04u8, 0x00u8, 0x02u8]);
    assert(f.subrange(28, 32) =~= sender_ip@);
    assert(f.subrange(32, 38) =~= target_mac@);
    assert(f.subrange(38, 42) =~= target_ip@);
    assert(f.subrange(22, 28) =~= sender_mac@);
}

/// A reply whose opcode byte is anything but 2 yields no result.
pub proof fn lemma_arp_wrong_opcode(
    sender_mac: [u8; 6],
    sender_ip: [u8; 4],
    target_mac: [u8; 6],
    target_ip: [u8; 4],
    op: u8,
)
    requires
        op != 0x02,
    ensures
        arp_parse(arp_reply(sender_mac, sender_ip, target_mac, target_ip).update(21, op),
            target_mac, target_ip, sender_ip) is None,
{
    let f = arp_reply(sender_mac, sender_ip, target_mac, target_ip).update(21, op);
    assert(f.subrange(18, 22)[3] == op);
}

/// A reply carrying a sender IP other than the one we queried yields no
/// result.
pub proof fn lemma_arp_wrong_sender_ip(
    sender_mac: [u8; 6],
    sender_ip: [u8; 4],
    target_mac: [u8; 6],
    target_ip: [u8; 4],
    lookup_ip: [u8; 4],
)
    requires
        sender_ip@ != lookup_ip@,
    ensures
        arp_parse(arp_reply(sender_mac, sender_ip, target_mac, target_ip), target_mac, target_ip,
            lookup_ip) is None,
{
    let f = arp_reply(sender_mac, sender_ip, target_mac, target_ip);
    assert(f.subrange(28, 32) =~= sender_ip@);
}

/// Round trip: parsing the frame we built, addressed back to us, walks
/// every layer down to the NTP payload and recovers the formatted
/// timestamp it carries (the request payload's zero transmit timestamp,
/// the start of the NTP epoch).
pub proof fn lemma_ip_frame_roundtrip(
    our_mac: [u8; 6],
    gateway_mac: [u8; 6],
    src: EndpointV4,
    dest: EndpointV4,
)
    ensures
        eth4_parse(eth4_frame(gateway_mac, our_mac, src, dest), our_mac, gateway_mac, src, dest)
            == ParsedFrame::Time(unix_time_string(-ntp_unix_offset())),
{
    let f = eth4_frame(gateway_mac, our_mac, src, dest);
    let p = ip4_packet(src, dest);
    assert(f.len() == 14 + p.len());
    assert(f.subrange(0, 6) =~= our_mac@);
    assert(f.subrange(6, 12) =~= gateway_mac@);
    assert(f.subrange(12, 14) =~= seq![0x08u8, 0x00u8]);
    assert(f.skip(14) =~= p);
    crate::ip4::lemma_ip4_packet_parses(src, dest);
}

} // verus!
