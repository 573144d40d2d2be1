//! UDP (transport layer) over IPv6.  Here the checksum is mandatory and
//! is computed over an IPv6 pseudo-header prepended to the segment.

use vstd::prelude::*;
use vstd::slice::slice_subrange;
use crate::buf::{push_slice, push_u16_be, push_zeros};
use crate::checksum::{checksum_of, compute_checksum, hi8, lo8};
use crate::ntp::{
    add_request_payload, be32, get_timestamp, ntp_unix_offset, request_payload, timestamp_of,
    unix_time_string,
};
use crate::{EndpointV6, ParsedFrame, Unpacked};

verus! {

/// The UDP segment carrying the NTP request, with its checksum field
/// still zero: 8-byte header (ports, total length 56, checksum) followed
/// by the 48-byte request payload.
pub open spec fn udp6_segment_zeroed(dest: EndpointV6, src: EndpointV6) -> Seq<u8> {
    seq![
        (src.port / 256) as u8,
        (src.port % 256) as u8,
        (dest.port / 256) as u8,
        (dest.port % 256) as u8,
        0u8,
        56u8,
        0u8,
        0u8,
    ] + request_payload()
}

/// The IPv6 pseudo-header for a UDP checksum: source address,
/// destination address, the UDP length as a 32-bit value, three zero
/// bytes and the protocol number 17.  Only lengths up to 0xFFFF occur.
pub open spec fn pseudo6(src_addr: Seq<u8>, dest_addr: Seq<u8>, len: int) -> Seq<u8> {
    src_addr + dest_addr + seq![0u8, 0u8, ((len / 256) % 256) as u8, (len % 256) as u8] + seq![
        0u8,
        0u8,
        0u8,
        17u8,
    ]
}

/// The checksum of the outbound segment, over pseudo-header plus segment.
pub open spec fn udp6_checksum(dest: EndpointV6, src: EndpointV6) -> int {
    checksum_of(pseudo6(src.addr@, dest.addr@, 56) + udp6_segment_zeroed(dest, src))
}

/// The finished UDP segment: the zeroed segment with its checksum written
/// into bytes 6 and 7.
pub open spec fn udp6_segment(dest: EndpointV6, src: EndpointV6) -> Seq<u8> {
    let c = udp6_checksum(dest, src);
    udp6_segment_zeroed(dest, src).update(6, hi8(c)).update(7, lo8(c))
}

/// What parsing an inbound UDP segment yields.  The checksum is verified
/// first, over the pseudo-header and the received bytes with the checksum
/// field zeroed, padded to even length: a mismatch is corruption.  Then
/// the ports must match the endpoint pair we used, and the payload is
/// handed to the NTP layer.
pub open spec fn udp6_parse(data: Seq<u8>, src: EndpointV6, dest: EndpointV6) -> ParsedFrame {
    if data.len() < 8 || data.len() > 0xFFFF {
        ParsedFrame::NoMatch
    } else {
        let buf = pseudo6(src.addr@, dest.addr@, data.len() as int) + data.update(6, 0u8).update(
            7,
            0u8,
        );
        let padded = if buf.len() % 2 == 1 {
            buf.push(0u8)
        } else {
            buf
        };
        let c = checksum_of(padded);
        if data[6] != hi8(c) || data[7] != lo8(c) {
            ParsedFrame::Corrupt
        } else if data[0] == (src.port / 256) as u8 && data[1] == (src.port % 256) as u8 && data[2]
            == (dest.port / 256) as u8 && data[3] == (dest.port % 256) as u8 {
            match timestamp_of(data.skip(8)) {
                Some(s) => ParsedFrame::Time(s),
                None => ParsedFrame::NoMatch,
            }
        } else {
            ParsedFrame::NoMatch
        }
    }
}

/// Appends the UDP segment wrapping the NTP request payload to `data`,
/// with the length and pseudo-header checksum backfilled.
pub fn create_packet(data: &mut Vec<u8>, dest: &EndpointV6, src: &EndpointV6)
    ensures
        final(data)@ == old(data)@ + udp6_segment(*dest, *src),
{
    // Used for the length and checksum backfills
    let curr_idx = data.len();
    push_u16_be(data, src.port);
    push_u16_be(data, dest.port);
    // length and checksum, backfilled below
    push_zeros(data, 4);
    add_request_payload(data);
    // set length: the whole segment, header included
    let seg_len: u16 = (data.len() - curr_idx) as u16;
    data[curr_idx + 4] = (seg_len / 256) as u8;
    data[curr_idx + 5] = (seg_len % 256) as u8;
    proof {
        assert(data@ =~= old(data)@ + udp6_segment_zeroed(*dest, *src));
    }
    // the pseudo-header for the checksum
    let mut check: Vec<u8> = Vec::new();
    push_slice(&mut check, src.addr.as_slice());
    push_slice(&mut check, dest.addr.as_slice());
    // segment length as a 32-bit value
    check.push(0);
    check.push(0);
    check.push((seg_len / 256) as u8);
    check.push((seg_len % 256) as u8);
    // three zero bytes and the protocol number
    check.push(0);
    check.push(0);
    check.push(0);
    check.push(17);
    // the segment itself, checksum field still zero
    let seg = slice_subrange(data.as_slice(), curr_idx, data.len());
    push_slice(&mut check, seg);
    proof {
        assert(check@ =~= pseudo6(src.addr@, dest.addr@, 56) + udp6_segment_zeroed(*dest, *src));
    }
    if check.len() % 2 == 1 {
        // align to 16-bit words
        check.push(0);
    }
    let c = compute_checksum(check.as_slice());
    // backfill the checksum
    data[curr_idx + 6] = (c / 256) as u8;
    data[curr_idx + 7] = (c % 256) as u8;
    proof {
        assert(data@ =~= old(data)@ + udp6_segment(*dest, *src));
    }
}

/// Parses an inbound UDP segment: verifies the pseudo-header checksum,
/// checks the ports, and extracts the NTP timestamp from the payload.
pub fn unpack(data: &[u8], src: &EndpointV6, dest: &EndpointV6) -> (r: Unpacked)
    ensures
        r@ == udp6_parse(data@, *src, *dest),
{
    if data.len() < 8 || data.len() > 0xFFFF {
        return Unpacked::NoMatch;
    }
    // rebuild the pseudo-header plus segment the sender checksummed
    let mut check: Vec<u8> = Vec::new();
    push_slice(&mut check, src.addr.as_slice());
    push_slice(&mut check, dest.addr.as_slice());
    let dlen = data.len();
    check.push(0);
    check.push(0);
    check.push((dlen / 256) as u8);
    check.push((dlen % 256) as u8);
    check.push(0);
    check.push(0);
    check.push(0);
    check.push(17);
    push_slice(&mut check, data);
    // zero the checksum field, at its offset from the segment start
    check[32 + 8 + 6] = 0;
    check[32 + 8 + 7] = 0;
    proof {
        assert(check@ =~= pseudo6(src.addr@, dest.addr@, data@.len() as int) + data@.update(
            6,
            0u8,
        ).update(7, 0u8));
    }
    if check.len() % 2 == 1 {
        // align to 16-bit words
        check.push(0);
    }
    let c = compute_checksum(check.as_slice());
    if data[6] != (c / 256) as u8 || data[7] != (c % 256) as u8 {
        return Unpacked::Corrupt;
    }
    // check the ports
    if data[0] == (src.port / 256) as u8 && data[1] == (src.port % 256) as u8 && data[2] == (
    dest.port / 256) as u8 && data[3] == (dest.port % 256) as u8 {
        let payload = slice_subrange(data, 8, data.len());
        proof {
            assert(payload@ =~= data@.skip(8));
        }
        match get_timestamp(payload) {
            Some(s) => Unpacked::Time(s),
            None => Unpacked::NoMatch,
        }
    } else {
        Unpacked::NoMatch
    }
}

/// Parsing the segment we built with the same endpoint pair verifies the
/// pseudo-header checksum and recovers the request payload's formatted
/// timestamp.
pub proof fn lemma_udp6_segment_parses(dest: EndpointV6, src: EndpointV6)
    ensures
        udp6_parse(udp6_segment(dest, src), src, dest) == ParsedFrame::Time(
            unix_time_string(-ntp_unix_offset()),
        ),
{
    let z = udp6_segment_zeroed(dest, src);
    let c = udp6_checksum(dest, src);
    let d = udp6_segment(dest, src);
    let pseudo = pseudo6(src.addr@, dest.addr@, 56);
    crate::checksum::lemma_sum_from_nonneg(pseudo + z, 0);
    crate::checksum::lemma_fold16_props(crate::checksum::sum_words(pseudo + z));
    assert(0 <= c <= 0xFFFF);
    vstd::arithmetic::div_mod::lemma_fundamental_div_mod(c, 256);
    assert(d.len() == 56);
    assert(d.update(6, 0u8).update(7, 0u8) =~= z);
    let buf = pseudo6(src.addr@, dest.addr@, d.len() as int) + d.update(6, 0u8).update(7, 0u8);
    assert(buf =~= pseudo + z);
    assert(buf.len() == 96);
    assert(d[6] == hi8(c) && d[7] == lo8(c));
    assert(d[0] == (src.port / 256) as u8 && d[1] == (src.port % 256) as u8 && d[2] == (dest.port
        / 256) as u8 && d[3] == (dest.port % 256) as u8);
    let pay = d.skip(8);
    assert(pay =~= request_payload());
    assert(pay[40] == 0 && pay[41] == 0 && pay[42] == 0 && pay[43] == 0);
    assert(be32(pay, 40) == 0);
}

} // verus!
