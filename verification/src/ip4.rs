//! IPv4 (network layer): a fixed 20-byte header around the UDP segment,
//! with the header checksum computed over the header alone.

use vstd::prelude::*;
use vstd::slice::{slice_subrange, slice_to_vec};
use crate::buf::{eq_at, push_slice};
use crate::checksum::{checksum_of, compute_checksum, hi8, lo8};
use crate::ntp::{ntp_unix_offset, unix_time_string};
use crate::udp4::{
    create_packet, lemma_udp4_segment_parses, udp4_parse, udp4_segment, unpack as udp_unpack,
};
use crate::{EndpointV4, ParsedFrame, Unpacked};

verus! {

/// The 20-byte IPv4 header with the checksum field still zero: version 4,
/// header length 5 words, total length 76, identification 0xCC80, TTL 60,
/// protocol 17 (UDP), then the source and destination addresses.
pub open spec fn ip4_header_zeroed(src: EndpointV4, dest: EndpointV4) -> Seq<u8> {
    seq![0x45u8, 0u8, 0u8, 76u8, 0xCCu8, 0x80u8, 0u8, 0u8, 60u8, 17u8, 0u8, 0u8] + src.addr@
        + dest.addr@
}

/// The finished IPv4 header: the zeroed header with its own checksum
/// written into bytes 10 and 11.
pub open spec fn ip4_header(src: EndpointV4, dest: EndpointV4) -> Seq<u8> {
    let c = checksum_of(ip4_header_zeroed(src, dest));
    ip4_header_zeroed(src, dest).update(10, hi8(c)).update(11, lo8(c))
}

/// The complete IPv4 datagram: header followed by the UDP segment.
pub open spec fn ip4_packet(src: EndpointV4, dest: EndpointV4) -> Seq<u8> {
    ip4_header(src, dest) + udp4_segment(dest.port, src.port)
}

/// What parsing an inbound IPv4 datagram yields.  The header checksum is
/// verified first: a mismatch is corruption, distinct from a frame that
/// merely is not ours.  Then the protocol and the address pair are
/// checked, and the rest is handed to the UDP layer.
pub open spec fn ip4_parse(frame: Seq<u8>, src: EndpointV4, dest: EndpointV4) -> ParsedFrame {
    if frame.len() < 20 {
        ParsedFrame::NoMatch
    } else {
        let hl = (frame[0] & 0x0F) * 4;
        if hl < 20 || frame.len() < hl {
            ParsedFrame::NoMatch
        } else {
            let c = checksum_of(frame.subrange(0, hl as int).update(10, 0u8).update(11, 0u8));
            if frame[10] != hi8(c) || frame[11] != lo8(c) {
                ParsedFrame::Corrupt
            } else if frame[9] != 17 {
                ParsedFrame::NoMatch
            } else if frame.subrange(12, 16) == src.addr@ && frame.subrange(16, 20) == dest.addr@ {
                match udp4_parse(frame.skip(hl as int), src.port, dest.port) {
                    Some(s) => ParsedFrame::Time(s),
                    None => ParsedFrame::NoMatch,
                }
            } else {
                ParsedFrame::NoMatch
            }
        }
    }
}

/// Builds the IPv4 datagram around the UDP segment: header fields first,
/// then the payload, then the backfilled total length and header checksum.
pub fn create_ip_packet(src: &EndpointV4, dest: &EndpointV4) -> (r: Vec<u8>)
    ensures
        r@ == ip4_packet(*src, *dest),
{
    let mut data: Vec<u8> = Vec::new();
    // version 4, header length 5 words
    data.push(0x45);
    data.push(0);
    // total length, backfilled below
    data.push(0);
    data.push(0);
    // identification, flags, fragment offset
    data.push(0xCC);
    data.push(0x80);
    data.push(0);
    data.push(0);
    // TTL
    data.push(60);
    // protocol UDP
    data.push(17);
    // header checksum, backfilled below
    data.push(0);
    data.push(0);
    // source and destination addresses
    push_slice(&mut data, src.addr.as_slice());
    push_slice(&mut data, dest.addr.as_slice());
    // the payload
    let payload = create_packet(dest.port, src.port);
    push_slice(&mut data, payload.as_slice());
    // backfill the total length
    let total: u16 = data.len() as u16;
    data[2] = (total / 256) as u8;
    data[3] = (total % 256) as u8;
    proof {
        assert(data@.subrange(0, 20) =~= ip4_header_zeroed(*src, *dest));
    }
    // backfill the header checksum, computed over the header alone
    let c = compute_checksum(slice_subrange(data.as_slice(), 0, 20));
    data[10] = (c / 256) as u8;
    data[11] = (c % 256) as u8;
    proof {
        assert(data@ =~= ip4_packet(*src, *dest));
    }
    data
}

/// Parses an inbound IPv4 datagram: verifies the header checksum, then
/// the protocol and the expected address pair, and delegates the payload
/// to the UDP layer.
pub fn unpack(frame: &[u8], src: &EndpointV4, dest: &EndpointV4) -> (r: Unpacked)
    ensures
        r@ == ip4_parse(frame@, *src, *dest),
{
    if frame.len() < 20 {
        return Unpacked::NoMatch;
    }
    let hl = ((frame[0] & 0x0F) as usize) * 4;
    if hl < 20 || frame.len() < hl {
        return Unpacked::NoMatch;
    }
    // recompute the header checksum with the checksum field zeroed
    let mut header: Vec<u8> = slice_to_vec(slice_subrange(frame, 0, hl));
    header[10] = 0;
    header[11] = 0;
    proof {
        assert(header@ =~= frame@.subrange(0, hl as int).update(10, 0u8).update(11, 0u8));
        assert(header@.len() % 2 == 0) by {
            assert(hl % 4 == 0);
        }
    }
    let c = compute_checksum(header.as_slice());
    if frame[10] != (c / 256) as u8 || frame[11] != (c % 256) as u8 {
        return Unpacked::Corrupt;
    }
    // check if UDP
    if frame[9] != 17 {
        return Unpacked::NoMatch;
    }
    // check source and destination addresses
    if eq_at(frame, 12, src.addr.as_slice()) && eq_at(frame, 16, dest.addr.as_slice()) {
        let rest = slice_subrange(frame, hl, frame.len());
        proof {
            assert(rest@ =~= frame@.skip(hl as int));
        }
        match udp_unpack(rest, src.port, dest.port) {
            Some(s) => Unpacked::Time(s),
            None => Unpacked::NoMatch,
        }
    } else {
        Unpacked::NoMatch
    }
}

/// Parsing the datagram we built with the same endpoint pair verifies the
/// checksum and recovers the request payload's formatted timestamp.
pub proof fn lemma_ip4_packet_parses(src: EndpointV4, dest: EndpointV4)
    ensures
        ip4_parse(ip4_packet(src, dest), src, dest) == ParsedFrame::Time(
            unix_time_string(-ntp_unix_offset()),
        ),
{
    let z = ip4_header_zeroed(src, dest);
    let c = checksum_of(z);
    let h = ip4_header(src, dest);
    let p = ip4_packet(src, dest);
    assert(z.len() == 20 && h.len() == 20 && p.len() == 76);
    assert(p[0] == 0x45);
    assert((0x45u8 & 0x0Fu8) == 5u8) by (bit_vector);
    assert((p[0] & 0x0F) * 4 == 20);
    assert(p.subrange(0, 20) =~= h);
    assert(p.subrange(0, 20).update(10, 0u8).update(11, 0u8) =~= z);
    assert(p[10] == hi8(c) && p[11] == lo8(c));
    assert(p[9] == 17);
    assert(p.subrange(12, 16) =~= src.addr@);
    assert(p.subrange(16, 20) =~= dest.addr@);
    assert(p.skip(20) =~= udp4_segment(dest.port, src.port));
    lemma_udp4_segment_parses(dest.port, src.port);
}

/// Corruption detection: flipping any single bit of the 20-byte header of
/// a freshly built datagram makes parsing report `Corrupt` — the
/// recomputed checksum no longer matches the stored field, and a flip
/// inside the stored field itself no longer matches the recomputed value.
/// The four header-length bits of byte 0 are left out: changing them makes
/// the parser slice a different header, which fails closed instead.
pub proof fn lemma_ip4_bit_flip_corrupts(src: EndpointV4, dest: EndpointV4, k: int, t: u8)
    requires
        0 <= k < 20,
        t < 8,
        !(k == 0 && t < 4),
    ensures
        ip4_parse(
            ip4_packet(src, dest).update(k, (ip4_packet(src, dest)[k] ^ (1u8 << t)) as u8),
            src,
            dest,
        ) is Corrupt,
{
    let z = ip4_header_zeroed(src, dest);
    let c = checksum_of(z);
    let p = ip4_packet(src, dest);
    let x = p[k];
    let y = (x ^ (1u8 << t)) as u8;
    let p2 = p.update(k, y);
    assert(y != x) by (bit_vector)
        requires
            y == (x ^ (1u8 << t)) as u8,
            t < 8,
    ;
    assert(p2.len() == 76);
    // the header-length nibble is untouched, so the parser still takes a
    // 20-byte header
    let b0 = p2[0];
    if k == 0 {
        assert(p[0] == 0x45);
        assert(b0 == (0x45u8 ^ (1u8 << t)) as u8);
        assert((b0 & 0x0F) == 5u8) by (bit_vector)
            requires
                b0 == (0x45u8 ^ (1u8 << t)) as u8,
                4 <= t < 8,
        ;
    } else {
        assert(b0 == 0x45);
        assert((0x45u8 & 0x0Fu8) == 5u8) by (bit_vector);
    }
    assert((p2[0] & 0x0F) * 4 == 20);
    let zh2 = p2.subrange(0, 20).update(10, 0u8).update(11, 0u8);
    let c2 = checksum_of(zh2);
    crate::checksum::lemma_sum_from_nonneg(z, 0);
    crate::checksum::lemma_fold16_props(crate::checksum::sum_words(z));
    assert(0 <= c <= 0xFFFF);
    vstd::arithmetic::div_mod::lemma_fundamental_div_mod(c, 256);
    assert(p[10] == hi8(c) && p[11] == lo8(c));
    if k == 10 || k == 11 {
        // the flip hit the stored checksum; the recomputed value is
        // unchanged and no longer matches
        assert(zh2 =~= z);
        if k == 10 {
            assert(p2[10] == y && y != hi8(c));
            assert(p2[10] != hi8(c2));
        } else {
            assert(p2[11] == y && y != lo8(c));
            assert(p2[11] != lo8(c2));
        }
    } else {
        // the flip changed a covered byte; the recomputed checksum moves
        assert(z[k] == x);
        assert(zh2 =~= z.update(k, y));
        crate::checksum::lemma_checksum_flip(z, k, t);
        assert(c2 != c);
        crate::checksum::lemma_sum_from_nonneg(zh2, 0);
        crate::checksum::lemma_fold16_props(crate::checksum::sum_words(zh2));
        assert(0 <= c2 <= 0xFFFF);
        vstd::arithmetic::div_mod::lemma_fundamental_div_mod(c2, 256);
        assert(p2[10] == hi8(c) && p2[11] == lo8(c));
        // equal bytes would mean equal checksums
        assert(c == 256 * (hi8(c) as int) + lo8(c) as int);
        assert(c2 == 256 * (hi8(c2) as int) + lo8(c2) as int);
        assert(p2[10] != hi8(c2) || p2[11] != lo8(c2));
    }
}

} // verus!
