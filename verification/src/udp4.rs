//! UDP (transport layer) over IPv4.  The checksum is left zero, as IPv4
//! UDP permits; the IPv4 header carries its own checksum.

use vstd::prelude::*;
use vstd::slice::slice_subrange;
use crate::buf::{push_u16_be, push_zeros};
use crate::ntp::{
    add_request_payload, be32, get_timestamp, ntp_unix_offset, request_payload, timestamp_of,
    unix_time_string,
};

verus! {

/// The UDP segment carrying the NTP request: an 8-byte header (source
/// port, destination port, total length 56, zero checksum) followed by
/// the 48-byte request payload.
pub open spec fn udp4_segment(dest: u16, src: u16) -> Seq<u8> {
    seq![
        (src / 256) as u8,
        (src % 256) as u8,
        (dest / 256) as u8,
        (dest % 256) as u8,
        0u8,
        56u8,
        0u8,
        0u8,
    ] + request_payload()
}

/// What parsing an inbound UDP segment yields: the reply's formatted
/// transmit timestamp when both ports match the expected endpoint pair,
/// nothing otherwise.
pub open spec fn udp4_parse(data: Seq<u8>, src: u16, dest: u16) -> Option<Seq<char>> {
    if data.len() < 8 {
        None
    } else if data[0] == (src / 256) as u8 && data[1] == (src % 256) as u8 && data[2] == (dest
        / 256) as u8 && data[3] == (dest % 256) as u8 {
        timestamp_of(data.skip(8))
    } else {
        None
    }
}

/// Builds the UDP segment wrapping the NTP request payload, with the
/// length field backfilled once the payload is in place.
pub fn create_packet(dest: u16, src: u16) -> (r: Vec<u8>)
    ensures
        r@ == udp4_segment(dest, src),
{
    let mut data: Vec<u8> = Vec::new();
    push_u16_be(&mut data, src);
    push_u16_be(&mut data, dest);
    // length and checksum, backfilled below / left zero
    push_zeros(&mut data, 4);
    add_request_payload(&mut data);
    // set length: the whole segment, header included
    let length: u16 = data.len() as u16;
    data[4] = (length / 256) as u8;
    data[5] = (length % 256) as u8;
    proof {
        assert(data@ =~= udp4_segment(dest, src));
    }
    data
}

/// Parses an inbound UDP segment: checks that the ports match the
/// endpoint pair we used, then extracts the NTP timestamp from the
/// payload.
pub fn unpack(data: &[u8], src: u16, dest: u16) -> (r: Option<String>)
    ensures
        (r is Some <==> udp4_parse(data@, src, dest) is Some),
        r matches Some(s) ==> udp4_parse(data@, src, dest) == Some(s@),
{
    if data.len() < 8 {
        return None;
    }
    if data[0] == (src / 256) as u8 && data[1] == (src % 256) as u8 && data[2] == (dest / 256) as u8
        && data[3] == (dest % 256) as u8 {
        let payload = slice_subrange(data, 8, data.len());
        proof {
            assert(payload@ =~= data@.skip(8));
        }
        get_timestamp(payload)
    } else {
        None
    }
}

/// Parsing the segment we built with the same endpoint pair recovers the
/// request payload's formatted timestamp.
pub proof fn lemma_udp4_segment_parses(dest: u16, src: u16)
    ensures
        udp4_parse(udp4_segment(dest, src), src, dest) == Some(
            unix_time_string(-ntp_unix_offset()),
        ),
{
    let d = udp4_segment(dest, src);
    assert(d.len() == 56);
    let pay = d.skip(8);
    assert(pay =~= request_payload());
    assert(pay.len() == 48);
    assert(pay[40] == 0 && pay[41] == 0 && pay[42] == 0 && pay[43] == 0);
    assert(be32(pay, 40) == 0);
}

} // verus!
