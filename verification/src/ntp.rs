//! NTP (application layer): the minimal client request payload, and
//! extraction of the transmit timestamp from a server reply.

use vstd::prelude::*;
use crate::buf::push_zeros;

verus! {

/// Seconds between the NTP epoch (1900-01-01) and the Unix epoch
/// (1970-01-01).
pub open spec fn ntp_unix_offset() -> int {
    2208988800
}

/// The 48-byte NTP client request payload: Leap Indicator 0, Version 3,
/// Mode 3 (client) in byte 0, all other bytes zero.
pub open spec fn request_payload() -> Seq<u8> {
    Seq::new(48, |i: int| if i == 0 { 0x1Bu8 } else { 0u8 })
}

/// The value of the 32-bit big-endian integer at byte offset `i` of `b`.
pub open spec fn be32(b: Seq<u8>, i: int) -> int {
    b[i] * 0x1000000 + b[i + 1] * 0x10000 + b[i + 2] * 0x100 + b[i + 3]
}

/// The `YYYY-MM-DD HH:MM:SS` UTC rendering of `secs` seconds since the
/// Unix epoch.  The rendering is a fixed function of `secs` alone; it is
/// performed by the calendar library and left uninterpreted here.
pub uninterp spec fn unix_time_string(secs: int) -> Seq<char>;

/// What extracting the transmit timestamp from an NTP payload yields: the
/// formatted seconds count read at offset 40, or nothing when the payload
/// is too short to hold the timestamp field.
pub open spec fn timestamp_of(payload: Seq<u8>) -> Option<Seq<char>> {
    if payload.len() >= 48 {
        Some(unix_time_string(be32(payload, 40) - ntp_unix_offset()))
    } else {
        None
    }
}

/// Relies on `chrono::DateTime::<Utc>::from_timestamp` (`Some` for any
/// seconds count within the supported calendar range, which covers
/// every value reachable from a 32-bit NTP timestamp) and on
/// `chrono::DateTime::format` with `"%Y-%m-%d %H:%M:%S"`, whose output
/// depends on the seconds count alone.
#[verifier::external_body]
fn format_unix_time(secs: i64) -> (r: Option<String>)
    ensures
        -2208988800 <= secs <= 2085978495 ==> r is Some,
        r matches Some(s) ==> s@ == unix_time_string(secs as int),
{
    match chrono::DateTime::from_timestamp(secs, 0) {
        Some(d) => Some(d.format("%Y-%m-%d %H:%M:%S").to_string()),
        None => None,
    }
}

/// Reads the transmit-timestamp seconds at payload offset 40, converts
/// them to Unix time, and formats them as `YYYY-MM-DD HH:MM:SS` UTC.
/// Payloads too short to hold the field yield nothing.
pub fn get_timestamp(payload: &[u8]) -> (r: Option<String>)
    ensures
        (r is Some <==> timestamp_of(payload@) is Some),
        r matches Some(s) ==> timestamp_of(payload@) == Some(s@),
{
    if payload.len() < 48 {
        return None;
    }
    let seconds: u32 = (payload[40] as u32) * 0x1000000 + (payload[41] as u32) * 0x10000
        + (payload[42] as u32) * 0x100 + (payload[43] as u32);
    assert(seconds == be32(payload@, 40));
    let unix: i64 = (seconds as i64) - 2208988800i64;
    let r = format_unix_time(unix);
    assert(r is Some);
    r
}

/// Appends the 48-byte NTP client request payload to `data`.
pub fn add_request_payload(data: &mut Vec<u8>)
    ensures
        final(data)@ == old(data)@ + request_payload(),
{
    // Leap Indicator = 0, Version = 3, Mode = Client
    data.push(0x1B);
    push_zeros(data, 47);
    proof {
        assert(data@ =~= old(data)@ + request_payload());
    }
}

} // verus!
