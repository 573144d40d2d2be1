//! The exchange orchestrator: the decision logic of the two sequential
//! request/reply phases (resolve the gateway's link address, then query
//! the time).
//!
//! Each phase sends one request and then polls inbound frames.  The
//! caller owns the channel and the clock; after every received frame it
//! hands the frame and the elapsed time since the send to the step
//! function here, which decides whether the phase is still awaiting a
//! reply, has resolved, has hit corruption, or has timed out.  A phase is
//! never re-entered and nothing is retransmitted; timing out is terminal.

use vstd::prelude::*;
use crate::link4::{arp_parse, eth4_parse, unwrap_arp, unwrap_ethernet_packet};
use crate::link6::{eth6_parse, icmp_router_source, unpack_ethernet_packet, unpack_icmp};
use crate::{EndpointV4, EndpointV6, ParsedFrame, Unpacked};

verus! {

/// How long the ARP resolution phase waits for a reply, in milliseconds.
pub const ARP_TIMEOUT_MS: u64 = 3000;

/// How long the IPv6 router discovery phase waits, in milliseconds.
pub const DISCOVERY_TIMEOUT_MS: u64 = 7000;

/// How long the NTP query phase waits for a reply, in milliseconds.
pub const QUERY_TIMEOUT_MS: u64 = 7000;

/// The state of the address-resolution phase after a step: still
/// awaiting a matching reply, resolved to the gateway's MAC address, or
/// timed out.
pub enum ResolvePhase {
    AwaitingReply,
    Resolved([u8; 6]),
    TimedOut,
}

/// The state of the time-query phase after a step: still awaiting a
/// matching reply, done with the formatted timestamp, aborted on a
/// corrupt frame, or timed out.
pub enum QueryPhase {
    AwaitingReply,
    Done(String),
    Corrupted,
    TimedOut,
}

/// One step of the ARP resolution phase: decides from a received frame
/// and the elapsed time whether the phase resolves, keeps waiting, or
/// times out.  A matching reply resolves even on the deadline; a timeout
/// is reported only when no matching frame has arrived within the bound.
pub fn arp_resolve_step(
    frame: &[u8],
    mac: [u8; 6],
    curr_ip: [u8; 4],
    gateway_ip: [u8; 4],
    elapsed_ms: u64,
) -> (r: ResolvePhase)
    ensures
        (r is Resolved <==> arp_parse(frame@, mac, curr_ip, gateway_ip) is Some),
        r matches ResolvePhase::Resolved(m) ==> arp_parse(frame@, mac, curr_ip, gateway_ip)
            == Some(m@),
        r is TimedOut <==> (arp_parse(frame@, mac, curr_ip, gateway_ip) is None && elapsed_ms
            > ARP_TIMEOUT_MS),
        r is AwaitingReply <==> (arp_parse(frame@, mac, curr_ip, gateway_ip) is None && elapsed_ms
            <= ARP_TIMEOUT_MS),
{
    match unwrap_arp(frame, mac, curr_ip, gateway_ip) {
        Some(m) => ResolvePhase::Resolved(m),
        None => {
            if elapsed_ms > ARP_TIMEOUT_MS {
                ResolvePhase::TimedOut
            } else {
                ResolvePhase::AwaitingReply
            }
        },
    }
}

/// One step of the IPv6 router discovery phase: like the ARP step, but a
/// frame matches when it announces a router, and the bound is the
/// discovery timeout.
pub fn discovery_resolve_step(frame: &[u8], elapsed_ms: u64) -> (r: ResolvePhase)
    ensures
        (r is Resolved <==> icmp_router_source(frame@) is Some),
        r matches ResolvePhase::Resolved(m) ==> icmp_router_source(frame@) == Some(m@),
        r is TimedOut <==> (icmp_router_source(frame@) is None && elapsed_ms
            > DISCOVERY_TIMEOUT_MS),
        r is AwaitingReply <==> (icmp_router_source(frame@) is None && elapsed_ms
            <= DISCOVERY_TIMEOUT_MS),
{
    match unpack_icmp(frame) {
        Some(m) => ResolvePhase::Resolved(m),
        None => {
            if elapsed_ms > DISCOVERY_TIMEOUT_MS {
                ResolvePhase::TimedOut
            } else {
                ResolvePhase::AwaitingReply
            }
        },
    }
}

/// One step of the IPv4 time-query phase: a frame that decodes to a
/// timestamp finishes the phase, a corrupt frame aborts it, and anything
/// else keeps waiting until the bound elapses.
pub fn query_step_v4(
    frame: &[u8],
    our_mac: &[u8; 6],
    gateway_mac: &[u8; 6],
    src: &EndpointV4,
    dest: &EndpointV4,
    elapsed_ms: u64,
) -> (r: QueryPhase)
    ensures
        (r is Done <==> eth4_parse(frame@, *our_mac, *gateway_mac, *src, *dest) is Time),
        r matches QueryPhase::Done(s) ==> eth4_parse(frame@, *our_mac, *gateway_mac, *src, *dest)
            == ParsedFrame::Time(s@),
        r is Corrupted <==> eth4_parse(frame@, *our_mac, *gateway_mac, *src, *dest) is Corrupt,
        r is TimedOut <==> (eth4_parse(frame@, *our_mac, *gateway_mac, *src, *dest) is NoMatch
            && elapsed_ms > QUERY_TIMEOUT_MS),
        r is AwaitingReply <==> (eth4_parse(frame@, *our_mac, *gateway_mac, *src, *dest) is NoMatch
            && elapsed_ms <= QUERY_TIMEOUT_MS),
{
    match unwrap_ethernet_packet(frame, our_mac, gateway_mac, src, dest) {
        Unpacked::Time(s) => QueryPhase::Done(s),
        Unpacked::Corrupt => QueryPhase::Corrupted,
        Unpacked::NoMatch => {
            if elapsed_ms > QUERY_TIMEOUT_MS {
                QueryPhase::TimedOut
            } else {
                QueryPhase::AwaitingReply
            }
        },
    }
}

/// One step of the IPv6 time-query phase.
pub fn query_step_v6(
    frame: &[u8],
    our_mac: &[u8; 6],
    gateway_mac: &[u8; 6],
    src: &EndpointV6,
    dest: &EndpointV6,
    elapsed_ms: u64,
) -> (r: QueryPhase)
    ensures
        (r is Done <==> eth6_parse(frame@, *our_mac, *gateway_mac, *src, *dest) is Time),
        r matches QueryPhase::Done(s) ==> eth6_parse(frame@, *our_mac, *gateway_mac, *src, *dest)
            == ParsedFrame::Time(s@),
        r is Corrupted <==> eth6_parse(frame@, *our_mac, *gateway_mac, *src, *dest) is Corrupt,
        r is TimedOut <==> (eth6_parse(frame@, *our_mac, *gateway_mac, *src, *dest) is NoMatch
            && elapsed_ms > QUERY_TIMEOUT_MS),
        r is AwaitingReply <==> (eth6_parse(frame@, *our_mac, *gateway_mac, *src, *dest) is NoMatch
            && elapsed_ms <= QUERY_TIMEOUT_MS),
{
    match unpack_ethernet_packet(frame, our_mac, gateway_mac, src, dest) {
        Unpacked::Time(s) => QueryPhase::Done(s),
        Unpacked::Corrupt => QueryPhase::Corrupted,
        Unpacked::NoMatch => {
            if elapsed_ms > QUERY_TIMEOUT_MS {
                QueryPhase::TimedOut
            } else {
                QueryPhase::AwaitingReply
            }
        },
    }
}

} // verus!
