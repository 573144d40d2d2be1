//! Hand-crafted network frame codecs for a raw NTP client.
//!
//! The crate builds and parses every protocol layer itself (Ethernet, ARP,
//! IPv4, IPv6, UDP and a minimal NTP payload) and drives the two
//! request/reply exchanges (resolve the gateway's link address, then query
//! the time) as a pure state machine.  All frame construction, validation
//! and checksum arithmetic is verified; sending and receiving frames is the
//! caller's business.

pub mod buf;
pub mod checksum;
pub mod ntp;
pub mod udp4;
pub mod ip4;
pub mod link4;
pub mod udp6;
pub mod ip6;
pub mod link6;
pub mod exchange;

use vstd::prelude::*;

verus! {

/// An IPv4 (address, port) pair, used for both ends of the UDP exchange.
pub struct EndpointV4 {
    pub addr: [u8; 4],
    pub port: u16,
}

/// An IPv6 (address, port) pair, used for both ends of the UDP exchange.
pub struct EndpointV6 {
    pub addr: [u8; 16],
    pub port: u16,
}

/// What decoding an inbound frame yielded.
///
/// A frame that is not addressed to us, carries the wrong protocol or does
/// not decode is `NoMatch` and is silently discarded by the caller's poll
/// loop.  A frame that matches but whose checksum does not verify is
/// `Corrupt`: a distinct, fatal condition that the caller may either abort
/// on or drop.
pub enum Unpacked {
    Time(String),
    NoMatch,
    Corrupt,
}

/// Ghost-level counterpart of [`Unpacked`]: the timestamp is a character
/// sequence rather than a `String`.
pub enum ParsedFrame {
    Time(Seq<char>),
    NoMatch,
    Corrupt,
}

impl View for Unpacked {
    type V = ParsedFrame;

    open spec fn view(&self) -> ParsedFrame {
        match self {
            Unpacked::Time(s) => ParsedFrame::Time(s@),
            Unpacked::NoMatch => ParsedFrame::NoMatch,
            Unpacked::Corrupt => ParsedFrame::Corrupt,
        }
    }
}

} // verus!
