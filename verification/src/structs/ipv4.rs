//! IPv4 packets.

use super::ip::{spec_ip_protocol, IPProtocol};
use super::tcp::{TcpHeader, TcpView, TCP};
use super::udp::{UdpHeader, UdpView, UDP};
use super::NoiseLevel;
use crate::bytes::{be_u16, be_u32};
use vstd::prelude::*;

verus! {

/// The fixed part of an IPv4 header.
#[derive(Debug, Clone, Copy, PartialEq, Eq, Structural)]
pub struct IPv4Header {
    pub version: u8,
    /// Length of the header in bytes.
    pub ihl: u8,
    pub tos: u8,
    pub length: u16,
    pub id: u16,
    pub flags: u8,
    pub fragment_offset: u16,
    pub ttl: u8,
    pub protocol: IPProtocol,
    pub chksum: u16,
    /// The source address, as the number its four bytes spell.
    pub source_addr: u32,
    /// The destination address, as the number its four bytes spell.
    pub dest_addr: u32,
}

/// Length of the fixed part of an IPv4 header, in bytes.
pub const IPV4_HEADER_LEN: usize = 20;

/// The header that the first twenty bytes of `b` hold.
pub open spec fn spec_ipv4_header(b: Seq<u8>) -> IPv4Header {
    IPv4Header {
        version: b[0] >> 4,
        ihl: (b[0] & 0x0f) << 2,
        tos: b[1],
        length: be_u16(b, 2),
        id: be_u16(b, 4),
        flags: b[6] >> 5,
        fragment_offset: be_u16(b, 6) & 0x1fff,
        ttl: b[8],
        protocol: spec_ip_protocol(b[9]),
        chksum: be_u16(b, 10),
        source_addr: be_u32(b, 12),
        dest_addr: be_u32(b, 16),
    }
}

/// What an IPv4 packet carries.
#[derive(Debug, Clone, PartialEq, Eq)]
pub enum IPv4 {
    TCP(TcpHeader, TCP),
    UDP(UdpHeader, UDP),
    Unknown(Vec<u8>),
}

/// The mathematical value of an [`IPv4`].
pub enum IPv4View {
    TCP(TcpHeader, TcpView),
    UDP(UdpHeader, UdpView),
    Unknown(Seq<u8>),
}

impl View for IPv4 {
    type V = IPv4View;

    open spec fn view(&self) -> IPv4View {
        match self {
            IPv4::TCP(header, tcp) => IPv4View::TCP(*header, tcp@),
            IPv4::UDP(header, udp) => IPv4View::UDP(*header, udp@),
            IPv4::Unknown(bytes) => IPv4View::Unknown(bytes@),
        }
    }
}

impl IPv4View {
    /// How uninteresting the record is.
    pub open spec fn noise_level(self) -> NoiseLevel {
        match self {
            IPv4View::TCP(header, tcp) => tcp.noise_level(header),
            IPv4View::UDP(_, udp) => udp.noise_level(),
            IPv4View::Unknown(_) => NoiseLevel::Maximum,
        }
    }
}

impl IPv4 {
    /// Tells how uninteresting the record is.
    pub fn noise_level(&self) -> (r: NoiseLevel)
        ensures
            r == self@.noise_level(),
    {
        match self {
            IPv4::TCP(header, tcp) => tcp.noise_level(header),
            IPv4::UDP(_, udp) => udp.noise_level(),
            IPv4::Unknown(_) => NoiseLevel::Maximum,
        }
    }
}

} // verus!
