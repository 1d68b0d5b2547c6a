//! IPv6 packets.

use super::ip::{be_uint, spec_ip_protocol, IPProtocol};
use super::tcp::{TcpHeader, TcpView, TCP};
use super::udp::{UdpHeader, UdpView, UDP};
use super::NoiseLevel;
use crate::bytes::be_u16;
use vstd::prelude::*;

verus! {

/// The fixed IPv6 header.
#[derive(Debug, Clone, Copy, PartialEq, Eq, Structural)]
pub struct IPv6Header {
    pub version: u8,
    /// Differentiated services, six bits.
    pub ds: u8,
    /// Congestion notification, two bits.
    pub ecn: u8,
    /// The flow label, twenty bits.
    pub flow_label: u32,
    pub length: u16,
    pub next_header: IPProtocol,
    pub hop_limit: u8,
    /// The source address, as the number its sixteen bytes spell.
    pub source_addr: u128,
    /// The destination address, as the number its sixteen bytes spell.
    pub dest_addr: u128,
}

/// Length of the fixed IPv6 header, in bytes.
pub const IPV6_HEADER_LEN: usize = 40;

/// The header that the first forty bytes of `b` hold.
pub open spec fn spec_ipv6_header(b: Seq<u8>) -> IPv6Header {
    IPv6Header {
        version: b[0] >> 4,
        ds: (((b[0] & 0x0f) << 2) + (((b[1] >> 4) & 0x0c) >> 2)) as u8,
        ecn: (b[1] >> 4) & 0x03,
        flow_label: ((b[1] & 0x0f) as int * 0x1_0000 + be_u16(b, 2)) as u32,
        length: be_u16(b, 4),
        next_header: spec_ip_protocol(b[6]),
        hop_limit: b[7],
        source_addr: be_uint(b, 8, 16) as u128,
        dest_addr: be_uint(b, 24, 16) as u128,
    }
}

/// What an IPv6 packet carries.
#[derive(Debug, Clone, PartialEq, Eq)]
pub enum IPv6 {
    TCP(TcpHeader, TCP),
    UDP(UdpHeader, UDP),
    Unknown(Vec<u8>),
}

/// The mathematical value of an [`IPv6`].
pub enum IPv6View {
    TCP(TcpHeader, TcpView),
    UDP(UdpHeader, UdpView),
    Unknown(Seq<u8>),
}

impl View for IPv6 {
    type V = IPv6View;

    open spec fn view(&self) -> IPv6View {
        match self {
            IPv6::TCP(header, tcp) => IPv6View::TCP(*header, tcp@),
            IPv6::UDP(header, udp) => IPv6View::UDP(*header, udp@),
            IPv6::Unknown(bytes) => IPv6View::Unknown(bytes@),
        }
    }
}

impl IPv6View {
    /// How uninteresting the record is.
    pub open spec fn noise_level(self) -> NoiseLevel {
        match self {
            IPv6View::TCP(header, tcp) => tcp.noise_level(header),
            IPv6View::UDP(_, udp) => udp.noise_level(),
            IPv6View::Unknown(_) => NoiseLevel::Maximum,
        }
    }
}

impl IPv6 {
    /// Tells how uninteresting the record is.
    pub fn noise_level(&self) -> (r: NoiseLevel)
        ensures
            r == self@.noise_level(),
    {
        match self {
            IPv6::TCP(header, tcp) => tcp.noise_level(header),
            IPv6::UDP(_, udp) => udp.noise_level(),
            IPv6::Unknown(_) => NoiseLevel::Maximum,
        }
    }
}

} // verus!
