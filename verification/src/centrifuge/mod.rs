//! The layered classifier: from the bytes of a frame to a tree of records.

use crate::link::DataLink;
use crate::structs::ether::{
    spec_ethernet_frame, Ether, EtherType, EtherView, ETHERNET_HEADER_LEN,
};
use crate::structs::ip::IPProtocol;
use crate::structs::ipv4::{spec_ipv4_header, IPv4View, IPv4, IPV4_HEADER_LEN};
use crate::structs::ipv6::{spec_ipv6_header, IPv6View, IPv6, IPV6_HEADER_LEN};
use crate::structs::raw::{Raw, RawView};
use crate::structs::CentrifugeError;
use vstd::prelude::*;
use vstd::slice::slice_to_vec;

pub mod arp;
pub mod headers;
pub mod rtcp;
pub mod rtp;
pub mod tcp;
pub mod udp;
pub mod text;

verus! {

/// What the bytes behind an IPv4 header are taken for.
pub open spec fn spec_ipv4_body(protocol: IPProtocol, b: Seq<u8>) -> IPv4View {
    match protocol {
        IPProtocol::TCP => match tcp::spec_parse(b) {
            Ok((header, inner)) => IPv4View::TCP(header, inner),
            Err(_) => IPv4View::Unknown(b),
        },
        IPProtocol::UDP => match udp::spec_parse(b) {
            Ok((header, inner)) => IPv4View::UDP(header, inner),
            Err(_) => IPv4View::Unknown(b),
        },
        IPProtocol::Other => IPv4View::Unknown(b),
    }
}

/// What the bytes behind an IPv6 header are taken for.
pub open spec fn spec_ipv6_body(protocol: IPProtocol, b: Seq<u8>) -> IPv6View {
    match protocol {
        IPProtocol::TCP => match tcp::spec_parse(b) {
            Ok((header, inner)) => IPv6View::TCP(header, inner),
            Err(_) => IPv6View::Unknown(b),
        },
        IPProtocol::UDP => match udp::spec_parse(b) {
            Ok((header, inner)) => IPv6View::UDP(header, inner),
            Err(_) => IPv6View::Unknown(b),
        },
        IPProtocol::Other => IPv6View::Unknown(b),
    }
}

/// The IPv4 packet that `b` holds.
pub open spec fn spec_parse_ipv4(b: Seq<u8>) -> Result<EtherView, CentrifugeError> {
    if b.len() >= IPV4_HEADER_LEN {
        let header = spec_ipv4_header(b);
        Ok(
            EtherView::IPv4(
                header,
                spec_ipv4_body(header.protocol, b.subrange(IPV4_HEADER_LEN as int, b.len() as int)),
            ),
        )
    } else {
        Err(CentrifugeError::InvalidPacket)
    }
}

/// The IPv6 packet that `b` holds.
pub open spec fn spec_parse_ipv6(b: Seq<u8>) -> Result<EtherView, CentrifugeError> {
    if b.len() >= IPV6_HEADER_LEN {
        let header = spec_ipv6_header(b);
        Ok(
            EtherView::IPv6(
                header,
                spec_ipv6_body(
                    header.next_header,
                    b.subrange(IPV6_HEADER_LEN as int, b.len() as int),
                ),
            ),
        )
    } else {
        Err(CentrifugeError::InvalidPacket)
    }
}

/// What the bytes behind an Ethernet header are taken for.
pub open spec fn spec_ether_body(ethertype: EtherType, b: Seq<u8>) -> EtherView {
    let parsed = match ethertype {
        EtherType::IPv4 => spec_parse_ipv4(b),
        EtherType::IPv6 => spec_parse_ipv6(b),
        EtherType::ARP => match arp::spec_extract(b) {
            Ok(packet) => Ok(EtherView::Arp(packet)),
            Err(e) => Err(e),
        },
        EtherType::Other => Err(CentrifugeError::UnknownProtocol),
    };
    match parsed {
        Ok(body) => body,
        Err(_) => EtherView::Unknown(b),
    }
}

/// The Ethernet frame that `b` holds.
pub open spec fn spec_parse_eth(b: Seq<u8>) -> Result<RawView, CentrifugeError> {
    if b.len() >= ETHERNET_HEADER_LEN {
        let frame = spec_ethernet_frame(b);
        Ok(
            RawView::Ether(
                frame,
                spec_ether_body(
                    frame.ethertype,
                    b.subrange(ETHERNET_HEADER_LEN as int, b.len() as int),
                ),
            ),
        )
    } else {
        Err(CentrifugeError::InvalidPacket)
    }
}

/// The bare IP packet that `b` holds: IPv4 or IPv6 by the version in its
/// first four bits.
pub open spec fn spec_parse_tun(b: Seq<u8>) -> RawView {
    let parsed = if b.len() > 0 && b[0] >> 4 == 4 {
        spec_parse_ipv4(b)
    } else if b.len() > 0 && b[0] >> 4 == 6 {
        spec_parse_ipv6(b)
    } else {
        Err(CentrifugeError::UnknownProtocol)
    };
    RawView::Tun(
        match parsed {
            Ok(body) => body,
            Err(_) => EtherView::Unknown(b),
        },
    )
}

/// The tree of records that the frame `b` of a capture with link type
/// `datalink` is classified as. A layer that cannot be parsed leaves its
/// bytes in an `Unknown` leaf.
pub open spec fn spec_parse(datalink: DataLink, b: Seq<u8>) -> RawView {
    match datalink {
        DataLink::Ethernet => match spec_parse_eth(b) {
            Ok(tree) => tree,
            Err(_) => RawView::Unknown(b),
        },
        DataLink::Tun => spec_parse_tun(b),
    }
}

/// Classifies a frame. Every frame has a tree: what cannot be parsed
/// ends in an `Unknown` leaf that holds the bytes left over.
pub fn parse(datalink: &DataLink, data: &[u8]) -> (r: Raw)
    ensures
        r@ == spec_parse(*datalink, data@),
{
    match datalink {
        DataLink::Ethernet => match parse_eth(data) {
            Ok(eth) => eth,
            Err(_) => Raw::Unknown(slice_to_vec(data)),
        },
        DataLink::Tun => parse_tun(data),
    }
}

/// Classifies a frame that begins with an Ethernet header. A frame
/// shorter than the header is `InvalidPacket`.
pub fn parse_eth(data: &[u8]) -> (r: Result<Raw, CentrifugeError>)
    ensures
        match r {
            Ok(tree) => spec_parse_eth(data@) == Ok::<_, CentrifugeError>(tree@),
            Err(e) => spec_parse_eth(data@) == Err::<RawView, _>(e),
        },
{
    match headers::parse_ethernet_frame(data) {
        Some((eth_frame, remaining)) => {
            let parsed = match eth_frame.ethertype {
                EtherType::IPv4 => parse_ipv4(remaining),
                EtherType::IPv6 => parse_ipv6(remaining),
                EtherType::ARP => match arp::extract(remaining) {
                    Ok(arp_pkt) => Ok(Ether::Arp(arp_pkt)),
                    Err(e) => Err(e),
                },
                EtherType::Other => Err(CentrifugeError::UnknownProtocol),
            };
            let inner = match parsed {
                Ok(body) => body,
                Err(_) => Ether::Unknown(slice_to_vec(remaining)),
            };
            Ok(Raw::Ether(eth_frame, inner))
        },
        None => Err(CentrifugeError::InvalidPacket),
    }
}

/// Classifies a frame that is a bare IP packet.
pub fn parse_tun(data: &[u8]) -> (r: Raw)
    ensures
        r@ == spec_parse_tun(data@),
{
    let version = if data.len() > 0 {
        data[0] >> 4
    } else {
        0
    };
    let parsed = if version == 4 {
        parse_ipv4(data)
    } else if version == 6 {
        parse_ipv6(data)
    } else {
        Err(CentrifugeError::UnknownProtocol)
    };
    let inner = match parsed {
        Ok(body) => body,
        Err(_) => Ether::Unknown(slice_to_vec(data)),
    };
    Raw::Tun(inner)
}

/// Classifies an IPv4 packet. A packet shorter than the fixed header is
/// `InvalidPacket`.
pub fn parse_ipv4(data: &[u8]) -> (r: Result<Ether, CentrifugeError>)
    ensures
        match r {
            Ok(body) => spec_parse_ipv4(data@) == Ok::<_, CentrifugeError>(body@),
            Err(e) => spec_parse_ipv4(data@) == Err::<EtherView, _>(e),
        },
{
    match headers::parse_ipv4_header(data) {
        Some((ip_hdr, remaining)) => {
            let inner = match ip_hdr.protocol {
                IPProtocol::TCP => match tcp::parse(remaining) {
                    Ok((tcp_hdr, tcp)) => IPv4::TCP(tcp_hdr, tcp),
                    Err(_) => IPv4::Unknown(slice_to_vec(remaining)),
                },
                IPProtocol::UDP => match udp::parse(remaining) {
                    Ok((udp_hdr, udp)) => IPv4::UDP(udp_hdr, udp),
                    Err(_) => IPv4::Unknown(slice_to_vec(remaining)),
                },
                IPProtocol::Other => IPv4::Unknown(slice_to_vec(remaining)),
            };
            Ok(Ether::IPv4(ip_hdr, inner))
        },
        None => Err(CentrifugeError::InvalidPacket),
    }
}

/// Classifies an IPv6 packet. A packet shorter than the fixed header is
/// `InvalidPacket`.
pub fn parse_ipv6(data: &[u8]) -> (r: Result<Ether, CentrifugeError>)
    ensures
        match r {
            Ok(body) => spec_parse_ipv6(data@) == Ok::<_, CentrifugeError>(body@),
            Err(e) => spec_parse_ipv6(data@) == Err::<EtherView, _>(e),
        },
{
    match headers::parse_ipv6_header(data) {
        Some((ip_hdr, remaining)) => {
            let inner = match ip_hdr.next_header {
                IPProtocol::TCP => match tcp::parse(remaining) {
                    Ok((tcp_hdr, tcp)) => IPv6::TCP(tcp_hdr, tcp),
                    Err(_) => IPv6::Unknown(slice_to_vec(remaining)),
                },
                IPProtocol::UDP => match udp::parse(remaining) {
                    Ok((udp_hdr, udp)) => IPv6::UDP(udp_hdr, udp),
                    Err(_) => IPv6::Unknown(slice_to_vec(remaining)),
                },
                IPProtocol::Other => IPv6::Unknown(slice_to_vec(remaining)),
            };
            Ok(Ether::IPv6(ip_hdr, inner))
        },
        None => Err(CentrifugeError::InvalidPacket),
    }
}

} // verus!
