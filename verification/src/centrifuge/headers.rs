//! The header parsers of the `pktparse` crate, and what is taken for
//! granted of them.
//!
//! Each function here calls one parser and copies what it returns into
//! the records of this crate. The contracts are not proved: they restate
//! what the parsers do. All of them read a header of fixed layout from the
//! front of the input and hand back the bytes behind it; they fail only
//! when the input is too short.

use crate::structs::arp::{spec_arp_packet, ArpPacket, Operation, ARP_PACKET_LEN};
use crate::structs::ether::{
    spec_ethernet_frame, EtherType, EthernetFrame, MacAddress, ETHERNET_HEADER_LEN,
};
use crate::structs::ip::IPProtocol;
use crate::structs::ipv4::{spec_ipv4_header, IPv4Header, IPV4_HEADER_LEN};
use crate::structs::ipv6::{spec_ipv6_header, IPv6Header, IPV6_HEADER_LEN};
use crate::structs::tcp::{spec_tcp_header, spec_tcp_options_len, TcpHeader, TCP_HEADER_LEN};
use crate::structs::udp::{spec_udp_header, UdpHeader, UDP_HEADER_LEN};
use vstd::prelude::*;

verus! {

/// `pktparse::ethernet::parse_ethernet_frame`: reads the destination
/// address, the source address and the EtherType from the first fourteen
/// bytes. Of the EtherType only IPv4, IPv6 and ARP are told apart.
#[verifier::external_body]
pub(crate) fn parse_ethernet_frame(input: &[u8]) -> (r: Option<(EthernetFrame, &[u8])>)
    ensures
        match r {
            Some((frame, rest)) => {
                &&& input@.len() >= ETHERNET_HEADER_LEN
                &&& frame@ == spec_ethernet_frame(input@)
                &&& rest@ == input@.subrange(ETHERNET_HEADER_LEN as int, input@.len() as int)
            },
            None => input@.len() < ETHERNET_HEADER_LEN,
        },
{
    match pktparse::ethernet::parse_ethernet_frame(input) {
        Ok((rest, f)) => {
            let ethertype = match f.ethertype {
                pktparse::ethernet::EtherType::IPv4 => EtherType::IPv4,
                pktparse::ethernet::EtherType::IPv6 => EtherType::IPv6,
                pktparse::ethernet::EtherType::ARP => EtherType::ARP,
                _ => EtherType::Other,
            };
            let (source_mac, dest_mac) = (MacAddress(f.source_mac.0), MacAddress(f.dest_mac.0));
            Some((EthernetFrame { source_mac, dest_mac, ethertype }, rest))
        },
        Err(_) => None,
    }
}

/// `pktparse::arp::parse_arp_pkt`: reads the address sizes, the
/// operation and the two pairs of hardware and IPv4 address from the
/// first twenty-eight bytes.
#[verifier::external_body]
pub(crate) fn parse_arp_pkt(input: &[u8]) -> (r: Option<(ArpPacket, &[u8])>)
    ensures
        match r {
            Some((packet, rest)) => {
                &&& input@.len() >= ARP_PACKET_LEN
                &&& packet@ == spec_arp_packet(input@)
                &&& rest@ == input@.subrange(ARP_PACKET_LEN as int, input@.len() as int)
            },
            None => input@.len() < ARP_PACKET_LEN,
        },
{
    match pktparse::arp::parse_arp_pkt(input) {
        Ok((rest, p)) => {
            let operation = match p.operation {
                pktparse::arp::Operation::Request => Operation::Request,
                pktparse::arp::Operation::Reply => Operation::Reply,
                pktparse::arp::Operation::Other(number) => Operation::Other(number),
            };
            let (hw_addr_size, proto_addr_size) = (p.hw_addr_size, p.proto_addr_size);
            let (src_mac, src_addr) = (MacAddress(p.src_mac.0), u32::from(p.src_addr));
            let (dest_mac, dest_addr) = (MacAddress(p.dest_mac.0), u32::from(p.dest_addr));
            Some((ArpPacket { hw_addr_size, proto_addr_size, operation, src_mac, src_addr, dest_mac, dest_addr }, rest))
        },
        Err(_) => None,
    }
}

/// `pktparse::ipv4::parse_ipv4_header`: reads the fixed part of the
/// header from the first twenty bytes, whatever header length it
/// announces. Of the protocol only TCP and UDP are told apart.
#[verifier::external_body]
pub(crate) fn parse_ipv4_header(input: &[u8]) -> (r: Option<(IPv4Header, &[u8])>)
    ensures
        match r {
            Some((header, rest)) => {
                &&& input@.len() >= IPV4_HEADER_LEN
                &&& header == spec_ipv4_header(input@)
                &&& rest@ == input@.subrange(IPV4_HEADER_LEN as int, input@.len() as int)
            },
            None => input@.len() < IPV4_HEADER_LEN,
        },
{
    match pktparse::ipv4::parse_ipv4_header(input) {
        Ok((rest, h)) => {
            let protocol = match h.protocol {
                pktparse::ip::IPProtocol::TCP => IPProtocol::TCP,
                pktparse::ip::IPProtocol::UDP => IPProtocol::UDP,
                _ => IPProtocol::Other,
            };
            let (version, ihl, tos, length, id, ttl) = (h.version, h.ihl, h.tos, h.length, h.id, h.ttl);
            let (flags, fragment_offset, chksum) = (h.flags, h.fragment_offset, h.chksum);
            let (source_addr, dest_addr) = (u32::from(h.source_addr), u32::from(h.dest_addr));
            Some((IPv4Header { version, ihl, tos, length, id, flags, fragment_offset, ttl, protocol, chksum, source_addr, dest_addr }, rest))
        },
        Err(_) => None,
    }
}

/// `pktparse::ipv6::parse_ipv6_header`: reads the fixed header from the
/// first forty bytes. Of the next header only TCP and UDP are told apart.
#[verifier::external_body]
pub(crate) fn parse_ipv6_header(input: &[u8]) -> (r: Option<(IPv6Header, &[u8])>)
    ensures
        match r {
            Some((header, rest)) => {
                &&& input@.len() >= IPV6_HEADER_LEN
                &&& header == spec_ipv6_header(input@)
                &&& rest@ == input@.subrange(IPV6_HEADER_LEN as int, input@.len() as int)
            },
            None => input@.len() < IPV6_HEADER_LEN,
        },
{
    match pktparse::ipv6::parse_ipv6_header(input) {
        Ok((rest, h)) => {
            let next_header = match h.next_header {
                pktparse::ip::IPProtocol::TCP => IPProtocol::TCP,
                pktparse::ip::IPProtocol::UDP => IPProtocol::UDP,
                _ => IPProtocol::Other,
            };
            let (version, ds, ecn, flow_label) = (h.version, h.ds, h.ecn, h.flow_label);
            let (length, hop_limit) = (h.length, h.hop_limit);
            let (source_addr, dest_addr) = (u128::from(h.source_addr), u128::from(h.dest_addr));
            Some((IPv6Header { version, ds, ecn, flow_label, length, next_header, hop_limit, source_addr, dest_addr }, rest))
        },
        Err(_) => None,
    }
}

/// `pktparse::tcp::parse_tcp_header`: reads the fixed part of the header
/// from the first twenty bytes and steps over the options that the data
/// offset announces. It fails when the input ends before the fixed part
/// or before the end of the options. The options themselves are not kept.
#[verifier::external_body]
pub(crate) fn parse_tcp_header(input: &[u8]) -> (r: Option<(TcpHeader, &[u8])>)
    ensures
        match r {
            Some((header, rest)) => {
                &&& input@.len() >= TCP_HEADER_LEN + spec_tcp_options_len(input@)
                &&& header == spec_tcp_header(input@)
                &&& rest@ == input@.subrange(
                    TCP_HEADER_LEN + spec_tcp_options_len(input@),
                    input@.len() as int,
                )
            },
            None => input@.len() < TCP_HEADER_LEN || input@.len() < TCP_HEADER_LEN
                + spec_tcp_options_len(input@),
        },
{
    match pktparse::tcp::parse_tcp_header(input) {
        Ok((rest, h)) => {
            let (source_port, dest_port, sequence_no, ack_no) = (h.source_port, h.dest_port, h.sequence_no, h.ack_no);
            let (data_offset, reserved, flag_urg, flag_ack) = (h.data_offset, h.reserved, h.flag_urg, h.flag_ack);
            let (flag_psh, flag_rst, flag_syn, flag_fin) = (h.flag_psh, h.flag_rst, h.flag_syn, h.flag_fin);
            let (window, checksum, urgent_pointer) = (h.window, h.checksum, h.urgent_pointer);
            Some((TcpHeader { source_port, dest_port, sequence_no, ack_no, data_offset, reserved, flag_urg, flag_ack, flag_psh, flag_rst, flag_syn, flag_fin, window, checksum, urgent_pointer }, rest))
        },
        Err(_) => None,
    }
}

/// `pktparse::udp::parse_udp_header`: reads the two ports, the length and
/// the checksum from the first eight bytes.
#[verifier::external_body]
pub(crate) fn parse_udp_header(input: &[u8]) -> (r: Option<(UdpHeader, &[u8])>)
    ensures
        match r {
            Some((header, rest)) => {
                &&& input@.len() >= UDP_HEADER_LEN
                &&& header == spec_udp_header(input@)
                &&& rest@ == input@.subrange(UDP_HEADER_LEN as int, input@.len() as int)
            },
            None => input@.len() < UDP_HEADER_LEN,
        },
{
    match pktparse::udp::parse_udp_header(input) {
        Ok((rest, h)) => {
            let (source_port, dest_port) = (h.source_port, h.dest_port);
            let (length, checksum) = (h.length, h.checksum);
            Some((UdpHeader { source_port, dest_port, length, checksum }, rest))
        },
        Err(_) => None,
    }
}

} // verus!
