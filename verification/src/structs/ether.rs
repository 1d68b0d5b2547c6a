//! Ethernet frames.

use super::arp::{ArpView, ARP};
use super::ipv4::{IPv4Header, IPv4View, IPv4};
use super::ipv6::{IPv6Header, IPv6View, IPv6};
use super::NoiseLevel;
use crate::bytes::be_u16;
use vstd::prelude::*;

verus! {

/// A hardware address.
#[derive(Debug, Clone, Copy, PartialEq, Eq)]
pub struct MacAddress(pub [u8; 6]);

impl View for MacAddress {
    type V = Seq<u8>;

    open spec fn view(&self) -> Seq<u8> {
        self.0@
    }
}

/// The protocol behind an Ethernet header, as far as it is told apart.
#[derive(Debug, Clone, Copy, PartialEq, Eq, Structural)]
pub enum EtherType {
    IPv4,
    IPv6,
    ARP,
    Other,
}

/// The protocol that an EtherType number stands for.
pub open spec fn spec_ethertype(number: u16) -> EtherType {
    if number == 0x0800 {
        EtherType::IPv4
    } else if number == 0x86DD {
        EtherType::IPv6
    } else if number == 0x0806 {
        EtherType::ARP
    } else {
        EtherType::Other
    }
}

/// An Ethernet header.
#[derive(Debug, Clone, Copy, PartialEq, Eq)]
pub struct EthernetFrame {
    pub source_mac: MacAddress,
    pub dest_mac: MacAddress,
    pub ethertype: EtherType,
}

/// The mathematical value of an [`EthernetFrame`].
pub struct EthernetFrameView {
    pub source_mac: Seq<u8>,
    pub dest_mac: Seq<u8>,
    pub ethertype: EtherType,
}

impl View for EthernetFrame {
    type V = EthernetFrameView;

    open spec fn view(&self) -> EthernetFrameView {
        EthernetFrameView {
            source_mac: self.source_mac@,
            dest_mac: self.dest_mac@,
            ethertype: self.ethertype,
        }
    }
}

/// Length of an Ethernet header, in bytes.
pub const ETHERNET_HEADER_LEN: usize = 14;

/// The header that the first fourteen bytes of `b` hold.
pub open spec fn spec_ethernet_frame(b: Seq<u8>) -> EthernetFrameView {
    EthernetFrameView {
        source_mac: b.subrange(6, 12),
        dest_mac: b.subrange(0, 6),
        ethertype: spec_ethertype(be_u16(b, 12)),
    }
}

/// What an Ethernet frame carries.
#[derive(Debug, Clone, PartialEq, Eq)]
pub enum Ether {
    Arp(ARP),
    IPv4(IPv4Header, IPv4),
    IPv6(IPv6Header, IPv6),
    Unknown(Vec<u8>),
}

/// The mathematical value of an [`Ether`].
pub enum EtherView {
    Arp(ArpView),
    IPv4(IPv4Header, IPv4View),
    IPv6(IPv6Header, IPv6View),
    Unknown(Seq<u8>),
}

impl View for Ether {
    type V = EtherView;

    open spec fn view(&self) -> EtherView {
        match self {
            Ether::Arp(arp) => EtherView::Arp(arp@),
            Ether::IPv4(header, ipv4) => EtherView::IPv4(*header, ipv4@),
            Ether::IPv6(header, ipv6) => EtherView::IPv6(*header, ipv6@),
            Ether::Unknown(bytes) => EtherView::Unknown(bytes@),
        }
    }
}

impl EtherView {
    /// How uninteresting the record is.
    pub open spec fn noise_level(self) -> NoiseLevel {
        match self {
            EtherView::Arp(_) => NoiseLevel::One,
            EtherView::IPv4(_, ipv4) => ipv4.noise_level(),
            EtherView::IPv6(_, ipv6) => ipv6.noise_level(),
            EtherView::Unknown(_) => NoiseLevel::Maximum,
        }
    }
}

impl Ether {
    /// Tells how uninteresting the record is.
    pub fn noise_level(&self) -> (r: NoiseLevel)
        ensures
            r == self@.noise_level(),
    {
        match self {
            Ether::Arp(arp) => arp.noise_level(),
            Ether::IPv4(_, ipv4) => ipv4.noise_level(),
            Ether::IPv6(_, ipv6) => ipv6.noise_level(),
            Ether::Unknown(_) => NoiseLevel::Maximum,
        }
    }
}

} // verus!
