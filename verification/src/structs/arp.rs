//! ARP packets.

use super::ether::MacAddress;
use super::NoiseLevel;
use crate::bytes::{be_u16, be_u32};
use vstd::prelude::*;

verus! {

/// What an ARP packet asks or tells.
#[derive(Debug, Clone, Copy, PartialEq, Eq, Structural)]
pub enum Operation {
    Request,
    Reply,
    Other(u16),
}

/// The operation that an operation number stands for.
pub open spec fn spec_operation(number: u16) -> Operation {
    if number == 1 {
        Operation::Request
    } else if number == 2 {
        Operation::Reply
    } else {
        Operation::Other(number)
    }
}

/// An ARP packet for IPv4 over Ethernet.
#[derive(Debug, Clone, Copy, PartialEq, Eq)]
pub struct ArpPacket {
    pub hw_addr_size: u8,
    pub proto_addr_size: u8,
    pub operation: Operation,
    pub src_mac: MacAddress,
    /// The sender's address, as the number its four bytes spell.
    pub src_addr: u32,
    pub dest_mac: MacAddress,
    /// The target's address, as the number its four bytes spell.
    pub dest_addr: u32,
}

/// The mathematical value of an [`ArpPacket`].
pub struct ArpPacketView {
    pub hw_addr_size: u8,
    pub proto_addr_size: u8,
    pub operation: Operation,
    pub src_mac: Seq<u8>,
    pub src_addr: u32,
    pub dest_mac: Seq<u8>,
    pub dest_addr: u32,
}

impl View for ArpPacket {
    type V = ArpPacketView;

    open spec fn view(&self) -> ArpPacketView {
        ArpPacketView {
            hw_addr_size: self.hw_addr_size,
            proto_addr_size: self.proto_addr_size,
            operation: self.operation,
            src_mac: self.src_mac@,
            src_addr: self.src_addr,
            dest_mac: self.dest_mac@,
            dest_addr: self.dest_addr,
        }
    }
}

/// Length of an ARP packet for IPv4 over Ethernet, in bytes.
pub const ARP_PACKET_LEN: usize = 28;

/// The packet that the first twenty-eight bytes of `b` hold.
pub open spec fn spec_arp_packet(b: Seq<u8>) -> ArpPacketView {
    ArpPacketView {
        hw_addr_size: b[4],
        proto_addr_size: b[5],
        operation: spec_operation(be_u16(b, 6)),
        src_mac: b.subrange(8, 14),
        src_addr: be_u32(b, 14),
        dest_mac: b.subrange(18, 24),
        dest_addr: be_u32(b, 24),
    }
}

/// An ARP request or reply.
#[derive(Debug, Clone, Copy, PartialEq, Eq)]
pub enum ARP {
    Request(ArpPacket),
    Reply(ArpPacket),
}

/// The mathematical value of an [`ARP`].
pub enum ArpView {
    Request(ArpPacketView),
    Reply(ArpPacketView),
}

impl View for ARP {
    type V = ArpView;

    open spec fn view(&self) -> ArpView {
        match self {
            ARP::Request(packet) => ArpView::Request(packet@),
            ARP::Reply(packet) => ArpView::Reply(packet@),
        }
    }
}

impl ARP {
    /// Tells how uninteresting the record is.
    pub fn noise_level(&self) -> (r: NoiseLevel)
        ensures
            r == NoiseLevel::One,
    {
        NoiseLevel::One
    }
}

} // verus!
