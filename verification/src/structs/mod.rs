//! The records that classification produces.

use vstd::prelude::*;

pub mod arp;
pub mod ether;
pub mod ip;
pub mod ipv4;
pub mod ipv6;
pub mod raw;
pub mod rtcp;
pub mod rtp;
pub mod tcp;
pub mod udp;

verus! {

/// Why a layer declined a byte string.
#[derive(Debug, Clone, Copy, PartialEq, Eq, Structural)]
pub enum CentrifugeError {
    /// The header parsed, but the bytes are not of this protocol.
    WrongProtocol,
    /// The header parsed, but no known protocol fits the payload.
    UnknownProtocol,
    /// The header itself could not be parsed.
    InvalidPacket,
}

/// How uninteresting a packet is: the higher, the sooner it is dropped.
#[derive(Debug, Clone, Copy, PartialEq, Eq, Structural)]
pub enum NoiseLevel {
    Zero,
    One,
    Two,
    AlmostMaximum,
    Maximum,
}

impl NoiseLevel {
    /// The rank of the level, from 0 to 4.
    pub open spec fn rank(self) -> int {
        match self {
            NoiseLevel::Zero => 0,
            NoiseLevel::One => 1,
            NoiseLevel::Two => 2,
            NoiseLevel::AlmostMaximum => 3,
            NoiseLevel::Maximum => 4,
        }
    }

    /// The rank of the level as a number.
    pub fn into_u8(self) -> (r: u8)
        ensures
            r == self.rank(),
    {
        match self {
            NoiseLevel::Zero => 0,
            NoiseLevel::One => 1,
            NoiseLevel::Two => 2,
            NoiseLevel::AlmostMaximum => 3,
            NoiseLevel::Maximum => 4,
        }
    }
}

} // verus!
