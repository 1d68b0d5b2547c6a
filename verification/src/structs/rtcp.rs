//! RTCP packets.

use super::NoiseLevel;
use vstd::prelude::*;

verus! {

/// The first eight bytes of an RTCP packet.
#[derive(Debug, Clone, Copy, PartialEq, Eq, Structural)]
pub struct RtcpHeader {
    /// Reception report count.
    pub rc: u8,
    pub padding: u8,
    /// Always 2.
    pub version: u8,
    /// The packet type, the whole second byte.
    pub payload: u8,
    /// Length of the packet in 32-bit words, minus one.
    pub length: u16,
    pub ssrc: u32,
}

/// An RTCP packet: its header and the bytes behind it.
#[derive(Debug, Clone, PartialEq, Eq)]
pub struct RTCP {
    pub header: RtcpHeader,
    pub payload: Vec<u8>,
}

/// The mathematical value of an [`RTCP`].
pub struct RtcpView {
    pub header: RtcpHeader,
    pub payload: Seq<u8>,
}

impl View for RTCP {
    type V = RtcpView;

    open spec fn view(&self) -> RtcpView {
        RtcpView { header: self.header, payload: self.payload@ }
    }
}

impl RTCP {
    /// Tells how uninteresting the record is.
    pub fn noise_level(&self) -> (r: NoiseLevel)
        ensures
            r == NoiseLevel::Zero,
    {
        NoiseLevel::Zero
    }

    /// A copy of the packet.
    pub fn duplicate(&self) -> (r: RTCP)
        ensures
            r@ == self@,
    {
        RTCP { header: self.header, payload: self.payload.clone() }
    }
}

} // verus!
