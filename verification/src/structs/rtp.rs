//! RTP packets.

use super::NoiseLevel;
use vstd::prelude::*;

verus! {

/// The fixed part of an RTP header.
#[derive(Debug, Clone, Copy, PartialEq, Eq, Structural)]
pub struct RtpHeader {
    /// Number of contributing sources that follow the fixed header.
    pub cc: u8,
    /// 1 when a header extension follows the contributing sources.
    pub extension: u8,
    pub padding: u8,
    /// Always 2.
    pub version: u8,
    /// The payload type, seven bits.
    pub payload: u8,
    pub marker: u8,
    pub seqnum: u16,
    pub timestamp: u32,
    pub ssrc: u32,
}

/// An RTP packet: its header and the media bytes behind it.
#[derive(Debug, Clone, PartialEq, Eq)]
pub struct RTP {
    pub header: RtpHeader,
    pub payload: Vec<u8>,
}

/// The mathematical value of an [`RTP`].
pub struct RtpView {
    pub header: RtpHeader,
    pub payload: Seq<u8>,
}

impl View for RTP {
    type V = RtpView;

    open spec fn view(&self) -> RtpView {
        RtpView { header: self.header, payload: self.payload@ }
    }
}

impl RTP {
    /// Tells how uninteresting the record is.
    pub fn noise_level(&self) -> (r: NoiseLevel)
        ensures
            r == NoiseLevel::Zero,
    {
        NoiseLevel::Zero
    }

    /// A copy of the packet.
    pub fn duplicate(&self) -> (r: RTP)
        ensures
            r@ == self@,
    {
        RTP { header: self.header, payload: self.payload.clone() }
    }
}

} // verus!
