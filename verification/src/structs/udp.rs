//! UDP datagrams.

use super::rtcp::{RtcpView, RTCP};
use super::rtp::{RtpView, RTP};
use super::NoiseLevel;
use crate::bytes::be_u16;
use vstd::prelude::*;

verus! {

/// The eight bytes in front of a UDP datagram.
#[derive(Debug, Clone, Copy, PartialEq, Eq, Structural)]
pub struct UdpHeader {
    pub source_port: u16,
    pub dest_port: u16,
    /// Length of header and payload, as the sender wrote it.
    pub length: u16,
    pub checksum: u16,
}

/// Length of a UDP header in bytes.
pub const UDP_HEADER_LEN: usize = 8;

/// The header that the first eight bytes of `b` hold.
pub open spec fn spec_udp_header(b: Seq<u8>) -> UdpHeader {
    UdpHeader {
        source_port: be_u16(b, 0),
        dest_port: be_u16(b, 2),
        length: be_u16(b, 4),
        checksum: be_u16(b, 6),
    }
}

/// What a UDP datagram carries.
#[derive(Debug, Clone, PartialEq, Eq)]
pub enum UDP {
    Rtp(RTP),
    Rtcp(RTCP),
    Text(String),
    Binary(Vec<u8>),
}

/// The mathematical value of a [`UDP`].
pub enum UdpView {
    Rtp(RtpView),
    Rtcp(RtcpView),
    Text(Seq<char>),
    Binary(Seq<u8>),
}

impl View for UDP {
    type V = UdpView;

    open spec fn view(&self) -> UdpView {
        match self {
            UDP::Rtp(rtp) => UdpView::Rtp(rtp@),
            UDP::Rtcp(rtcp) => UdpView::Rtcp(rtcp@),
            UDP::Text(text) => UdpView::Text(text@),
            UDP::Binary(bytes) => UdpView::Binary(bytes@),
        }
    }
}

impl UdpView {
    /// How uninteresting the record is.
    pub open spec fn noise_level(self) -> NoiseLevel {
        match self {
            UdpView::Rtp(_) => NoiseLevel::Zero,
            UdpView::Rtcp(_) => NoiseLevel::Zero,
            UdpView::Text(_) => NoiseLevel::Two,
            UdpView::Binary(_) => NoiseLevel::AlmostMaximum,
        }
    }
}

impl UDP {
    /// Tells how uninteresting the record is.
    pub fn noise_level(&self) -> (r: NoiseLevel)
        ensures
            r == self@.noise_level(),
    {
        match self {
            UDP::Rtp(rtp) => rtp.noise_level(),
            UDP::Rtcp(rtcp) => rtcp.noise_level(),
            UDP::Text(_) => NoiseLevel::Two,
            UDP::Binary(_) => NoiseLevel::AlmostMaximum,
        }
    }
}

} // verus!
