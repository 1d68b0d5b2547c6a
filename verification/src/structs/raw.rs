//! Whole frames.

use super::ether::{Ether, EtherView, EthernetFrame, EthernetFrameView};
use super::NoiseLevel;
use vstd::prelude::*;

verus! {

/// A classified frame.
#[derive(Debug, Clone, PartialEq, Eq)]
pub enum Raw {
    /// A frame with an Ethernet header.
    Ether(EthernetFrame, Ether),
    /// A frame without a link header.
    Tun(Ether),
    Unknown(Vec<u8>),
}

/// The mathematical value of a [`Raw`].
pub enum RawView {
    Ether(EthernetFrameView, EtherView),
    Tun(EtherView),
    Unknown(Seq<u8>),
}

impl View for Raw {
    type V = RawView;

    open spec fn view(&self) -> RawView {
        match self {
            Raw::Ether(frame, ether) => RawView::Ether(frame@, ether@),
            Raw::Tun(ether) => RawView::Tun(ether@),
            Raw::Unknown(bytes) => RawView::Unknown(bytes@),
        }
    }
}

impl RawView {
    /// How uninteresting the record is.
    pub open spec fn noise_level(self) -> NoiseLevel {
        match self {
            RawView::Ether(_, ether) => ether.noise_level(),
            RawView::Tun(ether) => ether.noise_level(),
            RawView::Unknown(_) => NoiseLevel::Maximum,
        }
    }
}

impl Raw {
    /// Tells how uninteresting the record is.
    pub fn noise_level(&self) -> (r: NoiseLevel)
        ensures
            r == self@.noise_level(),
    {
        match self {
            Raw::Ether(_, ether) => ether.noise_level(),
            Raw::Tun(ether) => ether.noise_level(),
            Raw::Unknown(_) => NoiseLevel::Maximum,
        }
    }
}

} // verus!
