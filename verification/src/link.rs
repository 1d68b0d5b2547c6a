//! Link types of a capture.

use vstd::prelude::*;

verus! {

/// How the frames of a capture begin.
#[derive(Debug, Clone, Copy, PartialEq, Eq, Structural)]
pub enum DataLink {
    /// Each frame begins with an Ethernet header.
    Ethernet,
    /// Each frame is a bare IP packet.
    Tun,
}

/// The link type number of Ethernet captures.
pub const LINKTYPE_ETHERNET: i32 = 1;

/// The link type number of captures of bare IP packets.
pub const LINKTYPE_RAW: i32 = 12;

/// A link type number that stands for no link type known here.
#[derive(Debug, Clone, Copy, PartialEq, Eq, Structural)]
pub struct UnknownLinkType(pub i32);

impl DataLink {
    /// The link type that a capture source reports by number.
    pub open spec fn spec_from_linktype(linktype: i32) -> Result<DataLink, UnknownLinkType> {
        if linktype == LINKTYPE_ETHERNET {
            Ok(DataLink::Ethernet)
        } else if linktype == LINKTYPE_RAW {
            Ok(DataLink::Tun)
        } else {
            Err(UnknownLinkType(linktype))
        }
    }

    /// Tells the link type from the number that a capture source reports.
    pub fn from_linktype(linktype: i32) -> (r: Result<DataLink, UnknownLinkType>)
        ensures
            r == Self::spec_from_linktype(linktype),
    {
        if linktype == LINKTYPE_ETHERNET {
            Ok(DataLink::Ethernet)
        } else if linktype == LINKTYPE_RAW {
            Ok(DataLink::Tun)
        } else {
            Err(UnknownLinkType(linktype))
        }
    }
}

} // verus!
