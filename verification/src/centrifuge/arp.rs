//! Classification of ARP packets.

use super::headers::parse_arp_pkt;
use crate::structs::arp::{spec_arp_packet, ArpView, Operation, ARP, ARP_PACKET_LEN};
use crate::structs::CentrifugeError;
use vstd::prelude::*;

verus! {

/// The ARP request or reply that `b` holds.
pub open spec fn spec_extract(b: Seq<u8>) -> Result<ArpView, CentrifugeError> {
    if b.len() >= ARP_PACKET_LEN {
        match spec_arp_packet(b).operation {
            Operation::Request => Ok(ArpView::Request(spec_arp_packet(b))),
            Operation::Reply => Ok(ArpView::Reply(spec_arp_packet(b))),
            Operation::Other(_) => Err(CentrifugeError::UnknownProtocol),
        }
    } else {
        Err(CentrifugeError::InvalidPacket)
    }
}

/// Decodes an ARP packet. A packet that is too short is `InvalidPacket`,
/// one that is neither request nor reply is `UnknownProtocol`.
pub fn extract(remaining: &[u8]) -> (r: Result<ARP, CentrifugeError>)
    ensures
        match r {
            Ok(arp) => spec_extract(remaining@) == Ok::<_, CentrifugeError>(arp@),
            Err(e) => spec_extract(remaining@) == Err::<ArpView, _>(e),
        },
{
    match parse_arp_pkt(remaining) {
        Some((arp_pkt, _)) => match arp_pkt.operation {
            Operation::Request => Ok(ARP::Request(arp_pkt)),
            Operation::Reply => Ok(ARP::Reply(arp_pkt)),
            Operation::Other(_) => Err(CentrifugeError::UnknownProtocol),
        },
        None => Err(CentrifugeError::InvalidPacket),
    }
}

} // verus!
