//! Classification of UDP datagrams.

use super::headers::parse_udp_header;
use super::text::{lemma_reading_is_lossless, read_text, spec_reading, Reading};
use super::{rtcp, rtp};
use crate::structs::udp::{spec_udp_header, UdpHeader, UdpView, UDP, UDP_HEADER_LEN};
use crate::structs::CentrifugeError;
use vstd::prelude::*;
use vstd::slice::slice_to_vec;
use vstd::utf8::{encode_utf8, valid_utf8};

verus! {

/// The least length that the header of a datagram must announce for the
/// datagram to be looked at as RTP or RTCP.
pub const MEDIA_MIN_LENGTH: u16 = 12;

/// How the ports of a datagram hint at media.
#[derive(Debug, Clone, Copy, PartialEq, Eq, Structural)]
pub enum PortHeuristic {
    /// RTP travels between even ports, RTCP between odd ports; ports of
    /// mixed parity carry neither.
    Parity,
    /// Media travels from or to a port within `first..=last`.
    PortRange { first: u16, last: u16 },
}

/// The kinds of media that are told apart.
#[derive(Debug, Clone, Copy, PartialEq, Eq, Structural)]
pub enum Media {
    Rtp,
    Rtcp,
}

/// The heuristic that classification goes by.
pub const PORT_HEURISTIC: PortHeuristic = PortHeuristic::Parity;

/// Whether the ports of a datagram allow for the given kind of media.
pub open spec fn spec_ports_allow(heuristic: PortHeuristic, media: Media, header: UdpHeader) -> bool {
    match heuristic {
        PortHeuristic::Parity => match media {
            Media::Rtp => header.source_port % 2 == 0 && header.dest_port % 2 == 0,
            Media::Rtcp => header.source_port % 2 == 1 && header.dest_port % 2 == 1,
        },
        PortHeuristic::PortRange { first, last } => first <= header.source_port <= last || first
            <= header.dest_port <= last,
    }
}

/// Whether a byte string begins like the given kind of media: with
/// version 2 and a payload type of the band of that kind.
pub open spec fn spec_begins_like(media: Media, b: Seq<u8>) -> bool {
    &&& b.len() >= 2
    &&& b[0] >> 6 == 2
    &&& match media {
        Media::Rtp => rtp::is_rtp_payload_type(b[1] & 0x7f),
        Media::Rtcp => rtcp::is_rtcp_payload_type(b[1] & 0x7f),
    }
}

/// Whether a datagram is looked at as the given kind of media: the
/// header announces at least twelve bytes, the ports allow for it, and
/// the payload begins like it. Whatever the ports, version and payload
/// type decide with them.
pub open spec fn spec_looks_like(
    heuristic: PortHeuristic,
    media: Media,
    header: UdpHeader,
    b: Seq<u8>,
) -> bool {
    &&& header.length >= MEDIA_MIN_LENGTH
    &&& spec_ports_allow(heuristic, media, header)
    &&& spec_begins_like(media, b)
}

/// Whether a datagram is looked at as RTP.
pub open spec fn spec_is_rtp(header: UdpHeader, b: Seq<u8>) -> bool {
    spec_looks_like(PORT_HEURISTIC, Media::Rtp, header, b)
}

/// Whether a datagram is looked at as RTCP.
pub open spec fn spec_is_rtcp(header: UdpHeader, b: Seq<u8>) -> bool {
    spec_looks_like(PORT_HEURISTIC, Media::Rtcp, header, b)
}

/// No datagram is looked at as both RTP and RTCP, whatever the heuristic.
pub proof fn lemma_media_exclusive(heuristic: PortHeuristic, header: UdpHeader, b: Seq<u8>)
    ensures
        !(spec_looks_like(heuristic, Media::Rtp, header, b) && spec_looks_like(
            heuristic,
            Media::Rtcp,
            header,
            b,
        )),
{
}

/// A payload that no protocol claims, as text or as binary.
pub open spec fn spec_unknown(b: Seq<u8>) -> UdpView {
    match spec_reading(b) {
        Reading::Text(text) => UdpView::Text(text),
        Reading::Binary(bytes) => UdpView::Binary(bytes),
    }
}

/// What the payload is known to be.
pub open spec fn spec_extract(header: UdpHeader, b: Seq<u8>) -> Result<UdpView, CentrifugeError> {
    if b.len() == 0 {
        Ok(UdpView::Binary(Seq::empty()))
    } else if spec_is_rtp(header, b) {
        match rtp::spec_extract(b) {
            Some(packet) => Ok(UdpView::Rtp(packet)),
            None => Err(CentrifugeError::WrongProtocol),
        }
    } else if spec_is_rtcp(header, b) {
        match rtcp::spec_extract(b) {
            Some(packet) => Ok(UdpView::Rtcp(packet)),
            None => Err(CentrifugeError::WrongProtocol),
        }
    } else {
        Err(CentrifugeError::UnknownProtocol)
    }
}

/// What a payload is taken for.
pub open spec fn spec_payload(header: UdpHeader, b: Seq<u8>) -> UdpView {
    match spec_extract(header, b) {
        Ok(known) => known,
        Err(_) => spec_unknown(b),
    }
}

/// The header and the payload of the datagram `b`.
pub open spec fn spec_parse(b: Seq<u8>) -> Result<(UdpHeader, UdpView), CentrifugeError> {
    if b.len() >= UDP_HEADER_LEN {
        Ok(
            (
                spec_udp_header(b),
                spec_payload(spec_udp_header(b), b.subrange(UDP_HEADER_LEN as int, b.len() as int)),
            ),
        )
    } else {
        Err(CentrifugeError::InvalidPacket)
    }
}

/// Nothing of a datagram is lost: header and payload together are the
/// datagram, and whatever the payload is taken for holds all its bytes.
/// RTP and RTCP are decoded from the whole payload and only where it is
/// well formed; text encodes back to the payload; binary is the payload.
/// A payload that is not recognised is text exactly when none of its
/// bytes is zero and it is valid UTF-8, and binary otherwise.
pub proof fn lemma_lossless(datagram: Seq<u8>)
    requires
        datagram.len() >= UDP_HEADER_LEN,
    ensures
        ({
            let header = datagram.subrange(0, UDP_HEADER_LEN as int);
            let payload = datagram.subrange(UDP_HEADER_LEN as int, datagram.len() as int);
            &&& header + payload == datagram
            &&& spec_parse(datagram) matches Ok((_, inner)) && match inner {
                UdpView::Rtp(packet) => rtp::spec_extract(payload) == Some(packet),
                UdpView::Rtcp(packet) => rtcp::spec_extract(payload) == Some(packet),
                UdpView::Text(text) => encode_utf8(text) == payload && !payload.contains(0u8),
                UdpView::Binary(bytes) => bytes == payload,
            }
            &&& spec_parse(datagram) matches Ok((udp_hdr, inner)) && (spec_extract(
                udp_hdr,
                payload,
            ) is Err ==> (inner is Text <==> !payload.contains(0u8) && valid_utf8(payload)) && (
            inner is Text || inner is Binary))
        }),
{
    let payload = datagram.subrange(UDP_HEADER_LEN as int, datagram.len() as int);
    lemma_reading_is_lossless(payload);
    assert(datagram.subrange(0, UDP_HEADER_LEN as int) + payload =~= datagram);
}

/// Classifies a UDP datagram: its header, and its payload as RTP, RTCP,
/// text or binary. A datagram shorter than its header is `InvalidPacket`.
pub fn parse(remaining: &[u8]) -> (r: Result<(UdpHeader, UDP), CentrifugeError>)
    ensures
        match r {
            Ok((header, udp)) => spec_parse(remaining@) == Ok::<_, CentrifugeError>(
                (header, udp@),
            ),
            Err(e) => spec_parse(remaining@) == Err::<(UdpHeader, UdpView), _>(e),
        },
{
    match parse_udp_header(remaining) {
        Some((udp_hdr, rest)) => {
            let inner = match extract(&udp_hdr, rest) {
                Ok(x) => x,
                Err(_) => unknown(rest),
            };
            Ok((udp_hdr, inner))
        },
        None => Err(CentrifugeError::InvalidPacket),
    }
}

/// Recognises the payload of a UDP datagram.
///
/// An empty payload is an empty `Binary`. A payload that looks like RTP
/// (see [`spec_looks_like`]) is decoded as RTP, one that looks like RTCP
/// as RTCP; where the decoding fails the result is `WrongProtocol`. Any
/// other payload is `UnknownProtocol`.
pub fn extract(udp_hdr: &UdpHeader, remaining: &[u8]) -> (r: Result<UDP, CentrifugeError>)
    ensures
        match r {
            Ok(udp) => spec_extract(*udp_hdr, remaining@) == Ok::<_, CentrifugeError>(udp@),
            Err(e) => spec_extract(*udp_hdr, remaining@) == Err::<UdpView, _>(e),
        },
{
    if remaining.len() == 0 {
        let empty: Vec<u8> = Vec::new();
        Ok(UDP::Binary(empty))
    } else if is_rtp(udp_hdr, remaining) {
        match rtp::extract(remaining) {
            Ok(packet) => Ok(UDP::Rtp(packet)),
            Err(e) => Err(e),
        }
    } else if is_rtcp(udp_hdr, remaining) {
        match rtcp::extract(remaining) {
            Ok(packet) => Ok(UDP::Rtcp(packet)),
            Err(e) => Err(e),
        }
    } else {
        Err(CentrifugeError::UnknownProtocol)
    }
}

/// Reads a payload that no protocol claims: as text, if no byte is zero
/// and the bytes are valid UTF-8, else as binary.
pub fn unknown(remaining: &[u8]) -> (r: UDP)
    ensures
        r@ == spec_unknown(remaining@),
{
    match read_text(remaining) {
        Some(text) => UDP::Text(text),
        None => UDP::Binary(slice_to_vec(remaining)),
    }
}

/// Whether the ports of a datagram allow for the given kind of media.
pub fn ports_allow(heuristic: &PortHeuristic, media: Media, udp_hdr: &UdpHeader) -> (r: bool)
    ensures
        r == spec_ports_allow(*heuristic, media, *udp_hdr),
{
    match heuristic {
        PortHeuristic::Parity => match media {
            Media::Rtp => udp_hdr.source_port % 2 == 0 && udp_hdr.dest_port % 2 == 0,
            Media::Rtcp => udp_hdr.source_port % 2 == 1 && udp_hdr.dest_port % 2 == 1,
        },
        PortHeuristic::PortRange { first, last } => (*first <= udp_hdr.source_port
            && udp_hdr.source_port <= *last) || (*first <= udp_hdr.dest_port && udp_hdr.dest_port
            <= *last),
    }
}

/// Whether a datagram is looked at as the given kind of media, by the
/// given heuristic.
pub fn looks_like(
    heuristic: &PortHeuristic,
    media: Media,
    udp_hdr: &UdpHeader,
    remaining: &[u8],
) -> (r: bool)
    ensures
        r == spec_looks_like(*heuristic, media, *udp_hdr, remaining@),
{
    if udp_hdr.length < MEDIA_MIN_LENGTH || remaining.len() < 2 {
        return false;
    }
    if !ports_allow(heuristic, media, udp_hdr) {
        return false;
    }
    let version = remaining[0] >> 6;
    if version != 2 {
        return false;
    }
    let payload_type = remaining[1] & 0x7f;
    match media {
        Media::Rtp => payload_type < 64 || payload_type >= 96,
        Media::Rtcp => payload_type >= 64 && payload_type < 96,
    }
}

/// Whether a datagram is looked at as RTP.
pub fn is_rtp(udp_hdr: &UdpHeader, remaining: &[u8]) -> (r: bool)
    ensures
        r == spec_is_rtp(*udp_hdr, remaining@),
{
    looks_like(&PORT_HEURISTIC, Media::Rtp, udp_hdr, remaining)
}

/// Whether a datagram is looked at as RTCP.
pub fn is_rtcp(udp_hdr: &UdpHeader, remaining: &[u8]) -> (r: bool)
    ensures
        r == spec_is_rtcp(*udp_hdr, remaining@),
{
    looks_like(&PORT_HEURISTIC, Media::Rtcp, udp_hdr, remaining)
}

} // verus!
