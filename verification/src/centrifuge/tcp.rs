//! Classification of TCP segments.

use super::headers::parse_tcp_header;
use super::text::{read_text, spec_reading, Reading};
use crate::structs::tcp::{
    spec_tcp_header, spec_tcp_options_len, TcpHeader, TcpView, TCP, TCP_HEADER_LEN,
};
use crate::structs::CentrifugeError;
use vstd::prelude::*;
use vstd::slice::slice_to_vec;

verus! {

/// A payload that no protocol claims, as text or as binary.
pub open spec fn spec_unknown(b: Seq<u8>) -> TcpView {
    match spec_reading(b) {
        Reading::Text(text) => TcpView::Text(text),
        Reading::Binary(bytes) => TcpView::Binary(bytes),
    }
}

/// What the payload is known to be: empty, if it is.
pub open spec fn spec_extract(b: Seq<u8>) -> Result<TcpView, CentrifugeError> {
    if b.len() == 0 {
        Ok(TcpView::Empty)
    } else {
        Err(CentrifugeError::UnknownProtocol)
    }
}

/// What a payload is taken for.
pub open spec fn spec_payload(b: Seq<u8>) -> TcpView {
    match spec_extract(b) {
        Ok(known) => known,
        Err(_) => spec_unknown(b),
    }
}

/// Where the payload of a segment begins.
pub open spec fn spec_payload_offset(b: Seq<u8>) -> int {
    TCP_HEADER_LEN + spec_tcp_options_len(b)
}

/// The header and the payload of the segment `b`.
pub open spec fn spec_parse(b: Seq<u8>) -> Result<(TcpHeader, TcpView), CentrifugeError> {
    if b.len() >= TCP_HEADER_LEN && b.len() >= spec_payload_offset(b) {
        Ok((spec_tcp_header(b), spec_payload(b.subrange(spec_payload_offset(b), b.len() as int))))
    } else {
        Err(CentrifugeError::InvalidPacket)
    }
}

/// Classifies a TCP segment: its header, and its payload as empty, text or
/// binary. A segment that ends before its header does is `InvalidPacket`.
pub fn parse(remaining: &[u8]) -> (r: Result<(TcpHeader, TCP), CentrifugeError>)
    ensures
        match r {
            Ok((header, tcp)) => spec_parse(remaining@) == Ok::<_, CentrifugeError>(
                (header, tcp@),
            ),
            Err(e) => spec_parse(remaining@) == Err::<(TcpHeader, TcpView), _>(e),
        },
{
    match parse_tcp_header(remaining) {
        Some((tcp_hdr, rest)) => {
            let inner = match extract(&tcp_hdr, rest) {
                Ok(x) => x,
                Err(_) => unknown(rest),
            };
            Ok((tcp_hdr, inner))
        },
        None => Err(CentrifugeError::InvalidPacket),
    }
}

/// Recognises the payload of a TCP segment: an empty one is `Empty`, any
/// other is `UnknownProtocol`.
pub fn extract(_tcp_hdr: &TcpHeader, remaining: &[u8]) -> (r: Result<TCP, CentrifugeError>)
    ensures
        match r {
            Ok(tcp) => spec_extract(remaining@) == Ok::<_, CentrifugeError>(tcp@),
            Err(e) => spec_extract(remaining@) == Err::<TcpView, _>(e),
        },
{
    if remaining.len() == 0 {
        Ok(TCP::Empty)
    } else {
        Err(CentrifugeError::UnknownProtocol)
    }
}

/// Reads a payload that no protocol claims: as text, if no byte is zero
/// and the bytes are valid UTF-8, else as binary.
pub fn unknown(remaining: &[u8]) -> (r: TCP)
    ensures
        r@ == spec_unknown(remaining@),
{
    match read_text(remaining) {
        Some(text) => TCP::Text(text),
        None => TCP::Binary(slice_to_vec(remaining)),
    }
}

} // verus!
