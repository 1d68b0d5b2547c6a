//! Decoding of RTCP packets.

use crate::bytes::{be_u16, be_u32, read_be_u16, read_be_u32};
use crate::structs::rtcp::{RtcpHeader, RtcpView, RTCP};
use crate::structs::CentrifugeError;
use vstd::prelude::*;
use vstd::slice::slice_subrange;
use vstd::slice::slice_to_vec;

verus! {

/// Whether a seven-bit payload type lies in the band kept for RTCP.
pub open spec fn is_rtcp_payload_type(pt: u8) -> bool {
    64 <= pt < 96
}

/// The header that the first eight bytes of `b` hold.
pub open spec fn spec_header(b: Seq<u8>) -> RtcpHeader {
    RtcpHeader {
        rc: b[0] & 0x1f,
        padding: (b[0] >> 5) & 1,
        version: b[0] >> 6,
        payload: b[1],
        length: be_u16(b, 2),
        ssrc: be_u32(b, 4),
    }
}

/// Whether `b` is a well-formed RTCP packet.
pub open spec fn spec_is_rtcp(b: Seq<u8>) -> bool {
    &&& b.len() >= 12
    &&& b[0] >> 6 == 2
    &&& is_rtcp_payload_type(b[1] & 0x7f)
}

/// The packet that `b` holds, if it is well formed.
pub open spec fn spec_extract(b: Seq<u8>) -> Option<RtcpView> {
    if spec_is_rtcp(b) {
        Some(RtcpView { header: spec_header(b), payload: b.subrange(8, b.len() as int) })
    } else {
        None
    }
}

/// Decodes an RTCP packet.
///
/// The bytes must be at least twelve, hold version 2 and a payload type
/// within 64..=95. Anything else is `WrongProtocol`.
pub fn extract(remaining: &[u8]) -> (r: Result<RTCP, CentrifugeError>)
    ensures
        match r {
            Ok(rtcp) => spec_extract(remaining@) == Some(rtcp@),
            Err(e) => spec_extract(remaining@) is None && e == CentrifugeError::WrongProtocol,
        },
{
    let len = remaining.len();
    if len < 12 {
        return Err(CentrifugeError::WrongProtocol);
    }
    let b0 = remaining[0];
    let b1 = remaining[1];
    let rtp_version = b0 >> 6;
    if rtp_version != 2 {
        return Err(CentrifugeError::WrongProtocol);
    }
    let rtp_payload = b1 & 0x7f;
    if !(rtp_payload >= 64 && rtp_payload < 96) {
        return Err(CentrifugeError::WrongProtocol);
    }
    let header = RtcpHeader {
        rc: b0 & 0x1f,
        padding: (b0 >> 5) & 1,
        version: rtp_version,
        payload: b1,
        length: read_be_u16(remaining, 2),
        ssrc: read_be_u32(remaining, 4),
    };
    let payload = slice_to_vec(slice_subrange(remaining, 8, len));
    Ok(RTCP { header, payload })
}

} // verus!
