//! Decoding of RTP packets.

use crate::bytes::{be_u16, be_u32, read_be_u16, read_be_u32};
use crate::structs::rtp::{RtpHeader, RtpView, RTP};
use crate::structs::CentrifugeError;
use vstd::prelude::*;
use vstd::slice::slice_subrange;
use vstd::slice::slice_to_vec;

verus! {

/// Whether a seven-bit payload type lies outside the band kept for RTCP.
pub open spec fn is_rtp_payload_type(pt: u8) -> bool {
    pt < 64 || pt >= 96
}

/// The fixed header that the first twelve bytes of `b` hold.
pub open spec fn spec_header(b: Seq<u8>) -> RtpHeader {
    RtpHeader {
        cc: b[0] & 0x0f,
        extension: (b[0] >> 4) & 1,
        padding: (b[0] >> 5) & 1,
        version: b[0] >> 6,
        payload: b[1] & 0x7f,
        marker: (b[1] >> 7) & 1,
        seqnum: be_u16(b, 2),
        timestamp: be_u32(b, 4),
        ssrc: be_u32(b, 8),
    }
}

/// Where the contributing sources end.
pub open spec fn spec_csrc_end(b: Seq<u8>) -> int {
    12 + 4 * ((b[0] & 0x0f) as int)
}

/// Where the media bytes begin, for a packet long enough to say so.
pub open spec fn spec_payload_offset(b: Seq<u8>) -> int {
    if (b[0] >> 4) & 1 != 0 {
        spec_csrc_end(b) + 4 + 4 * (be_u16(b, spec_csrc_end(b) + 2) as int)
    } else {
        spec_csrc_end(b)
    }
}

/// Whether `b` is a well-formed RTP packet.
pub open spec fn spec_is_rtp(b: Seq<u8>) -> bool {
    &&& b.len() >= 12
    &&& b[0] >> 6 == 2
    &&& is_rtp_payload_type(b[1] & 0x7f)
    &&& b.len() >= spec_csrc_end(b)
    &&& ((b[0] >> 4) & 1 != 0 ==> b.len() >= spec_csrc_end(b) + 4)
    &&& b.len() >= spec_payload_offset(b)
}

/// The packet that `b` holds, if it is well formed.
pub open spec fn spec_extract(b: Seq<u8>) -> Option<RtpView> {
    if spec_is_rtp(b) {
        Some(
            RtpView {
                header: spec_header(b),
                payload: b.subrange(spec_payload_offset(b), b.len() as int),
            },
        )
    } else {
        None
    }
}

/// Decodes an RTP packet.
///
/// The bytes must hold version 2 and a payload type outside 64..=95, and
/// be long enough for the fixed header, the contributing sources and the
/// header extension, if there is one. Anything else is `WrongProtocol`.
pub fn extract(remaining: &[u8]) -> (r: Result<RTP, CentrifugeError>)
    ensures
        match r {
            Ok(rtp) => spec_extract(remaining@) == Some(rtp@),
            Err(e) => spec_extract(remaining@) is None && e == CentrifugeError::WrongProtocol,
        },
{
    let len = remaining.len();
    if len < 12 {
        return Err(CentrifugeError::WrongProtocol);
    }
    let b0 = remaining[0];
    let b1 = remaining[1];
    let rtp_version = b0 >> 6;
    if rtp_version != 2 {
        return Err(CentrifugeError::WrongProtocol);
    }
    let rtp_payload = b1 & 0x7f;
    if !(rtp_payload < 64 || rtp_payload >= 96) {
        return Err(CentrifugeError::WrongProtocol);
    }
    let header = RtpHeader {
        cc: b0 & 0x0f,
        extension: (b0 >> 4) & 1,
        padding: (b0 >> 5) & 1,
        version: rtp_version,
        payload: rtp_payload,
        marker: (b1 >> 7) & 1,
        seqnum: read_be_u16(remaining, 2),
        timestamp: read_be_u32(remaining, 4),
        ssrc: read_be_u32(remaining, 8),
    };
    assert(b0 & 0x0f <= 15) by (bit_vector);
    let csrc_end: usize = 12 + header.cc as usize * 4;
    if len < csrc_end {
        return Err(CentrifugeError::WrongProtocol);
    }
    let payload_offset: usize = if header.extension != 0 {
        if len - csrc_end < 4 {
            return Err(CentrifugeError::WrongProtocol);
        }
        let ext_len = read_be_u16(remaining, csrc_end + 2);
        csrc_end + 4 + ext_len as usize * 4
    } else {
        csrc_end
    };
    if len < payload_offset {
        return Err(CentrifugeError::WrongProtocol);
    }
    let payload = slice_to_vec(slice_subrange(remaining, payload_offset, len));
    Ok(RTP { header, payload })
}

} // verus!
