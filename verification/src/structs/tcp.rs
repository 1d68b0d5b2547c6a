//! TCP segments.

use super::NoiseLevel;
use crate::bytes::{be_u16, be_u32};
use vstd::prelude::*;

verus! {

/// The fixed part of a TCP header.
#[derive(Debug, Clone, Copy, PartialEq, Eq, Structural)]
pub struct TcpHeader {
    pub source_port: u16,
    pub dest_port: u16,
    pub sequence_no: u32,
    pub ack_no: u32,
    /// Length of the header in 32-bit words.
    pub data_offset: u8,
    pub reserved: u8,
    pub flag_urg: bool,
    pub flag_ack: bool,
    pub flag_psh: bool,
    pub flag_rst: bool,
    pub flag_syn: bool,
    pub flag_fin: bool,
    pub window: u16,
    pub checksum: u16,
    pub urgent_pointer: u16,
}

/// Length of a TCP header without options, in bytes.
pub const TCP_HEADER_LEN: usize = 20;

/// The header that the first twenty bytes of `b` hold.
pub open spec fn spec_tcp_header(b: Seq<u8>) -> TcpHeader {
    TcpHeader {
        source_port: be_u16(b, 0),
        dest_port: be_u16(b, 2),
        sequence_no: be_u32(b, 4),
        ack_no: be_u32(b, 8),
        data_offset: b[12] >> 4,
        reserved: ((b[12] & 0x0f) << 2) | (b[13] >> 6),
        flag_urg: b[13] & 0x20 != 0,
        flag_ack: b[13] & 0x10 != 0,
        flag_psh: b[13] & 0x08 != 0,
        flag_rst: b[13] & 0x04 != 0,
        flag_syn: b[13] & 0x02 != 0,
        flag_fin: b[13] & 0x01 != 0,
        window: be_u16(b, 14),
        checksum: be_u16(b, 16),
        urgent_pointer: be_u16(b, 18),
    }
}

/// Bytes of options that a header announces behind its fixed part.
pub open spec fn spec_tcp_options_len(b: Seq<u8>) -> int {
    if b[12] >> 4 > 5 {
        ((b[12] >> 4) - 5) * 4
    } else {
        0
    }
}

/// What a TCP segment carries.
#[derive(Debug, Clone, PartialEq, Eq)]
pub enum TCP {
    Text(String),
    Binary(Vec<u8>),
    Empty,
}

/// The mathematical value of a [`TCP`].
pub enum TcpView {
    Text(Seq<char>),
    Binary(Seq<u8>),
    Empty,
}

impl View for TCP {
    type V = TcpView;

    open spec fn view(&self) -> TcpView {
        match self {
            TCP::Text(text) => TcpView::Text(text@),
            TCP::Binary(bytes) => TcpView::Binary(bytes@),
            TCP::Empty => TcpView::Empty,
        }
    }
}

impl TcpView {
    /// A segment without payload is of interest when it opens, ends or
    /// resets a connection.
    pub open spec fn noise_level(self, header: TcpHeader) -> NoiseLevel {
        match self {
            TcpView::Text(_) => NoiseLevel::Two,
            TcpView::Binary(_) => NoiseLevel::AlmostMaximum,
            TcpView::Empty => if !header.flag_rst && !header.flag_syn && !header.flag_fin {
                NoiseLevel::AlmostMaximum
            } else {
                NoiseLevel::Two
            },
        }
    }
}

impl TCP {
    /// Tells how uninteresting the record is.
    pub fn noise_level(&self, header: &TcpHeader) -> (r: NoiseLevel)
        ensures
            r == self@.noise_level(*header),
    {
        match self {
            TCP::Text(_) => NoiseLevel::Two,
            TCP::Binary(_) => NoiseLevel::AlmostMaximum,
            TCP::Empty => if !header.flag_rst && !header.flag_syn && !header.flag_fin {
                NoiseLevel::AlmostMaximum
            } else {
                NoiseLevel::Two
            },
        }
    }
}

} // verus!
