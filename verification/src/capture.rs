//! The layout of capture files: a file header, then for each frame a
//! record header and the bytes that were captured.

use crate::bytes::{be_u16, be_u32, read_be_u16, read_be_u32};
use vstd::prelude::*;

verus! {

/// Length of the header of a capture file, in bytes.
pub const FILE_HEADER_LEN: usize = 24;

/// Length of the header of a record, in bytes.
pub const RECORD_HEADER_LEN: usize = 16;

/// The number that a capture file with times in microseconds begins with.
pub const MAGIC_MICROS: u32 = 0xa1b2_c3d4;

/// The number that a capture file with times in nanoseconds begins with.
pub const MAGIC_NANOS: u32 = 0xa1b2_3c4d;

/// The unsigned 16-bit integer stored little-endian at `s[at]`, `s[at + 1]`.
pub open spec fn le_u16(s: Seq<u8>, at: int) -> u16 {
    ((s[at + 1] as int) * 0x100 + (s[at] as int)) as u16
}

/// The unsigned 32-bit integer stored little-endian at `s[at] .. s[at + 3]`.
pub open spec fn le_u32(s: Seq<u8>, at: int) -> u32 {
    ((s[at + 3] as int) * 0x100_0000 + (s[at + 2] as int) * 0x1_0000 + (s[at + 1] as int) * 0x100
        + (s[at] as int)) as u32
}

/// The 16-bit integer at `s[at]` in the given byte order.
pub open spec fn ordered_u16(big_endian: bool, s: Seq<u8>, at: int) -> u16 {
    if big_endian {
        be_u16(s, at)
    } else {
        le_u16(s, at)
    }
}

/// The 32-bit integer at `s[at]` in the given byte order.
pub open spec fn ordered_u32(big_endian: bool, s: Seq<u8>, at: int) -> u32 {
    if big_endian {
        be_u32(s, at)
    } else {
        le_u32(s, at)
    }
}

fn read_u16(big_endian: bool, s: &[u8], at: usize) -> (r: u16)
    requires
        at + 2 <= s@.len(),
    ensures
        r == ordered_u16(big_endian, s@, at as int),
{
    if big_endian {
        read_be_u16(s, at)
    } else {
        let lo: u16 = s[at] as u16;
        let hi: u16 = s[at + 1] as u16;
        hi * 0x100 + lo
    }
}

fn read_u32(big_endian: bool, s: &[u8], at: usize) -> (r: u32)
    requires
        at + 4 <= s@.len(),
    ensures
        r == ordered_u32(big_endian, s@, at as int),
{
    if big_endian {
        read_be_u32(s, at)
    } else {
        let b0: u32 = s[at] as u32;
        let b1: u32 = s[at + 1] as u32;
        let b2: u32 = s[at + 2] as u32;
        let b3: u32 = s[at + 3] as u32;
        b3 * 0x100_0000 + b2 * 0x1_0000 + b1 * 0x100 + b0
    }
}

/// What the header of a capture file says.
#[derive(Debug, Clone, Copy, PartialEq, Eq, Structural)]
pub struct FileHeader {
    /// Whether the numbers of the file are stored big-endian.
    pub big_endian: bool,
    /// Whether the times of the records count nanoseconds.
    pub nanos: bool,
    pub version_major: u16,
    pub version_minor: u16,
    /// The most bytes that are kept of a frame.
    pub snaplen: u32,
    /// The link type of the frames.
    pub linktype: u32,
}

/// Why bytes are not the header of a capture file.
#[derive(Debug, Clone, Copy, PartialEq, Eq, Structural)]
pub enum CaptureError {
    /// There are fewer bytes than a file header has.
    Truncated,
    /// The bytes do not begin with one of the numbers that mark a
    /// capture file.
    BadMagic,
}

/// The header of a capture file that `b` begins with. The first four
/// bytes tell the byte order and the unit of the times.
pub open spec fn spec_file_header(b: Seq<u8>) -> Result<FileHeader, CaptureError> {
    if b.len() < FILE_HEADER_LEN {
        Err(CaptureError::Truncated)
    } else if be_u32(b, 0) != MAGIC_MICROS && be_u32(b, 0) != MAGIC_NANOS && le_u32(b, 0)
        != MAGIC_MICROS && le_u32(b, 0) != MAGIC_NANOS {
        Err(CaptureError::BadMagic)
    } else {
        let big_endian = be_u32(b, 0) == MAGIC_MICROS || be_u32(b, 0) == MAGIC_NANOS;
        Ok(
            FileHeader {
                big_endian,
                nanos: ordered_u32(big_endian, b, 0) == MAGIC_NANOS,
                version_major: ordered_u16(big_endian, b, 4),
                version_minor: ordered_u16(big_endian, b, 6),
                snaplen: ordered_u32(big_endian, b, 16),
                linktype: ordered_u32(big_endian, b, 20),
            },
        )
    }
}

/// Reads the header of a capture file.
pub fn parse_file_header(b: &[u8]) -> (r: Result<FileHeader, CaptureError>)
    ensures
        r == spec_file_header(b@),
{
    if b.len() < FILE_HEADER_LEN {
        return Err(CaptureError::Truncated);
    }
    let forward = read_be_u32(b, 0);
    let backward = read_u32(false, b, 0);
    let big_endian = forward == MAGIC_MICROS || forward == MAGIC_NANOS;
    if !big_endian && backward != MAGIC_MICROS && backward != MAGIC_NANOS {
        return Err(CaptureError::BadMagic);
    }
    Ok(
        FileHeader {
            big_endian,
            nanos: read_u32(big_endian, b, 0) == MAGIC_NANOS,
            version_major: read_u16(big_endian, b, 4),
            version_minor: read_u16(big_endian, b, 6),
            snaplen: read_u32(big_endian, b, 16),
            linktype: read_u32(big_endian, b, 20),
        },
    )
}

/// What the header of a record says.
#[derive(Debug, Clone, Copy, PartialEq, Eq, Structural)]
pub struct RecordHeader {
    /// Seconds since the epoch at which the frame was captured.
    pub tv_sec: i64,
    /// Microseconds behind the second.
    pub tv_usec: i64,
    /// Bytes of the frame that follow the header.
    pub caplen: u32,
    /// Bytes that the frame had on the wire.
    pub len: u32,
}

/// The header of a record that `b` begins with, in a file of header
/// `file`. A time in nanoseconds is cut down to microseconds.
pub open spec fn spec_record_header(file: FileHeader, b: Seq<u8>) -> Option<RecordHeader> {
    if b.len() < RECORD_HEADER_LEN {
        None
    } else {
        let fraction = ordered_u32(file.big_endian, b, 4);
        Some(
            RecordHeader {
                tv_sec: ordered_u32(file.big_endian, b, 0) as i64,
                tv_usec: if file.nanos {
                    (fraction / 1000) as i64
                } else {
                    fraction as i64
                },
                caplen: ordered_u32(file.big_endian, b, 8),
                len: ordered_u32(file.big_endian, b, 12),
            },
        )
    }
}

/// Reads the header of a record.
pub fn parse_record_header(file: &FileHeader, b: &[u8]) -> (r: Option<RecordHeader>)
    ensures
        r == spec_record_header(*file, b@),
{
    if b.len() < RECORD_HEADER_LEN {
        return None;
    }
    let fraction = read_u32(file.big_endian, b, 4);
    let tv_usec = if file.nanos {
        fraction / 1000
    } else {
        fraction
    };
    Some(
        RecordHeader {
            tv_sec: read_u32(file.big_endian, b, 0) as i64,
            tv_usec: tv_usec as i64,
            caplen: read_u32(file.big_endian, b, 8),
            len: read_u32(file.big_endian, b, 12),
        },
    )
}

} // verus!
