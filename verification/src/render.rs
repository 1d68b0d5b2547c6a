//! Numbers and addresses as text.

use vstd::prelude::*;
use vstd::string::{StrSliceExecFns, StringExecFns};

verus! {

/// The digits of base sixteen; the first ten are the digits of base ten.
pub open spec fn spec_digits() -> Seq<char> {
    "0123456789abcdef"@
}

/// The digit, in base sixteen, for a number below sixteen.
pub fn digit(d: u8) -> (r: &'static str)
    requires
        d < 16,
    ensures
        r@ == seq![spec_digits()[d as int]],
{
    let digits = "0123456789abcdef";
    proof {
        reveal_strlit("0123456789abcdef");
    }
    digits.substring_ascii(d as usize, d as usize + 1)
}

/// A number in base ten, without sign and without leading zeros.
pub open spec fn spec_decimal(n: nat) -> Seq<char>
    decreases n,
{
    if n < 10 {
        seq![spec_digits()[n as int]]
    } else {
        spec_decimal(n / 10).push(spec_digits()[(n % 10) as int])
    }
}

/// Writes a number in base ten.
pub fn decimal(n: u64) -> (r: String)
    ensures
        r@ == spec_decimal(n as nat),
    decreases n,
{
    if n < 10 {
        String::from_str(digit(n as u8))
    } else {
        let mut s = decimal(n / 10);
        s.append(digit((n % 10) as u8));
        s
    }
}

/// A number in base sixteen, without leading zeros.
pub open spec fn spec_hex(n: nat) -> Seq<char>
    decreases n,
{
    if n < 16 {
        seq![spec_digits()[n as int]]
    } else {
        spec_hex(n / 16).push(spec_digits()[(n % 16) as int])
    }
}

/// Writes a number in base sixteen.
pub fn hex(n: u16) -> (r: String)
    ensures
        r@ == spec_hex(n as nat),
    decreases n,
{
    if n < 16 {
        String::from_str(digit(n as u8))
    } else {
        let mut s = hex(n / 16);
        s.append(digit((n % 16) as u8));
        s
    }
}

/// A byte as two digits of base sixteen.
pub open spec fn spec_hex_byte(b: u8) -> Seq<char> {
    seq![spec_digits()[b as int / 16], spec_digits()[b as int % 16]]
}

/// `count` spaces.
pub open spec fn spec_spaces(count: nat) -> Seq<char> {
    Seq::new(count, |i: int| ' ')
}

/// The text `s`, followed by as many spaces as it lacks to `width`
/// characters.
pub open spec fn spec_pad(s: Seq<char>, width: nat) -> Seq<char> {
    if s.len() >= width {
        s
    } else {
        s + spec_spaces((width - s.len()) as nat)
    }
}

/// Fills a text up with spaces to `width` characters.
pub fn pad(s: String, width: usize) -> (r: String)
    ensures
        r@ == spec_pad(s@, width as nat),
{
    let ghost start = s@;
    let mut out = s;
    let mut len = out.as_str().unicode_len();
    if len >= width {
        return out;
    }
    let first = len;
    while len < width
        invariant
            first == start.len(),
            first <= len <= width,
            out@ == start + spec_spaces((len - first) as nat),
        decreases width - len,
    {
        proof {
            reveal_strlit(" ");
        }
        out.append(" ");
        len += 1;
    }
    out
}

/// An IPv4 address, given as the number its four bytes spell, in dotted
/// decimal.
pub open spec fn spec_ipv4_text(addr: u32) -> Seq<char> {
    spec_decimal((addr / 0x100_0000) as nat) + "."@ + spec_decimal((addr / 0x1_0000 % 0x100) as nat)
        + "."@ + spec_decimal((addr / 0x100 % 0x100) as nat) + "."@ + spec_decimal(
        (addr % 0x100) as nat,
    )
}

/// Writes an IPv4 address in dotted decimal.
pub fn ipv4_text(addr: u32) -> (r: String)
    ensures
        r@ == spec_ipv4_text(addr),
{
    let mut out = decimal((addr / 0x100_0000) as u64);
    out.append(".");
    out.append(decimal((addr / 0x1_0000 % 0x100) as u64).as_str());
    out.append(".");
    out.append(decimal((addr / 0x100 % 0x100) as u64).as_str());
    out.append(".");
    out.append(decimal((addr % 0x100) as u64).as_str());
    out
}

/// An IPv6 address, given as the number its sixteen bytes spell, as
/// eight groups of base sixteen in full: leading zeros of a group are left
/// out, runs of zero groups are not abbreviated.
pub open spec fn spec_ipv6_text(addr: u128) -> Seq<char> {
    spec_hex((addr / 0x1_0000_0000_0000_0000_0000_0000_0000) as nat) + ":"@ + spec_hex(
        (addr / 0x1_0000_0000_0000_0000_0000_0000 % 0x1_0000) as nat,
    ) + ":"@ + spec_hex((addr / 0x1_0000_0000_0000_0000_0000 % 0x1_0000) as nat) + ":"@
        + spec_hex((addr / 0x1_0000_0000_0000_0000 % 0x1_0000) as nat) + ":"@ + spec_hex(
        (addr / 0x1_0000_0000_0000 % 0x1_0000) as nat,
    ) + ":"@ + spec_hex((addr / 0x1_0000_0000 % 0x1_0000) as nat) + ":"@ + spec_hex(
        (addr / 0x1_0000 % 0x1_0000) as nat,
    ) + ":"@ + spec_hex((addr % 0x1_0000) as nat)
}

/// Writes an IPv6 address as eight groups in full.
pub fn ipv6_text(addr: u128) -> (r: String)
    ensures
        r@ == spec_ipv6_text(addr),
{
    let mut out = hex((addr / 0x1_0000_0000_0000_0000_0000_0000_0000) as u16);
    out.append(":");
    out.append(hex((addr / 0x1_0000_0000_0000_0000_0000_0000 % 0x1_0000) as u16).as_str());
    out.append(":");
    out.append(hex((addr / 0x1_0000_0000_0000_0000_0000 % 0x1_0000) as u16).as_str());
    out.append(":");
    out.append(hex((addr / 0x1_0000_0000_0000_0000 % 0x1_0000) as u16).as_str());
    out.append(":");
    out.append(hex((addr / 0x1_0000_0000_0000 % 0x1_0000) as u16).as_str());
    out.append(":");
    out.append(hex((addr / 0x1_0000_0000 % 0x1_0000) as u16).as_str());
    out.append(":");
    out.append(hex((addr / 0x1_0000 % 0x1_0000) as u16).as_str());
    out.append(":");
    out.append(hex((addr % 0x1_0000) as u16).as_str());
    out
}

/// A hardware address: its six bytes, each as two digits of base
/// sixteen, with colons between them.
pub open spec fn spec_mac_text(mac: Seq<u8>) -> Seq<char> {
    spec_hex_byte(mac[0]) + ":"@ + spec_hex_byte(mac[1]) + ":"@ + spec_hex_byte(mac[2]) + ":"@
        + spec_hex_byte(mac[3]) + ":"@ + spec_hex_byte(mac[4]) + ":"@ + spec_hex_byte(mac[5])
}

/// Writes a byte as two digits of base sixteen.
pub fn hex_byte(b: u8) -> (r: String)
    ensures
        r@ == spec_hex_byte(b),
{
    let mut out = String::from_str(digit(b / 16));
    out.append(digit(b % 16));
    out
}

/// The numbers of `b` in base ten, with a comma and a space between them.
pub open spec fn spec_byte_list(b: Seq<u8>) -> Seq<char>
    decreases b.len(),
{
    if b.len() == 0 {
        Seq::empty()
    } else if b.len() == 1 {
        spec_decimal(b[0] as nat)
    } else {
        spec_byte_list(b.drop_last()) + ", "@ + spec_decimal(b.last() as nat)
    }
}

/// Bytes as a list of numbers in square brackets, as in `[104, 105]`.
pub open spec fn spec_debug_bytes(b: Seq<u8>) -> Seq<char> {
    "["@ + spec_byte_list(b) + "]"@
}

/// Writes bytes as a list of numbers in square brackets.
pub fn debug_bytes(b: &[u8]) -> (r: String)
    ensures
        r@ == spec_debug_bytes(b@),
{
    let mut out = String::from_str("[");
    let mut i: usize = 0;
    while i < b.len()
        invariant
            i <= b.len(),
            out@ == "["@ + spec_byte_list(b@.take(i as int)),
        decreases b.len() - i,
    {
        if i > 0 {
            out.append(", ");
        }
        out.append(decimal(b[i] as u64).as_str());
        assert(b@.take(i + 1).drop_last() =~= b@.take(i as int));
        i += 1;
    }
    assert(b@.take(i as int) =~= b@);
    out.append("]");
    out
}

} // verus!
