//! What IPv4 and IPv6 share.

use vstd::prelude::*;

verus! {

/// The protocol behind an IP header, as far as it is told apart.
#[derive(Debug, Clone, Copy, PartialEq, Eq, Structural)]
pub enum IPProtocol {
    TCP,
    UDP,
    Other,
}

/// The protocol that a protocol number stands for.
pub open spec fn spec_ip_protocol(number: u8) -> IPProtocol {
    if number == 6 {
        IPProtocol::TCP
    } else if number == 17 {
        IPProtocol::UDP
    } else {
        IPProtocol::Other
    }
}

/// The number that `n` bytes of `s` spell, big-endian, from offset `at`.
pub open spec fn be_uint(s: Seq<u8>, at: int, n: nat) -> nat
    decreases n,
{
    if n == 0 {
        0
    } else {
        be_uint(s, at, (n - 1) as nat) * 0x100 + s[at + n - 1] as nat
    }
}

} // verus!
