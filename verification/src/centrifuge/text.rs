//! Payloads that no protocol claims: text or binary.

use vstd::prelude::*;
use vstd::string::StringSliceAdditionalSpecFns;
use vstd::utf8::{decode_utf8, encode_utf8, valid_utf8};

verus! {

broadcast use vstd::utf8::encode_utf8_decode_utf8;

/// What is read out of bytes that no protocol claims.
pub enum Reading {
    Text(Seq<char>),
    Binary(Seq<u8>),
}

/// Bytes are text when none of them is zero and they are valid UTF-8;
/// the text is what they decode to. Anything else is binary.
pub open spec fn spec_reading(b: Seq<u8>) -> Reading {
    if !b.contains(0u8) && valid_utf8(b) {
        Reading::Text(decode_utf8(b))
    } else {
        Reading::Binary(b)
    }
}

/// Text read out of bytes encodes back to the same bytes.
pub proof fn lemma_reading_is_lossless(b: Seq<u8>)
    ensures
        match spec_reading(b) {
            Reading::Text(text) => encode_utf8(text) == b && !b.contains(0u8),
            Reading::Binary(bytes) => bytes == b,
        },
{
    if valid_utf8(b) {
        vstd::utf8::decode_utf8_encode_utf8(b);
    }
}

/// `std::str::from_utf8`: the string slice over the same bytes, if they
/// are valid UTF-8.
#[verifier::external_body]
pub(crate) fn from_utf8(bytes: &[u8]) -> (r: Option<&str>)
    ensures
        match r {
            Some(text) => valid_utf8(bytes@) && text.spec_bytes() == bytes@,
            None => !valid_utf8(bytes@),
        },
{
    match std::str::from_utf8(bytes) {
        Ok(text) => Some(text),
        Err(_) => None,
    }
}

/// Whether one of the bytes is zero.
pub fn contains_zero(bytes: &[u8]) -> (r: bool)
    ensures
        r == bytes@.contains(0u8),
{
    let mut i: usize = 0;
    while i < bytes.len()
        invariant
            i <= bytes.len(),
            forall|k: int| 0 <= k < i ==> bytes@[k] != 0,
        decreases bytes.len() - i,
    {
        if bytes[i] == 0 {
            return true;
        }
        i += 1;
    }
    false
}

/// The text that the bytes hold, if they are text.
pub fn read_text(bytes: &[u8]) -> (r: Option<String>)
    ensures
        match r {
            Some(text) => spec_reading(bytes@) == Reading::Text(text@),
            None => spec_reading(bytes@) == Reading::Binary(bytes@),
        },
{
    if contains_zero(bytes) {
        None
    } else {
        match from_utf8(bytes) {
            Some(text) => {
                Some(text.to_owned())
            },
            None => None,
        }
    }
}

} // verus!
