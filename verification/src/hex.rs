//! Lowercase hexadecimal encoding of trace identifiers. The hex string of a
//! trace identifier is both the correlation-cache key and the value persisted
//! in the request's scratch storage.

use vstd::prelude::*;

use crate::TRACE_ID_LEN;

verus! {

/// The lowercase hex digit of a value below 16.
pub open spec fn hex_digit(n: u8) -> char {
    if n == 0 {
        '0'
    } else if n == 1 {
        '1'
    } else if n == 2 {
        '2'
    } else if n == 3 {
        '3'
    } else if n == 4 {
        '4'
    } else if n == 5 {
        '5'
    } else if n == 6 {
        '6'
    } else if n == 7 {
        '7'
    } else if n == 8 {
        '8'
    } else if n == 9 {
        '9'
    } else if n == 10 {
        'a'
    } else if n == 11 {
        'b'
    } else if n == 12 {
        'c'
    } else if n == 13 {
        'd'
    } else if n == 14 {
        'e'
    } else {
        'f'
    }
}

/// Lowercase hex encoding of a byte sequence: two digits per byte, high
/// nibble first, bytes in order.
pub open spec fn hex_of_bytes(bs: Seq<u8>) -> Seq<char>
    decreases bs.len(),
{
    if bs.len() == 0 {
        Seq::empty()
    } else {
        seq![hex_digit(bs[0] / 16), hex_digit(bs[0] % 16)] + hex_of_bytes(bs.drop_first())
    }
}

pub proof fn lemma_hex_len(bs: Seq<u8>)
    ensures
        hex_of_bytes(bs).len() == 2 * bs.len(),
    decreases bs.len(),
{
    if bs.len() > 0 {
        lemma_hex_len(bs.drop_first());
    }
}

/// Relies on `const_hex::encode`: the result is the lowercase hexadecimal
/// encoding of the input, two digits per byte, bytes in order.
#[verifier::external_body]
pub(crate) fn hex_encode(b: &[u8]) -> (r: String)
    ensures
        r@ == hex_of_bytes(b@),
{
    const_hex::encode(b)
}

/// The correlation-cache key of a trace identifier: its lowercase hex string.
pub fn trace_key(id: &Vec<u8>) -> (r: String)
    requires
        id@.len() == TRACE_ID_LEN,
    ensures
        r@ == hex_of_bytes(id@),
        r@.len() == 32,
{
    proof {
        lemma_hex_len(id@);
    }
    hex_encode(id.as_slice())
}

} // verus!
