//! Lower-case hexadecimal rendering of bytes.

use vstd::prelude::*;
use crate::text::string_of;

verus! {

/// The lower-case hexadecimal digit for a value below sixteen.
pub open spec fn digit_of(n: u8) -> char
    recommends
        n < 16,
{
    if n < 10 {
        (48 + n) as u8 as char
    } else {
        (87 + n) as u8 as char
    }
}

/// The character at position `i` of the rendering of `bytes`: even positions
/// hold the high half of a byte, odd positions the low half.
pub open spec fn digit_at(bytes: Seq<u8>, i: int) -> char {
    if i % 2 == 0 {
        digit_of(bytes[i / 2] / 16)
    } else {
        digit_of(bytes[i / 2] % 16)
    }
}

/// Two lower-case hexadecimal digits per byte, high half first.
pub open spec fn encoded(bytes: Seq<u8>) -> Seq<char> {
    Seq::new(2 * bytes.len(), |i: int| digit_at(bytes, i))
}

/// The lower-case hexadecimal digit for `n`.
fn digit(n: u8) -> (c: char)
    requires
        n < 16,
    ensures
        c == digit_of(n),
{
    if n < 10 {
        (48 + n) as char
    } else {
        (87 + n) as char
    }
}

/// Appends the two digits of `b` to `out`.
fn push_byte(out: &mut Vec<char>, b: u8)
    ensures
        final(out)@ == old(out)@.push(digit_of(b / 16)).push(digit_of(b % 16)),
{
    out.push(digit(b / 16));
    out.push(digit(b % 16));
}

/// The digits of `bytes` as characters.
pub fn encode_chars(bytes: &[u8]) -> (out: Vec<char>)
    ensures
        out@ == encoded(bytes@),
{
    let mut out: Vec<char> = Vec::new();
    let mut i: usize = 0;
    while i < bytes.len()
        invariant
            i <= bytes.len(),
            out@.len() == 2 * i,
            forall|k: int| 0 <= k < 2 * i ==> out@[k] == digit_at(bytes@, k),
        decreases bytes.len() - i,
    {
        push_byte(&mut out, bytes[i]);
        i += 1;
    }
    assert(out@ =~= encoded(bytes@));
    out
}

/// Renders `bytes` as lower-case hexadecimal text, two digits per byte.
pub fn encode(bytes: &[u8]) -> (s: String)
    ensures
        s@ == encoded(bytes@),
        s@.len() == 2 * bytes@.len(),
{
    string_of(encode_chars(bytes))
}

} // verus!
