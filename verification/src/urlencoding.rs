//! Percent-encoding of query values.

use vstd::prelude::*;
use vstd::string::StringSliceAdditionalSpecFns;
use crate::text::string_of;

verus! {

/// Bytes that pass through unchanged: ASCII letters, digits, `-`, `_`, `.`, `~`.
pub open spec fn is_unreserved(b: u8) -> bool {
    ||| 0x41 <= b <= 0x5a
    ||| 0x61 <= b <= 0x7a
    ||| 0x30 <= b <= 0x39
    ||| b == 0x2d
    ||| b == 0x5f
    ||| b == 0x2e
    ||| b == 0x7e
}

/// The upper-case hexadecimal digit for a value below sixteen.
pub open spec fn upper_digit_of(n: u8) -> char
    recommends
        n < 16,
{
    if n < 10 {
        (48 + n) as u8 as char
    } else {
        (55 + n) as u8 as char
    }
}

/// What one byte becomes: itself when unreserved, else `%` and two upper-case
/// hexadecimal digits.
pub open spec fn encoded_byte(b: u8) -> Seq<char> {
    if is_unreserved(b) {
        seq![b as char]
    } else {
        seq!['%', upper_digit_of(b / 16), upper_digit_of(b % 16)]
    }
}

/// The encodings of the bytes, one after another.
pub open spec fn encoded(bytes: Seq<u8>) -> Seq<char>
    decreases bytes.len(),
{
    if bytes.len() == 0 {
        Seq::empty()
    } else {
        encoded(bytes.drop_last()) + encoded_byte(bytes.last())
    }
}

/// Whether `b` passes through unchanged.
pub fn unreserved(b: u8) -> (r: bool)
    ensures
        r == is_unreserved(b),
{
    (0x41 <= b && b <= 0x5a) || (0x61 <= b && b <= 0x7a) || (0x30 <= b && b <= 0x39) || b == 0x2d
        || b == 0x5f || b == 0x2e || b == 0x7e
}

/// The upper-case hexadecimal digit for `n`.
fn upper_digit(n: u8) -> (c: char)
    requires
        n < 16,
    ensures
        c == upper_digit_of(n),
{
    if n < 10 {
        (48 + n) as char
    } else {
        (55 + n) as char
    }
}

/// Appends the encoding of `b` to `out`.
pub fn push_encoded(out: &mut Vec<char>, b: u8)
    ensures
        final(out)@ == old(out)@ + encoded_byte(b),
{
    let ghost before = out@;
    if unreserved(b) {
        out.push(b as char);
        assert(out@ =~= before + encoded_byte(b));
    } else {
        out.push('%');
        out.push(upper_digit(b / 16));
        out.push(upper_digit(b % 16));
        assert(out@ =~= before + encoded_byte(b));
    }
}

/// The encoding of `bytes` as characters.
pub fn encode_bytes(bytes: &[u8]) -> (out: Vec<char>)
    ensures
        out@ == encoded(bytes@),
{
    let mut out: Vec<char> = Vec::new();
    let mut i: usize = 0;
    while i < bytes.len()
        invariant
            i <= bytes.len(),
            out@ == encoded(bytes@.take(i as int)),
        decreases bytes.len() - i,
    {
        push_encoded(&mut out, bytes[i]);
        i += 1;
        assert(bytes@.take(i as int).drop_last() =~= bytes@.take(i - 1));
    }
    assert(bytes@.take(i as int) =~= bytes@);
    out
}

/// Percent-encodes `s` for use as a query value: every byte of its UTF-8 form
/// outside the unreserved set becomes `%XX`.
pub fn encode(s: &str) -> (r: String)
    ensures
        r@ == encoded(s.spec_bytes()),
{
    string_of(encode_bytes(s.as_bytes()))
}

} // verus!
