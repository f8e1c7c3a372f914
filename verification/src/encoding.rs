//! Percent-encoding of query components.
//!
//! A component (a filter key or value) is encoded byte by byte over its UTF-8
//! form: unreserved bytes pass through unchanged, every other byte becomes a
//! `%`-escape with two uppercase hexadecimal digits. The encoded form is
//! always plain ASCII.

use vstd::prelude::*;
use vstd::utf8::encode_utf8;

verus! {

/// Bytes that pass through percent-encoding unchanged: the ASCII letters,
/// the digits, and `-`, `.`, `_`, `~`.
pub open spec fn is_unreserved(b: u8) -> bool {
    ||| 0x41 <= b <= 0x5a  // 'A'..='Z'
    ||| 0x61 <= b <= 0x7a  // 'a'..='z'
    ||| 0x30 <= b <= 0x39  // '0'..='9'
    ||| b == 0x2d  // '-'
    ||| b == 0x2e  // '.'
    ||| b == 0x5f  // '_'
    ||| b == 0x7e  // '~'
}

/// The uppercase hexadecimal digit for a value below sixteen, as an ASCII byte.
pub open spec fn hex_upper(d: u8) -> u8
    recommends
        d < 16,
{
    if d < 10 {
        (d + 0x30) as u8
    } else {
        (d + 0x37) as u8
    }
}

/// The encoding of one byte: itself if unreserved, else `%` and two hex digits.
pub open spec fn encode_byte(b: u8) -> Seq<u8> {
    if is_unreserved(b) {
        seq![b]
    } else {
        seq![0x25u8, hex_upper(b / 16), hex_upper(b % 16)]
    }
}

/// The percent-encoding of a byte sequence, byte by byte in order.
pub open spec fn percent_encode(bs: Seq<u8>) -> Seq<u8>
    decreases bs.len(),
{
    if bs.len() == 0 {
        Seq::empty()
    } else {
        percent_encode(bs.drop_last()) + encode_byte(bs.last())
    }
}

/// The percent-encoding of a string: its UTF-8 bytes, encoded in order.
pub open spec fn encode_component(s: Seq<char>) -> Seq<u8> {
    percent_encode(encode_utf8(s))
}

/// The characters spelled by a sequence of ASCII bytes.
pub open spec fn ascii_chars(bs: Seq<u8>) -> Seq<char> {
    bs.map_values(|b: u8| b as char)
}

/// Every byte of an encoded component is ASCII.
pub proof fn lemma_percent_encode_ascii(bs: Seq<u8>)
    ensures
        forall|i: int| 0 <= i < percent_encode(bs).len() ==> percent_encode(bs)[i] < 0x80,
    decreases bs.len(),
{
    if bs.len() > 0 {
        lemma_percent_encode_ascii(bs.drop_last());
        let b = bs.last();
        assert(b / 16 < 16 && b % 16 < 16);
        assert(forall|i: int| 0 <= i < encode_byte(b).len() ==> encode_byte(b)[i] < 0x80);
        assert(percent_encode(bs) == percent_encode(bs.drop_last()) + encode_byte(b));
    }
}

fn unreserved(b: u8) -> (r: bool)
    ensures
        r == is_unreserved(b),
{
    (0x41 <= b && b <= 0x5a) || (0x61 <= b && b <= 0x7a) || (0x30 <= b && b <= 0x39) || b == 0x2d
        || b == 0x2e || b == 0x5f || b == 0x7e
}

fn hex_digit(d: u8) -> (r: u8)
    requires
        d < 16,
    ensures
        r == hex_upper(d),
{
    if d < 10 {
        d + 0x30
    } else {
        d + 0x37
    }
}

/// Appends the percent-encoding of `s` to `out`.
pub(crate) fn push_encoded(out: &mut Vec<u8>, s: &str)
    ensures
        final(out)@ == old(out)@ + encode_component(s@),
{
    let bytes = s.as_bytes();
    let n = bytes.len();
    let mut i: usize = 0;
    while i < n
        invariant
            i <= n,
            n == bytes@.len(),
            bytes@ == encode_utf8(s@),
            out@ == old(out)@ + percent_encode(bytes@.take(i as int)),
        decreases n - i,
    {
        let b = bytes[i];
        if unreserved(b) {
            out.push(b);
        } else {
            out.push(0x25);
            out.push(hex_digit(b / 16));
            out.push(hex_digit(b % 16));
        }
        proof {
            let taken = bytes@.take(i + 1int);
            assert(taken.drop_last() =~= bytes@.take(i as int));
            assert(taken.last() == bytes@[i as int]);
            assert(out@ =~= old(out)@ + percent_encode(bytes@.take(i + 1int)));
        }
        i = i + 1;
    }
    proof {
        assert(bytes@.take(n as int) =~= bytes@);
    }
}

/// Relies on `String::from_utf8` of std: a sequence of ASCII bytes is valid
/// UTF-8 and decodes to exactly those characters, so the call cannot fail.
#[verifier::external_body]
pub(crate) fn ascii_to_string(bytes: Vec<u8>) -> (r: String)
    requires
        forall|i: int| 0 <= i < bytes@.len() ==> bytes@[i] < 0x80,
    ensures
        r@ == ascii_chars(bytes@),
{
    String::from_utf8(bytes).unwrap()
}

} // verus!
