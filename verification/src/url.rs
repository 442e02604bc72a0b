//! Percent-encoding of text for use inside a URL's query.

use vstd::prelude::*;
use vstd::string::*;

verus! {

/// Whether `b` is an unreserved character of RFC 3986: an ASCII letter or
/// digit, `-`, `.`, `_` or `~`.
pub open spec fn is_unreserved(b: u8) -> bool {
    ||| 0x30 <= b <= 0x39
    ||| 0x41 <= b <= 0x5A
    ||| 0x61 <= b <= 0x7A
    ||| b == 0x2D
    ||| b == 0x2E
    ||| b == 0x5F
    ||| b == 0x7E
}

/// The upper-case hexadecimal digit for `n`.
pub open spec fn hex_digit(n: u8) -> char
    recommends
        n < 16,
{
    if n < 10 {
        (0x30 + n) as u8 as char
    } else {
        (0x41 + n - 10) as u8 as char
    }
}

/// One byte as it stands in a URL: itself where unreserved, else `%` and its
/// two hexadecimal digits.
pub open spec fn encoded_byte(b: u8) -> Seq<char> {
    if is_unreserved(b) {
        seq![b as char]
    } else {
        seq!['%', hex_digit(b / 16), hex_digit(b % 16)]
    }
}

/// The bytes, each as it stands in a URL.
pub open spec fn percent_encoded(bytes: Seq<u8>) -> Seq<char>
    decreases bytes.len(),
{
    if bytes.len() == 0 {
        Seq::empty()
    } else {
        percent_encoded(bytes.drop_last()) + encoded_byte(bytes.last())
    }
}

/// Whether `c` may stand in percent-encoded text.
pub open spec fn is_url_safe(c: char) -> bool {
    c == '%' || (c as u32 <= 0x7F && is_unreserved(c as u8))
}

proof fn lemma_hex_digit_is_url_safe(n: u8)
    requires
        n < 16,
    ensures
        is_url_safe(hex_digit(n)),
{
    let c = hex_digit(n);
    if n < 10 {
        assert(c as u32 == 0x30 + n);
    } else {
        assert(c as u32 == 0x41 + n - 10);
    }
}

proof fn lemma_encoded_byte_is_url_safe(b: u8)
    ensures
        forall|i: int| 0 <= i < encoded_byte(b).len() ==> is_url_safe(#[trigger] encoded_byte(b)[i]),
{
    if is_unreserved(b) {
        assert((b as char) as u32 == b);
    } else {
        lemma_hex_digit_is_url_safe(b / 16);
        lemma_hex_digit_is_url_safe(b % 16);
    }
}

/// Percent-encoded text holds nothing but unreserved characters and `%`.
pub proof fn lemma_percent_encoded_is_url_safe(bytes: Seq<u8>)
    ensures
        forall|i: int|
            0 <= i < percent_encoded(bytes).len() ==> is_url_safe(
                #[trigger] percent_encoded(bytes)[i],
            ),
    decreases bytes.len(),
{
    if bytes.len() > 0 {
        let head = percent_encoded(bytes.drop_last());
        let tail = encoded_byte(bytes.last());
        lemma_percent_encoded_is_url_safe(bytes.drop_last());
        lemma_encoded_byte_is_url_safe(bytes.last());
        assert forall|i: int| 0 <= i < (head + tail).len() implies is_url_safe(
            #[trigger] (head + tail)[i],
        ) by {
            if i < head.len() {
                assert((head + tail)[i] == head[i]);
            } else {
                assert((head + tail)[i] == tail[i - head.len()]);
            }
        }
    }
}

fn hex_digit_char(n: u8) -> (c: char)
    requires
        n < 16,
    ensures
        c == hex_digit(n),
{
    if n < 10 {
        (0x30 + n) as char
    } else {
        (0x41 + n - 10) as char
    }
}

/// Appends the UTF-8 bytes of `s`, percent-encoded, to `out`.
pub fn push_percent_encoded(out: &mut String, s: &str)
    ensures
        final(out)@ == old(out)@ + percent_encoded(s.spec_bytes()),
{
    let bytes = s.as_bytes();
    let n = bytes.len();
    let mut i: usize = 0;
    while i < n
        invariant
            i <= n == bytes@.len(),
            out@ == old(out)@ + percent_encoded(bytes@.take(i as int)),
        decreases n - i,
    {
        let b: u8 = bytes[i];
        proof {
            assert(bytes@.take(i + 1).drop_last() == bytes@.take(i as int));
            assert(bytes@.take(i + 1).last() == b);
        }
        if (0x30 <= b && b <= 0x39) || (0x41 <= b && b <= 0x5A) || (0x61 <= b && b <= 0x7A) || b
            == 0x2D || b == 0x2E || b == 0x5F || b == 0x7E {
            out.push(b as char);
            assert(out@ == old(out)@ + percent_encoded(bytes@.take(i + 1)));
        } else {
            out.push('%');
            out.push(hex_digit_char(b / 16));
            out.push(hex_digit_char(b % 16));
            assert(out@ == old(out)@ + percent_encoded(bytes@.take(i + 1)));
        }
        i = i + 1;
    }
    assert(bytes@.take(n as int) == bytes@);
}

} // verus!
