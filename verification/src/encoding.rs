//! Percent-encoding of URI path segments.
//!
//! A device id is embedded in a URL path segment, so every byte outside the
//! unreserved set (ASCII alphanumerics and `-` `.` `_` `~`) is written as `%`
//! followed by two uppercase hexadecimal digits.  The encoding is proved
//! invertible, so distinct device ids always yield distinct path segments.

use vstd::prelude::*;

verus! {

use vstd::arithmetic::div_mod::lemma_fundamental_div_mod;
use vstd::string::StrSliceExecFns;
use vstd::string::StringSliceAdditionalSpecFns;

/// True for the bytes that a URI path segment may carry unescaped:
/// ASCII alphanumerics and `-`, `.`, `_`, `~` (the unreserved set).
pub open spec fn is_unreserved_byte(b: u8) -> bool {
    (0x41 <= b <= 0x5a)  // A-Z
    || (0x61 <= b <= 0x7a)  // a-z
    || (0x30 <= b <= 0x39)  // 0-9
    || b == 0x2d  // -
    || b == 0x2e  // .
    || b == 0x5f  // _
    || b == 0x7e  // ~
}

/// The ASCII byte of the uppercase hexadecimal digit for a nibble.
pub open spec fn hex_digit(n: u8) -> u8
    recommends
        n < 16,
{
    if n < 10 {
        (0x30 + n) as u8
    } else {
        (0x41 + (n - 10)) as u8
    }
}

/// The nibble a hexadecimal digit byte stands for, if it is one.
pub open spec fn hex_value(b: u8) -> Option<u8> {
    if 0x30 <= b <= 0x39 {
        Some((b - 0x30) as u8)
    } else if 0x41 <= b <= 0x46 {
        Some((b - 0x41 + 10) as u8)
    } else if 0x61 <= b <= 0x66 {
        Some((b - 0x61 + 10) as u8)
    } else {
        None
    }
}

/// How one byte appears in the encoded segment: itself when unreserved,
/// otherwise `%` and two uppercase hexadecimal digits.
pub open spec fn encoded_byte(b: u8) -> Seq<u8> {
    if is_unreserved_byte(b) {
        seq![b]
    } else {
        seq![0x25u8, hex_digit(b / 16), hex_digit(b % 16)]
    }
}

/// The percent-encoding of a byte sequence.
pub open spec fn percent_encoded(s: Seq<u8>) -> Seq<u8>
    decreases s.len(),
{
    if s.len() == 0 {
        Seq::empty()
    } else {
        encoded_byte(s[0]) + percent_encoded(s.drop_first())
    }
}

/// Percent-decoding: each `%` must be followed by two hexadecimal digits;
/// every other byte stands for itself.
pub open spec fn percent_decoded(s: Seq<u8>) -> Option<Seq<u8>>
    decreases s.len(),
{
    if s.len() == 0 {
        Some(Seq::empty())
    } else if s[0] == 0x25 {
        if s.len() >= 3 {
            match (hex_value(s[1]), hex_value(s[2])) {
                (Some(h), Some(l)) => match percent_decoded(s.subrange(3, s.len() as int)) {
                    Some(rest) => Some(seq![(h * 16 + l) as u8] + rest),
                    None => None,
                },
                _ => None,
            }
        } else {
            None
        }
    } else {
        match percent_decoded(s.drop_first()) {
            Some(rest) => Some(seq![s[0]] + rest),
            None => None,
        }
    }
}

/// A byte sequence read as a sequence of characters, one character per byte.
pub open spec fn bytes_as_chars(s: Seq<u8>) -> Seq<char> {
    Seq::new(s.len(), |i: int| s[i] as char)
}

/// The percent-encoding of a byte sequence, as the text it is sent as.
pub open spec fn percent_encoded_chars(s: Seq<u8>) -> Seq<char> {
    bytes_as_chars(percent_encoded(s))
}

proof fn lemma_hex_digit_value(n: u8)
    requires
        n < 16,
    ensures
        hex_value(hex_digit(n)) == Some(n),
{
}

/// Every byte of an encoded segment is ASCII.
pub proof fn lemma_percent_encoded_ascii(s: Seq<u8>)
    ensures
        forall|i: int| 0 <= i < percent_encoded(s).len() ==> percent_encoded(s)[i] < 128,
    decreases s.len(),
{
    if s.len() > 0 {
        lemma_percent_encoded_ascii(s.drop_first());
        let e = percent_encoded(s);
        let eb = encoded_byte(s[0]);
        let rest = percent_encoded(s.drop_first());
        assert forall|i: int| 0 <= i < e.len() implies e[i] < 128 by {
            if i < eb.len() {
                assert(e[i] == eb[i]);
            } else {
                assert(e[i] == rest[i - eb.len()]);
            }
        }
    }
}

/// Decoding undoes encoding: the service-side reading of the path segment
/// recovers exactly the bytes of the device id.
pub proof fn lemma_percent_encoded_decodes(s: Seq<u8>)
    ensures
        percent_decoded(percent_encoded(s)) == Some(s),
    decreases s.len(),
{
    if s.len() == 0 {
        assert(percent_encoded(s) =~= Seq::<u8>::empty());
        assert(percent_decoded(percent_encoded(s)) =~= Some(s));
    } else {
        let b = s[0];
        let e = percent_encoded(s);
        let rest = percent_encoded(s.drop_first());
        lemma_percent_encoded_decodes(s.drop_first());
        if is_unreserved_byte(b) {
            assert(e[0] == b);
            assert(b != 0x25);
            assert(e.drop_first() =~= rest);
            assert(seq![b] + s.drop_first() =~= s);
        } else {
            lemma_hex_digit_value(b / 16);
            lemma_hex_digit_value(b % 16);
            lemma_fundamental_div_mod(b as int, 16);
            assert(e[0] == 0x25);
            assert(e.len() >= 3);
            assert(e[1] == hex_digit(b / 16));
            assert(e[2] == hex_digit(b % 16));
            assert(e.subrange(3, e.len() as int) =~= rest);
            assert(((b / 16) * 16 + b % 16) as u8 == b);
            assert(seq![b] + s.drop_first() =~= s);
        }
    }
}

/// Distinct byte sequences never encode to the same path segment.
pub proof fn lemma_percent_encoding_injective(a: Seq<u8>, b: Seq<u8>)
    requires
        percent_encoded(a) == percent_encoded(b),
    ensures
        a == b,
{
    lemma_percent_encoded_decodes(a);
    lemma_percent_encoded_decodes(b);
}

proof fn lemma_bytes_as_chars_injective(x: Seq<u8>, y: Seq<u8>)
    requires
        bytes_as_chars(x) == bytes_as_chars(y),
    ensures
        x == y,
{
    assert(bytes_as_chars(x).len() == x.len());
    assert(bytes_as_chars(y).len() == y.len());
    assert(x.len() == y.len());
    assert forall|i: int| 0 <= i < x.len() implies x[i] == y[i] by {
        assert(bytes_as_chars(x)[i] == x[i] as char);
        assert(bytes_as_chars(y)[i] == y[i] as char);
    }
    assert(x =~= y);
}

/// Distinct device ids always yield distinct path segments, end to end:
/// characters to UTF-8 bytes to the percent-encoded text that goes on the
/// wire.  So a service that matches the segment literally matches only the
/// correctly encoded form of the one id.
pub proof fn lemma_encoded_segment_injective(a: Seq<char>, b: Seq<char>)
    requires
        percent_encoded_chars(vstd::utf8::encode_utf8(a)) == percent_encoded_chars(
            vstd::utf8::encode_utf8(b),
        ),
    ensures
        a == b,
{
    lemma_bytes_as_chars_injective(
        percent_encoded(vstd::utf8::encode_utf8(a)),
        percent_encoded(vstd::utf8::encode_utf8(b)),
    );
    lemma_percent_encoding_injective(vstd::utf8::encode_utf8(a), vstd::utf8::encode_utf8(b));
    vstd::utf8::encode_utf8_decode_utf8(a);
    vstd::utf8::encode_utf8_decode_utf8(b);
}

proof fn lemma_percent_encoded_push(s: Seq<u8>, b: u8)
    ensures
        percent_encoded(s.push(b)) == percent_encoded(s) + encoded_byte(b),
    decreases s.len(),
{
    if s.len() == 0 {
        assert(s.push(b)[0] == b);
        assert(s.push(b).drop_first() =~= Seq::<u8>::empty());
        assert(percent_encoded(s.push(b)) == encoded_byte(b) + percent_encoded(
            Seq::<u8>::empty(),
        ));
        assert(percent_encoded(s.push(b)) =~= percent_encoded(s) + encoded_byte(b));
    } else {
        lemma_percent_encoded_push(s.drop_first(), b);
        assert(s.push(b)[0] == s[0]);
        assert(s.push(b).drop_first() =~= s.drop_first().push(b));
        assert(percent_encoded(s.push(b)) == encoded_byte(s[0]) + percent_encoded(
            s.drop_first().push(b),
        ));
        assert(percent_encoded(s) == encoded_byte(s[0]) + percent_encoded(s.drop_first()));
        assert(encoded_byte(s[0]) + (percent_encoded(s.drop_first()) + encoded_byte(b)) =~= (
        encoded_byte(s[0]) + percent_encoded(s.drop_first())) + encoded_byte(b));
        assert(percent_encoded(s.push(b)) =~= percent_encoded(s) + encoded_byte(b));
    }
}

/// Whether a byte stands for an unreserved character, decided at run time.
pub fn byte_is_unreserved(b: u8) -> (r: bool)
    ensures
        r == is_unreserved_byte(b),
{
    (0x41 <= b && b <= 0x5a) || (0x61 <= b && b <= 0x7a) || (0x30 <= b && b <= 0x39) || b == 0x2d
        || b == 0x2e || b == 0x5f || b == 0x7e
}

fn hex_digit_byte(n: u8) -> (r: u8)
    requires
        n < 16,
    ensures
        r == hex_digit(n),
{
    if n < 10 {
        0x30 + n
    } else {
        0x41 + (n - 10)
    }
}

fn push_encoded_byte(out: &mut Vec<u8>, b: u8)
    ensures
        final(out)@ == old(out)@ + encoded_byte(b),
{
    if byte_is_unreserved(b) {
        out.push(b);
        assert(out@ =~= old(out)@ + encoded_byte(b));
    } else {
        out.push(0x25);
        out.push(hex_digit_byte(b / 16));
        out.push(hex_digit_byte(b % 16));
        assert(out@ =~= old(out)@ + encoded_byte(b));
    }
}

/// Percent-encode a byte sequence for use as a URI path segment.
pub fn percent_encode_bytes(input: &[u8]) -> (out: Vec<u8>)
    ensures
        out@ == percent_encoded(input@),
{
    let mut out: Vec<u8> = Vec::new();
    let mut i: usize = 0;
    while i < input.len()
        invariant
            i <= input@.len(),
            out@ == percent_encoded(input@.subrange(0, i as int)),
        decreases input@.len() - i,
    {
        proof {
            lemma_percent_encoded_push(input@.subrange(0, i as int), input@[i as int]);
            assert(input@.subrange(0, i + 1) =~= input@.subrange(0, i as int).push(
                input@[i as int],
            ));
        }
        push_encoded_byte(&mut out, input[i]);
        i = i + 1;
    }
    proof {
        assert(input@.subrange(0, input@.len() as int) =~= input@);
    }
    out
}

/// Relies on String::from_utf8: bytes below 0x80 are valid UTF-8 and decode
/// to the characters with the same code points.
#[verifier::external_body]
fn ascii_bytes_to_string(bytes: Vec<u8>) -> (r: String)
    requires
        forall|i: int| 0 <= i < bytes@.len() ==> bytes@[i] < 128,
    ensures
        r@ == bytes_as_chars(bytes@),
{
    String::from_utf8(bytes).unwrap_or_default()
}

/// Percent-encode a string for embedding as a single URI path segment, byte
/// by byte over its UTF-8 form.
pub fn encode_uri_component(component: &str) -> (r: String)
    ensures
        r@ == percent_encoded_chars(component.spec_bytes()),
{
    let bytes = component.as_bytes_vec();
    let encoded = percent_encode_bytes(bytes.as_slice());
    proof {
        lemma_percent_encoded_ascii(bytes@);
    }
    ascii_bytes_to_string(encoded)
}

} // verus!
