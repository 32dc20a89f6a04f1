//! Percent-encoding of URL query components.
//!
//! The model works on the UTF-8 bytes of a string: every byte that is not an
//! ASCII alphanumeric or one of `-`, `.`, `_`, `~` becomes `%` followed by two
//! uppercase hex digits. Encoding is performed by the `urlencoding` crate; its
//! result is pinned, byte for byte, to the model here, and decoding the model's
//! output is proved to give the original bytes back.

use vstd::prelude::*;
use vstd::utf8::encode_utf8;

verus! {

/// A byte that percent-encoding passes through unchanged: an ASCII digit,
/// letter, or one of `-`, `.`, `_`, `~`.
pub open spec fn is_unreserved_byte(b: u8) -> bool {
    (48 <= b && b <= 57) || (65 <= b && b <= 90) || (97 <= b && b <= 122) || b == 45 || b == 46
        || b == 95 || b == 126
}

/// The uppercase hex digit for a value below sixteen, as a byte.
pub open spec fn hex_digit_byte(v: int) -> u8
    recommends
        0 <= v < 16,
{
    if v < 10 {
        (v + 48) as u8
    } else {
        (v + 55) as u8
    }
}

/// The value of a hex digit byte (uppercase or lowercase letters accepted).
pub open spec fn hex_value(d: u8) -> int {
    if 48 <= d && d <= 57 {
        d - 48
    } else if 65 <= d && d <= 70 {
        d - 65 + 10
    } else if 97 <= d && d <= 102 {
        d - 97 + 10
    } else {
        0
    }
}

/// What one byte contributes to the encoded output.
pub open spec fn encode_byte(b: u8) -> Seq<u8> {
    if is_unreserved_byte(b) {
        seq![b]
    } else {
        seq![37u8, hex_digit_byte(b as int / 16), hex_digit_byte(b as int % 16)]
    }
}

/// The percent-encoded form of a byte sequence.
pub open spec fn percent_encode(bytes: Seq<u8>) -> Seq<u8>
    decreases bytes.len(),
{
    if bytes.len() == 0 {
        Seq::<u8>::empty()
    } else {
        encode_byte(bytes[0]) + percent_encode(bytes.drop_first())
    }
}

/// Percent-decoding: `%` followed by two hex digits becomes the byte they
/// spell; every other byte stands for itself.
pub open spec fn percent_decode(bytes: Seq<u8>) -> Seq<u8>
    decreases bytes.len(),
{
    if bytes.len() == 0 {
        Seq::<u8>::empty()
    } else if bytes[0] == 37 && bytes.len() >= 3 {
        seq![(hex_value(bytes[1]) * 16 + hex_value(bytes[2])) as u8] + percent_decode(
            bytes.skip(3),
        )
    } else {
        seq![bytes[0]] + percent_decode(bytes.drop_first())
    }
}

/// An encoded sequence holds only ASCII bytes, so reading it as text maps each
/// byte to the character with the same code point.
pub open spec fn ascii_chars(bytes: Seq<u8>) -> Seq<char> {
    bytes.map_values(|b: u8| b as char)
}

/// The percent-encoded form of a string: its UTF-8 bytes encoded, read as text.
pub open spec fn encoded_text(s: Seq<char>) -> Seq<char> {
    ascii_chars(percent_encode(encode_utf8(s)))
}

/// Relies on `urlencoding::encode`: every byte of the UTF-8 form of `s` that
/// is not an ASCII alphanumeric or `-`, `.`, `_`, `~` becomes `%` followed by
/// two uppercase hex digits; every other byte is kept as it is.
#[verifier::external_body]
pub(crate) fn encode_component(s: &str) -> (r: String)
    ensures
        r@ == encoded_text(s@),
{
    urlencoding::encode(s).into_owned()
}

/// Reading back an uppercase hex digit gives the value it was written from.
proof fn lemma_hex_value_digit(v: int)
    requires
        0 <= v < 16,
    ensures
        hex_value(hex_digit_byte(v)) == v,
{
}

/// Round-trip law: percent-decoding a percent-encoded sequence reproduces the
/// original bytes exactly.
pub proof fn lemma_percent_round_trip(bytes: Seq<u8>)
    ensures
        percent_decode(percent_encode(bytes)) == bytes,
    decreases bytes.len(),
{
    if bytes.len() == 0 {
        assert(percent_decode(percent_encode(bytes)) =~= bytes);
    } else {
        let b = bytes[0];
        let rest = bytes.drop_first();
        lemma_percent_round_trip(rest);
        let enc = percent_encode(bytes);
        if is_unreserved_byte(b) {
            assert(enc =~= seq![b] + percent_encode(rest));
            assert(enc[0] == b && b != 37);
            assert(enc.drop_first() =~= percent_encode(rest));
            assert(percent_decode(enc) =~= seq![b] + percent_decode(percent_encode(rest)));
            assert(seq![b] + rest =~= bytes);
        } else {
            let h1 = hex_digit_byte(b as int / 16);
            let h2 = hex_digit_byte(b as int % 16);
            assert(enc =~= seq![37u8, h1, h2] + percent_encode(rest));
            assert(enc[0] == 37 && enc.len() >= 3);
            lemma_hex_value_digit(b as int / 16);
            lemma_hex_value_digit(b as int % 16);
            assert(hex_value(h1) * 16 + hex_value(h2) == b as int);
            assert(enc.skip(3) =~= percent_encode(rest));
            assert(percent_decode(enc) =~= seq![b] + percent_decode(percent_encode(rest)));
            assert(seq![b] + rest =~= bytes);
        }
    }
}

/// Every byte of a percent-encoded sequence is ASCII: unreserved bytes are,
/// and every other byte is spelled with `%` and two hex digits.
pub proof fn lemma_percent_encode_ascii(bytes: Seq<u8>)
    ensures
        forall|i: int|
            0 <= i < percent_encode(bytes).len() ==> #[trigger] percent_encode(bytes)[i] < 128,
    decreases bytes.len(),
{
    if bytes.len() > 0 {
        lemma_percent_encode_ascii(bytes.drop_first());
        let b = bytes[0];
        let head = encode_byte(b);
        let tail = percent_encode(bytes.drop_first());
        let enc = percent_encode(bytes);
        assert(forall|i: int| 0 <= i < head.len() ==> #[trigger] head[i] < 128);
        assert forall|i: int| 0 <= i < enc.len() implies #[trigger] enc[i] < 128 by {
            if i < head.len() {
                assert(enc[i] == head[i]);
            } else {
                assert(enc[i] == tail[i - head.len()]);
            }
        }
    }
}

/// Round-trip law at the level of the encoded text: the UTF-8 bytes of an
/// encoded component percent-decode to the UTF-8 bytes of the original string,
/// byte for byte.
pub proof fn lemma_encoded_text_round_trip(s: Seq<char>)
    ensures
        percent_decode(encode_utf8(encoded_text(s))) == encode_utf8(s),
{
    let eb = percent_encode(encode_utf8(s));
    let chars = ascii_chars(eb);
    lemma_percent_encode_ascii(encode_utf8(s));
    assert(forall|i: int| 0 <= i < chars.len() ==> chars[i] == #[trigger] eb[i] as char);
    assert(vstd::utf8::is_ascii_chars(chars));
    vstd::utf8::is_ascii_chars_encode_utf8(chars);
    assert(encode_utf8(chars) =~= eb);
    lemma_percent_round_trip(encode_utf8(s));
}

} // verus!
