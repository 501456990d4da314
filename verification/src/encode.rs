//! Keys as URL path segments: every byte that cannot stand in a single path
//! segment is written as a percent sign and two hexadecimal digits.

use vstd::prelude::*;
use vstd::utf8::{decode_utf8, encode_utf8, encode_utf8_decode_utf8};

verus! {

/// The bytes that are escaped in a path segment: controls, everything past
/// `~`, and space `"` `#` `<` `>` `` ` `` `?` `{` `}` `%` `/`.
pub open spec fn needs_escape(byte: u8) -> bool {
    byte < 0x20 || byte > 0x7E || byte == 0x20 || byte == 0x22 || byte == 0x23 || byte == 0x3C
        || byte == 0x3E || byte == 0x60 || byte == 0x3F || byte == 0x7B || byte == 0x7D || byte
        == 0x25 || byte == 0x2F
}

/// The upper-case hexadecimal digit for a value below sixteen.
pub open spec fn hex_digit(value: u8) -> char {
    if value < 10 {
        (0x30 + value) as u8 as char
    } else {
        (0x37 + value) as u8 as char
    }
}

/// The value of a hexadecimal digit of either case.
pub open spec fn hex_value(digit: char) -> Option<u8> {
    if '0' <= digit <= '9' {
        Some((digit as u8 - 0x30) as u8)
    } else if 'A' <= digit <= 'F' {
        Some((digit as u8 - 0x37) as u8)
    } else if 'a' <= digit <= 'f' {
        Some((digit as u8 - 0x57) as u8)
    } else {
        None
    }
}

/// One byte as it stands in a path segment: itself, or `%` and two digits.
pub open spec fn encode_byte(byte: u8) -> Seq<char> {
    if needs_escape(byte) {
        seq!['%', hex_digit(byte / 16), hex_digit(byte % 16)]
    } else {
        seq![byte as char]
    }
}

/// The percent-encoding of a byte string for one path segment.
pub open spec fn percent_encoded(bytes: Seq<u8>) -> Seq<char>
    decreases bytes.len(),
{
    if bytes.len() == 0 {
        Seq::empty()
    } else {
        encode_byte(bytes[0]) + percent_encoded(bytes.drop_first())
    }
}

/// The bytes that a percent-encoded text stands for: `%` followed by two
/// hexadecimal digits is one byte, any other character is its own byte.
pub open spec fn percent_decoded(text: Seq<char>) -> Seq<u8>
    decreases text.len(),
{
    if text.len() == 0 {
        Seq::empty()
    } else if text[0] == '%' && text.len() >= 3 && hex_value(text[1]) is Some && hex_value(
        text[2],
    ) is Some {
        seq![(hex_value(text[1])->0 * 16 + hex_value(text[2])->0) as u8] + percent_decoded(
            text.skip(3),
        )
    } else {
        seq![text[0] as u8] + percent_decoded(text.skip(1))
    }
}

/// A character that can stand in a path segment without splitting it: a
/// printable ASCII character that is not escaped, or the `%` of an escape.
pub open spec fn is_segment_char(c: char) -> bool {
    c == '%' || (0x20 < c as u32 && c as u32 <= 0x7E && !needs_escape(c as u8))
}

/// The encoded form of a key.
pub open spec fn encoded_key(key: Seq<char>) -> Seq<char> {
    percent_encoded(encode_utf8(key))
}

/// Calls `percent_encoding::percent_encode` with `PATH_SEGMENT_ENCODE_SET`
/// and collects what it yields. The contract restates the crate's rule: a
/// byte of the set becomes `%` and its two upper-case hexadecimal digits,
/// every other byte is copied.
#[verifier::external_body]
fn percent_encode_path_segment(input: &[u8]) -> (encoded: String)
    ensures
        encoded@ == percent_encoded(input@),
{
    percent_encoding::percent_encode(input, percent_encoding::PATH_SEGMENT_ENCODE_SET).to_string()
}

/// Encodes a key so that it can be placed as exactly one segment of a URL
/// path.
pub fn url_encode_key(key: &str) -> (encoded: String)
    ensures
        encoded@ == encoded_key(key@),
{
    percent_encode_path_segment(key.as_bytes())
}

/// A hexadecimal digit written by the encoder reads back as its value.
pub proof fn lemma_hex_digit_value(value: u8)
    requires
        value < 16,
    ensures
        hex_value(hex_digit(value)) == Some(value),
        is_segment_char(hex_digit(value)),
{
}

/// No encoded text holds a path separator, a space, a control or a
/// non-ASCII character: every character of it can stand in a path segment.
pub proof fn lemma_encoded_is_one_segment(bytes: Seq<u8>)
    ensures
        forall|i: int|
            0 <= i < percent_encoded(bytes).len() ==> is_segment_char(
                #[trigger] percent_encoded(bytes)[i],
            ),
        forall|i: int|
            0 <= i < percent_encoded(bytes).len() ==> #[trigger] percent_encoded(bytes)[i] != '/',
    decreases bytes.len(),
{
    if bytes.len() > 0 {
        let head = encode_byte(bytes[0]);
        let tail = percent_encoded(bytes.drop_first());
        lemma_encoded_is_one_segment(bytes.drop_first());
        lemma_hex_digit_value(bytes[0] / 16);
        lemma_hex_digit_value(bytes[0] % 16);
        assert forall|i: int| 0 <= i < percent_encoded(bytes).len() implies is_segment_char(
            #[trigger] percent_encoded(bytes)[i],
        ) by {
            if i < head.len() {
                assert(percent_encoded(bytes)[i] == head[i]);
            } else {
                assert(percent_encoded(bytes)[i] == tail[i - head.len()]);
            }
        }
    }
}

/// Decoding reverses encoding, for every byte string.
pub proof fn lemma_decode_reverses_encode(bytes: Seq<u8>)
    ensures
        percent_decoded(percent_encoded(bytes)) == bytes,
    decreases bytes.len(),
{
    if bytes.len() > 0 {
        let byte = bytes[0];
        let head = encode_byte(byte);
        let tail = percent_encoded(bytes.drop_first());
        let text = percent_encoded(bytes);
        lemma_decode_reverses_encode(bytes.drop_first());
        lemma_hex_digit_value(byte / 16);
        lemma_hex_digit_value(byte % 16);
        assert(text == head + tail);
        if needs_escape(byte) {
            assert(text[0] == '%' && text[1] == hex_digit(byte / 16) && text[2] == hex_digit(
                byte % 16,
            ));
            assert(text.skip(3) =~= tail);
            assert((byte / 16) * 16 + byte % 16 == byte);
        } else {
            assert(text[0] == byte as char);
            assert(text[0] != '%');
            assert(text.skip(1) =~= tail);
        }
        assert(percent_decoded(text) =~= seq![byte] + percent_decoded(tail));
        assert(seq![byte] + bytes.drop_first() =~= bytes);
    }
}

/// Every key is recovered from its encoded form: decoding the escapes and
/// reading the bytes as UTF-8 gives the key back.
pub proof fn lemma_key_round_trip(key: Seq<char>)
    ensures
        decode_utf8(percent_decoded(encoded_key(key))) == key,
{
    lemma_decode_reverses_encode(encode_utf8(key));
    encode_utf8_decode_utf8(key);
}

/// Two keys with the same encoded form are the same key.
pub proof fn lemma_encoding_is_injective(first: Seq<char>, second: Seq<char>)
    requires
        encoded_key(first) == encoded_key(second),
    ensures
        first == second,
{
    lemma_key_round_trip(first);
    lemma_key_round_trip(second);
}

} // verus!
