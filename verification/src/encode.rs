//! Percent-encoding of query values, and the decoding that undoes it.
//!
//! A value is written with every byte escaped that is no ASCII letter or digit. That
//! covers space, `"`, `<`, `>` and the backtick, and also `&`, `=`, `#`, `%` and `+`,
//! so that no value can be taken for a separator of the query or for an escape.

use vstd::prelude::*;
use vstd::string::StringSliceAdditionalSpecFns;
use vstd::utf8::{encode_utf8, is_ascii_chars, is_ascii_chars_encode_utf8};
use crate::text::digit_char;

verus! {

/// Whether a byte is an ASCII letter or digit.
pub open spec fn is_plain(byte: u8) -> bool {
    (0x30 <= byte <= 0x39) || (0x41 <= byte <= 0x5a) || (0x61 <= byte <= 0x7a)
}

/// The upper-case hexadecimal digit for a value below sixteen.
pub open spec fn hex_digit(value: int) -> char {
    if value < 10 {
        digit_char(value)
    } else if value == 10 {
        'A'
    } else if value == 11 {
        'B'
    } else if value == 12 {
        'C'
    } else if value == 13 {
        'D'
    } else if value == 14 {
        'E'
    } else {
        'F'
    }
}

/// What one byte becomes: itself if it is an ASCII letter or digit, else `%` and
/// its two hexadecimal digits.
pub open spec fn encoded_byte(byte: u8) -> Seq<char> {
    if is_plain(byte) {
        seq![byte as char]
    } else {
        seq!['%', hex_digit(byte as int / 16), hex_digit(byte as int % 16)]
    }
}

/// The percent-encoding of a sequence of bytes.
pub open spec fn percent_encoded(bytes: Seq<u8>) -> Seq<char>
    decreases bytes.len(),
{
    if bytes.len() == 0 {
        Seq::empty()
    } else {
        encoded_byte(bytes.first()) + percent_encoded(bytes.drop_first())
    }
}

/// The value of a hexadecimal digit in either case, if the character is one.
pub open spec fn hex_value(c: char) -> Option<int> {
    if '0' <= c <= '9' {
        Some(c as int - 0x30)
    } else if 'A' <= c <= 'F' {
        Some(c as int - 0x37)
    } else if 'a' <= c <= 'f' {
        Some(c as int - 0x57)
    } else {
        None
    }
}

/// Whether a text starts with `%` and two hexadecimal digits.
pub open spec fn starts_with_escape(text: Seq<char>) -> bool {
    text.len() >= 3 && text[0] == '%' && hex_value(text[1]) is Some && hex_value(text[2]) is Some
}

/// The bytes that a percent-encoded text stands for: each `%` with two hexadecimal
/// digits behind it is the byte they give, every other character its UTF-8 bytes.
pub open spec fn percent_decoded(text: Seq<char>) -> Seq<u8>
    decreases text.len(),
{
    if text.len() == 0 {
        Seq::empty()
    } else if starts_with_escape(text) {
        seq![(16 * hex_value(text[1])->0 + hex_value(text[2])->0) as u8] + percent_decoded(
            text.skip(3),
        )
    } else {
        encode_utf8(seq![text[0]]) + percent_decoded(text.skip(1))
    }
}

/// Whether a character may stand in an encoded value: an ASCII letter, a digit or `%`.
pub open spec fn is_value_char(c: char) -> bool {
    c == '%' || ('0' <= c <= '9') || ('A' <= c <= 'Z') || ('a' <= c <= 'z')
}

/// Calls `percent_encoding::utf8_percent_encode` with the set
/// `percent_encoding::NON_ALPHANUMERIC` and collects what it yields. Trusted: each byte
/// of the UTF-8 form of `input` that is an ASCII letter or digit comes out as itself,
/// every other byte as `%` and its two upper-case hexadecimal digits, in order.
#[verifier::external_body]
pub(crate) fn url_encode(input: &str) -> (encoded: String)
    ensures
        encoded@ == percent_encoded(input.spec_bytes()),
{
    percent_encoding::utf8_percent_encode(input, percent_encoding::NON_ALPHANUMERIC).to_string()
}

/// The encoding of a concatenation is the concatenation of the encodings.
pub proof fn lemma_encoded_concat(first: Seq<u8>, second: Seq<u8>)
    ensures
        percent_encoded(first + second) == percent_encoded(first) + percent_encoded(second),
    decreases first.len(),
{
    if first.len() == 0 {
        assert(first + second =~= second);
        assert(percent_encoded(first) + percent_encoded(second) =~= percent_encoded(second));
    } else {
        lemma_encoded_concat(first.drop_first(), second);
        assert((first + second).drop_first() =~= first.drop_first() + second);
        assert(percent_encoded(first + second) =~= percent_encoded(first) + percent_encoded(
            second,
        ));
    }
}

/// An encoded value holds only letters, digits and `%`: none of the characters that
/// separate the parts of a query.
pub proof fn lemma_encoded_chars(bytes: Seq<u8>)
    ensures
        forall|i: int|
            0 <= i < percent_encoded(bytes).len() ==> is_value_char(
                #[trigger] percent_encoded(bytes)[i],
            ),
    decreases bytes.len(),
{
    if bytes.len() > 0 {
        lemma_encoded_chars(bytes.drop_first());
        let head = encoded_byte(bytes.first());
        let tail = percent_encoded(bytes.drop_first());
        assert forall|i: int| 0 <= i < percent_encoded(bytes).len() implies is_value_char(
            #[trigger] percent_encoded(bytes)[i],
        ) by {
            if i < head.len() {
                assert(percent_encoded(bytes)[i] == head[i]);
            } else {
                assert(percent_encoded(bytes)[i] == tail[i - head.len()]);
            }
        }
    }
}

/// Decoding undoes encoding, for every sequence of bytes.
pub proof fn lemma_decoded_encoded(bytes: Seq<u8>)
    ensures
        percent_decoded(percent_encoded(bytes)) == bytes,
    decreases bytes.len(),
{
    if bytes.len() > 0 {
        let byte = bytes.first();
        let tail = percent_encoded(bytes.drop_first());
        let text = percent_encoded(bytes);
        lemma_decoded_encoded(bytes.drop_first());
        if is_plain(byte) {
            let c = byte as char;
            assert(text[0] == c);
            assert(text.skip(1) =~= tail);
            assert(is_ascii_chars(seq![c]));
            is_ascii_chars_encode_utf8(seq![c]);
            assert(encode_utf8(seq![c]) =~= seq![byte]);
            assert(!starts_with_escape(text));
            assert(percent_decoded(text) =~= seq![byte] + bytes.drop_first());
        } else {
            let high = byte as int / 16;
            let low = byte as int % 16;
            assert(text[0] == '%');
            assert(text[1] == hex_digit(high));
            assert(text[2] == hex_digit(low));
            assert(hex_value(hex_digit(high)) == Some(high));
            assert(hex_value(hex_digit(low)) == Some(low));
            assert(text.skip(3) =~= tail);
            assert(starts_with_escape(text));
            assert(percent_decoded(text) =~= seq![byte] + bytes.drop_first());
        }
        assert(seq![byte] + bytes.drop_first() =~= bytes);
    }
}

} // verus!
