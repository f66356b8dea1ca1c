//! Percent-encoding of a text that is to stand inside a query string.

use vstd::prelude::*;
use vstd::utf8::encode_utf8;

verus! {

/// Whether `byte` stands for itself in the encoded text: an ASCII letter or
/// digit, or one of `-`, `.`, `_`, `~`.
pub open spec fn is_unreserved(byte: u8) -> bool {
    ||| 0x30 <= byte <= 0x39
    ||| 0x41 <= byte <= 0x5a
    ||| 0x61 <= byte <= 0x7a
    ||| byte == 0x2d
    ||| byte == 0x2e
    ||| byte == 0x5f
    ||| byte == 0x7e
}

/// The upper-case hexadecimal digit for a value below sixteen.
pub open spec fn hex_digit(value: int) -> char {
    if value < 10 {
        (0x30 + value) as char
    } else {
        (0x41 + value - 10) as char
    }
}

/// The encoded form of one byte: the byte itself if it is unreserved, else
/// `%` and its two hexadecimal digits.
pub open spec fn escape_byte(byte: u8) -> Seq<char> {
    if is_unreserved(byte) {
        seq![byte as char]
    } else {
        seq!['%', hex_digit(byte as int / 16), hex_digit(byte as int % 16)]
    }
}

/// The encoded forms of `bytes`, one after the other.
pub open spec fn escape_bytes(bytes: Seq<u8>) -> Seq<char>
    decreases bytes.len(),
{
    if bytes.len() == 0 {
        Seq::empty()
    } else {
        escape_byte(bytes[0]) + escape_bytes(bytes.drop_first())
    }
}

/// The percent-encoded form of `text`: its UTF-8 bytes, each one escaped.
pub open spec fn percent_encoded(text: Seq<char>) -> Seq<char> {
    escape_bytes(encode_utf8(text))
}

/// Whether `c` may occur in an encoded text: `%`, or a character that stands
/// for itself.
pub open spec fn is_encoded_char(c: char) -> bool {
    c == '%' || (c as int) < 256 && is_unreserved(c as u8)
}

/// Calls `urlencoding::encode`. Trusted, not proved: the result is made of
/// the UTF-8 bytes of `text` in order, each unreserved byte kept as it is and
/// every other byte replaced by `%` and two upper-case hexadecimal digits.
#[verifier::external_body]
pub(crate) fn percent_encode(text: &str) -> (encoded: String)
    ensures
        encoded@ == percent_encoded(text@),
{
    urlencoding::encode(text).into_owned()
}

/// A percent-encoded text holds nothing but `%` and unreserved characters, so
/// none of the separators of a query string occurs in it.
pub proof fn lemma_percent_encoded_safe(text: Seq<char>)
    ensures
        forall|at: int|
            0 <= at < percent_encoded(text).len() ==> is_encoded_char(
                #[trigger] percent_encoded(text)[at],
            ),
{
    lemma_escape_bytes_safe(encode_utf8(text));
}

/// Escaped bytes hold nothing but `%` and unreserved characters, between one
/// and three for each byte.
pub proof fn lemma_escape_bytes_safe(bytes: Seq<u8>)
    ensures
        forall|at: int|
            0 <= at < escape_bytes(bytes).len() ==> is_encoded_char(
                #[trigger] escape_bytes(bytes)[at],
            ),
        bytes.len() <= escape_bytes(bytes).len() <= 3 * bytes.len(),
    decreases bytes.len(),
{
    if bytes.len() > 0 {
        lemma_escape_bytes_safe(bytes.drop_first());
        lemma_escape_byte_safe(bytes[0]);
    }
}

/// Each character of an escaped byte is `%` or unreserved.
pub proof fn lemma_escape_byte_safe(byte: u8)
    ensures
        escape_byte(byte).len() == (if is_unreserved(byte) { 1nat } else { 3nat }),
        forall|at: int|
            0 <= at < escape_byte(byte).len() ==> is_encoded_char(
                #[trigger] escape_byte(byte)[at],
            ),
{
    let high = byte as int / 16;
    let low = byte as int % 16;
    assert(0 <= high < 16 && 0 <= low < 16);
    assert(is_encoded_char(hex_digit(high)));
    assert(is_encoded_char(hex_digit(low)));
}

} // verus!
