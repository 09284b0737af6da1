//! Building the request URL.
//!
//! A translation request is a single GET against a fixed endpoint template,
//! with the source and target language codes interpolated as given and the
//! text percent-encoded byte by byte.

use vstd::prelude::*;
use vstd::utf8::encode_utf8;

use crate::text::push_char;
use vstd::string::StringExecFns;

verus! {

/// Bytes that stand for themselves in a URL query value: ASCII letters,
/// digits, and `-` `.` `_` `~`.
pub open spec fn is_unreserved_byte(b: u8) -> bool {
    (0x41 <= b && b <= 0x5a) || (0x61 <= b && b <= 0x7a) || (0x30 <= b && b <= 0x39) || b == 0x2d
        || b == 0x2e || b == 0x5f || b == 0x7e
}

/// The upper-case hexadecimal digit of a value below 16.
pub open spec fn hex_upper(n: u8) -> char
    recommends
        n < 16,
{
    if n == 0 {
        '0'
    } else if n == 1 {
        '1'
    } else if n == 2 {
        '2'
    } else if n == 3 {
        '3'
    } else if n == 4 {
        '4'
    } else if n == 5 {
        '5'
    } else if n == 6 {
        '6'
    } else if n == 7 {
        '7'
    } else if n == 8 {
        '8'
    } else if n == 9 {
        '9'
    } else if n == 10 {
        'A'
    } else if n == 11 {
        'B'
    } else if n == 12 {
        'C'
    } else if n == 13 {
        'D'
    } else if n == 14 {
        'E'
    } else {
        'F'
    }
}

/// How one byte of the text appears in the URL: unchanged if unreserved,
/// otherwise as `%` followed by its two upper-case hexadecimal digits.
pub open spec fn encoded_byte(b: u8) -> Seq<char> {
    if is_unreserved_byte(b) {
        seq![b as char]
    } else {
        seq!['%', hex_upper(b / 16), hex_upper(b % 16)]
    }
}

/// The percent-encoding of a whole byte sequence, in order.
pub open spec fn percent_encoded(bytes: Seq<u8>) -> Seq<char>
    decreases bytes.len(),
{
    if bytes.len() == 0 {
        Seq::empty()
    } else {
        percent_encoded(bytes.drop_last()) + encoded_byte(bytes.last())
    }
}

/// The full request URL for translating `text` from `from` to `to`: the
/// fixed endpoint template with the two language codes interpolated as
/// given and the text percent-encoded over its UTF-8 bytes.
pub open spec fn translate_url_spec(text: Seq<char>, from: Seq<char>, to: Seq<char>) -> Seq<
    char,
> {
    "https://translate.googleapis.com/translate_a/single?client=gtx&sl="@ + from + "&tl="@ + to
        + "&dt=t&q="@ + percent_encoded(encode_utf8(text))
}

/// The upper-case hexadecimal digit of a value below 16.
fn hex_upper_digit(n: u8) -> (c: char)
    requires
        n < 16,
    ensures
        c == hex_upper(n),
{
    if n == 0 {
        '0'
    } else if n == 1 {
        '1'
    } else if n == 2 {
        '2'
    } else if n == 3 {
        '3'
    } else if n == 4 {
        '4'
    } else if n == 5 {
        '5'
    } else if n == 6 {
        '6'
    } else if n == 7 {
        '7'
    } else if n == 8 {
        '8'
    } else if n == 9 {
        '9'
    } else if n == 10 {
        'A'
    } else if n == 11 {
        'B'
    } else if n == 12 {
        'C'
    } else if n == 13 {
        'D'
    } else if n == 14 {
        'E'
    } else {
        'F'
    }
}

/// Percent-encodes the UTF-8 bytes of the text for use as a URL query
/// value.
pub fn percent_encode(text: &str) -> (r: String)
    ensures
        r@ == percent_encoded(encode_utf8(text@)),
{
    let bytes: &[u8] = text.as_bytes();
    let mut out = String::new();
    let mut i: usize = 0;
    while i < bytes.len()
        invariant
            i <= bytes@.len(),
            bytes@ == encode_utf8(text@),
            out@ == percent_encoded(bytes@.take(i as int)),
        decreases bytes@.len() - i,
    {
        let b = bytes[i];
        if (0x41 <= b && b <= 0x5a) || (0x61 <= b && b <= 0x7a) || (0x30 <= b && b <= 0x39)
            || b == 0x2d || b == 0x2e || b == 0x5f || b == 0x7e {
            push_char(&mut out, b as char);
        } else {
            push_char(&mut out, '%');
            push_char(&mut out, hex_upper_digit(b / 16));
            push_char(&mut out, hex_upper_digit(b % 16));
        }
        proof {
            let pre = bytes@.take(i as int);
            let ext = bytes@.take(i + 1 as int);
            assert(ext.drop_last() =~= pre);
            assert(ext.last() == bytes@[i as int]);
            assert(out@ =~= percent_encoded(pre) + encoded_byte(bytes@[i as int]));
        }
        i = i + 1;
    }
    proof {
        assert(bytes@.take(bytes@.len() as int) =~= bytes@);
    }
    out
}

/// Builds the request URL for translating `text` from `from` to `to`.
pub fn translate_url(text: &str, from: &str, to: &str) -> (u: String)
    ensures
        u@ == translate_url_spec(text@, from@, to@),
{
    let mut u = String::from_str(
        "https://translate.googleapis.com/translate_a/single?client=gtx&sl=",
    );
    u.append(from);
    u.append("&tl=");
    u.append(to);
    u.append("&dt=t&q=");
    let q = percent_encode(text);
    u.append(q.as_str());
    u
}

/// Builds the request URL of a to-English request: the source code is
/// `auto` and the target code is `en`.
pub fn to_english_url(text: &str) -> (u: String)
    ensures
        u@ == translate_url_spec(text@, "auto"@, "en"@),
{
    translate_url(text, "auto", "en")
}

/// Builds the request URL of a from-English request: the source code is
/// `en` and the target is the given code.
pub fn from_english_url(text: &str, to: &str) -> (u: String)
    ensures
        u@ == translate_url_spec(text@, "en"@, to@),
{
    translate_url(text, "en", to)
}

} // verus!
