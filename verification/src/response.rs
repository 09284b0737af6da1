//! Reading the endpoint's reply.
//!
//! The endpoint answers with a JSON array whose first element's first
//! element's first element is the translated text. The grammar below pins
//! down exactly which bodies carry such a segment and what the decoded
//! segment is; the extraction function is proved to follow it. A body that
//! is not JSON at all is a decode failure; a JSON body without the segment
//! is a shape failure; neither is ever replaced by a made-up translation.

use vstd::prelude::*;

use crate::text::{char_from_u32, push_char, to_char_vec};
use crate::TranslateError;

verus! {

/// Whether the body is well-formed JSON. The exact JSON grammar is not
/// restated here; the name is given meaning by the trusted check below.
pub uninterp spec fn json_wf(s: Seq<char>) -> bool;

/// Relies on serde_json::from_str::<Value>: whether a body parses as JSON
/// is a function of the body alone.
#[verifier::external_body]
fn json_body_is_valid(s: &str) -> (r: bool)
    ensures
        r == json_wf(s@),
{
    serde_json::from_str::<serde_json::Value>(s).is_ok()
}

/// JSON insignificant whitespace.
pub open spec fn is_json_ws(c: char) -> bool {
    c == ' ' || c == '\n' || c == '\r' || c == '\t'
}

/// The first position at or after `i` holding something other than JSON
/// whitespace.
pub open spec fn skip_ws(s: Seq<char>, i: int) -> int
    recommends
        0 <= i <= s.len(),
    decreases s.len() - i,
{
    if i < s.len() && is_json_ws(s[i]) {
        skip_ws(s, i + 1)
    } else {
        i
    }
}

/// The numeric value of a hexadecimal digit, upper or lower case.
pub open spec fn hex_digit_value(c: char) -> Option<u32> {
    if 48 <= c as u32 && c as u32 <= 57 {
        Some((c as u32 - 48) as u32)
    } else if 97 <= c as u32 && c as u32 <= 102 {
        Some((c as u32 - 87) as u32)
    } else if 65 <= c as u32 && c as u32 <= 70 {
        Some((c as u32 - 55) as u32)
    } else {
        None
    }
}

/// The value of the four hexadecimal digits at positions `i` to `i + 3`.
pub open spec fn hex_quad_value(s: Seq<char>, i: int) -> Option<u32>
    recommends
        0 <= i && i + 4 <= s.len(),
{
    match (
        hex_digit_value(s[i]),
        hex_digit_value(s[i + 1]),
        hex_digit_value(s[i + 2]),
        hex_digit_value(s[i + 3]),
    ) {
        (Some(a), Some(b), Some(c), Some(d)) => Some(
            (((a * 16 + b) * 16 + c) * 16 + d) as u32,
        ),
        _ => None,
    }
}

/// The character a single-letter JSON escape stands for, if the letter is
/// one of the eight JSON defines.
pub open spec fn simple_escape(c: char) -> Option<char> {
    if c == '"' {
        Some('"')
    } else if c == '\\' {
        Some('\\')
    } else if c == '/' {
        Some('/')
    } else if c == 'b' {
        Some('\u{0008}')
    } else if c == 'f' {
        Some('\u{000C}')
    } else if c == 'n' {
        Some('\n')
    } else if c == 'r' {
        Some('\r')
    } else if c == 't' {
        Some('\t')
    } else {
        None
    }
}

/// The scalar value encoded by a surrogate pair.
pub open spec fn surrogate_scalar(hi: u32, lo: u32) -> u32
    recommends
        0xD800 <= hi <= 0xDBFF,
        0xDC00 <= lo <= 0xDFFF,
{
    (0x10000 + (hi - 0xD800) * 0x400 + (lo - 0xDC00)) as u32
}

/// Reads the body of a JSON string literal starting at `i`, which points
/// just past the opening quote. Yields the decoded content and the
/// position just past the closing quote, or nothing if no well-formed
/// string body starts there.
pub open spec fn parse_string_body(s: Seq<char>, i: int) -> Option<(Seq<char>, int)>
    recommends
        0 <= i <= s.len(),
    decreases s.len() - i,
{
    if i >= s.len() {
        None
    } else {
        let c = s[i];
        if c == '"' {
            Some((Seq::empty(), i + 1))
        } else if c == '\\' {
            if i + 2 <= s.len() {
                let e = s[i + 1];
                if e == 'u' {
                    if i + 6 <= s.len() {
                        match hex_quad_value(s, i + 2) {
                            Some(code) => if 0xD800 <= code && code <= 0xDBFF {
                                if i + 12 <= s.len() && s[i + 6] == '\\' && s[i + 7] == 'u' {
                                    match hex_quad_value(s, i + 8) {
                                        Some(low) => if 0xDC00 <= low && low <= 0xDFFF {
                                            match parse_string_body(s, i + 12) {
                                                Some(p) => Some(
                                                    (
                                                        seq![
                                                            surrogate_scalar(code, low) as char
                                                        ] + p.0,
                                                        p.1,
                                                    ),
                                                ),
                                                None => None,
                                            }
                                        } else {
                                            None
                                        },
                                        None => None,
                                    }
                                } else {
                                    None
                                }
                            } else if 0xDC00 <= code && code <= 0xDFFF {
                                None
                            } else {
                                match parse_string_body(s, i + 6) {
                                    Some(p) => Some((seq![code as char] + p.0, p.1)),
                                    None => None,
                                }
                            },
                            None => None,
                        }
                    } else {
                        None
                    }
                } else {
                    match simple_escape(e) {
                        Some(d) => match parse_string_body(s, i + 2) {
                            Some(p) => Some((seq![d] + p.0, p.1)),
                            None => None,
                        },
                        None => None,
                    }
                }
            } else {
                None
            }
        } else if (c as u32) < 0x20 {
            None
        } else {
            match parse_string_body(s, i + 1) {
                Some(p) => Some((seq![c] + p.0, p.1)),
                None => None,
            }
        }
    }
}

/// The translated segment a body carries: after optional whitespace, three
/// opening brackets each followed by optional whitespace, then a JSON
/// string literal, whose decoded content is the segment.
pub open spec fn extracted_segment(s: Seq<char>) -> Option<Seq<char>> {
    let i1 = skip_ws(s, 0);
    if i1 < s.len() && s[i1] == '[' {
        let i2 = skip_ws(s, i1 + 1);
        if i2 < s.len() && s[i2] == '[' {
            let i3 = skip_ws(s, i2 + 1);
            if i3 < s.len() && s[i3] == '[' {
                let i4 = skip_ws(s, i3 + 1);
                if i4 < s.len() && s[i4] == '"' {
                    match parse_string_body(s, i4 + 1) {
                        Some(p) => Some(p.0),
                        None => None,
                    }
                } else {
                    None
                }
            } else {
                None
            }
        } else {
            None
        }
    } else {
        None
    }
}

/// What a translation call yields once the body of the reply is in hand: a
/// body that is not JSON is a decode failure, a JSON body without a
/// translated segment is a shape failure, and otherwise the outcome is
/// exactly the segment the body carries.
pub open spec fn translation_outcome(s: Seq<char>) -> Result<Seq<char>, TranslateError> {
    if !json_wf(s) {
        Err(TranslateError::Decode)
    } else {
        match extracted_segment(s) {
            Some(t) => Ok(t),
            None => Err(TranslateError::Shape),
        }
    }
}

/// A partial string-body parse, extended in front by an already decoded
/// prefix.
spec fn prepend_parse(prefix: Seq<char>, r: Option<(Seq<char>, int)>) -> Option<
    (Seq<char>, int),
> {
    match r {
        Some(p) => Some((prefix + p.0, p.1)),
        None => None,
    }
}

proof fn lemma_prepend_empty(r: Option<(Seq<char>, int)>)
    ensures
        prepend_parse(Seq::empty(), r) == r,
{
    match r {
        Some(p) => {
            assert(Seq::<char>::empty() + p.0 =~= p.0);
        },
        None => {},
    }
}

proof fn lemma_prepend_prepend(prefix: Seq<char>, d: char, r: Option<(Seq<char>, int)>)
    ensures
        prepend_parse(prefix, prepend_parse(seq![d], r)) == prepend_parse(prefix.push(d), r),
{
    match r {
        Some(p) => {
            assert(prefix + (seq![d] + p.0) =~= prefix.push(d) + p.0);
        },
        None => {},
    }
}

/// The numeric value of a hexadecimal digit, upper or lower case.
fn hex_digit_exec(c: char) -> (r: Option<u32>)
    ensures
        r == hex_digit_value(c),
{
    let u: u32 = c as u32;
    if 48 <= u && u <= 57 {
        Some(u - 48)
    } else if 97 <= u && u <= 102 {
        Some(u - 87)
    } else if 65 <= u && u <= 70 {
        Some(u - 55)
    } else {
        None
    }
}

/// The value of the four hexadecimal digits at positions `i` to `i + 3`.
fn hex_quad_exec(v: &Vec<char>, i: usize) -> (r: Option<u32>)
    requires
        i + 4 <= v@.len(),
    ensures
        r == hex_quad_value(v@, i as int),
{
    let n: usize = v.len();
    proof {
        assert(i + 4 <= n);
    }
    let a = hex_digit_exec(v[i]);
    let b = hex_digit_exec(v[i + 1]);
    let c = hex_digit_exec(v[i + 2]);
    let d = hex_digit_exec(v[i + 3]);
    match (a, b, c, d) {
        (Some(a), Some(b), Some(c), Some(d)) => Some((((a * 16 + b) * 16 + c) * 16 + d)),
        _ => None,
    }
}

/// The character a single-letter JSON escape stands for.
fn simple_escape_exec(c: char) -> (r: Option<char>)
    ensures
        r == simple_escape(c),
{
    if c == '"' {
        Some('"')
    } else if c == '\\' {
        Some('\\')
    } else if c == '/' {
        Some('/')
    } else if c == 'b' {
        Some('\u{0008}')
    } else if c == 'f' {
        Some('\u{000C}')
    } else if c == 'n' {
        Some('\n')
    } else if c == 'r' {
        Some('\r')
    } else if c == 't' {
        Some('\t')
    } else {
        None
    }
}

/// Advances past JSON whitespace.
fn skip_ws_exec(v: &Vec<char>, start: usize) -> (j: usize)
    requires
        start <= v@.len(),
    ensures
        j == skip_ws(v@, start as int),
        start <= j <= v@.len(),
{
    let mut j: usize = start;
    while j < v.len() && (v[j] == ' ' || v[j] == '\n' || v[j] == '\r' || v[j] == '\t')
        invariant
            start <= j <= v@.len(),
            skip_ws(v@, start as int) == skip_ws(v@, j as int),
        decreases v@.len() - j,
    {
        j = j + 1;
    }
    j
}

/// Reads a JSON string-literal body beginning at `start` (just past the
/// opening quote), yielding its decoded content and the position just past
/// the closing quote.
fn parse_string_tail(v: &Vec<char>, start: usize) -> (r: Option<(String, usize)>)
    requires
        start <= v@.len(),
    ensures
        r matches Some(p) ==> parse_string_body(v@, start as int) == Some((p.0@, p.1 as int))
            && p.1 <= v@.len(),
        r is None ==> parse_string_body(v@, start as int) is None,
{
    let mut out = String::new();
    let mut i: usize = start;
    proof {
        lemma_prepend_empty(parse_string_body(v@, start as int));
    }
    loop
        invariant
            start <= i <= v@.len(),
            parse_string_body(v@, start as int) == prepend_parse(
                out@,
                parse_string_body(v@, i as int),
            ),
        decreases v@.len() - i,
    {
        if i >= v.len() {
            return None;
        }
        let c = v[i];
        if c == '"' {
            proof {
                assert(out@ + Seq::<char>::empty() =~= out@);
            }
            return Some((out, i + 1));
        } else if c == '\\' {
            if v.len() - i < 2 {
                return None;
            }
            let e = v[i + 1];
            if e == 'u' {
                if v.len() - i < 6 {
                    return None;
                }
                let code = match hex_quad_exec(v, i + 2) {
                    Some(code) => code,
                    None => {
                        return None;
                    },
                };
                if 0xD800 <= code && code <= 0xDBFF {
                    if v.len() - i < 12 {
                        return None;
                    }
                    if !(v[i + 6] == '\\' && v[i + 7] == 'u') {
                        return None;
                    }
                    let low = match hex_quad_exec(v, i + 8) {
                        Some(low) => low,
                        None => {
                            return None;
                        },
                    };
                    if !(0xDC00 <= low && low <= 0xDFFF) {
                        return None;
                    }
                    let scalar: u32 = 0x10000 + (code - 0xD800) * 0x400 + (low - 0xDC00);
                    let ch = match char_from_u32(scalar) {
                        Some(ch) => ch,
                        None => {
                            proof {
                                assert(false);
                            }
                            return None;
                        },
                    };
                    proof {
                        vstd::utf8::char_u32_cast(ch, scalar);
                        assert(parse_string_body(v@, i as int) == prepend_parse(
                            seq![ch],
                            parse_string_body(v@, i + 12 as int),
                        ));
                        lemma_prepend_prepend(out@, ch, parse_string_body(v@, i + 12 as int));
                    }
                    push_char(&mut out, ch);
                    i = i + 12;
                } else if 0xDC00 <= code && code <= 0xDFFF {
                    return None;
                } else {
                    let ch = match char_from_u32(code) {
                        Some(ch) => ch,
                        None => {
                            proof {
                                assert(false);
                            }
                            return None;
                        },
                    };
                    proof {
                        vstd::utf8::char_u32_cast(ch, code);
                        assert(parse_string_body(v@, i as int) == prepend_parse(
                            seq![ch],
                            parse_string_body(v@, i + 6 as int),
                        ));
                        lemma_prepend_prepend(out@, ch, parse_string_body(v@, i + 6 as int));
                    }
                    push_char(&mut out, ch);
                    i = i + 6;
                }
            } else {
                let d = match simple_escape_exec(e) {
                    Some(d) => d,
                    None => {
                        return None;
                    },
                };
                proof {
                    assert(parse_string_body(v@, i as int) == prepend_parse(
                        seq![d],
                        parse_string_body(v@, i + 2 as int),
                    ));
                    lemma_prepend_prepend(out@, d, parse_string_body(v@, i + 2 as int));
                }
                push_char(&mut out, d);
                i = i + 2;
            }
        } else if (c as u32) < 0x20 {
            return None;
        } else {
            proof {
                assert(parse_string_body(v@, i as int) == prepend_parse(
                    seq![c],
                    parse_string_body(v@, i + 1 as int),
                ));
                lemma_prepend_prepend(out@, c, parse_string_body(v@, i + 1 as int));
            }
            push_char(&mut out, c);
            i = i + 1;
        }
    }
}

/// Turns the body of the endpoint's reply into the translated text or a
/// failure: a decode failure if the body is not JSON, a shape failure if
/// it carries no translated segment, and otherwise exactly the segment the
/// body carries.
pub fn extract_translation(body: &str) -> (r: Result<String, TranslateError>)
    ensures
        r matches Ok(t) ==> translation_outcome(body@) == Ok::<Seq<char>, TranslateError>(t@),
        r matches Err(e) ==> translation_outcome(body@) == Err::<Seq<char>, TranslateError>(e),
{
    if !json_body_is_valid(body) {
        return Err(TranslateError::Decode);
    }
    let v = to_char_vec(body);
    let i1 = skip_ws_exec(&v, 0);
    if !(i1 < v.len() && v[i1] == '[') {
        return Err(TranslateError::Shape);
    }
    let i2 = skip_ws_exec(&v, i1 + 1);
    if !(i2 < v.len() && v[i2] == '[') {
        return Err(TranslateError::Shape);
    }
    let i3 = skip_ws_exec(&v, i2 + 1);
    if !(i3 < v.len() && v[i3] == '[') {
        return Err(TranslateError::Shape);
    }
    let i4 = skip_ws_exec(&v, i3 + 1);
    if !(i4 < v.len() && v[i4] == '"') {
        return Err(TranslateError::Shape);
    }
    match parse_string_tail(&v, i4 + 1) {
        Some(p) => Ok(p.0),
        None => Err(TranslateError::Shape),
    }
}

/// The outcome of a call is classified completely: a non-JSON body is a
/// decode failure, a JSON body without a translated segment is a shape
/// failure, and a JSON body with a segment succeeds with exactly that
/// segment.
pub proof fn lemma_outcome_classified(body: Seq<char>)
    ensures
        !json_wf(body) ==> translation_outcome(body) == Err::<Seq<char>, TranslateError>(
            TranslateError::Decode,
        ),
        json_wf(body) && extracted_segment(body) is None ==> translation_outcome(body)
            == Err::<Seq<char>, TranslateError>(TranslateError::Shape),
        json_wf(body) ==> (extracted_segment(body) matches Some(t) ==> translation_outcome(body)
            == Ok::<Seq<char>, TranslateError>(t)),
{
}

/// The client never substitutes the request text for a failed reply: a
/// successful outcome carries exactly the segment found in the body, so it
/// can equal the request text only when the body itself carries that text.
pub proof fn lemma_no_silent_echo(text: Seq<char>, body: Seq<char>)
    ensures
        translation_outcome(body) == Ok::<Seq<char>, TranslateError>(text)
            ==> extracted_segment(body) == Some(text),
{
}

} // verus!
