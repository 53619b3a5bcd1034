//! Parsing JSON text into a [`JsonValue`] tree.
//!
//! The grammar is written down twice: once as the family of `spec_parse`
//! functions, which are the mathematical definition of what each piece of
//! text means, and once as the executable parser, proved to return exactly
//! what the definition assigns.  An integer that fits an `i128` becomes
//! [`JsonValue::Int`]; any other well-formed number (a fraction, an
//! exponent, an out-of-range integer) keeps its lexeme.  A malformed
//! document, and trailing text after the document, is rejected with `None`.

use vstd::prelude::*;

use crate::json::JsonValue;
use crate::strings::{char_from_u32, push_char};

verus! {

/// An insignificant whitespace character of the format.
pub open spec fn spec_is_json_ws(c: char) -> bool {
    c == ' ' || c == '\t' || c == '\n' || c == '\r'
}

/// A decimal digit character.
pub open spec fn spec_is_dec_digit(c: char) -> bool {
    48 <= c as int <= 57
}

/// The value of the digit run `s[start..end]`, read in base ten.
pub open spec fn spec_digits_val(s: Seq<char>, start: int, end: int) -> int
    decreases end - start,
{
    if start >= end {
        0
    } else {
        spec_digits_val(s, start, end - 1) * 10 + (s[end - 1] as int - 48)
    }
}

/// The first position at or after `pos` that does not hold whitespace.
pub open spec fn spec_skip_ws(s: Seq<char>, pos: int) -> int
    decreases s.len() - pos,
{
    if 0 <= pos < s.len() && spec_is_json_ws(s[pos]) {
        spec_skip_ws(s, pos + 1)
    } else {
        pos
    }
}

/// A hexadecimal digit character (either case).
pub open spec fn spec_is_hex_digit(c: char) -> bool {
    (48 <= c as int <= 57) || (97 <= c as int <= 102) || (65 <= c as int <= 70)
}

/// The value of a hexadecimal digit character.
pub open spec fn spec_hex_digit_val(c: char) -> int {
    if 48 <= c as int <= 57 {
        c as int - 48
    } else if 97 <= c as int <= 102 {
        c as int - 87
    } else {
        c as int - 55
    }
}

/// The value of the four-digit hexadecimal group at `pos`, if it is one.
pub open spec fn spec_hex4(s: Seq<char>, pos: int) -> Option<u32> {
    if spec_is_hex_digit(s[pos]) && spec_is_hex_digit(s[pos + 1]) && spec_is_hex_digit(
        s[pos + 2],
    ) && spec_is_hex_digit(s[pos + 3]) {
        Some(
            (((spec_hex_digit_val(s[pos]) * 16 + spec_hex_digit_val(s[pos + 1])) * 16
                + spec_hex_digit_val(s[pos + 2])) * 16 + spec_hex_digit_val(s[pos + 3])) as u32,
        )
    } else {
        None
    }
}

/// Prepends one character to the text of a string-body parse.
pub open spec fn spec_cons_char(c: char, rest: Option<(Seq<char>, int)>) -> Option<
    (Seq<char>, int),
> {
    match rest {
        Some(p) => Some((seq![c] + p.0, p.1)),
        None => None,
    }
}

/// What the body of a string literal at `pos` (just after the opening
/// quote) parses to: the unescaped text and the position after the closing
/// quote, or nothing.
pub open spec fn spec_parse_string_body(s: Seq<char>, pos: int) -> Option<(Seq<char>, int)>
    decreases s.len() - pos,
{
    if pos < 0 || pos >= s.len() {
        None
    } else {
        let c = s[pos];
        if c == '"' {
            Some((Seq::empty(), pos + 1))
        } else if c == '\\' {
            if s.len() - pos < 2 {
                None
            } else {
                let e = s[pos + 1];
                if e == '"' || e == '\\' || e == '/' {
                    spec_cons_char(e, spec_parse_string_body(s, pos + 2))
                } else if e == 'b' {
                    spec_cons_char('\u{0008}', spec_parse_string_body(s, pos + 2))
                } else if e == 'f' {
                    spec_cons_char('\u{000C}', spec_parse_string_body(s, pos + 2))
                } else if e == 'n' {
                    spec_cons_char('\n', spec_parse_string_body(s, pos + 2))
                } else if e == 'r' {
                    spec_cons_char('\r', spec_parse_string_body(s, pos + 2))
                } else if e == 't' {
                    spec_cons_char('\t', spec_parse_string_body(s, pos + 2))
                } else if e == 'u' {
                    if s.len() - pos < 6 {
                        None
                    } else {
                        match spec_hex4(s, pos + 2) {
                            Some(h) => if 0xD800 <= h < 0xDC00 {
                                if s.len() - pos < 12 {
                                    None
                                } else if s[pos + 6] != '\\' || s[pos + 7] != 'u' {
                                    None
                                } else {
                                    match spec_hex4(s, pos + 8) {
                                        Some(l) => if 0xDC00 <= l < 0xE000 {
                                            spec_cons_char(
                                                (0x10000 + (h - 0xD800) * 0x400 + (l
                                                    - 0xDC00)) as char,
                                                spec_parse_string_body(s, pos + 12),
                                            )
                                        } else {
                                            None
                                        },
                                        None => None,
                                    }
                                }
                            } else if 0xDC00 <= h < 0xE000 {
                                None
                            } else {
                                spec_cons_char(h as char, spec_parse_string_body(s, pos + 6))
                            },
                            None => None,
                        }
                    }
                } else {
                    None
                }
            }
        } else if (c as int) < 32 {
            None
        } else {
            spec_cons_char(c, spec_parse_string_body(s, pos + 1))
        }
    }
}

/// The first position at or after `pos` that does not hold a decimal
/// digit.
pub open spec fn spec_scan_end(s: Seq<char>, pos: int) -> int
    decreases s.len() - pos,
{
    if 0 <= pos < s.len() && spec_is_dec_digit(s[pos]) {
        spec_scan_end(s, pos + 1)
    } else {
        pos
    }
}

/// Where the fractional part ending at `p` stops: `p` itself when there is
/// none, the end of its digits otherwise, and nothing for a bare dot.
pub open spec fn spec_frac_end(s: Seq<char>, p: int) -> Option<int> {
    if 0 <= p < s.len() && s[p] == '.' {
        if spec_scan_end(s, p + 1) == p + 1 {
            None
        } else {
            Some(spec_scan_end(s, p + 1))
        }
    } else {
        Some(p)
    }
}

/// Where the exponent part starting at `p` stops: `p` itself when there is
/// none, the end of its digits otherwise, and nothing for a bare marker.
pub open spec fn spec_exp_end(s: Seq<char>, p: int) -> Option<int> {
    if 0 <= p < s.len() && (s[p] == 'e' || s[p] == 'E') {
        let q0 = if p + 1 < s.len() && (s[p + 1] == '+' || s[p + 1] == '-') {
            p + 2
        } else {
            p + 1
        };
        if spec_scan_end(s, q0) == q0 {
            None
        } else {
            Some(spec_scan_end(s, q0))
        }
    } else {
        Some(p)
    }
}

/// What the number at `pos` parses to: an integer with the value its
/// digits spell where it fits an `i128`, and the exact lexeme otherwise.
pub open spec fn spec_parse_number(s: Seq<char>, pos: int) -> Option<
    (crate::json::SpecJson, int),
> {
    let neg = s[pos] == '-';
    let d0 = if neg {
        pos + 1
    } else {
        pos
    };
    if d0 >= s.len() || !spec_is_dec_digit(s[d0]) {
        None
    } else {
        let int_end = if s[d0] == '0' {
            d0 + 1
        } else {
            spec_scan_end(s, d0)
        };
        if s[d0] == '0' && int_end < s.len() && spec_is_dec_digit(s[int_end]) {
            None
        } else {
            match spec_frac_end(s, int_end) {
                None => None,
                Some(f) => match spec_exp_end(s, f) {
                    None => None,
                    Some(end) => {
                        let v = spec_digits_val(s, d0, int_end);
                        if f == int_end && end == f && v <= i128::MAX {
                            Some(
                                (
                                    crate::json::SpecJson::Int(
                                        if neg {
                                            -v
                                        } else {
                                            v
                                        },
                                    ),
                                    end,
                                ),
                            )
                        } else {
                            Some(
                                (
                                    crate::json::SpecJson::NumberLexeme(s.subrange(pos, end)),
                                    end,
                                ),
                            )
                        }
                    },
                },
            }
        }
    }
}

/// The largest value that can take one more decimal digit without
/// overflowing a `u128`.
const ACC_LIMIT: u128 = 34028236692093846346337460743176821144;

/// How deeply arrays and objects may nest; a document beyond this depth is
/// rejected rather than risking the call stack.
pub const MAX_DEPTH: u32 = 128;


/// What the JSON value at `pos` parses to, with `depth` nesting levels
/// still allowed: the tree and the position after it, or nothing.
pub open spec fn spec_parse_value(s: Seq<char>, pos: int, depth: int) -> Option<
    (crate::json::SpecJson, int),
>
    decreases depth, s.len() - pos, 0int,
{
    if pos < 0 || pos >= s.len() {
        None
    } else {
        let c = s[pos];
        if c == 'n' {
            if pos + 4 <= s.len() && s.subrange(pos, pos + 4) == "null"@ {
                Some((crate::json::SpecJson::Null, pos + 4))
            } else {
                None
            }
        } else if c == 't' {
            if pos + 4 <= s.len() && s.subrange(pos, pos + 4) == "true"@ {
                Some((crate::json::SpecJson::Bool(true), pos + 4))
            } else {
                None
            }
        } else if c == 'f' {
            if pos + 5 <= s.len() && s.subrange(pos, pos + 5) == "false"@ {
                Some((crate::json::SpecJson::Bool(false), pos + 5))
            } else {
                None
            }
        } else if c == '"' {
            match spec_parse_string_body(s, pos + 1) {
                Some(p) => Some((crate::json::SpecJson::Str(p.0), p.1)),
                None => None,
            }
        } else if c == '[' {
            if depth <= 0 {
                None
            } else {
                spec_parse_array_body(s, pos + 1, depth - 1)
            }
        } else if c == '{' {
            if depth <= 0 {
                None
            } else {
                spec_parse_object_body(s, pos + 1, depth - 1)
            }
        } else if c == '-' || spec_is_dec_digit(c) {
            spec_parse_number(s, pos)
        } else {
            None
        }
    }
}

/// What the rest of an array parses to, `pos` standing just after the `[`.
pub open spec fn spec_parse_array_body(s: Seq<char>, pos: int, depth: int) -> Option<
    (crate::json::SpecJson, int),
>
    decreases depth, s.len() - pos, 2int,
{
    let i = spec_skip_ws(s, pos);
    if i < pos || i > s.len() {
        None
    } else if i < s.len() && s[i] == ']' {
        Some((crate::json::SpecJson::Arr(Seq::empty()), i + 1))
    } else {
        spec_parse_array_rest(s, i, depth, Seq::empty())
    }
}

/// What the elements of an array from `pos` on parse to, `acc` holding the
/// elements already read.  The position guards can never fire on a parse
/// that makes progress; they keep the definition well-founded.
pub open spec fn spec_parse_array_rest(
    s: Seq<char>,
    pos: int,
    depth: int,
    acc: Seq<crate::json::SpecJson>,
) -> Option<(crate::json::SpecJson, int)>
    decreases depth, s.len() - pos, 1int,
{
    match spec_parse_value(s, pos, depth) {
        None => None,
        Some(p) => {
            let j = spec_skip_ws(s, p.1);
            if j < s.len() && s[j] == ']' {
                Some((crate::json::SpecJson::Arr(acc.push(p.0)), j + 1))
            } else if j < s.len() && s[j] == ',' {
                let k = spec_skip_ws(s, j + 1);
                if k <= pos || k > s.len() {
                    None
                } else {
                    spec_parse_array_rest(s, k, depth, acc.push(p.0))
                }
            } else {
                None
            }
        },
    }
}

/// What the rest of an object parses to, `pos` standing just after the `{`.
pub open spec fn spec_parse_object_body(s: Seq<char>, pos: int, depth: int) -> Option<
    (crate::json::SpecJson, int),
>
    decreases depth, s.len() - pos, 2int,
{
    let i = spec_skip_ws(s, pos);
    if i < pos || i > s.len() {
        None
    } else if i < s.len() && s[i] == '}' {
        Some((crate::json::SpecJson::Obj(Seq::empty()), i + 1))
    } else {
        spec_parse_object_rest(s, i, depth, Seq::empty())
    }
}

/// What the members of an object from `pos` on parse to, `acc` holding the
/// members already read.  The position guards can never fire on a parse
/// that makes progress; they keep the definition well-founded.
pub open spec fn spec_parse_object_rest(
    s: Seq<char>,
    pos: int,
    depth: int,
    acc: Seq<(Seq<char>, crate::json::SpecJson)>,
) -> Option<(crate::json::SpecJson, int)>
    decreases depth, s.len() - pos, 1int,
{
    if pos < 0 || pos >= s.len() || s[pos] != '"' {
        None
    } else {
        match spec_parse_string_body(s, pos + 1) {
            None => None,
            Some(kp) => {
                let j = spec_skip_ws(s, kp.1);
                if j >= s.len() || s[j] != ':' {
                    None
                } else {
                    let k = spec_skip_ws(s, j + 1);
                    if k <= pos || k > s.len() {
                        None
                    } else {
                        match spec_parse_value(s, k, depth) {
                            None => None,
                            Some(p) => {
                                let m = spec_skip_ws(s, p.1);
                                if m < s.len() && s[m] == '}' {
                                    Some(
                                        (
                                            crate::json::SpecJson::Obj(acc.push((kp.0, p.0))),
                                            m + 1,
                                        ),
                                    )
                                } else if m < s.len() && s[m] == ',' {
                                    let nx = spec_skip_ws(s, m + 1);
                                    if nx <= pos || nx > s.len() {
                                        None
                                    } else {
                                        spec_parse_object_rest(s, nx, depth, acc.push((kp.0, p.0)))
                                    }
                                } else {
                                    None
                                }
                            },
                        }
                    }
                }
            },
        }
    }
}

/// What a complete document parses to: the value, with whitespace allowed
/// around it and nothing else after it.
pub open spec fn spec_parse_json(s: Seq<char>) -> Option<crate::json::SpecJson> {
    let p0 = spec_skip_ws(s, 0);
    match spec_parse_value(s, p0, MAX_DEPTH as int) {
        Some(p) => if spec_skip_ws(s, p.1) == s.len() {
            Some(p.0)
        } else {
            None
        },
        None => None,
    }
}

/// True for the insignificant whitespace characters of the format.
fn is_ws(c: char) -> (r: bool)
    ensures
        r == spec_is_json_ws(c),
{
    c == ' ' || c == '\t' || c == '\n' || c == '\r'
}

/// The value of a decimal digit character, or an error.
fn digit_val(c: char) -> (r: Result<u8, ()>)
    ensures
        match r {
            Ok(d) => spec_is_dec_digit(c) && d <= 9 && d as int == c as int - 48,
            Err(e) => !spec_is_dec_digit(c),
        },
{
    let u = c as u32;
    if 48 <= u && u <= 57 {
        Ok((u - 48) as u8)
    } else {
        Err(())
    }
}

/// The value of a hexadecimal digit character, or an error.
fn hex_val(c: char) -> (r: Result<u32, ()>)
    ensures
        match r {
            Ok(d) => spec_is_hex_digit(c) && d < 16 && d as int == spec_hex_digit_val(c),
            Err(e) => !spec_is_hex_digit(c),
        },
{
    let u = c as u32;
    if 48 <= u && u <= 57 {
        Ok(u - 48)
    } else if 97 <= u && u <= 102 {
        Ok(u - 87)
    } else if 65 <= u && u <= 70 {
        Ok(u - 55)
    } else {
        Err(())
    }
}

/// Advances to the first position at or after `pos` that does not hold
/// whitespace.
fn skip_ws(s: &str, len: usize, pos: usize) -> (np: usize)
    requires
        len == s@.len(),
        pos <= len,
    ensures
        pos <= np <= len,
        forall|k: int| pos <= k < np ==> spec_is_json_ws(s@[k]),
        np < len ==> !spec_is_json_ws(s@[np as int]),
        np == spec_skip_ws(s@, pos as int),
{
    let mut i = pos;
    let mut done = false;
    while i < len && !done
        invariant
            len == s@.len(),
            pos <= i <= len,
            forall|k: int| pos <= k < i ==> spec_is_json_ws(s@[k]),
            done ==> i < len && !spec_is_json_ws(s@[i as int]),
            spec_skip_ws(s@, pos as int) == spec_skip_ws(s@, i as int),
        decreases len - i, (if done { 0int } else { 1int }),
    {
        if is_ws(s.get_char(i)) {
            i += 1;
        } else {
            done = true;
        }
    }
    i
}

/// Matches the literal at `pos`, returning the position after it.
fn match_at(s: &str, len: usize, pos: usize, lit: &str) -> (r: Option<usize>)
    requires
        len == s@.len(),
        pos <= len,
    ensures
        match r {
            Some(np) => np == pos + lit@.len() && np <= len && s@.subrange(pos as int, np as int)
                =~= lit@,
            None => pos + lit@.len() > len || s@.subrange(
                pos as int,
                pos + lit@.len(),
            ) != lit@,
        },
{
    let ll = lit.unicode_len();
    if len - pos < ll {
        return None;
    }
    let mut j: usize = 0;
    while j < ll
        invariant
            len == s@.len(),
            ll == lit@.len(),
            pos + ll <= len,
            j <= ll,
            forall|k: int| 0 <= k < j ==> s@[pos + k] == lit@[k],
        decreases ll - j,
    {
        if s.get_char(pos + j) != lit.get_char(j) {
            proof {
                assert(s@.subrange(pos as int, pos + ll)[j as int] != lit@[j as int]);
            }
            return None;
        }
        j += 1;
    }
    proof {
        assert(s@.subrange(pos as int, (pos + ll) as int) =~= lit@);
    }
    Some(pos + ll)
}

/// Reads four hexadecimal digits at `pos`.
fn hex4(s: &str, len: usize, pos: usize) -> (r: Result<u32, ()>)
    requires
        len == s@.len(),
        pos + 4 <= len,
    ensures
        match r {
            Ok(v) => v < 0x10000 && spec_hex4(s@, pos as int) == Some(v),
            Err(e) => spec_hex4(s@, pos as int) is None,
        },
{
    let d0 = match hex_val(s.get_char(pos)) {
        Ok(d) => d,
        Err(e) => {
            return Err(());
        },
    };
    let d1 = match hex_val(s.get_char(pos + 1)) {
        Ok(d) => d,
        Err(e) => {
            return Err(());
        },
    };
    let d2 = match hex_val(s.get_char(pos + 2)) {
        Ok(d) => d,
        Err(e) => {
            return Err(());
        },
    };
    let d3 = match hex_val(s.get_char(pos + 3)) {
        Ok(d) => d,
        Err(e) => {
            return Err(());
        },
    };
    Ok(((d0 * 16 + d1) * 16 + d2) * 16 + d3)
}

/// One consumed chunk of a string body carries the loop's accumulator
/// forward.
proof fn lemma_string_body_step(s: Seq<char>, pos: int, i0: int, i1: int, pre: Seq<char>, ch: char)
    requires
        spec_parse_string_body(s, pos) == (match spec_parse_string_body(s, i0) {
            Some(p) => Some((pre + p.0, p.1)),
            None => None,
        }),
        spec_parse_string_body(s, i0) == spec_cons_char(ch, spec_parse_string_body(s, i1)),
    ensures
        spec_parse_string_body(s, pos) == (match spec_parse_string_body(s, i1) {
            Some(p) => Some(((pre + seq![ch]) + p.0, p.1)),
            None => None,
        }),
{
    match spec_parse_string_body(s, i1) {
        Some(p) => {
            assert(pre + (seq![ch] + p.0) =~= (pre + seq![ch]) + p.0);
        },
        None => {},
    }
}

/// Reads the body of a string literal, `pos` standing just after the opening
/// quote; returns the unescaped text and the position after the closing
/// quote.
fn parse_string_body(s: &str, len: usize, pos: usize) -> (r: Result<(String, usize), ()>)
    requires
        len == s@.len(),
        pos <= len,
    ensures
        match r {
            Ok(p) => pos < p.1 <= len && spec_parse_string_body(s@, pos as int) == Some(
                (p.0@, p.1 as int),
            ),
            Err(e) => spec_parse_string_body(s@, pos as int) is None,
        },
{
    let mut out = String::new();
    let mut i = pos;
    proof {
        match spec_parse_string_body(s@, pos as int) {
            Some(p) => {
                assert(out@ + p.0 =~= p.0);
            },
            None => {},
        }
    }
    while i < len
        invariant
            len == s@.len(),
            pos <= i <= len,
            spec_parse_string_body(s@, pos as int) == (match spec_parse_string_body(
                s@,
                i as int,
            ) {
                Some(p) => Some((out@ + p.0, p.1)),
                None => None,
            }),
        decreases len - i,
    {
        let ghost out0 = out@;
        let ghost i0 = i as int;
        let c = s.get_char(i);
        if c == '"' {
            proof {
                assert(spec_parse_string_body(s@, i as int) == Some(
                    (Seq::<char>::empty(), i + 1),
                ));
                assert(out@ + Seq::<char>::empty() =~= out@);
            }
            return Ok((out, i + 1));
        } else if c == '\\' {
            if len - i < 2 {
                return Err(());
            }
            let e = s.get_char(i + 1);
            if e == '"' || e == '\\' || e == '/' {
                push_char(&mut out, e);
                i += 2;
                proof {
                    assert(spec_parse_string_body(s@, i0) == spec_cons_char(
                        e,
                        spec_parse_string_body(s@, i as int),
                    ));
                    lemma_string_body_step(s@, pos as int, i0, i as int, out0, e);
                }
            } else if e == 'b' {
                push_char(&mut out, '\u{0008}');
                i += 2;
                proof {
                    assert(spec_parse_string_body(s@, i0) == spec_cons_char(
                        '\u{0008}',
                        spec_parse_string_body(s@, i as int),
                    ));
                    lemma_string_body_step(s@, pos as int, i0, i as int, out0, '\u{0008}');
                }
            } else if e == 'f' {
                push_char(&mut out, '\u{000C}');
                i += 2;
                proof {
                    assert(spec_parse_string_body(s@, i0) == spec_cons_char(
                        '\u{000C}',
                        spec_parse_string_body(s@, i as int),
                    ));
                    lemma_string_body_step(s@, pos as int, i0, i as int, out0, '\u{000C}');
                }
            } else if e == 'n' {
                push_char(&mut out, '\n');
                i += 2;
                proof {
                    assert(spec_parse_string_body(s@, i0) == spec_cons_char(
                        '\n',
                        spec_parse_string_body(s@, i as int),
                    ));
                    lemma_string_body_step(s@, pos as int, i0, i as int, out0, '\n');
                }
            } else if e == 'r' {
                push_char(&mut out, '\r');
                i += 2;
                proof {
                    assert(spec_parse_string_body(s@, i0) == spec_cons_char(
                        '\r',
                        spec_parse_string_body(s@, i as int),
                    ));
                    lemma_string_body_step(s@, pos as int, i0, i as int, out0, '\r');
                }
            } else if e == 't' {
                push_char(&mut out, '\t');
                i += 2;
                proof {
                    assert(spec_parse_string_body(s@, i0) == spec_cons_char(
                        '\t',
                        spec_parse_string_body(s@, i as int),
                    ));
                    lemma_string_body_step(s@, pos as int, i0, i as int, out0, '\t');
                }
            } else if e == 'u' {
                if len - i < 6 {
                    return Err(());
                }
                let h = match hex4(s, len, i + 2) {
                    Ok(v) => v,
                    Err(e2) => {
                        return Err(());
                    },
                };
                if 0xD800 <= h && h < 0xDC00 {
                    // A high surrogate must be followed by an escaped low
                    // surrogate; the pair encodes one supplementary character.
                    if len - i < 12 {
                        return Err(());
                    }
                    if s.get_char(i + 6) != '\\' || s.get_char(i + 7) != 'u' {
                        return Err(());
                    }
                    let l = match hex4(s, len, i + 8) {
                        Ok(v) => v,
                        Err(e2) => {
                            return Err(());
                        },
                    };
                    if !(0xDC00 <= l && l < 0xE000) {
                        return Err(());
                    }
                    let code = 0x10000 + (h - 0xD800) * 0x400 + (l - 0xDC00);
                    let c2 = match char_from_u32(code) {
                        Some(c2) => c2,
                        None => {
                            proof {
                                assert(0x10000 <= code <= 0x10FFFF);
                                assert(false);
                            }
                            return Err(());
                        },
                    };
                    push_char(&mut out, c2);
                    i += 12;
                    proof {
                        assert(spec_parse_string_body(s@, i0) == spec_cons_char(
                            c2,
                            spec_parse_string_body(s@, i as int),
                        ));
                        lemma_string_body_step(s@, pos as int, i0, i as int, out0, c2);
                    }
                } else if 0xDC00 <= h && h < 0xE000 {
                    return Err(());
                } else {
                    let c2 = match char_from_u32(h) {
                        Some(c2) => c2,
                        None => {
                            proof {
                                assert(h < 0xD800 || (0xE000 <= h && h < 0x10000));
                                assert(false);
                            }
                            return Err(());
                        },
                    };
                    push_char(&mut out, c2);
                    i += 6;
                    proof {
                        assert(spec_parse_string_body(s@, i0) == spec_cons_char(
                            c2,
                            spec_parse_string_body(s@, i as int),
                        ));
                        lemma_string_body_step(s@, pos as int, i0, i as int, out0, c2);
                    }
                }
            } else {
                return Err(());
            }
        } else if (c as u32) < 32 {
            return Err(());
        } else {
            push_char(&mut out, c);
            i += 1;
            proof {
                assert(spec_parse_string_body(s@, i0) == spec_cons_char(
                    c,
                    spec_parse_string_body(s@, i as int),
                ));
                lemma_string_body_step(s@, pos as int, i0, i as int, out0, c);
            }
        }
    }
    Err(())
}

/// Advances to the first position at or after `pos` that does not hold a
/// decimal digit.
fn scan_digits(s: &str, len: usize, pos: usize) -> (np: usize)
    requires
        len == s@.len(),
        pos <= len,
    ensures
        pos <= np <= len,
        forall|k: int| pos <= k < np ==> spec_is_dec_digit(s@[k]),
        np < len ==> !spec_is_dec_digit(s@[np as int]),
        np == spec_scan_end(s@, pos as int),
{
    let mut i = pos;
    let mut done = false;
    while i < len && !done
        invariant
            len == s@.len(),
            pos <= i <= len,
            forall|k: int| pos <= k < i ==> spec_is_dec_digit(s@[k]),
            done ==> i < len && !spec_is_dec_digit(s@[i as int]),
            spec_scan_end(s@, pos as int) == spec_scan_end(s@, i as int),
        decreases len - i, (if done { 0int } else { 1int }),
    {
        match digit_val(s.get_char(i)) {
            Ok(d) => {
                i += 1;
            },
            Err(e) => {
                done = true;
            },
        }
    }
    i
}

/// Reads a number at `pos`: an optional sign, an integer part without
/// leading zeros, and an optional fraction and exponent.  An integer that
/// fits holds exactly the value its digits spell; any other number keeps
/// the exact lexeme.
fn parse_number(s: &str, len: usize, pos: usize) -> (r: Result<(JsonValue, usize), ()>)
    requires
        len == s@.len(),
        pos < len,
    ensures
        match r {
            Ok(p) => pos < p.1 <= len && spec_parse_number(s@, pos as int) == Some(
                (p.0@, p.1 as int),
            ),
            Err(e) => spec_parse_number(s@, pos as int) is None,
        },
{
    let start = pos;
    let mut i = pos;
    let mut neg = false;
    if s.get_char(i) == '-' {
        neg = true;
        i += 1;
    }
    if i >= len {
        return Err(());
    }
    let ghost dstart = i as int;
    let c0 = s.get_char(i);
    let d0 = match digit_val(c0) {
        Ok(d) => d,
        Err(e) => {
            return Err(());
        },
    };
    let mut acc: u128 = d0 as u128;
    let mut fits = true;
    i += 1;
    assert(spec_digits_val(s@, dstart, dstart) == 0);
    assert(acc as int == spec_digits_val(s@, dstart, i as int));
    if c0 != '0' {
        let mut done = false;
        while i < len && !done
            invariant
                len == s@.len(),
                pos < i <= len,
                start == pos,
                dstart < i,
                forall|k: int| dstart <= k < i ==> spec_is_dec_digit(s@[k]),
                fits ==> acc as int == spec_digits_val(s@, dstart, i as int),
                !fits ==> spec_digits_val(s@, dstart, i as int) > i128::MAX,
                spec_scan_end(s@, dstart) == spec_scan_end(s@, i as int),
                done ==> i < len && !spec_is_dec_digit(s@[i as int]),
            decreases len - i, (if done { 0int } else { 1int }),
        {
            match digit_val(s.get_char(i)) {
                Ok(d) => {
                    if acc > ACC_LIMIT {
                        fits = false;
                    } else {
                        acc = acc * 10 + (d as u128);
                    }
                    i += 1;
                },
                Err(e) => {
                    done = true;
                },
            }
        }
        proof {
            assert(spec_scan_end(s@, i as int) == i);
            assert(i == spec_scan_end(s@, dstart));
        }
    } else {
        // A leading zero stands alone.
        if i < len {
            match digit_val(s.get_char(i)) {
                Ok(d) => {
                    return Err(());
                },
                Err(e) => {},
            }
        }
    }
    let ghost int_end = i as int;
    proof {
        assert(int_end == (if s@[dstart] == '0' {
            dstart + 1
        } else {
            spec_scan_end(s@, dstart)
        }));
    }
    let mut is_int = true;
    if i < len && s.get_char(i) == '.' {
        is_int = false;
        let after = scan_digits(s, len, i + 1);
        if after == i + 1 {
            proof {
                assert(spec_frac_end(s@, int_end) is None);
            }
            return Err(());
        }
        i = after;
    }
    proof {
        assert(spec_frac_end(s@, int_end) == Some(i as int));
    }
    let ghost frac_end = i as int;
    if i < len && (s.get_char(i) == 'e' || s.get_char(i) == 'E') {
        is_int = false;
        let mut j = i + 1;
        if j < len && (s.get_char(j) == '+' || s.get_char(j) == '-') {
            j += 1;
        }
        let after = scan_digits(s, len, j);
        if after == j {
            proof {
                assert(spec_exp_end(s@, frac_end) is None);
            }
            return Err(());
        }
        i = after;
    }
    proof {
        assert(spec_exp_end(s@, frac_end) == Some(i as int));
        assert(is_int ==> frac_end == int_end && i == frac_end);
    }
    if is_int && fits {
        if neg {
            if acc <= (i128::MAX as u128) {
                let n = -(acc as i128);
                proof {
                    assert(spec_parse_number(s@, pos as int) == Some(
                        (crate::json::SpecJson::Int(n as int), i as int),
                    ));
                }
                return Ok((JsonValue::Int(n), i));
            }
        } else {
            if acc <= (i128::MAX as u128) {
                let n = acc as i128;
                proof {
                    assert(spec_parse_number(s@, pos as int) == Some(
                        (crate::json::SpecJson::Int(n as int), i as int),
                    ));
                }
                return Ok((JsonValue::Int(n), i));
            }
        }
    }
    let lex = s.substring_char(start, i).to_owned();
    proof {
        assert(spec_parse_number(s@, pos as int) == Some(
            (crate::json::SpecJson::NumberLexeme(s@.subrange(start as int, i as int)), i as int),
        ));
    }
    Ok((JsonValue::NumberLexeme(lex), i))
}

/// Reads any JSON value at `pos`; `depth` limits the nesting still allowed.
fn parse_value(s: &str, len: usize, pos: usize, depth: u32) -> (r: Result<(JsonValue, usize), ()>)
    requires
        len == s@.len(),
        pos <= len,
    ensures
        match r {
            Ok(p) => pos < p.1 <= len && spec_parse_value(s@, pos as int, depth as int) == Some(
                (p.0@, p.1 as int),
            ),
            Err(e) => spec_parse_value(s@, pos as int, depth as int) is None,
        },
    decreases len - pos, 0int,
{
    if pos >= len {
        return Err(());
    }
    let c = s.get_char(pos);
    if c == 'n' {
        proof {
            reveal_strlit("null");
        }
        match match_at(s, len, pos, "null") {
            Some(np) => Ok((JsonValue::Null, np)),
            None => Err(()),
        }
    } else if c == 't' {
        proof {
            reveal_strlit("true");
        }
        match match_at(s, len, pos, "true") {
            Some(np) => Ok((JsonValue::Bool(true), np)),
            None => Err(()),
        }
    } else if c == 'f' {
        proof {
            reveal_strlit("false");
        }
        match match_at(s, len, pos, "false") {
            Some(np) => Ok((JsonValue::Bool(false), np)),
            None => Err(()),
        }
    } else if c == '"' {
        match parse_string_body(s, len, pos + 1) {
            Ok((text, np)) => Ok((JsonValue::Str(text), np)),
            Err(e) => Err(()),
        }
    } else if c == '[' {
        if depth == 0 {
            return Err(());
        }
        parse_array_body(s, len, pos + 1, depth - 1)
    } else if c == '{' {
        if depth == 0 {
            return Err(());
        }
        parse_object_body(s, len, pos + 1, depth - 1)
    } else if c == '-' {
        parse_number(s, len, pos)
    } else {
        match digit_val(c) {
            Ok(d) => parse_number(s, len, pos),
            Err(e) => Err(()),
        }
    }
}

/// Reads the rest of an array, `pos` standing just after the `[`.
fn parse_array_body(s: &str, len: usize, pos: usize, depth: u32) -> (r: Result<
    (JsonValue, usize),
    (),
>)
    requires
        len == s@.len(),
        pos <= len,
    ensures
        match r {
            Ok(p) => pos < p.1 <= len && spec_parse_array_body(s@, pos as int, depth as int)
                == Some((p.0@, p.1 as int)),
            Err(e) => spec_parse_array_body(s@, pos as int, depth as int) is None,
        },
    decreases len - pos, 1int,
{
    let ghost d = depth as int;
    let mut elems: Vec<JsonValue> = Vec::new();
    let mut i = skip_ws(s, len, pos);
    if i < len && s.get_char(i) == ']' {
        let r = JsonValue::Arr(elems);
        proof {
            assert(crate::json::spec_view_arr(elems, elems@.len() as int) =~= Seq::<
                crate::json::SpecJson,
            >::empty());
        }
        return Ok((r, i + 1));
    }
    let ghost mut acc: Seq<crate::json::SpecJson> = Seq::empty();
    proof {
        assert(spec_parse_array_body(s@, pos as int, d) == spec_parse_array_rest(
            s@,
            i as int,
            d,
            acc,
        ));
    }
    loop
        invariant
            len == s@.len(),
            pos <= i <= len,
            d == depth as int,
            acc.len() == elems@.len(),
            forall|k: int| 0 <= k < acc.len() ==> acc[k] == elems@[k]@,
            spec_parse_array_body(s@, pos as int, d) == spec_parse_array_rest(s@, i as int, d, acc),
        decreases len - i,
    {
        let ghost i_entry = i as int;
        let (v, np) = match parse_value(s, len, i, depth) {
            Ok(p) => p,
            Err(e) => {
                return Err(());
            },
        };
        elems.push(v);
        let ghost acc_before = acc;
        proof {
            acc = acc.push(v@);
        }
        i = skip_ws(s, len, np);
        if i >= len {
            return Err(());
        }
        let c = s.get_char(i);
        if c == ']' {
            let r = JsonValue::Arr(elems);
            proof {
                crate::json::lemma_view_arr(elems, elems@.len() as int);
                assert(crate::json::spec_view_arr(elems, elems@.len() as int) =~= acc);
            }
            return Ok((r, i + 1));
        } else if c == ',' {
            i = skip_ws(s, len, i + 1);
            proof {
                assert(spec_parse_array_rest(s@, i_entry, d, acc_before)
                    == spec_parse_array_rest(s@, i as int, d, acc));
            }
        } else {
            return Err(());
        }
    }
}

/// Reads the rest of an object, `pos` standing just after the `{`.
fn parse_object_body(s: &str, len: usize, pos: usize, depth: u32) -> (r: Result<
    (JsonValue, usize),
    (),
>)
    requires
        len == s@.len(),
        pos <= len,
    ensures
        match r {
            Ok(p) => pos < p.1 <= len && spec_parse_object_body(s@, pos as int, depth as int)
                == Some((p.0@, p.1 as int)),
            Err(e) => spec_parse_object_body(s@, pos as int, depth as int) is None,
        },
    decreases len - pos, 1int,
{
    let ghost d = depth as int;
    let mut members: Vec<(String, JsonValue)> = Vec::new();
    let mut i = skip_ws(s, len, pos);
    if i < len && s.get_char(i) == '}' {
        let r = JsonValue::Obj(members);
        proof {
            assert(crate::json::spec_view_obj(members, members@.len() as int) =~= Seq::<
                (Seq<char>, crate::json::SpecJson),
            >::empty());
        }
        return Ok((r, i + 1));
    }
    let ghost mut acc: Seq<(Seq<char>, crate::json::SpecJson)> = Seq::empty();
    proof {
        assert(spec_parse_object_body(s@, pos as int, d) == spec_parse_object_rest(
            s@,
            i as int,
            d,
            acc,
        ));
    }
    loop
        invariant
            len == s@.len(),
            pos <= i <= len,
            d == depth as int,
            acc.len() == members@.len(),
            forall|k: int|
                0 <= k < acc.len() ==> acc[k] == (members@[k].0@, members@[k].1.spec_view()),
            spec_parse_object_body(s@, pos as int, d) == spec_parse_object_rest(
                s@,
                i as int,
                d,
                acc,
            ),
        decreases len - i,
    {
        let ghost i_entry = i as int;
        if i >= len || s.get_char(i) != '"' {
            return Err(());
        }
        let (key, after_key) = match parse_string_body(s, len, i + 1) {
            Ok(p) => p,
            Err(e) => {
                return Err(());
            },
        };
        let j = skip_ws(s, len, after_key);
        if j >= len || s.get_char(j) != ':' {
            return Err(());
        }
        let k = skip_ws(s, len, j + 1);
        let (v, np) = match parse_value(s, len, k, depth) {
            Ok(p) => p,
            Err(e) => {
                return Err(());
            },
        };
        let ghost key_view = key@;
        members.push((key, v));
        let ghost acc_before = acc;
        proof {
            acc = acc.push((key_view, v@));
        }
        i = skip_ws(s, len, np);
        if i >= len {
            return Err(());
        }
        let c = s.get_char(i);
        if c == '}' {
            let r = JsonValue::Obj(members);
            proof {
                crate::json::lemma_view_obj(members, members@.len() as int);
                assert(crate::json::spec_view_obj(members, members@.len() as int) =~= acc);
            }
            return Ok((r, i + 1));
        } else if c == ',' {
            i = skip_ws(s, len, i + 1);
            proof {
                assert(spec_parse_object_rest(s@, i_entry, d, acc_before)
                    == spec_parse_object_rest(s@, i as int, d, acc));
            }
        } else {
            return Err(());
        }
    }
}

/// Parses a complete JSON document: the value, with whitespace allowed
/// around it and nothing else after it.  Returns exactly what
/// [`spec_parse_json`] assigns to the text.
pub fn parse_json(s: &str) -> (r: Option<JsonValue>)
    ensures
        match r {
            Some(v) => spec_parse_json(s@) == Some(v@),
            None => spec_parse_json(s@) is None,
        },
{
    let len = s.unicode_len();
    let p0 = skip_ws(s, len, 0);
    match parse_value(s, len, p0, MAX_DEPTH) {
        Ok((v, p1)) => {
            let p2 = skip_ws(s, len, p1);
            if p2 == len {
                Some(v)
            } else {
                None
            }
        },
        Err(e) => None,
    }
}

} // verus!
