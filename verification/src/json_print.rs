//! Rendering a JSON tree back into text.
//!
//! [`spec_print`] is the mathematical definition of the rendering, and
//! [`json_to_string`] is the executable renderer, proved to produce exactly
//! that text.  The renderer emits no insignificant whitespace.

use vstd::prelude::*;

use crate::json::{spec_view_arr, spec_view_obj, JsonValue, SpecJson};
use crate::json::{lemma_view_arr, lemma_view_obj};
use crate::strings::{hex_digit_char, hex_digit_char_exec, i128_to_string, int_dec_str, push_char};

verus! {

/// How one character appears inside a JSON string literal: the two-character
/// escapes of the format for the quote, the backslash and the common control
/// characters, a `\u00XX` escape for the remaining control characters, and
/// the character itself for everything else.
pub open spec fn spec_escape_char(c: char) -> Seq<char> {
    if c == '"' {
        seq!['\\', '"']
    } else if c == '\\' {
        seq!['\\', '\\']
    } else if c == '\n' {
        seq!['\\', 'n']
    } else if c == '\r' {
        seq!['\\', 'r']
    } else if c == '\t' {
        seq!['\\', 't']
    } else if (c as u32) < 32 {
        seq!['\\', 'u', '0', '0'] + seq![
            hex_digit_char(((c as u32) / 16) as int),
            hex_digit_char(((c as u32) % 16) as int),
        ]
    } else {
        seq![c]
    }
}

/// The first `n` characters of `s`, escaped.
pub open spec fn spec_escaped(s: Seq<char>, n: int) -> Seq<char>
    decreases n,
{
    if 0 < n <= s.len() {
        spec_escaped(s, n - 1) + spec_escape_char(s[n - 1])
    } else {
        Seq::empty()
    }
}

/// A JSON string literal: quotes around the escaped characters.
pub open spec fn spec_quoted(s: Seq<char>) -> Seq<char> {
    seq!['"'] + spec_escaped(s, s.len() as int) + seq!['"']
}

/// The rendering of a JSON value as text, without insignificant whitespace.
pub open spec fn spec_print(j: SpecJson) -> Seq<char>
    decreases j,
{
    match j {
        SpecJson::Null => seq!['n', 'u', 'l', 'l'],
        SpecJson::Bool(b) => if b {
            seq!['t', 'r', 'u', 'e']
        } else {
            seq!['f', 'a', 'l', 's', 'e']
        },
        SpecJson::Int(n) => int_dec_str(n),
        SpecJson::NumberLexeme(s) => s,
        SpecJson::Str(s) => spec_quoted(s),
        SpecJson::Arr(elems) => seq!['['] + spec_print_arr(elems, elems.len() as int) + seq![']'],
        SpecJson::Obj(members) => seq!['{'] + spec_print_obj(members, members.len() as int)
            + seq!['}'],
    }
}

/// The renderings of the first `n` elements of an array, comma-separated.
pub open spec fn spec_print_arr(elems: Seq<SpecJson>, n: int) -> Seq<char>
    decreases elems, n,
{
    if 0 < n <= elems.len() {
        spec_print_arr(elems, n - 1) + (if n == 1 {
            Seq::empty()
        } else {
            seq![',']
        }) + spec_print(elems[n - 1])
    } else {
        Seq::empty()
    }
}

/// The renderings of the first `n` members of an object, comma-separated,
/// each a quoted key, a colon and the value.
pub open spec fn spec_print_obj(members: Seq<(Seq<char>, SpecJson)>, n: int) -> Seq<char>
    decreases members, n,
{
    if 0 < n <= members.len() {
        spec_print_obj(members, n - 1) + (if n == 1 {
            Seq::empty()
        } else {
            seq![',']
        }) + spec_quoted(members[n - 1].0) + seq![':'] + spec_print(members[n - 1].1)
    } else {
        Seq::empty()
    }
}

/// Appends one character of a string literal to `out`, escaped.
fn escape_char_into(out: &mut String, c: char)
    ensures
        final(out)@ == old(out)@ + spec_escape_char(c),
{
    if c == '"' {
        push_char(out, '\\');
        push_char(out, '"');
    } else if c == '\\' {
        push_char(out, '\\');
        push_char(out, '\\');
    } else if c == '\n' {
        push_char(out, '\\');
        push_char(out, 'n');
    } else if c == '\r' {
        push_char(out, '\\');
        push_char(out, 'r');
    } else if c == '\t' {
        push_char(out, '\\');
        push_char(out, 't');
    } else if (c as u32) < 32 {
        let u = c as u32;
        push_char(out, '\\');
        push_char(out, 'u');
        push_char(out, '0');
        push_char(out, '0');
        push_char(out, hex_digit_char_exec((u / 16) as u8));
        push_char(out, hex_digit_char_exec((u % 16) as u8));
        assert(final(out)@ =~= old(out)@ + spec_escape_char(c));
    } else {
        push_char(out, c);
    }
    assert(final(out)@ =~= old(out)@ + spec_escape_char(c));
}

/// Appends a quoted, escaped JSON string literal to `out`.
fn quoted_into(out: &mut String, s: &str)
    ensures
        final(out)@ == old(out)@ + spec_quoted(s@),
{
    let len = s.unicode_len();
    push_char(out, '"');
    let mut i: usize = 0;
    while i < len
        invariant
            len == s@.len(),
            i <= len,
            out@ == old(out)@ + seq!['"'] + spec_escaped(s@, i as int),
        decreases len - i,
    {
        let c = s.get_char(i);
        escape_char_into(out, c);
        i += 1;
    }
    push_char(out, '"');
    assert(final(out)@ =~= old(out)@ + spec_quoted(s@));
}

/// Renders a JSON value as text: exactly [`spec_print`] of its view.
pub fn json_to_string(v: &JsonValue) -> (s: String)
    ensures
        s@ == spec_print(v@),
    decreases *v,
{
    match v {
        JsonValue::Null => {
            let s = String::from_str("null");
            proof {
                reveal_strlit("null");
                assert(s@ =~= spec_print(v@));
            }
            s
        },
        JsonValue::Bool(b) => {
            let s = if *b {
                String::from_str("true")
            } else {
                String::from_str("false")
            };
            proof {
                reveal_strlit("true");
                reveal_strlit("false");
                assert(s@ =~= spec_print(v@));
            }
            s
        },
        JsonValue::Int(n) => i128_to_string(*n),
        JsonValue::NumberLexeme(s) => s.clone(),
        JsonValue::Str(s) => {
            let mut out = String::new();
            quoted_into(&mut out, s.as_str());
            assert(out@ =~= spec_print(v@));
            out
        },
        JsonValue::Arr(elems) => {
            let ghost ev = spec_view_arr(*elems, elems@.len() as int);
            proof {
                lemma_view_arr(*elems, elems@.len() as int);
            }
            let mut out = String::new();
            push_char(&mut out, '[');
            let n = elems.len();
            let mut i: usize = 0;
            while i < n
                invariant
                    *v == JsonValue::Arr(*elems),
                    n == elems@.len(),
                    i <= n,
                    ev == spec_view_arr(*elems, elems@.len() as int),
                    ev.len() == n,
                    forall|k: int| 0 <= k < n ==> ev[k] == elems@[k].spec_view(),
                    out@ == seq!['['] + spec_print_arr(ev, i as int),
                decreases n - i,
            {
                if i > 0 {
                    push_char(&mut out, ',');
                }
                proof {
                    assert(decreases_to!(*v => v->Arr_0));
                    assert(decreases_to!(*v => *elems));
                    assert(decreases_to!(*elems => (*elems)[i as int]));
                    assert(decreases_to!(*v => (*elems)[i as int]));
                }
                let piece = json_to_string(&elems[i]);
                out.append(piece.as_str());
                assert(out@ =~= seq!['['] + spec_print_arr(ev, i as int + 1));
                i += 1;
            }
            push_char(&mut out, ']');
            proof {
                assert(v@ == SpecJson::Arr(ev));
                assert(out@ =~= spec_print(v@));
            }
            out
        },
        JsonValue::Obj(members) => {
            let ghost mv = spec_view_obj(*members, members@.len() as int);
            proof {
                lemma_view_obj(*members, members@.len() as int);
            }
            let mut out = String::new();
            push_char(&mut out, '{');
            let n = members.len();
            let mut i: usize = 0;
            while i < n
                invariant
                    *v == JsonValue::Obj(*members),
                    n == members@.len(),
                    i <= n,
                    mv == spec_view_obj(*members, members@.len() as int),
                    mv.len() == n,
                    forall|k: int|
                        0 <= k < n ==> mv[k] == (members@[k].0@, members@[k].1.spec_view()),
                    out@ == seq!['{'] + spec_print_obj(mv, i as int),
                decreases n - i,
            {
                if i > 0 {
                    push_char(&mut out, ',');
                }
                let entry = &members[i];
                proof {
                    assert(decreases_to!(*v => v->Obj_0));
                    assert(decreases_to!(*v => *members));
                    assert(decreases_to!(*members => (*members)[i as int]));
                    assert(decreases_to!(*v => (*members)[i as int].1));
                }
                quoted_into(&mut out, entry.0.as_str());
                push_char(&mut out, ':');
                let piece = json_to_string(&entry.1);
                out.append(piece.as_str());
                assert(out@ =~= seq!['{'] + spec_print_obj(mv, i as int + 1));
                i += 1;
            }
            push_char(&mut out, '}');
            proof {
                assert(v@ == SpecJson::Obj(mv));
                assert(out@ =~= spec_print(v@));
            }
            out
        },
    }
}

} // verus!
