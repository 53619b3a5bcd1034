//! Character and string helpers shared by the JSON layer and the date
//! formatting code: decimal and hexadecimal digits, decimal rendering of
//! integers, and character-wise string equality.

use vstd::prelude::*;

verus! {

/// The decimal digit character for `d`, for `0 <= d <= 9`.
pub open spec fn digit_char(d: int) -> char {
    ((48 + d) as u8) as char
}

/// The lowercase hexadecimal digit character for `d`, for `0 <= d <= 15`.
pub open spec fn hex_digit_char(d: int) -> char {
    if d < 10 {
        ((48 + d) as u8) as char
    } else {
        ((87 + d) as u8) as char
    }
}

/// The decimal rendering of a natural number, without sign or padding.
pub open spec fn dec_str(n: nat) -> Seq<char>
    decreases n,
{
    if n < 10 {
        seq![digit_char(n as int)]
    } else {
        dec_str(n / 10) + seq![digit_char((n % 10) as int)]
    }
}

/// The decimal rendering of an integer: a minus sign for negative values,
/// then the digits of the magnitude.
pub open spec fn int_dec_str(n: int) -> Seq<char> {
    if n < 0 {
        seq!['-'] + dec_str((-n) as nat)
    } else {
        dec_str(n as nat)
    }
}

/// The decimal rendering of `n`, left-padded with zeros to `width`
/// characters (for the fixed-width fields of the date formats).
pub open spec fn padded_dec_str(n: nat, width: nat) -> Seq<char>
    decreases width,
{
    if width <= 1 {
        seq![digit_char((n % 10) as int)]
    } else {
        padded_dec_str(n / 10, (width - 1) as nat) + seq![digit_char((n % 10) as int)]
    }
}

/// Relies on `String::push`: appends exactly the given character.
#[verifier::external_body]
pub(crate) fn push_char(s: &mut String, c: char)
    ensures
        final(s)@ == old(s)@ + seq![c],
{
    s.push(c)
}

/// Relies on `char::from_u32`: `Some(u as char)` exactly for Unicode scalar
/// values (code points outside the surrogate range), `None` otherwise.
#[verifier::external_body]
pub(crate) fn char_from_u32(u: u32) -> (r: Option<char>)
    ensures
        (u < 0xD800 || (0xE000 <= u && u <= 0x10FFFF)) ==> r == Some(u as char),
        !(u < 0xD800 || (0xE000 <= u && u <= 0x10FFFF)) ==> r is None,
{
    char::from_u32(u)
}

/// The decimal digit character for `d`.
pub fn digit_char_exec(d: u8) -> (c: char)
    requires
        d <= 9,
    ensures
        c == digit_char(d as int),
{
    (48 + d) as char
}

/// The decimal rendering of a `u64`.
pub fn u64_to_string(n: u64) -> (s: String)
    ensures
        s@ == dec_str(n as nat),
    decreases n,
{
    if n < 10 {
        let mut s = String::new();
        push_char(&mut s, digit_char_exec(n as u8));
        assert(s@ =~= dec_str(n as nat));
        s
    } else {
        let mut s = u64_to_string(n / 10);
        push_char(&mut s, digit_char_exec((n % 10) as u8));
        s
    }
}

/// The decimal rendering of `n`, left-padded with zeros to `width` characters.
pub fn padded_u64_to_string(n: u64, width: u64) -> (s: String)
    requires
        1 <= width <= 16,
    ensures
        s@ == padded_dec_str(n as nat, width as nat),
    decreases width,
{
    if width == 1 {
        let mut s = String::new();
        push_char(&mut s, digit_char_exec((n % 10) as u8));
        assert(s@ =~= padded_dec_str(n as nat, width as nat));
        s
    } else {
        let mut s = padded_u64_to_string(n / 10, width - 1);
        push_char(&mut s, digit_char_exec((n % 10) as u8));
        s
    }
}

/// The lowercase hexadecimal digit character for `d`.
pub fn hex_digit_char_exec(d: u8) -> (c: char)
    requires
        d <= 15,
    ensures
        c == hex_digit_char(d as int),
{
    if d < 10 {
        (48 + d) as char
    } else {
        (87 + d) as char
    }
}

/// The decimal rendering of a `u128`.
pub fn u128_to_string(n: u128) -> (s: String)
    ensures
        s@ == dec_str(n as nat),
    decreases n,
{
    if n < 10 {
        let mut s = String::new();
        push_char(&mut s, digit_char_exec(n as u8));
        assert(s@ =~= dec_str(n as nat));
        s
    } else {
        let mut s = u128_to_string(n / 10);
        push_char(&mut s, digit_char_exec((n % 10) as u8));
        s
    }
}

/// The decimal rendering of an `i128`, with a leading minus sign for
/// negative values.
pub fn i128_to_string(n: i128) -> (s: String)
    ensures
        s@ == int_dec_str(n as int),
{
    if n < 0 {
        let magnitude: u128 = ((-(n + 1)) as u128) + 1;
        assert(magnitude == -(n as int));
        let mut s = String::new();
        push_char(&mut s, '-');
        let digits = u128_to_string(magnitude);
        s.append(digits.as_str());
        assert(s@ =~= seq!['-'] + dec_str((-(n as int)) as nat));
        s
    } else {
        u128_to_string(n as u128)
    }
}

/// Character-wise string equality: true exactly when the two views agree.
pub fn str_eq(a: &str, b: &str) -> (r: bool)
    ensures
        r == (a@ == b@),
{
    let la = a.unicode_len();
    let lb = b.unicode_len();
    if la != lb {
        return false;
    }
    let mut i: usize = 0;
    while i < la
        invariant
            la == a@.len(),
            la == b@.len(),
            i <= la,
            forall|k: int| 0 <= k < i ==> a@[k] == b@[k],
        decreases la - i,
    {
        if a.get_char(i) != b.get_char(i) {
            return false;
        }
        i += 1;
    }
    proof {
        assert(a@ =~= b@);
    }
    true
}

} // verus!
