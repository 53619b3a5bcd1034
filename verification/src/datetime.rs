//! Calendar date-times in UTC, to second precision, with the two textual
//! forms the upstream API uses beside epoch seconds: the custom
//! `YYYY-MM-DD HH:MM:SS` pattern, and RFC 3339.
//!
//! An RFC 3339 input may carry any zone offset; the instant is normalised
//! to UTC.  A fractional-second part is accepted and discarded; the
//! formatter emits neither, always writing the `+00:00` form to the
//! second.

use vstd::prelude::*;

use crate::strings::{digit_char, padded_dec_str, padded_u64_to_string, push_char};

verus! {

/// A date and time of day in UTC, held as plain calendar fields.
#[derive(Clone, Copy, Debug, PartialEq, Eq, Hash, Structural)]
pub struct UtcDateTime {
    pub year: u16,
    pub month: u8,
    pub day: u8,
    pub hour: u8,
    pub minute: u8,
    pub second: u8,
}

/// A leap year of the Gregorian calendar.
pub open spec fn spec_is_leap_year(y: int) -> bool {
    y % 4 == 0 && (y % 100 != 0 || y % 400 == 0)
}

/// The number of days of a month.
pub open spec fn spec_days_in_month(y: int, m: int) -> int {
    if m == 2 {
        if spec_is_leap_year(y) {
            29
        } else {
            28
        }
    } else if m == 4 || m == 6 || m == 9 || m == 11 {
        30
    } else {
        31
    }
}

impl UtcDateTime {
    /// A well-formed calendar date-time: the fields name a real instant, and
    /// the year fits the four-digit textual forms.
    pub open spec fn wf(self) -> bool {
        &&& self.year <= 9999
        &&& 1 <= self.month <= 12
        &&& 1 <= self.day <= spec_days_in_month(self.year as int, self.month as int)
        &&& self.hour < 24
        &&& self.minute < 60
        &&& self.second < 60
    }
}

/// The number of days of a month.
pub fn days_in_month(y: u16, m: u8) -> (r: u8)
    ensures
        r as int == spec_days_in_month(y as int, m as int),
{
    if m == 2 {
        if y % 4 == 0 && (y % 100 != 0 || y % 400 == 0) {
            29
        } else {
            28
        }
    } else if m == 4 || m == 6 || m == 9 || m == 11 {
        30
    } else {
        31
    }
}

/// The custom date-time pattern: `YYYY-MM-DD HH:MM:SS`.
pub open spec fn spec_format_custom(dt: UtcDateTime) -> Seq<char> {
    padded_dec_str(dt.year as nat, 4) + seq!['-'] + padded_dec_str(dt.month as nat, 2)
        + seq!['-'] + padded_dec_str(dt.day as nat, 2) + seq![' '] + padded_dec_str(
        dt.hour as nat,
        2,
    ) + seq![':'] + padded_dec_str(dt.minute as nat, 2) + seq![':'] + padded_dec_str(
        dt.second as nat,
        2,
    )
}

/// The RFC 3339 rendering of a UTC instant: the date, `T`, the time of day,
/// and the `+00:00` offset.
pub open spec fn spec_format_rfc3339(dt: UtcDateTime) -> Seq<char> {
    padded_dec_str(dt.year as nat, 4) + seq!['-'] + padded_dec_str(dt.month as nat, 2)
        + seq!['-'] + padded_dec_str(dt.day as nat, 2) + seq!['T'] + padded_dec_str(
        dt.hour as nat,
        2,
    ) + seq![':'] + padded_dec_str(dt.minute as nat, 2) + seq![':'] + padded_dec_str(
        dt.second as nat,
        2,
    ) + seq!['+', '0', '0', ':', '0', '0']
}

/// Renders the custom `YYYY-MM-DD HH:MM:SS` pattern.
pub fn format_custom(dt: &UtcDateTime) -> (s: String)
    ensures
        s@ == spec_format_custom(*dt),
{
    let mut out = padded_u64_to_string(dt.year as u64, 4);
    push_char(&mut out, '-');
    out.append(padded_u64_to_string(dt.month as u64, 2).as_str());
    push_char(&mut out, '-');
    out.append(padded_u64_to_string(dt.day as u64, 2).as_str());
    push_char(&mut out, ' ');
    out.append(padded_u64_to_string(dt.hour as u64, 2).as_str());
    push_char(&mut out, ':');
    out.append(padded_u64_to_string(dt.minute as u64, 2).as_str());
    push_char(&mut out, ':');
    out.append(padded_u64_to_string(dt.second as u64, 2).as_str());
    assert(out@ =~= spec_format_custom(*dt));
    out
}

/// Renders the RFC 3339 form with the `+00:00` offset.
pub fn format_rfc3339(dt: &UtcDateTime) -> (s: String)
    ensures
        s@ == spec_format_rfc3339(*dt),
{
    let mut out = padded_u64_to_string(dt.year as u64, 4);
    push_char(&mut out, '-');
    out.append(padded_u64_to_string(dt.month as u64, 2).as_str());
    push_char(&mut out, '-');
    out.append(padded_u64_to_string(dt.day as u64, 2).as_str());
    push_char(&mut out, 'T');
    out.append(padded_u64_to_string(dt.hour as u64, 2).as_str());
    push_char(&mut out, ':');
    out.append(padded_u64_to_string(dt.minute as u64, 2).as_str());
    push_char(&mut out, ':');
    out.append(padded_u64_to_string(dt.second as u64, 2).as_str());
    push_char(&mut out, '+');
    push_char(&mut out, '0');
    push_char(&mut out, '0');
    push_char(&mut out, ':');
    push_char(&mut out, '0');
    push_char(&mut out, '0');
    assert(out@ =~= spec_format_rfc3339(*dt));
    out
}

/// A decimal digit character.
pub open spec fn spec_is_digit(c: char) -> bool {
    48 <= c as int <= 57
}

/// The value of a decimal digit character.
pub open spec fn spec_digit_val(c: char) -> int {
    c as int - 48
}

/// The value of the two-digit group at `i`.
pub open spec fn spec_num2(s: Seq<char>, i: int) -> int {
    10 * spec_digit_val(s[i]) + spec_digit_val(s[i + 1])
}

/// The value of the four-digit group at `i`.
pub open spec fn spec_num4(s: Seq<char>, i: int) -> int {
    1000 * spec_digit_val(s[i]) + 100 * spec_digit_val(s[i + 1]) + 10 * spec_digit_val(s[i + 2])
        + spec_digit_val(s[i + 3])
}

/// The date-time core `YYYY-MM-DD*HH:MM:SS` at the start of `s`, with the
/// given separator between date and time.
pub open spec fn spec_core_shape(s: Seq<char>, sep: char) -> bool {
    &&& s.len() >= 19
    &&& spec_is_digit(s[0]) && spec_is_digit(s[1]) && spec_is_digit(s[2]) && spec_is_digit(s[3])
    &&& s[4] == '-'
    &&& spec_is_digit(s[5]) && spec_is_digit(s[6])
    &&& s[7] == '-'
    &&& spec_is_digit(s[8]) && spec_is_digit(s[9])
    &&& s[10] == sep
    &&& spec_is_digit(s[11]) && spec_is_digit(s[12])
    &&& s[13] == ':'
    &&& spec_is_digit(s[14]) && spec_is_digit(s[15])
    &&& s[16] == ':'
    &&& spec_is_digit(s[17]) && spec_is_digit(s[18])
}

/// The fields read from a well-shaped core.
pub open spec fn spec_core_fields(s: Seq<char>) -> UtcDateTime {
    UtcDateTime {
        year: spec_num4(s, 0) as u16,
        month: spec_num2(s, 5) as u8,
        day: spec_num2(s, 8) as u8,
        hour: spec_num2(s, 11) as u8,
        minute: spec_num2(s, 14) as u8,
        second: spec_num2(s, 17) as u8,
    }
}

/// What parsing the custom `YYYY-MM-DD HH:MM:SS` pattern yields: the
/// well-formed instant the nineteen characters spell, or nothing.
pub open spec fn spec_parse_custom(s: Seq<char>) -> Option<UtcDateTime> {
    if s.len() == 19 && spec_core_shape(s, ' ') {
        let dt = spec_core_fields(s);
        if dt.wf() {
            Some(dt)
        } else {
            None
        }
    } else {
        None
    }
}

/// A zone designator: `Z`, or a signed `HH:MM` offset with the hours
/// below twenty-four and the minutes below sixty.
pub open spec fn spec_zone_shape(t: Seq<char>) -> bool {
    ||| t == seq!['Z']
    ||| {
        &&& t.len() == 6
        &&& (t[0] == '+' || t[0] == '-')
        &&& spec_is_digit(t[1])
        &&& spec_is_digit(t[2])
        &&& t[3] == ':'
        &&& spec_is_digit(t[4])
        &&& spec_is_digit(t[5])
        &&& spec_num2(t, 1) <= 23
        &&& spec_num2(t, 4) <= 59
    }
}

/// The offset a zone designator names, in signed minutes east of UTC.
pub open spec fn spec_zone_offset_minutes(t: Seq<char>) -> int {
    if t == seq!['Z'] {
        0
    } else if t[0] == '-' {
        -(spec_num2(t, 1) * 60 + spec_num2(t, 4))
    } else {
        spec_num2(t, 1) * 60 + spec_num2(t, 4)
    }
}

/// The instant `local` minus `offset` minutes: the UTC form of a local
/// reading, rolling the calendar over day, month and year boundaries.
/// Nothing when the UTC form leaves the four-digit year range.
pub open spec fn spec_apply_offset(dt: UtcDateTime, offset: int) -> Option<UtcDateTime> {
    let total = dt.hour as int * 60 + dt.minute as int - offset;
    if 0 <= total < 1440 {
        Some(
            UtcDateTime {
                year: dt.year,
                month: dt.month,
                day: dt.day,
                hour: (total / 60) as u8,
                minute: (total % 60) as u8,
                second: dt.second,
            },
        )
    } else if total < 0 {
        let t2 = total + 1440;
        if dt.day > 1 {
            Some(
                UtcDateTime {
                    year: dt.year,
                    month: dt.month,
                    day: (dt.day - 1) as u8,
                    hour: (t2 / 60) as u8,
                    minute: (t2 % 60) as u8,
                    second: dt.second,
                },
            )
        } else if dt.month > 1 {
            Some(
                UtcDateTime {
                    year: dt.year,
                    month: (dt.month - 1) as u8,
                    day: spec_days_in_month(dt.year as int, dt.month as int - 1) as u8,
                    hour: (t2 / 60) as u8,
                    minute: (t2 % 60) as u8,
                    second: dt.second,
                },
            )
        } else if dt.year > 0 {
            Some(
                UtcDateTime {
                    year: (dt.year - 1) as u16,
                    month: 12,
                    day: 31,
                    hour: (t2 / 60) as u8,
                    minute: (t2 % 60) as u8,
                    second: dt.second,
                },
            )
        } else {
            None
        }
    } else {
        let t2 = total - 1440;
        if (dt.day as int) < spec_days_in_month(dt.year as int, dt.month as int) {
            Some(
                UtcDateTime {
                    year: dt.year,
                    month: dt.month,
                    day: (dt.day + 1) as u8,
                    hour: (t2 / 60) as u8,
                    minute: (t2 % 60) as u8,
                    second: dt.second,
                },
            )
        } else if dt.month < 12 {
            Some(
                UtcDateTime {
                    year: dt.year,
                    month: (dt.month + 1) as u8,
                    day: 1,
                    hour: (t2 / 60) as u8,
                    minute: (t2 % 60) as u8,
                    second: dt.second,
                },
            )
        } else if dt.year < 9999 {
            Some(
                UtcDateTime {
                    year: (dt.year + 1) as u16,
                    month: 1,
                    day: 1,
                    hour: (t2 / 60) as u8,
                    minute: (t2 % 60) as u8,
                    second: dt.second,
                },
            )
        } else {
            None
        }
    }
}

/// The number of decimal digit characters at the start of `t`.
pub open spec fn spec_leading_digits(t: Seq<char>) -> int
    decreases t.len(),
{
    if t.len() > 0 && spec_is_digit(t[0]) {
        1 + spec_leading_digits(t.drop_first())
    } else {
        0
    }
}

/// The zone designator of a valid tail after the nineteen-character core:
/// the designator itself, optionally preceded by a fractional-second part,
/// and nothing for any other tail.
pub open spec fn spec_suffix_zone(t: Seq<char>) -> Option<Seq<char>> {
    if spec_zone_shape(t) {
        Some(t)
    } else if t.len() >= 1 && t[0] == '.' && spec_leading_digits(t.skip(1)) >= 1
        && spec_zone_shape(t.skip(1 + spec_leading_digits(t.skip(1)))) {
        Some(t.skip(1 + spec_leading_digits(t.skip(1))))
    } else {
        None
    }
}

/// What parsing the RFC 3339 form yields: a `T`-separated core followed by
/// an optional fraction and a zone designator, normalised to UTC by the
/// designator's offset, or nothing.  A fractional part is discarded.
pub open spec fn spec_parse_rfc3339(s: Seq<char>) -> Option<UtcDateTime> {
    if spec_core_shape(s, 'T') {
        match spec_suffix_zone(s.skip(19)) {
            Some(z) => {
                let local = spec_core_fields(s);
                if local.wf() {
                    spec_apply_offset(local, spec_zone_offset_minutes(z))
                } else {
                    None
                }
            },
            None => None,
        }
    } else {
        None
    }
}

/// A decimal digit character.
fn is_digit(c: char) -> (r: bool)
    ensures
        r == spec_is_digit(c),
{
    let u = c as u32;
    48 <= u && u <= 57
}

/// Reads the two-digit group at `i`.
fn read2(s: &str, len: usize, i: usize) -> (r: Option<u8>)
    requires
        len == s@.len(),
        i + 2 <= len,
    ensures
        match r {
            Some(v) => spec_is_digit(s@[i as int]) && spec_is_digit(s@[i as int + 1]) && v as int
                == spec_num2(s@, i as int),
            None => !(spec_is_digit(s@[i as int]) && spec_is_digit(s@[i as int + 1])),
        },
{
    let c0 = s.get_char(i);
    let c1 = s.get_char(i + 1);
    if is_digit(c0) && is_digit(c1) {
        Some((10 * ((c0 as u32) - 48) + ((c1 as u32) - 48)) as u8)
    } else {
        None
    }
}

/// Reads the four-digit group at `i`.
fn read4(s: &str, len: usize, i: usize) -> (r: Option<u16>)
    requires
        len == s@.len(),
        i + 4 <= len,
    ensures
        match r {
            Some(v) => spec_is_digit(s@[i as int]) && spec_is_digit(s@[i as int + 1])
                && spec_is_digit(s@[i as int + 2]) && spec_is_digit(s@[i as int + 3]) && v as int
                == spec_num4(s@, i as int),
            None => !(spec_is_digit(s@[i as int]) && spec_is_digit(s@[i as int + 1])
                && spec_is_digit(s@[i as int + 2]) && spec_is_digit(s@[i as int + 3])),
        },
{
    let c0 = s.get_char(i);
    let c1 = s.get_char(i + 1);
    let c2 = s.get_char(i + 2);
    let c3 = s.get_char(i + 3);
    if is_digit(c0) && is_digit(c1) && is_digit(c2) && is_digit(c3) {
        Some(
            (1000 * ((c0 as u32) - 48) + 100 * ((c1 as u32) - 48) + 10 * ((c2 as u32) - 48) + ((
            c3 as u32) - 48)) as u16,
        )
    } else {
        None
    }
}

/// Reads the nineteen-character core with the given separator; the fields
/// are not yet validated.
fn read_core(s: &str, len: usize, sep: char) -> (r: Option<UtcDateTime>)
    requires
        len == s@.len(),
        len >= 19,
    ensures
        match r {
            Some(dt) => spec_core_shape(s@, sep) && dt == spec_core_fields(s@),
            None => !spec_core_shape(s@, sep),
        },
{
    let year = match read4(s, len, 0) {
        Some(v) => v,
        None => {
            return None;
        },
    };
    if s.get_char(4) != '-' {
        return None;
    }
    let month = match read2(s, len, 5) {
        Some(v) => v,
        None => {
            return None;
        },
    };
    if s.get_char(7) != '-' {
        return None;
    }
    let day = match read2(s, len, 8) {
        Some(v) => v,
        None => {
            return None;
        },
    };
    if s.get_char(10) != sep {
        return None;
    }
    let hour = match read2(s, len, 11) {
        Some(v) => v,
        None => {
            return None;
        },
    };
    if s.get_char(13) != ':' {
        return None;
    }
    let minute = match read2(s, len, 14) {
        Some(v) => v,
        None => {
            return None;
        },
    };
    if s.get_char(16) != ':' {
        return None;
    }
    let second = match read2(s, len, 17) {
        Some(v) => v,
        None => {
            return None;
        },
    };
    Some(UtcDateTime { year, month, day, hour, minute, second })
}

impl UtcDateTime {
    /// Whether the fields name a real instant with a four-digit year.
    pub fn is_wf(&self) -> (r: bool)
        ensures
            r == self.wf(),
    {
        self.year <= 9999 && 1 <= self.month && self.month <= 12 && 1 <= self.day && self.day
            <= days_in_month(self.year, self.month) && self.hour < 24 && self.minute < 60
            && self.second < 60
    }
}

/// Parses the custom `YYYY-MM-DD HH:MM:SS` pattern.
pub fn parse_custom(s: &str) -> (r: Option<UtcDateTime>)
    ensures
        r == spec_parse_custom(s@),
{
    let len = s.unicode_len();
    if len != 19 {
        return None;
    }
    let dt = match read_core(s, len, ' ') {
        Some(dt) => dt,
        None => {
            return None;
        },
    };
    if dt.is_wf() {
        Some(dt)
    } else {
        None
    }
}

/// The count of leading digits equals the position of the first non-digit.
proof fn lemma_leading_digits(t: Seq<char>, n: int)
    requires
        0 <= n <= t.len(),
        forall|k: int| 0 <= k < n ==> spec_is_digit(t[k]),
        n == t.len() || !spec_is_digit(t[n]),
    ensures
        spec_leading_digits(t) == n,
    decreases n,
{
    if n == 0 {
    } else {
        assert(spec_is_digit(t[0]));
        lemma_leading_digits(t.drop_first(), n - 1);
    }
}

/// Reads a zone designator filling the rest of `s`, as signed minutes.
fn parse_zone_at(s: &str, len: usize, i: usize) -> (r: Option<i32>)
    requires
        len == s@.len(),
        i <= len,
    ensures
        match r {
            Some(off) => spec_zone_shape(s@.skip(i as int)) && off as int
                == spec_zone_offset_minutes(s@.skip(i as int)) && -1440 < off < 1440,
            None => !spec_zone_shape(s@.skip(i as int)),
        },
{
    let ghost t = s@.skip(i as int);
    proof {
        assert(t.len() == len - i);
        assert(forall|k: int| 0 <= k < t.len() ==> t[k] == s@[i + k]);
    }
    if len - i == 1 {
        if s.get_char(i) == 'Z' {
            proof {
                assert(t =~= seq!['Z']);
            }
            Some(0)
        } else {
            proof {
                assert(t[0] != 'Z');
            }
            None
        }
    } else if len - i == 6 {
        let c0 = s.get_char(i);
        if !(c0 == '+' || c0 == '-') {
            return None;
        }
        if s.get_char(i + 3) != ':' {
            return None;
        }
        let hh = match read2(s, len, i + 1) {
            Some(v) => v,
            None => {
                return None;
            },
        };
        let mm = match read2(s, len, i + 4) {
            Some(v) => v,
            None => {
                return None;
            },
        };
        if hh > 23 || mm > 59 {
            return None;
        }
        let magnitude = (hh as i32) * 60 + (mm as i32);
        proof {
            assert(spec_num2(t, 1) == spec_num2(s@, i + 1));
            assert(spec_num2(t, 4) == spec_num2(s@, i + 4));
            assert(t != seq!['Z']);
        }
        if c0 == '-' {
            Some(-magnitude)
        } else {
            Some(magnitude)
        }
    } else {
        None
    }
}

/// The instant `local` minus `offset` minutes, rolled over the calendar.
fn apply_offset(dt: &UtcDateTime, offset: i32) -> (r: Option<UtcDateTime>)
    requires
        dt.wf(),
        -1440 < offset < 1440,
    ensures
        r == spec_apply_offset(*dt, offset as int),
{
    let total = (dt.hour as i32) * 60 + (dt.minute as i32) - offset;
    if 0 <= total && total < 1440 {
        Some(
            UtcDateTime {
                year: dt.year,
                month: dt.month,
                day: dt.day,
                hour: (total / 60) as u8,
                minute: (total % 60) as u8,
                second: dt.second,
            },
        )
    } else if total < 0 {
        let t2 = total + 1440;
        if dt.day > 1 {
            Some(
                UtcDateTime {
                    year: dt.year,
                    month: dt.month,
                    day: dt.day - 1,
                    hour: (t2 / 60) as u8,
                    minute: (t2 % 60) as u8,
                    second: dt.second,
                },
            )
        } else if dt.month > 1 {
            Some(
                UtcDateTime {
                    year: dt.year,
                    month: dt.month - 1,
                    day: days_in_month(dt.year, dt.month - 1),
                    hour: (t2 / 60) as u8,
                    minute: (t2 % 60) as u8,
                    second: dt.second,
                },
            )
        } else if dt.year > 0 {
            Some(
                UtcDateTime {
                    year: dt.year - 1,
                    month: 12,
                    day: 31,
                    hour: (t2 / 60) as u8,
                    minute: (t2 % 60) as u8,
                    second: dt.second,
                },
            )
        } else {
            None
        }
    } else {
        let t2 = total - 1440;
        if dt.day < days_in_month(dt.year, dt.month) {
            Some(
                UtcDateTime {
                    year: dt.year,
                    month: dt.month,
                    day: dt.day + 1,
                    hour: (t2 / 60) as u8,
                    minute: (t2 % 60) as u8,
                    second: dt.second,
                },
            )
        } else if dt.month < 12 {
            Some(
                UtcDateTime {
                    year: dt.year,
                    month: dt.month + 1,
                    day: 1,
                    hour: (t2 / 60) as u8,
                    minute: (t2 % 60) as u8,
                    second: dt.second,
                },
            )
        } else if dt.year < 9999 {
            Some(
                UtcDateTime {
                    year: dt.year + 1,
                    month: 1,
                    day: 1,
                    hour: (t2 / 60) as u8,
                    minute: (t2 % 60) as u8,
                    second: dt.second,
                },
            )
        } else {
            None
        }
    }
}

/// Parses the RFC 3339 form: any zone offset is accepted and the instant
/// is normalised to UTC; a fractional-second part is discarded.
pub fn parse_rfc3339(s: &str) -> (r: Option<UtcDateTime>)
    ensures
        r == spec_parse_rfc3339(s@),
{
    let len = s.unicode_len();
    if len < 19 {
        return None;
    }
    let local = match read_core(s, len, 'T') {
        Some(dt) => dt,
        None => {
            return None;
        },
    };
    let ghost t = s@.skip(19);
    let zone_pos: usize;
    if 19 < len && s.get_char(19) == '.' {
        let mut j: usize = 20;
        let mut done = false;
        while j < len && !done
            invariant
                len == s@.len(),
                20 <= j <= len,
                forall|k: int| 20 <= k < j ==> spec_is_digit(s@[k]),
                done ==> j < len && !spec_is_digit(s@[j as int]),
            decreases len - j, (if done { 0int } else { 1int }),
        {
            if is_digit(s.get_char(j)) {
                j += 1;
            } else {
                done = true;
            }
        }
        proof {
            let u = s@.skip(20);
            assert(u.len() == len - 20);
            assert(forall|k: int| 0 <= k < u.len() ==> u[k] == s@[20 + k]);
            if (j as int) < len {
                assert(!spec_is_digit(u[j - 20]));
            }
            lemma_leading_digits(u, j - 20);
            assert(t.skip(1) =~= u);
            assert(t[0] == '.');
            assert(!spec_zone_shape(t));
        }
        if j == 20 {
            proof {
                assert(spec_suffix_zone(t) is None);
            }
            return None;
        }
        zone_pos = j;
        proof {
            assert(t.skip(1 + spec_leading_digits(t.skip(1))) =~= s@.skip(j as int));
        }
    } else {
        zone_pos = 19;
        proof {
            if t.len() >= 1 && t[0] == '.' {
                assert(s@[19] == t[0]);
            }
        }
    }
    let ghost z = s@.skip(zone_pos as int);
    let offset = match parse_zone_at(s, len, zone_pos) {
        Some(off) => off,
        None => {
            proof {
                assert(spec_suffix_zone(t) is None);
            }
            return None;
        },
    };
    proof {
        assert(spec_suffix_zone(t) == Some(z));
    }
    if !local.is_wf() {
        return None;
    }
    apply_offset(&local, offset)
}

/// A padded two-digit group is two digit characters spelling its value.
proof fn lemma_padded2(n: nat)
    requires
        n < 100,
    ensures
        padded_dec_str(n, 2) =~= seq![
            digit_char((n / 10) as int),
            digit_char((n % 10) as int),
        ],
{
    assert(padded_dec_str(n, 2) == padded_dec_str(n / 10, 1) + seq![digit_char((n % 10) as int)]);
    assert(padded_dec_str(n / 10, 1) == seq![digit_char(((n / 10) % 10) as int)]);
    assert((n / 10) % 10 == n / 10);
}

/// A padded four-digit group is four digit characters spelling its value.
proof fn lemma_padded4(n: nat)
    requires
        n < 10000,
    ensures
        padded_dec_str(n, 4) =~= seq![
            digit_char((n / 1000) as int),
            digit_char(((n / 100) % 10) as int),
            digit_char(((n / 10) % 10) as int),
            digit_char((n % 10) as int),
        ],
{
    assert(padded_dec_str(n, 4) == padded_dec_str(n / 10, 3) + seq![digit_char((n % 10) as int)]);
    assert(padded_dec_str(n / 10, 3) == padded_dec_str(n / 10 / 10, 2) + seq![
        digit_char(((n / 10) % 10) as int),
    ]);
    assert(n / 10 / 10 == n / 100);
    lemma_padded2(n / 100);
    assert((n / 100) / 10 == n / 1000);
}

/// Reading back a two-digit group recovers its value.
proof fn lemma_num2_of_padded(s: Seq<char>, i: int, n: nat)
    requires
        n < 100,
        0 <= i,
        i + 2 <= s.len(),
        s[i] == digit_char((n / 10) as int),
        s[i + 1] == digit_char((n % 10) as int),
    ensures
        spec_is_digit(s[i]),
        spec_is_digit(s[i + 1]),
        spec_num2(s, i) == n,
{
}

/// Reading back a four-digit group recovers its value.
#[verifier::rlimit(60)]
proof fn lemma_num4_of_padded(s: Seq<char>, i: int, n: nat)
    requires
        n < 10000,
        0 <= i,
        i + 4 <= s.len(),
        s[i] == digit_char((n / 1000) as int),
        s[i + 1] == digit_char(((n / 100) % 10) as int),
        s[i + 2] == digit_char(((n / 10) % 10) as int),
        s[i + 3] == digit_char((n % 10) as int),
    ensures
        spec_is_digit(s[i]),
        spec_is_digit(s[i + 1]),
        spec_is_digit(s[i + 2]),
        spec_is_digit(s[i + 3]),
        spec_num4(s, i) == n,
{
    assert(n == 1000 * (n / 1000) + 100 * ((n / 100) % 10) + 10 * ((n / 10) % 10) + n % 10);
}

/// The characters of the formatted core, shared by the two formats.
proof fn lemma_format_core(dt: UtcDateTime, sep: char, s: Seq<char>, rest: Seq<char>)
    requires
        dt.wf(),
        s == padded_dec_str(dt.year as nat, 4) + seq!['-'] + padded_dec_str(dt.month as nat, 2)
            + seq!['-'] + padded_dec_str(dt.day as nat, 2) + seq![sep] + padded_dec_str(
            dt.hour as nat,
            2,
        ) + seq![':'] + padded_dec_str(dt.minute as nat, 2) + seq![':'] + padded_dec_str(
            dt.second as nat,
            2,
        ) + rest,
    ensures
        s.len() == 19 + rest.len(),
        spec_core_shape(s, sep),
        spec_core_fields(s) == dt,
        s.skip(19) =~= rest,
{
    lemma_padded4(dt.year as nat);
    lemma_padded2(dt.month as nat);
    lemma_padded2(dt.day as nat);
    lemma_padded2(dt.hour as nat);
    lemma_padded2(dt.minute as nat);
    lemma_padded2(dt.second as nat);
    assert(s =~= seq![
        digit_char((dt.year as nat / 1000) as int),
        digit_char(((dt.year as nat / 100) % 10) as int),
        digit_char(((dt.year as nat / 10) % 10) as int),
        digit_char((dt.year as nat % 10) as int),
        '-',
        digit_char((dt.month as nat / 10) as int),
        digit_char((dt.month as nat % 10) as int),
        '-',
        digit_char((dt.day as nat / 10) as int),
        digit_char((dt.day as nat % 10) as int),
        sep,
        digit_char((dt.hour as nat / 10) as int),
        digit_char((dt.hour as nat % 10) as int),
        ':',
        digit_char((dt.minute as nat / 10) as int),
        digit_char((dt.minute as nat % 10) as int),
        ':',
        digit_char((dt.second as nat / 10) as int),
        digit_char((dt.second as nat % 10) as int),
    ] + rest);
    lemma_num4_of_padded(s, 0, dt.year as nat);
    lemma_num2_of_padded(s, 5, dt.month as nat);
    lemma_num2_of_padded(s, 8, dt.day as nat);
    lemma_num2_of_padded(s, 11, dt.hour as nat);
    lemma_num2_of_padded(s, 14, dt.minute as nat);
    lemma_num2_of_padded(s, 17, dt.second as nat);
}

/// Parsing back a formatted custom-pattern date-time yields the instant.
pub proof fn lemma_custom_round_trip(dt: UtcDateTime)
    requires
        dt.wf(),
    ensures
        spec_parse_custom(spec_format_custom(dt)) == Some(dt),
{
    let s = spec_format_custom(dt);
    assert(s == padded_dec_str(dt.year as nat, 4) + seq!['-'] + padded_dec_str(dt.month as nat, 2)
        + seq!['-'] + padded_dec_str(dt.day as nat, 2) + seq![' '] + padded_dec_str(
        dt.hour as nat,
        2,
    ) + seq![':'] + padded_dec_str(dt.minute as nat, 2) + seq![':'] + padded_dec_str(
        dt.second as nat,
        2,
    ) + Seq::<char>::empty());
    lemma_format_core(dt, ' ', s, Seq::empty());
}

/// Parsing back a formatted RFC 3339 date-time yields the instant.
pub proof fn lemma_rfc3339_round_trip(dt: UtcDateTime)
    requires
        dt.wf(),
    ensures
        spec_parse_rfc3339(spec_format_rfc3339(dt)) == Some(dt),
{
    let s = spec_format_rfc3339(dt);
    let zone = seq!['+', '0', '0', ':', '0', '0'];
    assert(s == padded_dec_str(dt.year as nat, 4) + seq!['-'] + padded_dec_str(dt.month as nat, 2)
        + seq!['-'] + padded_dec_str(dt.day as nat, 2) + seq!['T'] + padded_dec_str(
        dt.hour as nat,
        2,
    ) + seq![':'] + padded_dec_str(dt.minute as nat, 2) + seq![':'] + padded_dec_str(
        dt.second as nat,
        2,
    ) + zone);
    lemma_format_core(dt, 'T', s, zone);
    assert(zone[0] == '+' && zone[1] == '0' && zone[2] == '0' && zone[3] == ':' && zone[4] == '0'
        && zone[5] == '0');
    assert(spec_zone_shape(zone));
    assert(spec_suffix_zone(s.skip(19)) == Some(zone));
    assert(spec_zone_offset_minutes(zone) == 0);
    let total = dt.hour as int * 60 + dt.minute as int;
    assert(0 <= total < 1440);
    assert(total / 60 == dt.hour as int && total % 60 == dt.minute as int);
    assert(spec_apply_offset(dt, 0) == Some(dt));
}

} // verus!
