//! Naive datetime literals: the two accepted shapes
//! `YYYY-MM-DDTHH:MM:SS` and `YYYY-MM-DDTHH:MM` (seconds default to zero),
//! parsed and calendar-validated without any zone attached.

use vstd::prelude::*;

use crate::strutil::digit_val;
use crate::strutil::is_digit_char;

verus! {

/// A wall-clock value with no zone attached.
#[derive(Debug, Clone, Copy, PartialEq, Eq, Structural)]
pub struct NaiveStamp {
    pub year: u32,
    pub month: u32,
    pub day: u32,
    pub hour: u32,
    pub minute: u32,
    pub second: u32,
}

pub open spec fn is_leap_year(y: int) -> bool {
    y % 4 == 0 && (y % 100 != 0 || y % 400 == 0)
}

pub open spec fn days_in_month(y: int, m: int) -> int {
    if m == 2 {
        if is_leap_year(y) {
            29
        } else {
            28
        }
    } else if m == 4 || m == 6 || m == 9 || m == 11 {
        30
    } else {
        31
    }
}

/// The stamp names a real calendar date and clock time.
pub open spec fn wf_stamp(st: NaiveStamp) -> bool {
    &&& st.year <= 9999
    &&& 1 <= st.month <= 12
    &&& 1 <= st.day <= days_in_month(st.year as int, st.month as int)
    &&& st.hour < 24
    &&& st.minute < 60
    &&& st.second < 60
}

/// `n` decimal digits starting at position `i`.
pub open spec fn digits_run(s: Seq<char>, i: int, n: int) -> bool {
    forall|k: int| i <= k < i + n ==> is_digit_char(#[trigger] s[k])
}

/// The value of the `n` digits starting at position `i`.
pub open spec fn num_at(s: Seq<char>, i: int, n: int) -> int
    decreases n,
{
    if n <= 0 {
        0
    } else {
        num_at(s, i, n - 1) * 10 + digit_val(s[i + n - 1])
    }
}

/// Positions 0..16, common to both accepted shapes:
/// `YYYY-MM-DDTHH:MM`.
pub open spec fn head_shape(s: Seq<char>) -> bool {
    &&& digits_run(s, 0, 4)
    &&& s[4] == '-'
    &&& digits_run(s, 5, 2)
    &&& s[7] == '-'
    &&& digits_run(s, 8, 2)
    &&& s[10] == 'T'
    &&& digits_run(s, 11, 2)
    &&& s[13] == ':'
    &&& digits_run(s, 14, 2)
}

/// The minutes-precision shape `YYYY-MM-DDTHH:MM`.
pub open spec fn shape_minutes(s: Seq<char>) -> bool {
    s.len() == 16 && head_shape(s)
}

/// The seconds-precision shape `YYYY-MM-DDTHH:MM:SS`.
pub open spec fn shape_seconds(s: Seq<char>) -> bool {
    &&& s.len() == 19
    &&& head_shape(s)
    &&& s[16] == ':'
    &&& digits_run(s, 17, 2)
}

/// The seconds field: written out in the long shape, zero otherwise.
pub open spec fn seconds_of(s: Seq<char>) -> int {
    if s.len() == 19 {
        num_at(s, 17, 2)
    } else {
        0
    }
}

/// The extracted fields name a real calendar date and clock time.
pub open spec fn fields_valid(s: Seq<char>) -> bool {
    &&& 1 <= num_at(s, 5, 2) <= 12
    &&& 1 <= num_at(s, 8, 2) <= days_in_month(num_at(s, 0, 4), num_at(s, 5, 2))
    &&& num_at(s, 11, 2) < 24
    &&& num_at(s, 14, 2) < 60
    &&& seconds_of(s) < 60
}

/// The literal matches one of the two accepted shapes and names a real
/// calendar date and clock time.
pub open spec fn parses_as_datetime(s: Seq<char>) -> bool {
    (shape_minutes(s) || shape_seconds(s)) && fields_valid(s)
}

/// The stamp carries exactly the fields written in the literal.
pub open spec fn stamp_matches(st: NaiveStamp, s: Seq<char>) -> bool {
    &&& st.year == num_at(s, 0, 4)
    &&& st.month == num_at(s, 5, 2)
    &&& st.day == num_at(s, 8, 2)
    &&& st.hour == num_at(s, 11, 2)
    &&& st.minute == num_at(s, 14, 2)
    &&& st.second == seconds_of(s)
}

fn digit_of(c: char) -> (r: Option<u32>)
    ensures
        r is Some <==> is_digit_char(c),
        r matches Some(v) ==> v == digit_val(c) && v < 10,
{
    let v = c as u32;
    if 48 <= v && v <= 57 {
        Some(v - 48)
    } else {
        None
    }
}

fn read_2(s: &str, i: usize) -> (r: Option<u32>)
    requires
        i + 2 <= s@.len(),
        s@.len() <= usize::MAX,
    ensures
        r is Some <==> digits_run(s@, i as int, 2),
        r matches Some(v) ==> v == num_at(s@, i as int, 2) && v < 100,
{
    let c0 = match digit_of(s.get_char(i)) {
        Some(d) => d,
        None => {
            return None;
        },
    };
    let c1 = match digit_of(s.get_char(i + 1)) {
        Some(d) => d,
        None => {
            return None;
        },
    };
    proof {
        assert(num_at(s@, i as int, 0) == 0);
        assert(num_at(s@, i as int, 1) == num_at(s@, i as int, 0) * 10 + digit_val(s@[i as int]));
        assert(num_at(s@, i as int, 2) == num_at(s@, i as int, 1) * 10 + digit_val(s@[i + 1]));
    }
    Some(c0 * 10 + c1)
}

fn read_4(s: &str, i: usize) -> (r: Option<u32>)
    requires
        i + 4 <= s@.len(),
        s@.len() <= usize::MAX,
    ensures
        r is Some <==> digits_run(s@, i as int, 4),
        r matches Some(v) ==> v == num_at(s@, i as int, 4) && v < 10000,
{
    let hi = match read_2(s, i) {
        Some(d) => d,
        None => {
            return None;
        },
    };
    let lo = match read_2(s, i + 2) {
        Some(d) => d,
        None => {
            return None;
        },
    };
    proof {
        assert(num_at(s@, i as int, 4) == num_at(s@, i as int, 3) * 10 + digit_val(s@[i + 3]));
        assert(num_at(s@, i as int, 3) == num_at(s@, i as int, 2) * 10 + digit_val(s@[i + 2]));
        assert(num_at(s@, i + 2, 0) == 0);
        assert(num_at(s@, i + 2, 1) == num_at(s@, i + 2, 0) * 10 + digit_val(s@[i + 2]));
        assert(num_at(s@, i + 2, 2) == num_at(s@, i + 2, 1) * 10 + digit_val(s@[i + 3]));
    }
    Some(hi * 100 + lo)
}

pub fn days_in_month_count(y: u32, m: u32) -> (r: u32)
    requires
        1 <= m <= 12,
    ensures
        r == days_in_month(y as int, m as int),
{
    if m == 2 {
        if y % 4 == 0 && (y % 100 != 0 || y % 400 == 0) {
            29
        } else {
            28
        }
    } else if m == 4 || m == 6 || m == 9 || m == 11 {
        30
    } else {
        31
    }
}

/// Parse one of the two accepted naive-datetime shapes and validate the
/// calendar fields; `None` exactly on a malformed literal.
pub fn parse_datetime_literal(s: &str) -> (r: Option<NaiveStamp>)
    ensures
        r is Some <==> parses_as_datetime(s@),
        r matches Some(st) ==> stamp_matches(st, s@) && wf_stamp(st),
{
    let n = s.unicode_len();
    if n != 16 && n != 19 {
        return None;
    }
    if s.get_char(4) != '-' || s.get_char(7) != '-' || s.get_char(10) != 'T' || s.get_char(13)
        != ':' {
        return None;
    }
    let year = match read_4(s, 0) {
        Some(v) => v,
        None => {
            return None;
        },
    };
    let month = match read_2(s, 5) {
        Some(v) => v,
        None => {
            return None;
        },
    };
    let day = match read_2(s, 8) {
        Some(v) => v,
        None => {
            return None;
        },
    };
    let hour = match read_2(s, 11) {
        Some(v) => v,
        None => {
            return None;
        },
    };
    let minute = match read_2(s, 14) {
        Some(v) => v,
        None => {
            return None;
        },
    };
    let second: u32 = if n == 19 {
        if s.get_char(16) != ':' {
            return None;
        }
        match read_2(s, 17) {
            Some(v) => v,
            None => {
                return None;
            },
        }
    } else {
        0
    };
    if month < 1 || month > 12 {
        return None;
    }
    if day < 1 || day > days_in_month_count(year, month) {
        return None;
    }
    if hour >= 24 || minute >= 60 || second >= 60 {
        return None;
    }
    Some(NaiveStamp { year, month, day, hour, minute, second })
}

} // verus!
