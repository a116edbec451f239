//! Verified string helpers: decimal digits, fixed-width numeric fields,
//! the `UTC±HH:MM` offset rendering, and display-name derivation.

use vstd::prelude::*;

verus! {

/// The decimal digit character for a value in 0..=9.
pub open spec fn digit_char(d: int) -> char {
    if d == 0 {
        '0'
    } else if d == 1 {
        '1'
    } else if d == 2 {
        '2'
    } else if d == 3 {
        '3'
    } else if d == 4 {
        '4'
    } else if d == 5 {
        '5'
    } else if d == 6 {
        '6'
    } else if d == 7 {
        '7'
    } else if d == 8 {
        '8'
    } else {
        '9'
    }
}

pub open spec fn is_digit_char(c: char) -> bool {
    48 <= c as int && c as int <= 57
}

/// The numeric value of a decimal digit character.
pub open spec fn digit_val(c: char) -> int {
    c as int - 48
}

fn digit_str(d: u8) -> (r: &'static str)
    requires
        d < 10,
    ensures
        r@ == seq![digit_char(d as int)],
{
    proof {
        reveal_strlit("0");
        reveal_strlit("1");
        reveal_strlit("2");
        reveal_strlit("3");
        reveal_strlit("4");
        reveal_strlit("5");
        reveal_strlit("6");
        reveal_strlit("7");
        reveal_strlit("8");
        reveal_strlit("9");
    }
    let r: &'static str = if d == 0 {
        "0"
    } else if d == 1 {
        "1"
    } else if d == 2 {
        "2"
    } else if d == 3 {
        "3"
    } else if d == 4 {
        "4"
    } else if d == 5 {
        "5"
    } else if d == 6 {
        "6"
    } else if d == 7 {
        "7"
    } else if d == 8 {
        "8"
    } else {
        "9"
    };
    proof {
        assert(r@ =~= seq![digit_char(d as int)]);
    }
    r
}

/// A value below 100 as exactly two decimal digits.
pub open spec fn spec_two_digits(n: int) -> Seq<char> {
    seq![digit_char(n / 10), digit_char(n % 10)]
}

pub fn two_digit_string(n: u32) -> (r: String)
    requires
        n < 100,
    ensures
        r@ == spec_two_digits(n as int),
{
    let hi = digit_str((n / 10) as u8);
    let lo = digit_str((n % 10) as u8);
    let r = String::from_str(hi).concat(lo);
    proof {
        assert(r@ =~= spec_two_digits(n as int));
    }
    r
}

/// A signed offset in seconds rendered as `UTC` + sign + `HH:MM`,
/// minutes truncated from the seconds value.
pub open spec fn spec_offset_display(secs: int) -> Seq<char> {
    let a = if secs < 0 {
        -secs
    } else {
        secs
    };
    let sign: char = if secs < 0 {
        '-'
    } else {
        '+'
    };
    "UTC"@ + seq![sign] + spec_two_digits(a / 3600) + seq![':'] + spec_two_digits((a % 3600) / 60)
}

pub fn format_utc_offset(secs: i32) -> (r: String)
    requires
        -86400 < secs < 86400,
    ensures
        r@ == spec_offset_display(secs as int),
{
    let a: u32 = if secs < 0 {
        (-secs) as u32
    } else {
        secs as u32
    };
    let hours: u32 = a / 3600;
    let mins: u32 = (a % 3600) / 60;
    let sign: &'static str = if secs < 0 {
        "-"
    } else {
        "+"
    };
    let mut s = String::from_str("UTC");
    s.append(sign);
    s.append(two_digit_string(hours).as_str());
    s.append(":");
    s.append(two_digit_string(mins).as_str());
    proof {
        reveal_strlit("-");
        reveal_strlit("+");
        reveal_strlit(":");
        assert(s@ =~= spec_offset_display(secs as int));
    }
    s
}

/// Each underscore replaced by a space; nothing else changes.
pub open spec fn spec_display_name(s: Seq<char>) -> Seq<char> {
    s.map_values(|c: char| if c == '_' { ' ' } else { c })
}

pub fn display_name_of(name: &str) -> (r: String)
    ensures
        r@ == spec_display_name(name@),
{
    let n = name.unicode_len();
    let mut out = String::new();
    let mut i: usize = 0;
    while i < n
        invariant
            i <= n,
            n == name@.len(),
            out@ == spec_display_name(name@.subrange(0, i as int)),
        decreases n - i,
    {
        let c = name.get_char(i);
        if c == '_' {
            out.append(" ");
        } else {
            out.append(name.substring_char(i, i + 1));
        }
        proof {
            reveal_strlit(" ");
            assert(name@.subrange(0, i + 1) =~= name@.subrange(0, i as int).push(name@[i as int]));
            assert(out@ =~= spec_display_name(name@.subrange(0, i + 1)));
        }
        i = i + 1;
    }
    proof {
        assert(name@.subrange(0, n as int) =~= name@);
    }
    out
}

/// Character-for-character string equality.
pub fn str_eq(a: &str, b: &str) -> (r: bool)
    ensures
        r == (a@ == b@),
{
    let an = a.unicode_len();
    let bn = b.unicode_len();
    if an != bn {
        return false;
    }
    let mut i: usize = 0;
    while i < an
        invariant
            i <= an,
            an == a@.len(),
            an == b@.len(),
            forall|k: int| 0 <= k < i ==> a@[k] == b@[k],
        decreases an - i,
    {
        if a.get_char(i) != b.get_char(i) {
            return false;
        }
        i = i + 1;
    }
    proof {
        assert(a@ =~= b@);
    }
    true
}

/// The decimal digits of a non-negative value, most significant first.
pub open spec fn spec_nat_digits(n: int) -> Seq<char>
    decreases n,
{
    if n < 10 {
        seq![digit_char(n)]
    } else {
        spec_nat_digits(n / 10) + seq![digit_char(n % 10)]
    }
}

/// A signed 64-bit value in decimal, with a leading minus when negative.
pub open spec fn spec_i64_string(n: int) -> Seq<char> {
    if n < 0 {
        seq!['-'] + spec_nat_digits(-n)
    } else {
        spec_nat_digits(n)
    }
}

fn nat_digit_string(n: u64) -> (r: String)
    ensures
        r@ == spec_nat_digits(n as int),
    decreases n,
{
    if n < 10 {
        String::from_str(digit_str(n as u8))
    } else {
        nat_digit_string(n / 10).concat(digit_str((n % 10) as u8))
    }
}

pub fn i64_string(n: i64) -> (r: String)
    ensures
        r@ == spec_i64_string(n as int),
{
    if n < 0 {
        let a: u64 = (-(n + 1)) as u64 + 1;
        proof {
            assert(a as int == -(n as int));
        }
        let mut s = String::from_str("-");
        s.append(nat_digit_string(a).as_str());
        proof {
            reveal_strlit("-");
            assert(s@ =~= spec_i64_string(n as int));
        }
        s
    } else {
        nat_digit_string(n as u64)
    }
}

} // verus!
