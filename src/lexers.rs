//! Field lexers. Each takes the characters of a line and a position in it,
//! and gives the position after the token it reads, or fails.

use chrono::Datelike;
use vstd::prelude::*;
use crate::record::{opt_view, FundPlan, NavDate};
use crate::text::{
    chars_of, contains, find, is_alphanumeric, is_ascii_digit, is_whitespace, to_uppercase, trim,
    trimmed, unicode_alphanumeric, unicode_whitespace, upper_of,
};

verus! {

/// The date that the layout `dd-Mon-yyyy` gives to a text, as year, month
/// and day, if it gives one.
pub uninterp spec fn parsed_date(s: Seq<char>) -> Option<(i32, u32, u32)>;

/// Relies on `chrono::NaiveDate::parse_from_str` with the layout `%d-%b-%Y`
/// (day, abbreviated month name, four-digit year), and on `Datelike` giving a
/// month from 1 to 12 and a day from 1 to 31.
#[verifier::external_body]
fn parse_date(s: &str) -> (r: Option<(i32, u32, u32)>)
    ensures
        r == parsed_date(s@),
        r matches Some((y, m, d)) ==> 1 <= m <= 12 && 1 <= d <= 31,
{
    match chrono::NaiveDate::parse_from_str(s, "%d-%b-%Y") {
        Ok(d) => Some((d.year(), d.month(), d.day())),
        Err(_) => None,
    }
}

pub open spec fn is_separator(c: char) -> bool {
    unicode_whitespace(c) || c == ';'
}

/// End of the run of whitespace and semicolons that starts at `i`.
pub open spec fn sep_end(s: Seq<char>, i: int) -> int
    decreases s.len() - i,
{
    if 0 <= i < s.len() && is_separator(s[i]) {
        sep_end(s, i + 1)
    } else {
        i
    }
}

/// End of the run of ASCII digits that starts at `i`.
pub open spec fn digit_end(s: Seq<char>, i: int) -> int
    decreases s.len() - i,
{
    if 0 <= i < s.len() && is_ascii_digit(s[i]) {
        digit_end(s, i + 1)
    } else {
        i
    }
}

/// End of the run of alphanumeric characters that starts at `i`.
pub open spec fn alnum_end(s: Seq<char>, i: int) -> int
    decreases s.len() - i,
{
    if 0 <= i < s.len() && unicode_alphanumeric(s[i]) {
        alnum_end(s, i + 1)
    } else {
        i
    }
}

/// End of the run of digits with at most one point that starts at `i`;
/// `seen` tells whether the point was already read.
pub open spec fn float_end(s: Seq<char>, i: int, seen: bool) -> int
    decreases s.len() - i,
{
    if 0 <= i < s.len() {
        if is_ascii_digit(s[i]) {
            float_end(s, i + 1, seen)
        } else if !seen && s[i] == '.' {
            float_end(s, i + 1, true)
        } else {
            i
        }
    } else {
        i
    }
}

/// The value of a string of decimal digits.
pub open spec fn digits_value(d: Seq<char>) -> nat
    decreases d.len(),
{
    if d.len() == 0 {
        0
    } else {
        digits_value(d.drop_last()) * 10 + (d.last() as u32 - '0' as u32) as nat
    }
}

/// The integer at `i` and the position after it: at least one digit, and a
/// value that fits in `u32`.
pub open spec fn digit_spec(s: Seq<char>, i: int) -> Option<(u32, int)> {
    let j = digit_end(s, i);
    if j == i || digits_value(s.subrange(i, j)) > u32::MAX {
        None
    } else {
        Some((digits_value(s.subrange(i, j)) as u32, j))
    }
}

/// An identifier at `i`: one of the placeholders `---` and `-`, which stand
/// for no identifier, or else an alphanumeric run.
pub open spec fn isin_spec(s: Seq<char>, i: int) -> Option<(Option<Seq<char>>, int)> {
    if i + 3 <= s.len() && s[i] == '-' && s[i + 1] == '-' && s[i + 2] == '-' {
        Some((None, i + 3))
    } else if 0 <= i < s.len() && s[i] == '-' {
        Some((None, i + 1))
    } else {
        let j = alnum_end(s, i);
        if j > i {
            Some((Some(s.subrange(i, j)), j))
        } else {
            None
        }
    }
}

/// The first semicolon at or after `i`.
pub open spec fn semicolon_from(s: Seq<char>, i: int) -> Option<int>
    decreases s.len() - i,
{
    if i < 0 || i >= s.len() {
        None
    } else if s[i] == ';' {
        Some(i)
    } else {
        semicolon_from(s, i + 1)
    }
}

pub open spec fn direct_word() -> Seq<char> {
    seq!['D', 'I', 'R', 'E', 'C', 'T']
}

/// The plan of a scheme whose upper-cased name is `upper`.
pub open spec fn plan_spec(upper: Seq<char>) -> FundPlan {
    if contains(upper, direct_word()) {
        FundPlan::Direct
    } else {
        FundPlan::Regular
    }
}

/// The scheme name that runs from `i` to the next semicolon, trimmed, with
/// its plan, and the position of that semicolon.
pub open spec fn name_spec(s: Seq<char>, i: int) -> Option<(Seq<char>, FundPlan, int)> {
    match semicolon_from(s, i) {
        Some(k) => {
            let name = trimmed(s.subrange(i, k));
            Some((name, plan_spec(upper_of(name)), k))
        },
        None => None,
    }
}

/// The date in the eleven characters at `i`.
pub open spec fn date_spec(s: Seq<char>, i: int) -> Option<NavDate> {
    if s.len() - i < 11 {
        None
    } else {
        match parsed_date(s.subrange(i, i + 11)) {
            Some((y, m, d)) => Some(NavDate { year: y, month: m, day: d }),
            None => None,
        }
    }
}

/// Skips whitespace and semicolons; always succeeds.
pub fn separator(cs: &Vec<char>, i: usize) -> (r: usize)
    requires
        i <= cs@.len(),
    ensures
        r == sep_end(cs@, i as int),
        i <= r <= cs@.len(),
{
    let mut j = i;
    while j < cs.len() && (is_whitespace(cs[j]) || cs[j] == ';')
        invariant
            i <= j <= cs@.len(),
            sep_end(cs@, i as int) == sep_end(cs@, j as int),
        decreases cs@.len() - j,
    {
        j = j + 1;
    }
    j
}

/// Reads a decimal integer.
pub fn digit(cs: &Vec<char>, i: usize) -> (r: Option<(u32, usize)>)
    requires
        i <= cs@.len(),
    ensures
        match r {
            Some((v, j)) => digit_spec(cs@, i as int) == Some((v, j as int)) && j <= cs@.len(),
            None => digit_spec(cs@, i as int) is None,
        },
{
    let mut j = i;
    let mut v: u32 = 0;
    let mut over = false;
    while j < cs.len() && '0' <= cs[j] && cs[j] <= '9'
        invariant
            i <= j <= cs@.len(),
            digit_end(cs@, i as int) == digit_end(cs@, j as int),
            over ==> digits_value(cs@.subrange(i as int, j as int)) > u32::MAX,
            !over ==> v == digits_value(cs@.subrange(i as int, j as int)),
        decreases cs@.len() - j,
    {
        let d = (cs[j] as u32) - ('0' as u32);
        proof {
            let sub = cs@.subrange(i as int, j + 1);
            assert(sub.drop_last() =~= cs@.subrange(i as int, j as int));
        }
        if !over {
            if v > 429496729 || (v == 429496729 && d > 5) {
                over = true;
            } else {
                v = v * 10 + d;
            }
        }
        j = j + 1;
    }
    if j == i || over {
        None
    } else {
        Some((v, j))
    }
}

/// Reads a run of alphanumeric characters, at least one; gives its end.
pub fn alphanumeric(cs: &Vec<char>, i: usize) -> (r: Option<usize>)
    requires
        i <= cs@.len(),
    ensures
        match r {
            Some(j) => j == alnum_end(cs@, i as int) && i < j <= cs@.len(),
            None => alnum_end(cs@, i as int) == i,
        },
{
    let mut j = i;
    while j < cs.len() && is_alphanumeric(cs[j])
        invariant
            i <= j <= cs@.len(),
            alnum_end(cs@, i as int) == alnum_end(cs@, j as int),
        decreases cs@.len() - j,
    {
        j = j + 1;
    }
    if j > i {
        Some(j)
    } else {
        None
    }
}

/// Reads a decimal literal: digits with at most one point, at least one
/// character; gives its end.
pub fn double(cs: &Vec<char>, i: usize) -> (r: Option<usize>)
    requires
        i <= cs@.len(),
    ensures
        match r {
            Some(j) => j == float_end(cs@, i as int, false) && i < j <= cs@.len(),
            None => float_end(cs@, i as int, false) == i,
        },
{
    let mut j = i;
    let mut seen = false;
    while j < cs.len() && (('0' <= cs[j] && cs[j] <= '9') || (!seen && cs[j] == '.'))
        invariant
            i <= j <= cs@.len(),
            float_end(cs@, i as int, false) == float_end(cs@, j as int, seen),
        decreases cs@.len() - j,
    {
        if cs[j] == '.' {
            seen = true;
        }
        j = j + 1;
    }
    if j > i {
        Some(j)
    } else {
        None
    }
}

/// Reads a date from the eleven characters at `i`.
pub fn date(line: &str, cs: &Vec<char>, i: usize) -> (r: Option<(NavDate, usize)>)
    requires
        cs@ == line@,
        i <= cs@.len(),
    ensures
        match r {
            Some((d, j)) => date_spec(cs@, i as int) == Some(d) && j == i + 11 && j <= cs@.len()
                && d.wf(),
            None => date_spec(cs@, i as int) is None,
        },
{
    if cs.len() - i < 11 {
        return None;
    }
    match parse_date(line.substring_char(i, i + 11)) {
        Some((y, m, d)) => Some((NavDate { year: y, month: m, day: d }, i + 11)),
        None => None,
    }
}

/// Reads an identifier, or a placeholder that stands for none.
pub fn parse_isin(line: &str, cs: &Vec<char>, i: usize) -> (r: Option<(Option<String>, usize)>)
    requires
        cs@ == line@,
        i <= cs@.len(),
    ensures
        match r {
            Some((v, j)) => isin_spec(cs@, i as int) == Some((opt_view(v), j as int)) && j
                <= cs@.len(),
            None => isin_spec(cs@, i as int) is None,
        },
{
    if cs.len() - i >= 3 && cs[i] == '-' && cs[i + 1] == '-' && cs[i + 2] == '-' {
        Some((None, i + 3))
    } else if i < cs.len() && cs[i] == '-' {
        Some((None, i + 1))
    } else {
        match alphanumeric(cs, i) {
            Some(j) => Some((Some(String::from_str(line.substring_char(i, j))), j)),
            None => None,
        }
    }
}

/// The plan of a scheme whose upper-cased name is `upper`: direct where it
/// holds `DIRECT`, regular otherwise.
pub fn plan_from_upper(upper: &str) -> (r: FundPlan)
    ensures
        r == plan_spec(upper@),
{
    let u = chars_of(upper);
    let pat = vec!['D', 'I', 'R', 'E', 'C', 'T'];
    assert(pat@ =~= direct_word());
    match find(&u, 0, &pat) {
        Some(_) => FundPlan::Direct,
        None => FundPlan::Regular,
    }
}

/// Reads the scheme name up to the next semicolon, trimmed, with its plan;
/// gives the position of that semicolon.
pub fn parse_name(line: &str, cs: &Vec<char>, i: usize) -> (r: Option<(String, FundPlan, usize)>)
    requires
        cs@ == line@,
        i <= cs@.len(),
    ensures
        match r {
            Some((n, p, j)) => name_spec(cs@, i as int) == Some((n@, p, j as int)) && j
                <= cs@.len(),
            None => name_spec(cs@, i as int) is None,
        },
{
    let mut k = i;
    while k < cs.len() && cs[k] != ';'
        invariant
            i <= k <= cs@.len(),
            semicolon_from(cs@, i as int) == semicolon_from(cs@, k as int),
        decreases cs@.len() - k,
    {
        k = k + 1;
    }
    if k == cs.len() {
        return None;
    }
    let name = trim(line.substring_char(i, k));
    let upper = to_uppercase(name.as_str());
    let plan = plan_from_upper(upper.as_str());
    Some((name, plan, k))
}

} // verus!
