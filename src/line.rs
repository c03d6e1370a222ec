//! The line classifier and the parsers of data lines and section lines.

use vstd::prelude::*;
use crate::lexers::{
    date, date_spec, digit, digit_spec, double, float_end, isin_spec,
    name_spec, parse_isin, parse_name, sep_end, separator,
};
use crate::record::{opt_view, FundMaturity, FundPlan, NavDate, NavRecordBuilder};
use crate::text::{
    chars_of, contains, find, find_from, starts_with, to_uppercase, trim, trimmed, upper_of,
};

verus! {

/// What a line of the feed is.
#[derive(Debug, Clone, Copy, PartialEq, Eq, Structural)]
pub enum LineType {
    /// A data line: it holds a semicolon.
    Record,
    /// The name of a fund family.
    Amc,
    /// A section line: maturity, scheme group and category.
    Scheme,
    /// An empty or whitespace-only line.
    Blank,
    /// A repeated table header, which starts with `Scheme`.
    Header,
}

pub open spec fn scheme_word() -> Seq<char> {
    seq!['S', 'c', 'h', 'e', 'm', 'e']
}

pub open spec fn ended_scheme() -> Seq<char> {
    seq!['E', 'n', 'd', 'e', 'd', ' ', 'S', 'c', 'h', 'e', 'm', 'e']
}

/// The kind of a line, by the first rule that applies: a header starts with
/// `Scheme`; a data line holds a semicolon; a section line holds
/// `Ended Scheme`; a fund-family line is not blank once trimmed.
pub open spec fn classify(l: Seq<char>) -> LineType {
    if starts_with(l, scheme_word()) {
        LineType::Header
    } else if contains(l, seq![';']) {
        LineType::Record
    } else if contains(l, ended_scheme()) {
        LineType::Scheme
    } else if trimmed(l).len() > 0 {
        LineType::Amc
    } else {
        LineType::Blank
    }
}

/// The kind of `line`.
pub fn classify_line(line: &str) -> (r: LineType)
    ensures
        r == classify(line@),
{
    let cs = chars_of(line);
    let header = vec!['S', 'c', 'h', 'e', 'm', 'e'];
    assert(header@ =~= scheme_word());
    let semi = vec![';'];
    assert(semi@ =~= seq![';']);
    let ended = vec!['E', 'n', 'd', 'e', 'd', ' ', 'S', 'c', 'h', 'e', 'm', 'e'];
    assert(ended@ =~= ended_scheme());
    if crate::text::matches_at(&cs, 0, &header) {
        LineType::Header
    } else if find(&cs, 0, &semi).is_some() {
        LineType::Record
    } else if find(&cs, 0, &ended).is_some() {
        LineType::Scheme
    } else {
        let (a, b) = crate::text::trim_bounds(&cs);
        if a < b {
            LineType::Amc
        } else {
            LineType::Blank
        }
    }
}

/// The fields of a data line.
pub ghost struct LineFields {
    pub code: u32,
    pub isin: Option<Seq<char>>,
    pub isin_dr: Option<Seq<char>>,
    pub name: Seq<char>,
    pub plan: FundPlan,
    pub nav: Seq<char>,
    pub date: NavDate,
}

/// The fields of the data line `s`: code, identifier, reinvestment
/// identifier, name up to a semicolon, decimal value and date, with a run of
/// whitespace and semicolons skipped before each field after the first.
pub open spec fn data_fields(s: Seq<char>) -> Option<LineFields> {
    match digit_spec(s, 0) {
        None => None,
        Some((code, code_end)) => match isin_spec(s, sep_end(s, code_end)) {
            None => None,
            Some((isin, isin_end)) => match isin_spec(s, sep_end(s, isin_end)) {
                None => None,
                Some((isin_dr, dr_end)) => match name_spec(s, sep_end(s, dr_end)) {
                    None => None,
                    Some((name, plan, name_end)) => {
                        let nav_start = sep_end(s, name_end);
                        let nav_end = float_end(s, nav_start, false);
                        if nav_end == nav_start {
                            None
                        } else {
                            match date_spec(s, sep_end(s, nav_end)) {
                                None => None,
                                Some(d) => Some(
                                    LineFields {
                                        code,
                                        isin,
                                        isin_dr,
                                        name,
                                        plan,
                                        nav: s.subrange(nav_start, nav_end),
                                        date: d,
                                    },
                                ),
                            }
                        }
                    },
                },
            },
        },
    }
}

/// `b` holds the fields `f` and no context field.
pub open spec fn holds_fields(b: NavRecordBuilder, f: LineFields) -> bool {
    &&& b.code == Some(f.code)
    &&& opt_view(b.isin) == f.isin
    &&& opt_view(b.isin_dr) == f.isin_dr
    &&& b.name matches Some(n) && n@ == f.name
    &&& b.plan == Some(f.plan)
    &&& b.nav matches Some(v) && v@ == f.nav
    &&& b.date == Some(f.date)
    &&& b.amc is None && b.category is None && b.scheme is None
    &&& b.maturity is None && b.option is None
}

/// Parses a data line into a builder that holds its fields.
pub fn parse_record(line: &str) -> (r: Option<NavRecordBuilder>)
    ensures
        match r {
            Some(b) => data_fields(line@) matches Some(f) && holds_fields(b, f),
            None => data_fields(line@) is None,
        },
{
    let cs = chars_of(line);
    let (code, code_end) = match digit(&cs, 0) {
        Some(x) => x,
        None => return None,
    };
    let (isin, isin_end) = match parse_isin(line, &cs, separator(&cs, code_end)) {
        Some(x) => x,
        None => return None,
    };
    let (isin_dr, dr_end) = match parse_isin(line, &cs, separator(&cs, isin_end)) {
        Some(x) => x,
        None => return None,
    };
    let (name, plan, name_end) = match parse_name(line, &cs, separator(&cs, dr_end)) {
        Some(x) => x,
        None => return None,
    };
    let nav_start = separator(&cs, name_end);
    let nav_end = match double(&cs, nav_start) {
        Some(j) => j,
        None => return None,
    };
    let (d, _date_end) = match date(line, &cs, separator(&cs, nav_end)) {
        Some(x) => x,
        None => return None,
    };
    let mut b = NavRecordBuilder::new();
    b.code = Some(code);
    b.isin = isin;
    b.isin_dr = isin_dr;
    b.name = Some(name);
    b.plan = Some(plan);
    b.nav = Some(String::from_str(line.substring_char(nav_start, nav_end)));
    b.date = Some(d);
    Some(b)
}

pub open spec fn group_separator() -> Seq<char> {
    seq![' ', '-', ' ']
}

/// The maturity named by an upper-cased section prefix: close-ended where it
/// starts with `CLOSE`, open-ended where it starts with `OPEN`, none otherwise.
pub open spec fn maturity_spec(upper: Seq<char>) -> Option<FundMaturity> {
    if starts_with(upper, seq!['C', 'L', 'O', 'S', 'E']) {
        Some(FundMaturity::CloseEnded)
    } else if starts_with(upper, seq!['O', 'P', 'E', 'N']) {
        Some(FundMaturity::OpenEnded)
    } else {
        None
    }
}

/// Maturity, scheme group and category of the section line `t`, shaped
/// `prefix(group - category)` or `prefix(category)`: the prefix runs to the
/// first `(`, the parenthesised part to the next `)`, and the group, if any,
/// to the first ` - ` inside it.
pub open spec fn section_spec(t: Seq<char>) -> Option<
    (Option<FundMaturity>, Option<Seq<char>>, Seq<char>),
> {
    match find_from(t, 0, seq!['(']) {
        None => None,
        Some(o) => match find_from(t, o + 1, seq![')']) {
            None => None,
            Some(c) => {
                let inner = t.subrange(o + 1, c);
                let m = maturity_spec(upper_of(trimmed(t.subrange(0, o))));
                match find_from(inner, 0, group_separator()) {
                    Some(k) => Some(
                        (m, Some(inner.subrange(0, k)), inner.subrange(k + 3, inner.len() as int)),
                    ),
                    None => Some((m, None, inner)),
                }
            },
        },
    }
}

/// The maturity named by an upper-cased section prefix.
pub fn maturity_from_upper(upper: &str) -> (r: Option<FundMaturity>)
    ensures
        r == maturity_spec(upper@),
{
    let u = chars_of(upper);
    let close = vec!['C', 'L', 'O', 'S', 'E'];
    assert(close@ =~= seq!['C', 'L', 'O', 'S', 'E']);
    let open = vec!['O', 'P', 'E', 'N'];
    assert(open@ =~= seq!['O', 'P', 'E', 'N']);
    if crate::text::matches_at(&u, 0, &close) {
        Some(FundMaturity::CloseEnded)
    } else if crate::text::matches_at(&u, 0, &open) {
        Some(FundMaturity::OpenEnded)
    } else {
        None
    }
}

/// Parses a section line into maturity, scheme group and category.
pub fn parse_scheme(line: &str) -> (r: Option<(Option<FundMaturity>, Option<String>, String)>)
    ensures
        match r {
            Some((m, g, c)) => section_spec(line@) == Some((m, opt_view(g), c@)),
            None => section_spec(line@) is None,
        },
{
    let cs = chars_of(line);
    let open = vec!['('];
    assert(open@ =~= seq!['(']);
    let close = vec![')'];
    assert(close@ =~= seq![')']);
    let o = match find(&cs, 0, &open) {
        Some(k) => k,
        None => return None,
    };
    let c = match find(&cs, o + 1, &close) {
        Some(k) => k,
        None => return None,
    };
    let prefix = trim(line.substring_char(0, o));
    let upper = to_uppercase(prefix.as_str());
    let m = maturity_from_upper(upper.as_str());
    let inner_s = line.substring_char(o + 1, c);
    let inner = chars_of(inner_s);
    let sep = vec![' ', '-', ' '];
    assert(sep@ =~= group_separator());
    match find(&inner, 0, &sep) {
        Some(k) => Some(
            (
                m,
                Some(String::from_str(inner_s.substring_char(0, k))),
                String::from_str(inner_s.substring_char(k + 3, inner.len())),
            ),
        ),
        None => Some((m, None, String::from_str(inner_s))),
    }
}

} // verus!
