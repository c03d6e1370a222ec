use amfi::line::{classify_line, maturity_from_upper, parse_record, parse_scheme, LineType};
use amfi::lexers::plan_from_upper;
use amfi::record::{Error, FundMaturity, FundPlan, MissingField, NavDate, NavRecord, NavRecordBuilder};
use amfi::session::{parse_lines, NavRecordIterator};
use amfi::text::trim;

fn lines(v: &[&str]) -> Vec<String> {
    v.iter().map(|s| s.to_string()).collect()
}

fn record(item: &Result<NavRecord, Error>) -> &NavRecord {
    match item {
        Ok(r) => r,
        Err(e) => panic!("expected a record, got {:?}", e),
    }
}

#[test]
fn it_works() {
    assert_eq!(2 + 2, 4);
}

#[test]
fn scenario_full_record() {
    let items = parse_lines(&lines(&[
        "Example AMC",
        "Open Ended Scheme (Regular - Equity Scheme)",
        "123;INE123A01012;-;Sample Fund - Direct Plan;15.1234;01-Jan-2020",
    ]));
    assert_eq!(items.len(), 1);
    let r = record(&items[0]);
    assert_eq!(r.code, 123);
    assert_eq!(r.isin, Some("INE123A01012".to_string()));
    assert_eq!(r.isin_dr, None);
    assert_eq!(r.name, "Sample Fund - Direct Plan");
    assert_eq!(r.plan, FundPlan::Direct);
    assert_eq!(r.nav, "15.1234");
    assert_eq!(r.nav.parse::<f64>().unwrap(), 15.1234);
    assert_eq!(r.date, NavDate { year: 2020, month: 1, day: 1 });
    assert_eq!(r.amc, "Example AMC");
    assert_eq!(r.category, "Equity Scheme");
    assert_eq!(r.scheme, Some("Regular".to_string()));
    assert_eq!(r.maturity, Some(FundMaturity::OpenEnded));
    assert_eq!(r.option, None);
}

#[test]
fn scenario_missing_date_is_local() {
    let items = parse_lines(&lines(&[
        "Example AMC",
        "Open Ended Scheme (Equity Scheme)",
        "124;INE124A01012;-;Short Fund;10.5;01-Jan",
        "125;INE125A01012;-;Next Fund;11.25;02-Feb-2021",
    ]));
    assert_eq!(items.len(), 2);
    match &items[0] {
        Err(Error::SynomError(l)) => assert_eq!(l, "124;INE124A01012;-;Short Fund;10.5;01-Jan"),
        other => panic!("unexpected {:?}", other),
    }
    let r = record(&items[1]);
    assert_eq!(r.code, 125);
    assert_eq!(r.date, NavDate { year: 2021, month: 2, day: 2 });
    assert_eq!(r.plan, FundPlan::Regular);
}

#[test]
fn scenario_bad_section_line_ends_session() {
    let items = parse_lines(&lines(&[
        "Example AMC",
        "Open Ended Scheme (Equity Scheme",
        "Close Ended Scheme (Debt)",
        "126;INE126A01012;-;Later Fund;9.5;03-Mar-2022",
    ]));
    assert_eq!(items.len(), 1);
    assert!(matches!(&items[0], Err(Error::SynomError(l)) if l == "Open Ended Scheme (Equity Scheme"));
}

#[test]
fn bailout_keeps_raw_line_and_stops_feeding() {
    let mut s = NavRecordIterator::new();
    assert!(!s.is_bailed_out());
    let item = s.feed_line("Close Ended Scheme no parens\n".to_string());
    assert!(matches!(item, Some(Err(Error::SynomError(ref l))) if l == "Close Ended Scheme no parens\n"));
    assert!(s.is_bailed_out());
    assert!(s.feed_line("1;A;-;X;1;01-Jan-2020".to_string()).is_none());
}

#[test]
fn placeholders_are_absent() {
    let items = parse_lines(&lines(&[
        "Fam",
        "1;---;-;Fund One;1.0;01-Jan-2020",
        "2;-;---;Fund Two;2;05-Dec-2019",
    ]));
    assert_eq!(items.len(), 2);
    let a = record(&items[0]);
    assert_eq!((a.isin.clone(), a.isin_dr.clone()), (None, None));
    let b = record(&items[1]);
    assert_eq!((b.isin.clone(), b.isin_dr.clone()), (None, None));
    assert_eq!(b.date, NavDate { year: 2019, month: 12, day: 5 });
}

#[test]
fn maturity_from_section_prefix() {
    let open = parse_scheme("Open Ended Scheme (Equity)").unwrap();
    assert_eq!(open.0, Some(FundMaturity::OpenEnded));
    let close = parse_scheme("Close Ended Scheme (Income)").unwrap();
    assert_eq!(close.0, Some(FundMaturity::CloseEnded));
    let other = parse_scheme("Interval Ended Scheme (Income)").unwrap();
    assert_eq!(other.0, None);
    assert_eq!(other.2, "Income");
    let lower = parse_scheme("  open ended scheme(Group - Cat)").unwrap();
    assert_eq!(lower, (Some(FundMaturity::OpenEnded), Some("Group".to_string()), "Cat".to_string()));
    assert_eq!(maturity_from_upper("CLOSE ENDED"), Some(FundMaturity::CloseEnded));
    assert_eq!(maturity_from_upper("OPEN"), Some(FundMaturity::OpenEnded));
    assert_eq!(maturity_from_upper("OPE"), None);
}

#[test]
fn section_group_only_inside_parentheses() {
    assert_eq!(
        parse_scheme("X Ended Scheme (Equity) - Foo)").unwrap(),
        (None, None, "Equity".to_string())
    );
    assert!(parse_scheme("X Ended Scheme Equity)").is_none());
}

#[test]
fn amc_context_persists() {
    let items = parse_lines(&lines(&[
        "First AMC",
        "",
        "Scheme Code;ISIN Div Payout/ ISIN Growth;ISIN Div Reinvestment;Scheme Name;Net Asset Value;Date",
        "   ",
        "Open Ended Scheme (Debt Scheme - Liquid Fund)",
        "1;A1;B1;Alpha;1.5;01-Jan-2020",
        "",
        "2;A2;B2;Beta;2.5;02-Jan-2020",
        "Second AMC",
        "3;A3;B3;Gamma;3.5;03-Jan-2020",
    ]));
    assert_eq!(items.len(), 3);
    assert_eq!(record(&items[0]).amc, "First AMC");
    assert_eq!(record(&items[1]).amc, "First AMC");
    assert_eq!(record(&items[2]).amc, "Second AMC");
    assert_eq!(record(&items[2]).category, "Liquid Fund");
}

#[test]
fn section_context_changes_together() {
    let items = parse_lines(&lines(&[
        "Fam",
        "Open Ended Scheme (Debt Scheme - Liquid Fund)",
        "1;A1;-;Alpha;1.5;01-Jan-2020",
        "Close Ended Scheme (Income)",
        "2;A2;-;Beta;2.5;02-Jan-2020",
    ]));
    let a = record(&items[0]);
    assert_eq!((a.maturity, a.scheme.clone(), a.category.clone()),
        (Some(FundMaturity::OpenEnded), Some("Debt Scheme".to_string()), "Liquid Fund".to_string()));
    let b = record(&items[1]);
    assert_eq!((b.maturity, b.scheme.clone(), b.category.clone()),
        (Some(FundMaturity::CloseEnded), None, "Income".to_string()));
    assert_eq!(b.amc, "Fam");
}

#[test]
fn reparsing_gives_same_items() {
    let input = lines(&[
        "Fam",
        "Open Ended Scheme (Equity)",
        "1;A1;-;Alpha Direct;1.5;01-Jan-2020",
        "bad;line",
        "2;A2;-;Beta;2.5;02-Jan-2020",
    ]);
    let a = parse_lines(&input);
    let b = parse_lines(&input);
    assert_eq!(format!("{:?}", a), format!("{:?}", b));
    assert_eq!(a.len(), 3);
}

#[test]
fn classify_each_kind() {
    assert_eq!(classify_line("Scheme Code;ISIN"), LineType::Header);
    assert_eq!(classify_line("1;2"), LineType::Record);
    assert_eq!(classify_line("Open Ended Scheme (Equity)"), LineType::Scheme);
    assert_eq!(classify_line("Some Mutual Fund\n"), LineType::Amc);
    assert_eq!(classify_line(" \t\r\n"), LineType::Blank);
    assert_eq!(classify_line(""), LineType::Blank);
    assert_eq!(classify_line("\u{3000}"), LineType::Blank);
}

#[test]
fn line_type_reads_last_line() {
    let mut s = NavRecordIterator::new();
    assert_eq!(s.line_type(), LineType::Blank);
    assert!(s.feed_line("Scheme Code;Name\n".to_string()).is_none());
    assert_eq!(s.line_type(), LineType::Header);
    assert!(s.feed_line("Example AMC\r\n".to_string()).is_none());
    assert_eq!(s.line_type(), LineType::Amc);
    let r = s.feed_line("Open Ended Scheme (Equity)".to_string());
    assert!(r.is_none());
    let r = s.feed_line("7;A;-;N;1;01-Jan-2020\n".to_string()).unwrap();
    assert_eq!(record(&r).amc, "Example AMC");
    assert_eq!(record(&r).category, "Equity");
}

#[test]
fn code_bounds() {
    let big = parse_record("4294967295;A;-;N;1;01-Jan-2020").unwrap();
    assert_eq!(big.code, Some(4294967295));
    assert!(parse_record("4294967296;A;-;N;1;01-Jan-2020").is_none());
    assert!(parse_record(";A;-;N;1;01-Jan-2020").is_none());
}

#[test]
fn record_line_field_failures() {
    assert!(parse_record("1;A;-;N;1.2.3;01-Jan-2020").is_none());
    assert!(parse_record("1;A;-;N;;01-Jan-2020").is_none());
    assert!(parse_record("1;A;-;N;x;01-Jan-2020").is_none());
    assert!(parse_record("1;*;-;N;1;01-Jan-2020").is_none());
    assert!(parse_record("1;A;-;N").is_none());
    assert!(parse_record("1;A;-;N;1;32-Jan-2020").is_none());
    assert!(parse_record("1;A;-;N;1;01-Foo-2020").is_none());
    let b = parse_record("1;A;-;N;.5;29-Feb-2024 trailing").unwrap();
    assert_eq!(b.nav, Some(".5".to_string()));
    assert_eq!(b.date, Some(NavDate { year: 2024, month: 2, day: 29 }));
}

#[test]
fn unicode_fields() {
    let b = parse_record("5;ÄB1;-;  fonds direct  ;3;01-Jan-2020").unwrap();
    assert_eq!(b.isin, Some("ÄB1".to_string()));
    assert_eq!(b.name, Some("fonds direct".to_string()));
    assert_eq!(b.plan, Some(FundPlan::Direct));
    assert_eq!(trim("\u{3000} Example AMC \u{2003}"), "Example AMC");
}

#[test]
fn plan_from_name() {
    assert_eq!(plan_from_upper("SAMPLE FUND - DIRECT PLAN"), FundPlan::Direct);
    assert_eq!(plan_from_upper("SAMPLE FUND - REGULAR PLAN"), FundPlan::Regular);
    assert_eq!(plan_from_upper("direct"), FundPlan::Regular);
}

#[test]
fn builder_reports_first_missing_field() {
    let mut b = NavRecordBuilder::new();
    assert!(matches!(b.clone().build(), Err(MissingField::Code)));
    b.code = Some(1);
    b.name = Some("N".to_string());
    assert!(matches!(b.clone().build(), Err(MissingField::Nav)));
    b.nav = Some("1".to_string());
    b.date = Some(NavDate { year: 2020, month: 1, day: 1 });
    b.amc = Some("A".to_string());
    assert!(matches!(b.clone().build(), Err(MissingField::Category)));
    b.category = Some("C".to_string());
    assert!(matches!(b.clone().build(), Err(MissingField::Plan)));
    b.plan = Some(FundPlan::Regular);
    let r = b.build().unwrap();
    assert_eq!(r.scheme, None);
    assert_eq!(r.maturity, None);
    assert_eq!(r.category, "C");
}
