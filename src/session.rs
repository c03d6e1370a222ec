//! A parse session: the context carried from line to line, and the step that
//! turns one line into at most one item.

use vstd::prelude::*;
use crate::line::{
    classify, data_fields, parse_record, parse_scheme, section_spec, LineFields,
    LineType,
};
use crate::record::{
    opt_view, Error, ErrorModel, FundMaturity, NavRecord, RecordModel,
};
use crate::text::{trim, trimmed};

verus! {

/// What the lines read so far say of the records to come.
pub ghost struct Context {
    pub amc: Seq<char>,
    pub category: Seq<char>,
    pub scheme: Option<Seq<char>>,
    pub maturity: Option<FundMaturity>,
}

/// The state of a session: its context, and whether it gave up.
pub ghost struct SessionModel {
    pub ctx: Context,
    pub bailout: bool,
}

pub type ItemModel = Result<RecordModel, ErrorModel>;

/// The state of a new session: empty context.
pub open spec fn initial() -> SessionModel {
    SessionModel {
        ctx: Context { amc: seq![], category: seq![], scheme: None, maturity: None },
        bailout: false,
    }
}

/// The record of the data-line fields `f` under context `c`.
pub open spec fn assemble(f: LineFields, c: Context) -> RecordModel {
    RecordModel {
        code: f.code,
        isin: f.isin,
        isin_dr: f.isin_dr,
        name: f.name,
        nav: f.nav,
        date: f.date,
        amc: c.amc,
        category: c.category,
        scheme: c.scheme,
        maturity: c.maturity,
        plan: f.plan,
        option: None,
    }
}

/// The next state and the item, if any, after line `l`.
pub open spec fn step(st: SessionModel, l: Seq<char>) -> (SessionModel, Option<ItemModel>) {
    if st.bailout {
        (st, None)
    } else {
        match classify(l) {
            LineType::Header | LineType::Blank => (st, None),
            LineType::Amc => (SessionModel { ctx: Context { amc: trimmed(l), ..st.ctx }, ..st }, None),
            LineType::Scheme => match section_spec(trimmed(l)) {
                Some((m, g, c)) => (
                    SessionModel {
                        ctx: Context { amc: st.ctx.amc, category: c, scheme: g, maturity: m },
                        ..st
                    },
                    None,
                ),
                None => (
                    SessionModel { bailout: true, ..st },
                    Some(Err(ErrorModel::SynomError(l))),
                ),
            },
            LineType::Record => match data_fields(trimmed(l)) {
                Some(f) => (st, Some(Ok(assemble(f, st.ctx)))),
                None => (st, Some(Err(ErrorModel::SynomError(trimmed(l))))),
            },
        }
    }
}

/// The final state and the items of a session that reads `ls` from `st`.
pub open spec fn run(st: SessionModel, ls: Seq<Seq<char>>) -> (SessionModel, Seq<ItemModel>)
    decreases ls.len(),
{
    if ls.len() == 0 {
        (st, seq![])
    } else {
        let (s1, items) = run(st, ls.drop_last());
        let (s2, o) = step(s1, ls.last());
        (
            s2,
            match o {
                Some(x) => items.push(x),
                None => items,
            },
        )
    }
}

pub open spec fn item_view(r: Result<NavRecord, Error>) -> ItemModel {
    match r {
        Ok(x) => Ok(x@),
        Err(e) => Err(e@),
    }
}

pub open spec fn opt_item_view(r: Option<Result<NavRecord, Error>>) -> Option<ItemModel> {
    match r {
        Some(x) => Some(item_view(x)),
        None => None,
    }
}

pub open spec fn line_views(lines: Seq<String>) -> Seq<Seq<char>> {
    lines.map_values(|s: String| s@)
}

pub open spec fn item_views(items: Seq<Result<NavRecord, Error>>) -> Seq<ItemModel> {
    items.map_values(|r: Result<NavRecord, Error>| item_view(r))
}

/// One parse session. Lines are handed in one at a time; each gives at most
/// one item. After a section line that does not parse the session gives up
/// and yields nothing more.
pub struct NavRecordIterator {
    amc: String,
    category: String,
    scheme: Option<String>,
    maturity: Option<FundMaturity>,
    buf: String,
    bailout: bool,
}

impl View for NavRecordIterator {
    type V = SessionModel;

    closed spec fn view(&self) -> SessionModel {
        SessionModel {
            ctx: Context {
                amc: self.amc@,
                category: self.category@,
                scheme: opt_view(self.scheme),
                maturity: self.maturity,
            },
            bailout: self.bailout,
        }
    }
}

fn clone_opt(o: &Option<String>) -> (r: Option<String>)
    ensures
        opt_view(r) == opt_view(*o),
{
    match o {
        Some(s) => Some(s.clone()),
        None => None,
    }
}

impl NavRecordIterator {
    /// The last line handed in.
    pub closed spec fn current_line(&self) -> Seq<char> {
        self.buf@
    }

    /// A new session, with empty context.
    pub fn new() -> (r: NavRecordIterator)
        ensures
            r@ == initial(),
            r.current_line() == Seq::<char>::empty(),
    {
        NavRecordIterator {
            amc: String::new(),
            category: String::new(),
            scheme: None,
            maturity: None,
            buf: String::new(),
            bailout: false,
        }
    }

    /// The kind of the last line handed in.
    pub fn line_type(&self) -> (r: LineType)
        ensures
            r == classify(self.current_line()),
    {
        crate::line::classify_line(self.buf.as_str())
    }

    /// Whether the session gave up: it yields nothing more.
    pub fn is_bailed_out(&self) -> (r: bool)
        ensures
            r == self@.bailout,
    {
        self.bailout
    }

    /// Hands in the next line; gives the item it yields, if any.
    pub fn feed_line(&mut self, line: String) -> (r: Option<Result<NavRecord, Error>>)
        ensures
            (final(self)@, opt_item_view(r)) == step(old(self)@, line@),
    {
        if self.bailout {
            return None;
        }
        self.buf = line;
        match self.line_type() {
            LineType::Header | LineType::Blank => None,
            LineType::Amc => {
                self.amc = trim(self.buf.as_str());
                None
            },
            LineType::Scheme => {
                let t = trim(self.buf.as_str());
                match parse_scheme(t.as_str()) {
                    Some((m, g, c)) => {
                        self.maturity = m;
                        self.scheme = g;
                        self.category = c;
                        None
                    },
                    None => {
                        self.bailout = true;
                        Some(Err(Error::SynomError(self.buf.clone())))
                    },
                }
            },
            LineType::Record => {
                let t = trim(self.buf.as_str());
                match parse_record(t.as_str()) {
                    Some(b) => {
                        let mut b = b;
                        b.maturity = self.maturity;
                        b.amc = Some(self.amc.clone());
                        b.scheme = clone_opt(&self.scheme);
                        b.category = Some(self.category.clone());
                        match b.build() {
                            Ok(rec) => Some(Ok(rec)),
                            Err(f) => Some(Err(Error::BuilderError(f))),
                        }
                    },
                    None => Some(Err(Error::SynomError(t))),
                }
            },
        }
    }
}

/// The items of a whole session over `lines`, in order.
pub fn parse_lines(lines: &Vec<String>) -> (r: Vec<Result<NavRecord, Error>>)
    ensures
        item_views(r@) == run(initial(), line_views(lines@)).1,
{
    let mut session = NavRecordIterator::new();
    let mut items: Vec<Result<NavRecord, Error>> = Vec::new();
    let mut i: usize = 0;
    while i < lines.len()
        invariant
            i <= lines@.len(),
            run(initial(), line_views(lines@.subrange(0, i as int))) == (
                session@,
                item_views(items@),
            ),
        decreases lines@.len() - i,
    {
        proof {
            let prev = line_views(lines@.subrange(0, i as int));
            let next = line_views(lines@.subrange(0, i + 1));
            assert(next.drop_last() =~= prev);
            assert(next.last() == lines@[i as int]@);
        }
        let ghost before = items@;
        match session.feed_line(lines[i].clone()) {
            Some(item) => {
                items.push(item);
                assert(item_views(items@) =~= item_views(before).push(item_view(item)));
            },
            None => {},
        }
        i = i + 1;
    }
    assert(lines@.subrange(0, lines@.len() as int) =~= lines@);
    items
}

} // verus!
