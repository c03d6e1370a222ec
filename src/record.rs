//! Records, the builder that assembles them and the library's error type.

use vstd::prelude::*;

verus! {

/// Whether a scheme is open to investment at any time or for a fixed term.
#[derive(Debug, Clone, Copy, PartialEq, Eq, Structural)]
pub enum FundMaturity {
    OpenEnded,
    CloseEnded,
}

/// Distribution channel of a scheme; regular unless its name says direct.
#[derive(Debug, Clone, Copy, PartialEq, Eq, Structural)]
pub enum FundPlan {
    Regular,
    Direct,
}

/// A calendar date as year, month (1 to 12) and day of month (1 to 31).
#[derive(Debug, Clone, Copy, PartialEq, Eq, Structural)]
pub struct NavDate {
    pub year: i32,
    pub month: u32,
    pub day: u32,
}

impl NavDate {
    pub open spec fn wf(&self) -> bool {
        1 <= self.month <= 12 && 1 <= self.day <= 31
    }
}

/// One net-asset-value observation of one scheme.
#[derive(Debug, Clone)]
pub struct NavRecord {
    /// Scheme code.
    pub code: u32,
    /// ISIN of the growth or dividend-payout option.
    pub isin: Option<String>,
    /// ISIN of the dividend-reinvestment option.
    pub isin_dr: Option<String>,
    /// Scheme name.
    pub name: String,
    /// Net asset value, as the decimal literal of the feed.
    pub nav: String,
    /// Date of the value.
    pub date: NavDate,
    /// Fund family.
    pub amc: String,
    /// Category of the section the scheme is listed under.
    pub category: String,
    /// Scheme group of that section.
    pub scheme: Option<String>,
    /// Maturity of that section.
    pub maturity: Option<FundMaturity>,
    /// Plan, read from the scheme name.
    pub plan: FundPlan,
    /// Option label; not read from the feed yet.
    pub option: Option<String>,
}

pub open spec fn opt_view(o: Option<String>) -> Option<Seq<char>> {
    match o {
        Some(s) => Some(s@),
        None => None,
    }
}

/// A record with its text as character sequences.
pub ghost struct RecordModel {
    pub code: u32,
    pub isin: Option<Seq<char>>,
    pub isin_dr: Option<Seq<char>>,
    pub name: Seq<char>,
    pub nav: Seq<char>,
    pub date: NavDate,
    pub amc: Seq<char>,
    pub category: Seq<char>,
    pub scheme: Option<Seq<char>>,
    pub maturity: Option<FundMaturity>,
    pub plan: FundPlan,
    pub option: Option<Seq<char>>,
}

impl View for NavRecord {
    type V = RecordModel;

    open spec fn view(&self) -> RecordModel {
        RecordModel {
            code: self.code,
            isin: opt_view(self.isin),
            isin_dr: opt_view(self.isin_dr),
            name: self.name@,
            nav: self.nav@,
            date: self.date,
            amc: self.amc@,
            category: self.category@,
            scheme: opt_view(self.scheme),
            maturity: self.maturity,
            plan: self.plan,
            option: opt_view(self.option),
        }
    }
}

/// A mandatory field of a record that was never given.
#[derive(Debug, Clone, Copy, PartialEq, Eq, Structural)]
pub enum MissingField {
    Code,
    Name,
    Nav,
    Date,
    Amc,
    Category,
    Plan,
}

/// Error of a parse session.
#[derive(Debug, Clone)]
pub enum Error {
    /// A read from the line source failed; holds the reason.
    IoError(String),
    /// The request for the feed failed; holds the reason.
    ReqwestError(String),
    /// A record lacked a mandatory field.
    BuilderError(MissingField),
    /// A line did not parse; holds the line.
    SynomError(String),
    /// The server answered with this status code instead of success.
    HttpError(u16),
}

pub ghost enum ErrorModel {
    IoError(Seq<char>),
    ReqwestError(Seq<char>),
    BuilderError(MissingField),
    SynomError(Seq<char>),
    HttpError(u16),
}

impl View for Error {
    type V = ErrorModel;

    open spec fn view(&self) -> ErrorModel {
        match self {
            Error::IoError(s) => ErrorModel::IoError(s@),
            Error::ReqwestError(s) => ErrorModel::ReqwestError(s@),
            Error::BuilderError(f) => ErrorModel::BuilderError(*f),
            Error::SynomError(s) => ErrorModel::SynomError(s@),
            Error::HttpError(c) => ErrorModel::HttpError(*c),
        }
    }
}

/// The fields of a record, each given or not, to be checked by `build`.
#[derive(Debug, Clone)]
pub struct NavRecordBuilder {
    pub code: Option<u32>,
    pub isin: Option<String>,
    pub isin_dr: Option<String>,
    pub name: Option<String>,
    pub nav: Option<String>,
    pub date: Option<NavDate>,
    pub amc: Option<String>,
    pub category: Option<String>,
    pub scheme: Option<String>,
    pub maturity: Option<FundMaturity>,
    pub plan: Option<FundPlan>,
    pub option: Option<String>,
}

impl NavRecordBuilder {
    /// A builder with no field given.
    pub fn new() -> (r: NavRecordBuilder)
        ensures
            r.code is None && r.isin is None && r.isin_dr is None && r.name is None,
            r.nav is None && r.date is None && r.amc is None && r.category is None,
            r.scheme is None && r.maturity is None && r.plan is None && r.option is None,
    {
        NavRecordBuilder {
            code: None,
            isin: None,
            isin_dr: None,
            name: None,
            nav: None,
            date: None,
            amc: None,
            category: None,
            scheme: None,
            maturity: None,
            plan: None,
            option: None,
        }
    }

    /// The first mandatory field that was not given, in the order code, name,
    /// value, date, fund family, category, plan.
    pub open spec fn first_missing(&self) -> Option<MissingField> {
        if self.code is None {
            Some(MissingField::Code)
        } else if self.name is None {
            Some(MissingField::Name)
        } else if self.nav is None {
            Some(MissingField::Nav)
        } else if self.date is None {
            Some(MissingField::Date)
        } else if self.amc is None {
            Some(MissingField::Amc)
        } else if self.category is None {
            Some(MissingField::Category)
        } else if self.plan is None {
            Some(MissingField::Plan)
        } else {
            None
        }
    }

    /// The record of the given fields; the optional ones that were not given
    /// are absent.
    pub open spec fn built(&self) -> RecordModel {
        RecordModel {
            code: self.code->0,
            isin: opt_view(self.isin),
            isin_dr: opt_view(self.isin_dr),
            name: self.name->0@,
            nav: self.nav->0@,
            date: self.date->0,
            amc: self.amc->0@,
            category: self.category->0@,
            scheme: opt_view(self.scheme),
            maturity: self.maturity,
            plan: self.plan->0,
            option: opt_view(self.option),
        }
    }

    /// The record, or the first mandatory field that is missing.
    pub fn build(self) -> (r: Result<NavRecord, MissingField>)
        ensures
            match self.first_missing() {
                Some(f) => r == Err::<NavRecord, MissingField>(f),
                None => r is Ok && r->Ok_0@ == self.built(),
            },
    {
        let code = match self.code {
            Some(v) => v,
            None => return Err(MissingField::Code),
        };
        let name = match self.name {
            Some(v) => v,
            None => return Err(MissingField::Name),
        };
        let nav = match self.nav {
            Some(v) => v,
            None => return Err(MissingField::Nav),
        };
        let date = match self.date {
            Some(v) => v,
            None => return Err(MissingField::Date),
        };
        let amc = match self.amc {
            Some(v) => v,
            None => return Err(MissingField::Amc),
        };
        let category = match self.category {
            Some(v) => v,
            None => return Err(MissingField::Category),
        };
        let plan = match self.plan {
            Some(v) => v,
            None => return Err(MissingField::Plan),
        };
        Ok(
            NavRecord {
                code,
                isin: self.isin,
                isin_dr: self.isin_dr,
                name,
                nav,
                date,
                amc,
                category,
                scheme: self.scheme,
                maturity: self.maturity,
                plan,
                option: self.option,
            },
        )
    }
}

} // verus!
