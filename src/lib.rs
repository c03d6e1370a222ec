//! Parser for the daily net-asset-value feed published by fund houses.
//!
//! The feed is line oriented: a fund-family line, then a section line that
//! names maturity, scheme group and category, then semicolon separated data
//! lines that inherit that context. The library classifies each line, lexes
//! the fields of data and section lines, and folds the result into records.

pub mod laws;
pub mod lexers;
pub mod line;
pub mod record;
pub mod session;
pub mod text;

pub use record::{Error, FundMaturity, FundPlan, NavDate, NavRecord};
pub use session::NavRecordIterator;
