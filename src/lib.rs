//! Natural-language date expressions ("next Monday at 10:30AM", "in 3 weeks",
//! "tomorrow") resolved against a reference instant in the local time zone.
use vstd::prelude::*;

pub mod calendar;
pub mod grammar;
pub mod readings;
pub mod date_parser;
pub mod laws;

pub use calendar::{Timestamp, Weekday};
pub use grammar::{DateParser, Pair, Rule};

verus! {

/// Why an expression could not be resolved; the message says which step
/// failed.
#[derive(Debug)]
pub enum ParseDateError {
    ParseError(String),
}

} // verus!
