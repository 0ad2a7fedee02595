//! Calendar dates of the listing.
use vstd::prelude::*;

verus! {

/// A day of the proleptic Gregorian calendar.
#[derive(Debug, Clone, Copy, PartialEq, Eq, Structural)]
pub struct Date {
    pub year: i32,
    pub month: u32,
    pub day: u32,
}

/// The date that `chrono` reads from a text in the form year, month, day
/// with dashes between, such as `2015-09-18`; `None` where it reads none.
pub uninterp spec fn calendar_date(s: Seq<char>) -> Option<Date>;

/// Decodes a date cell. A cell that holds no date gives `None`, never an error.
pub fn deserialize_date_opt(s: &str) -> (r: Option<Date>)
    ensures
        r == calendar_date(s@),
{
    parse_date(s)
}

/// `<chrono::NaiveDate as FromStr>::from_str`, with the date handed back as
/// year, month and day. What it accepts is `chrono`'s to say: the contract only
/// gives the outcome its name.
#[verifier::external_body]
fn parse_date(s: &str) -> (r: Option<Date>)
    ensures
        r == calendar_date(s@),
{
    match s.parse::<chrono::NaiveDate>() {
        Ok(d) => Some(Date {
            year: chrono::Datelike::year(&d),
            month: chrono::Datelike::month(&d),
            day: chrono::Datelike::day(&d),
        }),
        Err(_) => None,
    }
}

} // verus!
