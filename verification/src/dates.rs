//! Calendar dates typed into forms: birthdates are written either
//! year-month-day (`1990-05-17`, from the client forms and Facebook) or
//! day/month/year (`17/05/1990`, from the clerk forms).

use vstd::prelude::*;
use crate::numbers::{parse_i32, parse_i32_spec, parse_u32, parse_u32_spec};
use crate::text::{split_on, split_spec};

verus! {

/// A calendar day that exists in the proleptic Gregorian calendar.
#[derive(Clone, Copy, Debug, PartialEq, Eq, Structural)]
pub struct CalendarDate {
    pub year: i32,
    pub month: u32,
    pub day: u32,
}

/// The order in which the three pieces of a date are written.
#[derive(Clone, Copy, Debug, PartialEq, Eq, Structural)]
pub enum DateOrder {
    YearMonthDay,
    DayMonthYear,
}

/// Why a date field could not be read.
#[derive(Clone, Copy, Debug, PartialEq, Eq, Structural)]
pub enum DateError {
    /// The field has fewer than three pieces between separators.
    Incomplete,
    /// A piece is not a number, or the three numbers name no calendar day.
    Invalid,
}

pub open spec fn is_leap_year(y: int) -> bool {
    y % 4 == 0 && (y % 100 != 0 || y % 400 == 0)
}

pub open spec fn days_in_month(y: int, m: int) -> int {
    if m == 2 {
        if is_leap_year(y) { 29 } else { 28 }
    } else if m == 4 || m == 6 || m == 9 || m == 11 {
        30
    } else {
        31
    }
}

/// The years that a `chrono::NaiveDate` can hold.
pub open spec fn year_in_range(y: int) -> bool {
    -262143 <= y <= 262142
}

/// Whether year `y`, month `m`, day `d` name a day that `chrono::NaiveDate` can hold.
pub open spec fn calendar_date_exists(y: int, m: int, d: int) -> bool {
    year_in_range(y) && 1 <= m <= 12 && 1 <= d <= days_in_month(y, m)
}

/// Asks chrono whether the date exists (`NaiveDate::from_ymd_opt` gives a
/// date). Its documentation: `None` when the calendar day does not exist,
/// the month or day is invalid, or the year is out of range; the calendar is
/// the proleptic Gregorian one and the year range is `MIN_YEAR..=MAX_YEAR`
/// (-262143..=262142 in the version used).
#[verifier::external_body]
fn chrono_date_exists(year: i32, month: u32, day: u32) -> (res: bool)
    ensures
        res == calendar_date_exists(year as int, month as int, day as int),
{
    match chrono::NaiveDate::from_ymd_opt(year, month, day) {
        Some(_) => true,
        None => false,
    }
}

/// The year, month and day pieces of a date field, by position.
pub open spec fn date_pieces(text: Seq<char>, sep: char, order: DateOrder) -> (Seq<char>, Seq<char>, Seq<char>) {
    let parts = split_spec(text, sep);
    match order {
        DateOrder::YearMonthDay => (parts[0], parts[1], parts[2]),
        DateOrder::DayMonthYear => (parts[2], parts[1], parts[0]),
    }
}

/// What a date field reads as: its first three pieces, taken as year
/// (`i32`), month and day (`u32`) in the given order, when they name a day.
/// Pieces after the third are ignored.
pub open spec fn read_date_spec(text: Seq<char>, sep: char, order: DateOrder) -> Result<CalendarDate, DateError> {
    if split_spec(text, sep).len() < 3 {
        Err(DateError::Incomplete)
    } else {
        let (ys, ms, ds) = date_pieces(text, sep, order);
        match (parse_i32_spec(ys), parse_u32_spec(ms), parse_u32_spec(ds)) {
            (Some(y), Some(m), Some(d)) => if calendar_date_exists(y as int, m as int, d as int) {
                Ok(CalendarDate { year: y, month: m, day: d })
            } else {
                Err(DateError::Invalid)
            },
            _ => Err(DateError::Invalid),
        }
    }
}

/// Reads a date field such as a birthdate.
pub fn read_date(text: &str, sep: char, order: DateOrder) -> (res: Result<CalendarDate, DateError>)
    ensures
        res == read_date_spec(text@, sep, order),
{
    let parts = split_on(text, sep);
    if parts.len() < 3 {
        return Err(DateError::Incomplete);
    }
    let (yi, di): (usize, usize) = match order {
        DateOrder::YearMonthDay => (0, 2),
        DateOrder::DayMonthYear => (2, 0),
    };
    let y = parse_i32(parts[yi].as_str());
    let m = parse_u32(parts[1].as_str());
    let d = parse_u32(parts[di].as_str());
    match (y, m, d) {
        (Some(y), Some(m), Some(d)) => {
            if chrono_date_exists(y, m, d) {
                Ok(CalendarDate { year: y, month: m, day: d })
            } else {
                Err(DateError::Invalid)
            }
        },
        _ => Err(DateError::Invalid),
    }
}

} // verus!
