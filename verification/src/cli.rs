//! The commands of the program, the check of their arguments, and the
//! year that a command means when none is given.

use vstd::prelude::*;
use vstd::string::StringExecFns;
use chrono::Datelike;
use crate::text::{decimal, decimal_text};

verus! {

/// What the program is asked to do.
#[derive(Debug, Clone, PartialEq, Eq)]
pub enum Commands {
    /// Download and decrypt puzzle inputs and descriptions.
    Fetch { year: i32, day: i32, part: i32, description_only: bool, input_only: bool },
    /// Display a puzzle description.
    Read { year: i32, day: i32, width: Option<usize> },
    /// Submit an answer.
    Submit { year: i32, day: i32, part: i32, answer: String },
}

/// The command line.
#[derive(Debug, Clone, PartialEq, Eq)]
pub struct Cli {
    pub command: Commands,
    pub debug: bool,
    pub quiet: bool,
}

/// What is wrong with `year`, if it is outside 2024..=2030.
pub open spec fn year_fault(year: int) -> Option<Seq<char>> {
    if year < 2024 || year > 2030 {
        Some("Invalid year: "@ + decimal_text(year) + " (must be between 2024-2030)"@)
    } else {
        None
    }
}

/// What is wrong with `day`, if it is outside 1..=20.
pub open spec fn day_fault(day: int) -> Option<Seq<char>> {
    if day < 1 || day > 20 {
        Some("Invalid day: "@ + decimal_text(day) + " (must be 1-20)"@)
    } else {
        None
    }
}

/// What is wrong with `part`, if it is outside 1..=3.
pub open spec fn part_fault(part: int) -> Option<Seq<char>> {
    if part < 1 || part > 3 {
        Some("Invalid part: "@ + decimal_text(part) + " (must be 1-3)"@)
    } else {
        None
    }
}

/// The first of two faults.
pub open spec fn or_else(first: Option<Seq<char>>, second: Option<Seq<char>>) -> Option<Seq<char>> {
    if first is Some {
        first
    } else {
        second
    }
}

impl Commands {
    /// What is wrong with the arguments of the command: the year is
    /// checked first, then the day, then the part where there is one.
    pub open spec fn fault(&self) -> Option<Seq<char>> {
        match *self {
            Commands::Fetch { year, day, part, .. } => or_else(
                year_fault(year as int),
                or_else(day_fault(day as int), part_fault(part as int)),
            ),
            Commands::Read { year, day, .. } => or_else(
                year_fault(year as int),
                day_fault(day as int),
            ),
            Commands::Submit { year, day, part, .. } => or_else(
                year_fault(year as int),
                or_else(day_fault(day as int), part_fault(part as int)),
            ),
        }
    }
}

/// True when `r` reports `fault`.
pub open spec fn reports(r: Result<(), String>, fault: Option<Seq<char>>) -> bool {
    match r {
        Ok(()) => fault is None,
        Err(message) => fault == Some(message@),
    }
}

/// Accepts the years 2024 to 2030.
pub fn validate_year(year: i32) -> (r: Result<(), String>)
    ensures
        reports(r, year_fault(year as int)),
{
    if year < 2024 || year > 2030 {
        let mut message = String::from_str("Invalid year: ");
        message.append(decimal(year as i64).as_str());
        message.append(" (must be between 2024-2030)");
        return Err(message);
    }
    Ok(())
}

/// Accepts the days 1 to 20.
pub fn validate_day(day: i32) -> (r: Result<(), String>)
    ensures
        reports(r, day_fault(day as int)),
{
    if day < 1 || day > 20 {
        let mut message = String::from_str("Invalid day: ");
        message.append(decimal(day as i64).as_str());
        message.append(" (must be 1-20)");
        return Err(message);
    }
    Ok(())
}

/// Accepts the parts 1 to 3.
pub fn validate_part(part: i32) -> (r: Result<(), String>)
    ensures
        reports(r, part_fault(part as int)),
{
    if part < 1 || part > 3 {
        let mut message = String::from_str("Invalid part: ");
        message.append(decimal(part as i64).as_str());
        message.append(" (must be 1-3)");
        return Err(message);
    }
    Ok(())
}

impl Cli {
    /// Checks the arguments of the command, and reports the first that is
    /// out of range.
    pub fn validate(&self) -> (r: Result<(), String>)
        ensures
            reports(r, self.command.fault()),
    {
        match &self.command {
            Commands::Fetch { year, day, part, .. } => {
                match validate_year(*year) {
                    Ok(()) => {},
                    Err(message) => {
                        return Err(message);
                    },
                }
                match validate_day(*day) {
                    Ok(()) => {},
                    Err(message) => {
                        return Err(message);
                    },
                }
                validate_part(*part)
            },
            Commands::Read { year, day, .. } => {
                match validate_year(*year) {
                    Ok(()) => {},
                    Err(message) => {
                        return Err(message);
                    },
                }
                validate_day(*day)
            },
            Commands::Submit { year, day, part, .. } => {
                match validate_year(*year) {
                    Ok(()) => {},
                    Err(message) => {
                        return Err(message);
                    },
                }
                match validate_day(*day) {
                    Ok(()) => {},
                    Err(message) => {
                        return Err(message);
                    },
                }
                validate_part(*part)
            },
        }
    }
}

/// The number of days from Monday to the weekday of a calendar date: 0 for
/// a Monday. Nothing where the calendar has no such date.
pub uninterp spec fn days_from_monday(year: int, month: int, day: int) -> Option<int>;

/// Calls `chrono::NaiveDate::from_ymd_opt` and, on the date, `weekday` and
/// `Weekday::num_days_from_monday`. Assumed: the result depends on the
/// three numbers alone.
#[verifier::external_body]
fn weekday_of(year: i32, month: u32, day: u32) -> (r: Option<u32>)
    ensures
        match r {
            Some(days) => days_from_monday(year as int, month as int, day as int) == Some(
                days as int,
            ),
            None => days_from_monday(year as int, month as int, day as int) is None,
        },
{
    match chrono::NaiveDate::from_ymd_opt(year, month, day) {
        Some(date) => Some(date.weekday().num_days_from_monday()),
        None => None,
    }
}

/// The first Monday of November of `year` from `day` on, looked for in the
/// first seven days of the month.
pub open spec fn first_monday_from(year: int, day: int) -> Option<int>
    decreases 8 - day,
{
    if day > 7 {
        None
    } else if days_from_monday(year, 11, day) == Some(0int) {
        Some(day)
    } else {
        first_monday_from(year, day + 1)
    }
}

/// The day of the first Monday of November of `year`.
pub fn first_monday_of_november(year: i32) -> (r: Option<u32>)
    ensures
        match r {
            Some(day) => first_monday_from(year as int, 1) == Some(day as int) && 1 <= day <= 7,
            None => first_monday_from(year as int, 1) is None,
        },
{
    let mut day: u32 = 1;
    while day <= 7
        invariant
            1 <= day <= 8,
            first_monday_from(year as int, 1) == first_monday_from(year as int, day as int),
        decreases 8 - day,
    {
        match weekday_of(year, 11, day) {
            Some(days) => {
                if days == 0 {
                    return Some(day);
                }
            },
            None => {},
        }
        day = day + 1;
    }
    None
}

/// True when the hour `hour` of the day `day` of the month `month` is at
/// or after 23:00 on the day `first_monday` of November.
pub open spec fn season_has_opened(month: int, day: int, hour: int, first_monday: int) -> bool {
    month > 11 || (month == 11 && (day > first_monday || (day == first_monday && hour >= 23)))
}

/// The year of the season that is running at a moment of `year`: `year`
/// itself from 23:00 UTC on the first Monday of November, the year before
/// until then.
pub open spec fn season_year(year: int, month: int, day: int, hour: int, first_monday: int) -> int {
    if season_has_opened(month, day, hour, first_monday) {
        year
    } else {
        year - 1
    }
}

/// The year of the season that is running at the given UTC moment, where
/// `first_monday` is the day of the first Monday of November of `year`.
pub fn quest_year(year: i32, month: u32, day: u32, hour: u32, first_monday: u32) -> (r: i32)
    requires
        year > i32::MIN,
    ensures
        r == season_year(year as int, month as int, day as int, hour as int, first_monday as int),
{
    if month > 11 || (month == 11 && (day > first_monday || (day == first_monday && hour >= 23))) {
        year
    } else {
        year - 1
    }
}

/// The year that a command means when it names none, at a UTC moment of
/// `year`: the year of the running season, where the first Monday of
/// November of `year` is found and `year` has a year before it.
pub open spec fn default_season_year(year: int, month: int, day: int, hour: int) -> Option<int> {
    match first_monday_from(year, 1) {
        Some(first_monday) => if year > i32::MIN {
            Some(season_year(year, month, day, hour, first_monday))
        } else {
            None
        },
        None => None,
    }
}

/// The year that a command means when it names none, at the given UTC
/// moment.
pub fn default_year_at(year: i32, month: u32, day: u32, hour: u32) -> (r: Option<i32>)
    ensures
        match r {
            Some(season) => default_season_year(year as int, month as int, day as int, hour as int)
                == Some(season as int),
            None => default_season_year(year as int, month as int, day as int, hour as int)
                is None,
        },
{
    if year == i32::MIN {
        return None;
    }
    match first_monday_of_november(year) {
        Some(first_monday) => Some(quest_year(year, month, day, hour, first_monday)),
        None => None,
    }
}

} // verus!
