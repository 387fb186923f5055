//! The clock: the local time of day, rendered with a fixed pattern.

use crate::status_bar::{Component, ComponentError};
use chrono::{Datelike, Timelike};
use vstd::prelude::*;
use vstd::string::*;

verus! {

/// The pattern the clock renders with: abbreviated month, day of the month,
/// twelve-hour time with seconds, and AM or PM.
pub const DEFAULT_CLOCK_FORMAT: &'static str = "%b %d %I:%M:%S%p";

/// A calendar date and a time of day, as plain numbers.
#[derive(Clone, Copy, Debug, PartialEq, Eq)]
pub struct ClockTime {
    pub year: i32,
    pub month: u32,
    pub day: u32,
    pub hour: u32,
    pub minute: u32,
    pub second: u32,
}

impl ClockTime {
    /// The fields lie in the ranges of a calendar date and a time of day.
    pub open spec fn in_range(&self) -> bool {
        &&& 1 <= self.month <= 12
        &&& 1 <= self.day <= 31
        &&& self.hour <= 23
        &&& self.minute <= 59
        &&& self.second <= 59
    }
}

/// The text that chrono gives for a date and time under a pattern, or `None`
/// where the numbers are no date and time that chrono can hold.
pub uninterp spec fn formatted(
    pattern: Seq<char>,
    year: int,
    month: int,
    day: int,
    hour: int,
    minute: int,
    second: int,
) -> Option<Seq<char>>;

/// The clock's text for a date and time.
pub open spec fn clock_text(time: ClockTime) -> Option<Seq<char>> {
    formatted(
        DEFAULT_CLOCK_FORMAT@,
        time.year as int,
        time.month as int,
        time.day as int,
        time.hour as int,
        time.minute as int,
        time.second as int,
    )
}

/// Reads the local date and time with `chrono::Local::now` and takes its
/// fields through `Datelike` and `Timelike`. Trusted: the fields lie in the
/// ranges that chrono documents for them. Which time comes back is not stated.
#[verifier::external_body]
fn local_now() -> (time: ClockTime)
    ensures
        time.in_range(),
{
    let now = chrono::Local::now();
    ClockTime {
        year: now.year(),
        month: now.month(),
        day: now.day(),
        hour: now.hour(),
        minute: now.minute(),
        second: now.second(),
    }
}

/// Builds the date and time with `chrono::NaiveDate::from_ymd_opt` and
/// `and_hms_opt`, and renders it with `NaiveDateTime::format`. Trusted: the
/// result is chrono's text for these numbers under the clock's pattern, the
/// same for the same numbers, and `None` where chrono refuses them.
#[verifier::external_body]
fn format_time(pattern: &str, time: &ClockTime) -> (text: Option<String>)
    requires
        pattern@ == DEFAULT_CLOCK_FORMAT@,
    ensures
        text_view(text) == formatted(
            pattern@,
            time.year as int,
            time.month as int,
            time.day as int,
            time.hour as int,
            time.minute as int,
            time.second as int,
        ),
{
    let date = chrono::NaiveDate::from_ymd_opt(time.year, time.month, time.day)?;
    let moment = date.and_hms_opt(time.hour, time.minute, time.second)?;
    Some(moment.format(pattern).to_string())
}

/// An optional string as the contracts speak of it.
pub open spec fn text_view(text: Option<String>) -> Option<Seq<char>> {
    match text {
        Some(s) => Some(s@),
        None => None,
    }
}

/// The clock. It keeps no state: each render reads the time anew.
pub struct Clock;

impl Clock {
    /// Renders a given date and time as the clock does, or gives `None` where
    /// the numbers are no date and time.
    pub fn render_time(time: &ClockTime) -> (text: Option<String>)
        ensures
            text_view(text) == clock_text(*time),
    {
        format_time(DEFAULT_CLOCK_FORMAT, time)
    }

    /// What a render makes of the time it has read: the clock's text, or a
    /// failure where there is none.
    pub fn render_read(time: &ClockTime) -> (text: Result<String, ComponentError>)
        ensures
            crate::status_bar::text_of(text) == clock_text(*time),
    {
        match Self::render_time(time) {
            Some(s) => Ok(s),
            None => Err(ComponentError { message: String::from_str("no such date and time") }),
        }
    }
}

impl Component for Clock {
    /// A refresh leaves the clock as it is and succeeds.
    open spec fn refreshes(&self, after: &Self, failure: Option<ComponentError>) -> bool {
        failure is None
    }

    /// A render gives the clock's text for some date and time.
    open spec fn renders(&self, text: Option<Seq<char>>) -> bool {
        exists|time: ClockTime| time.in_range() && text == #[trigger] clock_text(time)
    }

    fn tick(&mut self) -> (outcome: Result<(), ComponentError>) {
        Ok(())
    }

    fn output(&self) -> (text: Result<String, ComponentError>) {
        let now = local_now();
        Self::render_read(&now)
    }
}

} // verus!
