//! The birth date of a client.

use vstd::prelude::*;

use crate::domain::model::error::ClientError;
use crate::domain::model::value::text::trim;

verus! {

/// A calendar date as year, month and day.
pub struct DateView {
    pub year: int,
    pub month: int,
    pub day: int,
}

/// Years divisible by four are leap years, except centuries not divisible
/// by four hundred.
pub open spec fn is_leap_year(year: int) -> bool {
    year % 4 == 0 && (year % 100 != 0 || year % 400 == 0)
}

/// The number of days of a month of the proleptic Gregorian calendar.
pub open spec fn days_in_month(year: int, month: int) -> int {
    if month == 2 {
        if is_leap_year(year) {
            29int
        } else {
            28int
        }
    } else if month == 4 || month == 6 || month == 9 || month == 11 {
        30int
    } else {
        31int
    }
}

/// The first year that a date can have.
pub const MIN_YEAR: i32 = -262143;

/// The last year that a date can have.
pub const MAX_YEAR: i32 = 262142;

/// The dates that exist: a year within the supported range, a month of the
/// year and a day of that month.
pub open spec fn is_calendar_date(year: int, month: int, day: int) -> bool {
    &&& MIN_YEAR <= year <= MAX_YEAR
    &&& 1 <= month <= 12
    &&& 1 <= day <= days_in_month(year, month)
}

/// A name for the date that a text in the form year, month, day, joined by
/// hyphens, denotes; `None` where the text is no such date.
pub uninterp spec fn parsed_date(text: Seq<char>) -> Option<(i32, u32, u32)>;

/// A name for the text of a date in the form year, month, day, joined by
/// hyphens.
pub uninterp spec fn formatted_date(year: i32, month: u32, day: u32) -> Seq<char>;

/// Trusted: `chrono::NaiveDate::parse_from_str` with the format
/// `%Y-%m-%d`, followed by the accessors `year`, `month` and `day`. The
/// outcome depends on the text alone.
#[verifier::external_body]
fn parse_date(text: &str) -> (r: Option<(i32, u32, u32)>)
    ensures
        r == parsed_date(text@),
{
    match chrono::NaiveDate::parse_from_str(text, "%Y-%m-%d") {
        Ok(date) => Some(
            (
                chrono::Datelike::year(&date),
                chrono::Datelike::month(&date),
                chrono::Datelike::day(&date),
            ),
        ),
        Err(_) => None,
    }
}

/// Trusted: `chrono::NaiveDate::from_ymd_opt`, then `format` with
/// `%Y-%m-%d`. The text depends on the date alone; the date has to exist,
/// or there would be nothing to format.
#[verifier::external_body]
fn format_date(year: i32, month: u32, day: u32) -> (r: String)
    requires
        is_calendar_date(year as int, month as int, day as int),
    ensures
        r@ == formatted_date(year, month, day),
{
    chrono::NaiveDate::from_ymd_opt(year, month, day).unwrap().format("%Y-%m-%d").to_string()
}

/// A valid birth date.
#[derive(Clone, Copy, Debug, PartialEq, Eq, PartialOrd, Ord, Hash)]
pub struct BirthDate {
    year: i32,
    month: u32,
    day: u32,
}

impl View for BirthDate {
    type V = DateView;

    closed spec fn view(&self) -> DateView {
        DateView { year: self.year as int, month: self.month as int, day: self.day as int }
    }
}

/// The rule of the birth date, for a text and the date that the parser
/// read from the trimmed text: `FieldEmpty` when nothing is left after
/// trimming, the date when the parser read one that exists in the calendar,
/// `FieldInvalid` with the trimmed text otherwise.
pub open spec fn checked_birth_date(input: Seq<char>, parsed: Option<(i32, u32, u32)>) -> Result<
    DateView,
    crate::domain::model::error::ClientErrorView,
> {
    let text = crate::domain::model::value::text::trimmed(input);
    let invalid = Err::<DateView, _>(
        crate::domain::model::error::ClientErrorView::FieldInvalid {
            field_name: "birth_date"@,
            value: text,
        },
    );
    if text.len() == 0 {
        Err(crate::domain::model::error::ClientErrorView::FieldEmpty { field_name: "birth_date"@ })
    } else {
        match parsed {
            Some(date) => if is_calendar_date(date.0 as int, date.1 as int, date.2 as int) {
                Ok(DateView { year: date.0 as int, month: date.1 as int, day: date.2 as int })
            } else {
                invalid
            },
            None => invalid,
        }
    }
}

/// `outcome` is what the rule of the birth date makes of `input`.
pub open spec fn birth_date_outcome(
    input: Seq<char>,
    parsed: Option<(i32, u32, u32)>,
    outcome: Result<DateView, crate::domain::model::error::ClientErrorView>,
) -> bool {
    outcome == checked_birth_date(input, parsed)
}

impl BirthDate {
    #[verifier::type_invariant]
    closed spec fn well_formed(self) -> bool {
        is_calendar_date(self.year as int, self.month as int, self.day as int)
    }

    /// Reads a date in the form `YYYY-MM-DD`, ignoring surrounding
    /// whitespace.
    pub fn new(name: &str) -> (r: Result<Self, ClientError>)
        ensures
            birth_date_outcome(
                name@,
                parsed_date(crate::domain::model::value::text::trimmed(name@)),
                match r {
                    Ok(date) => Ok(date@),
                    Err(e) => Err(e@),
                },
            ),
    {
        let name = trim(name);
        if name.is_empty() {
            Err(ClientError::FieldEmpty { field_name: "birth_date".to_string() })
        } else {
            let parsed = parse_date(name);
            BirthDate::from_parsed(name, parsed)
        }
    }

    /// The birth date for a trimmed, non-empty text and what the parser
    /// read from it: the date, or `FieldInvalid` with the text when the
    /// parser read none or the date does not exist.
    pub fn from_parsed(text: &str, parsed: Option<(i32, u32, u32)>) -> (r: Result<
        Self,
        ClientError,
    >)
        ensures
            match r {
                Ok(date) => parsed matches Some(p) && is_calendar_date(
                    p.0 as int,
                    p.1 as int,
                    p.2 as int,
                ) && date@ == (DateView { year: p.0 as int, month: p.1 as int, day: p.2 as int }),
                Err(e) => !(parsed matches Some(p) && is_calendar_date(
                    p.0 as int,
                    p.1 as int,
                    p.2 as int,
                )) && e@ == (crate::domain::model::error::ClientErrorView::FieldInvalid {
                    field_name: "birth_date"@,
                    value: text@,
                }),
            },
    {
        match parsed {
            Some((year, month, day)) => {
                if exists_in_calendar(year, month, day) {
                    Ok(BirthDate { year, month, day })
                } else {
                    Err(
                        ClientError::FieldInvalid {
                            field_name: "birth_date".to_string(),
                            value: text.to_string(),
                        },
                    )
                }
            },
            None => Err(
                ClientError::FieldInvalid {
                    field_name: "birth_date".to_string(),
                    value: text.to_string(),
                },
            ),
        }
    }

    /// The year of the date.
    pub fn year(&self) -> (r: i32)
        ensures
            r == self@.year,
    {
        self.year
    }

    /// The month of the date, from 1 to 12.
    pub fn month(&self) -> (r: u32)
        ensures
            r == self@.month,
            is_calendar_date(self@.year, self@.month, self@.day),
    {
        proof {
            use_type_invariant(self);
        }
        self.month
    }

    /// The day of the month, from 1.
    pub fn day(&self) -> (r: u32)
        ensures
            r == self@.day,
    {
        self.day
    }

    /// The date in the form `YYYY-MM-DD`.
    pub fn to_string(&self) -> (r: String)
        ensures
            r@ == formatted_date(self@.year as i32, self@.month as u32, self@.day as u32),
    {
        proof {
            use_type_invariant(self);
        }
        format_date(self.year, self.month, self.day)
    }
}

/// Whether the three numbers are a date of the calendar.
pub fn exists_in_calendar(year: i32, month: u32, day: u32) -> (r: bool)
    ensures
        r == is_calendar_date(year as int, month as int, day as int),
{
    if year < MIN_YEAR || year > MAX_YEAR || month < 1 || month > 12 || day < 1 {
        return false;
    }
    let leap = year % 4 == 0 && (year % 100 != 0 || year % 400 == 0);
    let days: u32 = if month == 2 {
        if leap {
            29
        } else {
            28
        }
    } else if month == 4 || month == 6 || month == 9 || month == 11 {
        30
    } else {
        31
    };
    day <= days
}

} // verus!
