use vstd::prelude::*;

verus! {

/// The number of 1970-01-01, counted in days from the common era.
pub const UNIX_EPOCH_DAY: i64 = 719_163;

/// What `chrono` numbers a calendar date as, counted in days from the common
/// era (0001-01-01 is day 1); `None` where year, month and day name no date
/// that `chrono` can represent.
pub uninterp spec fn ce_day_of(year: i32, month: u32, day: u32) -> Option<i32>;

/// Relies on `chrono::NaiveDate::from_ymd_opt`, which gives `None` for an
/// invalid date, and on `Datelike::num_days_from_ce`, which numbers a valid one.
#[verifier::external_body]
fn chrono_ce_day(year: i32, month: u32, day: u32) -> (r: Option<i32>)
    ensures
        r == ce_day_of(year, month, day),
{
    chrono::NaiveDate::from_ymd_opt(year, month, day)
        .map(|d| chrono::Datelike::num_days_from_ce(&d))
}

/// A calendar day, held as its number counted from the common era
/// (0001-01-01 is day 1). Consecutive days have consecutive numbers, so date
/// arithmetic in whole days is integer arithmetic on `day`.
#[derive(Clone, Copy, Debug, PartialEq, Eq, Structural, Hash)]
pub struct Date {
    pub day: i64,
}

impl Date {
    /// The date `n` days after this one (before it, for a negative `n`).
    pub open spec fn plus(self, n: int) -> Date {
        Date { day: (self.day + n) as i64 }
    }

    /// The date with the given year, month (1 to 12) and day of the month,
    /// or `None` where they name no date.
    pub fn from_ymd(year: i32, month: u32, day: u32) -> (r: Option<Date>)
        ensures
            match ce_day_of(year, month, day) {
                Some(n) => r == Some(Date { day: n as i64 }),
                None => r is None,
            },
    {
        match chrono_ce_day(year, month, day) {
            Some(n) => Some(Date { day: n as i64 }),
            None => None,
        }
    }
}

impl Default for Date {
    /// 1970-01-01.
    fn default() -> (r: Date)
        ensures
            r.day == UNIX_EPOCH_DAY,
    {
        Date { day: UNIX_EPOCH_DAY }
    }
}

} // verus!
