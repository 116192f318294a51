use chrono::{Datelike, Timelike};
use vstd::arithmetic::div_mod::lemma_fundamental_div_mod_converse;
use vstd::prelude::*;

verus! {

/// Earliest calendar year that the clock source can represent.
pub const FIRST_YEAR: i32 = -262143;

/// Latest calendar year that the clock source can represent.
pub const LAST_YEAR: i32 = 262142;

/// A UTC instant, broken into its calendar fields.
///
/// `nanosecond` may reach into a second billion to carry a leap second.
#[derive(Clone, Copy, Debug, PartialEq, Eq, Structural)]
pub struct UtcDateTime {
    pub year: i32,
    pub month: u32,
    pub day: u32,
    pub hour: u32,
    pub minute: u32,
    pub second: u32,
    pub nanosecond: u32,
}

pub open spec fn is_leap_year(year: int) -> bool {
    (year % 4 == 0 && year % 100 != 0) || year % 400 == 0
}

pub open spec fn days_in_month(year: int, month: int) -> int {
    if month == 2 {
        if is_leap_year(year) {
            29
        } else {
            28
        }
    } else if month == 4 || month == 6 || month == 9 || month == 11 {
        30
    } else {
        31
    }
}

/// The first instant of the calendar month numbered `index` (see `month_index`).
pub open spec fn month_start(index: int) -> UtcDateTime {
    UtcDateTime {
        year: (index / 12) as i32,
        month: (index % 12 + 1) as u32,
        day: 1,
        hour: 0,
        minute: 0,
        second: 0,
        nanosecond: 0,
    }
}

impl UtcDateTime {
    /// The fields name an existing date and time of day, in any year.
    pub open spec fn fields_ok(self) -> bool {
        &&& 1 <= self.month <= 12
        &&& 1 <= self.day <= days_in_month(self.year as int, self.month as int)
        &&& self.hour < 24
        &&& self.minute < 60
        &&& self.second < 60
        &&& self.nanosecond < 2_000_000_000
    }

    /// A clock reading: an existing instant within the representable years.
    pub open spec fn wf(self) -> bool {
        FIRST_YEAR <= self.year <= LAST_YEAR && self.fields_ok()
    }

    /// A reset boundary: the first instant of a month that follows a clock
    /// reading, so its year may be one past the last clock year.
    pub open spec fn is_boundary(self) -> bool {
        FIRST_YEAR <= self.year <= LAST_YEAR + 1 && self.fields_ok() && self.is_month_start()
    }

    /// The calendar month of this instant as one number: twelve per year.
    pub open spec fn month_index(self) -> int {
        self.year as int * 12 + (self.month as int - 1)
    }

    /// Midnight of the first day of the month.
    pub open spec fn is_month_start(self) -> bool {
        self.day == 1 && self.hour == 0 && self.minute == 0 && self.second == 0
            && self.nanosecond == 0
    }

    /// Checks `fields_ok`.
    pub fn fields_valid(&self) -> (r: bool)
        ensures
            r == self.fields_ok(),
    {
        if self.month < 1 || self.month > 12 {
            return false;
        }
        self.day >= 1 && self.day <= month_length(self.year, self.month) && self.hour < 24
            && self.minute < 60 && self.second < 60 && self.nanosecond < 2_000_000_000
    }

    /// Checks `wf` on a value that came from outside the library.
    pub fn is_valid(&self) -> (r: bool)
        ensures
            r == self.wf(),
    {
        self.year >= FIRST_YEAR && self.year <= LAST_YEAR && self.fields_valid()
    }

    /// Checks `is_boundary` on a value that came from outside the library.
    pub fn is_valid_boundary(&self) -> (r: bool)
        ensures
            r == self.is_boundary(),
    {
        self.year >= FIRST_YEAR && self.year <= LAST_YEAR + 1 && self.fields_valid()
            && self.day == 1 && self.hour == 0 && self.minute == 0 && self.second == 0
            && self.nanosecond == 0
    }
}

/// Number of days in `month` of `year`.
pub fn month_length(year: i32, month: u32) -> (r: u32)
    requires
        1 <= month <= 12,
    ensures
        r == days_in_month(year as int, month as int),
{
    if month == 2 {
        if (year % 4 == 0 && year % 100 != 0) || year % 400 == 0 {
            29
        } else {
            28
        }
    } else if month == 4 || month == 6 || month == 9 || month == 11 {
        30
    } else {
        31
    }
}

/// The first instant of the calendar month that follows the month of `now`,
/// at 00:00:00.000 UTC; December rolls over into January of the next year.
pub fn next_month_boundary(now: UtcDateTime) -> (r: UtcDateTime)
    requires
        now.wf(),
    ensures
        r == month_start(now.month_index() + 1),
        r.is_boundary(),
        r.month_index() == now.month_index() + 1,
{
    let (year, month): (i32, u32) = if now.month == 12 {
        (now.year + 1, 1)
    } else {
        (now.year, now.month + 1)
    };
    let r = UtcDateTime { year, month, day: 1, hour: 0, minute: 0, second: 0, nanosecond: 0 };
    proof {
        lemma_fundamental_div_mod_converse(
            now.month_index() + 1,
            12,
            year as int,
            month as int - 1,
        );
    }
    r
}

/// Whether `now` lies in a strictly later calendar month than `reset_at`.
pub fn reset_due(now: &UtcDateTime, reset_at: &UtcDateTime) -> (r: bool)
    requires
        1 <= now.month <= 12,
        1 <= reset_at.month <= 12,
    ensures
        r == (now.month_index() > reset_at.month_index()),
{
    proof {
        let (y1, m1, y2, m2) = (now.year as int, now.month as int, reset_at.year as int, reset_at.month as int);
        assert(y1 > y2 ==> y1 * 12 + (m1 - 1) > y2 * 12 + (m2 - 1)) by (nonlinear_arith)
            requires 1 <= m1 <= 12, 1 <= m2 <= 12;
        assert(y1 < y2 ==> y1 * 12 + (m1 - 1) < y2 * 12 + (m2 - 1)) by (nonlinear_arith)
            requires 1 <= m1 <= 12, 1 <= m2 <= 12;
    }
    now.year > reset_at.year || (now.year == reset_at.year && now.month > reset_at.month)
}

/// Whether `now` lies in the month of `boundary` or a later one, that is, for
/// a month start `boundary`, whether `now` has reached it.
pub fn month_reached(now: &UtcDateTime, boundary: &UtcDateTime) -> (r: bool)
    requires
        1 <= now.month <= 12,
        1 <= boundary.month <= 12,
    ensures
        r == (now.month_index() >= boundary.month_index()),
{
    !reset_due(boundary, now)
}

/// The current instant.
pub fn current_instant() -> (r: UtcDateTime)
    ensures
        r.wf(),
{
    utc_now()
}

/// Relies on chrono's `Utc::now` and its `Datelike` / `Timelike` accessors:
/// they give the fields of an existing date-time within chrono's year range,
/// with the leap second carried in the nanoseconds.
#[verifier::external_body]
pub(crate) fn utc_now() -> (r: UtcDateTime)
    ensures
        r.wf(),
{
    let now = chrono::Utc::now();
    UtcDateTime {
        year: now.year(),
        month: now.month(),
        day: now.day(),
        hour: now.hour(),
        minute: now.minute(),
        second: now.second(),
        nanosecond: now.nanosecond(),
    }
}

} // verus!
