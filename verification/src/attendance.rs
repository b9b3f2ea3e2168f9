use vstd::prelude::*;

use crate::config::QuarterDates;
use crate::date::{date_le, Date};
use crate::quarters::Quarter;

verus! {

/// The per-year configuration: the quarterly attendance target and, for
/// each of the three date sections, the per-quarter date lists.
pub struct Config {
    pub required_quarterly_attendance: u8,
    pub bank_holidays: QuarterDates,
    pub leave: QuarterDates,
    pub office_days: QuarterDates,
}

/// The configured days off for a quarter: bank holidays plus leave.
pub open spec fn spec_days_off(c: Config, q: Quarter) -> int {
    c.bank_holidays.dates_of(q).len() + c.leave.dates_of(q).len() as int
}

/// The attendance requirement for a quarter after days off are taken out,
/// floored at zero.
pub open spec fn spec_days_required(c: Config, q: Quarter) -> int {
    if spec_days_off(c, q) >= c.required_quarterly_attendance {
        0
    } else {
        c.required_quarterly_attendance - spec_days_off(c, q)
    }
}

/// How many dates of `s` fall on or before `t`.
pub open spec fn count_le(s: Seq<Date>, t: Date) -> int
    decreases s.len(),
{
    if s.len() == 0 {
        0
    } else {
        count_le(s.drop_last(), t) + if date_le(s.last(), t) {
            1int
        } else {
            0int
        }
    }
}

/// The office days worked in a quarter: with a cut-off date, the entries
/// on or before it; without one, every scheduled entry.
pub open spec fn spec_days_worked(c: Config, q: Quarter, today: Option<Date>) -> int {
    match today {
        Option::None => c.office_days.dates_of(q).len() as int,
        Option::Some(t) => count_le(c.office_days.dates_of(q), t),
    }
}

/// The days still required in the office for a quarter: the attendance
/// target less the quarter's bank holidays and leave, never below zero.
pub fn days_required(config: &Config, quarter: Quarter) -> (r: u8)
    ensures
        r as int == spec_days_required(*config, quarter),
        0 <= r <= config.required_quarterly_attendance,
{
    let required: usize = config.required_quarterly_attendance as usize;

    let bank_holidays: Vec<Date> = match config.bank_holidays.quarter_dates(quarter) {
        Option::Some(dates) => dates,
        Option::None => Vec::new(),
    };

    let leave_days: Vec<Date> = match config.leave.quarter_dates(quarter) {
        Option::Some(dates) => dates,
        Option::None => Vec::new(),
    };

    let after_holidays: usize = if bank_holidays.len() >= required {
        0
    } else {
        required - bank_holidays.len()
    };
    let after_leave: usize = if leave_days.len() >= after_holidays {
        0
    } else {
        after_holidays - leave_days.len()
    };
    after_leave as u8
}

/// The office days worked in a quarter: entries on or before `today` when
/// a cut-off is given, every scheduled entry when it is not. An absent or
/// empty list yields zero.
pub fn days_worked(config: &Config, quarter: Quarter, today: Option<Date>) -> (r: usize)
    ensures
        r as int == spec_days_worked(*config, quarter, today),
{
    let scheduled: Vec<Date> = match config.office_days.quarter_dates(quarter) {
        Option::Some(dates) => dates,
        Option::None => Vec::new(),
    };
    match today {
        Option::None => scheduled.len(),
        Option::Some(t) => {
            let mut count: usize = 0;
            let mut i: usize = 0;
            while i < scheduled.len()
                invariant
                    i <= scheduled.len(),
                    count <= i,
                    count == count_le(scheduled@.take(i as int), t),
                decreases scheduled.len() - i,
            {
                assert(scheduled@.take(i + 1).drop_last() =~= scheduled@.take(i as int));
                assert(scheduled@.take(i + 1).last() == scheduled@[i as int]);
                if scheduled[i].le(&t) {
                    count = count + 1;
                }
                i = i + 1;
            }
            proof {
                assert(scheduled@.take(scheduled@.len() as int) =~= scheduled@);
            }
            count
        },
    }
}

/// A quarter with no configured bank holidays and no leave keeps the full
/// attendance requirement.
pub proof fn lemma_days_required_full(c: Config, q: Quarter)
    requires
        c.bank_holidays.dates_of(q).len() == 0,
        c.leave.dates_of(q).len() == 0,
    ensures
        spec_days_required(c, q) == c.required_quarterly_attendance as int,
{
}

/// The required days never fall below zero, however many holidays and
/// leave days a quarter has: the subtraction saturates.
pub proof fn lemma_days_required_nonnegative(c: Config, q: Quarter)
    ensures
        0 <= spec_days_required(c, q) <= c.required_quarterly_attendance as int,
{
}

/// A count of dates up to a cut-off never exceeds the list's length.
pub proof fn lemma_count_le_bounds(s: Seq<Date>, t: Date)
    ensures
        0 <= count_le(s, t) <= s.len(),
    decreases s.len(),
{
    if s.len() > 0 {
        lemma_count_le_bounds(s.drop_last(), t);
    }
}

/// Moving the cut-off later never lowers the count: whatever is on or
/// before the earlier date is on or before the later one too.
pub proof fn lemma_count_le_monotonic(s: Seq<Date>, t1: Date, t2: Date)
    requires
        date_le(t1, t2),
    ensures
        count_le(s, t1) <= count_le(s, t2),
    decreases s.len(),
{
    if s.len() > 0 {
        lemma_count_le_monotonic(s.drop_last(), t1, t2);
    }
}

/// The days worked by a cut-off date never decrease as the cut-off
/// advances through the quarter.
pub proof fn lemma_days_worked_monotonic(c: Config, q: Quarter, d1: Date, d2: Date)
    requires
        date_le(d1, d2),
    ensures
        spec_days_worked(c, q, Some(d1)) <= spec_days_worked(c, q, Some(d2)),
{
    lemma_count_le_monotonic(c.office_days.dates_of(q), d1, d2);
}

/// The unrestricted count of scheduled office days is an upper bound for
/// the days worked by any cut-off date.
pub proof fn lemma_days_worked_le_scheduled(c: Config, q: Quarter, d: Date)
    ensures
        spec_days_worked(c, q, Some(d)) <= spec_days_worked(c, q, None),
{
    lemma_count_le_bounds(c.office_days.dates_of(q), d);
}

} // verus!
