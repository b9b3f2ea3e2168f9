use vstd::prelude::*;

use crate::attendance::{days_required, days_worked, spec_days_required, spec_days_worked, Config};
use crate::date::Date;
use crate::quarters::Quarter;

verus! {

/// The figures of one report, ready to print: the raw target, the days
/// off taken out of it, the adjusted target, and the worked, remaining
/// and projected counts relative to it.
pub struct ReportFigures {
    pub required: u8,
    pub adjustment: u8,
    pub total_required: u8,
    pub worked: usize,
    pub scheduled: usize,
    pub remaining: i128,
    pub projected: i128,
}

/// Computes every figure of the report for one quarter as of `today`:
/// the adjusted requirement, the days worked so far, the days scheduled
/// over the whole quarter, and the signed remaining and projected counts.
pub fn report_figures(config: &Config, quarter: Quarter, today: Date) -> (r: ReportFigures)
    ensures
        r.required == config.required_quarterly_attendance,
        r.total_required as int == spec_days_required(*config, quarter),
        r.adjustment as int == config.required_quarterly_attendance as int - r.total_required as int,
        r.worked as int == spec_days_worked(*config, quarter, Some(today)),
        r.scheduled as int == spec_days_worked(*config, quarter, None),
        r.remaining == r.total_required as int - r.worked as int,
        r.projected == r.total_required as int - r.scheduled as int,
{
    let total_required: u8 = days_required(config, quarter);
    let worked: usize = days_worked(config, quarter, Some(today));
    let scheduled: usize = days_worked(config, quarter, None);
    ReportFigures {
        required: config.required_quarterly_attendance,
        adjustment: config.required_quarterly_attendance - total_required,
        total_required,
        worked,
        scheduled,
        remaining: total_required as i128 - worked as i128,
        projected: total_required as i128 - scheduled as i128,
    }
}

/// The report's one presentation decision: a signed figure is shown in
/// the alert style exactly when it is positive (behind schedule), and in
/// the success style when it is zero or negative.
pub fn is_alert(value: i128) -> (r: bool)
    ensures
        r == (value > 0),
{
    value > 0
}

} // verus!
