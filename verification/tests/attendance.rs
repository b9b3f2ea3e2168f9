use officedays::attendance::{days_required, days_worked, Config};
use officedays::config::QuarterDates;
use officedays::date::{parse_date, Date};
use officedays::quarters::Quarter;
use officedays::report::report_figures;

fn empty_section() -> QuarterDates {
    QuarterDates { q1: None, q2: None, q3: None, q4: None }
}

fn q1_section(entries: &[&str]) -> QuarterDates {
    QuarterDates {
        q1: Some(entries.iter().map(|s| s.as_bytes().to_vec()).collect()),
        q2: None,
        q3: None,
        q4: None,
    }
}

fn date(year: u16, month: u8, day: u8) -> Date {
    Date { year, month, day }
}

#[test]
fn full_requirement_without_days_off() {
    let config = Config {
        required_quarterly_attendance: 20,
        bank_holidays: empty_section(),
        leave: empty_section(),
        office_days: empty_section(),
    };
    assert_eq!(days_required(&config, Quarter::Q1), 20);
    assert_eq!(days_required(&config, Quarter::Q2), 20);
    assert_eq!(days_required(&config, Quarter::Q3), 20);
    assert_eq!(days_required(&config, Quarter::Q4), 20);
}

#[test]
fn requirement_saturates_at_zero() {
    let config = Config {
        required_quarterly_attendance: 2,
        bank_holidays: q1_section(&["2024-01-01", "2024-01-02"]),
        leave: q1_section(&["2024-02-14", "2024-02-15"]),
        office_days: empty_section(),
    };
    assert_eq!(days_required(&config, Quarter::Q1), 0);
}

#[test]
fn worked_count_is_monotonic_in_the_cutoff() {
    let config = Config {
        required_quarterly_attendance: 10,
        bank_holidays: empty_section(),
        leave: empty_section(),
        office_days: q1_section(&["2024-01-05", "2024-01-10", "2024-02-20"]),
    };
    let mut previous = 0;
    for day in 1..=28 {
        let worked = days_worked(&config, Quarter::Q1, Some(date(2024, 2, day)));
        assert!(worked >= previous);
        previous = worked;
    }
}

#[test]
fn worked_count_without_cutoff_bounds_every_cutoff() {
    let config = Config {
        required_quarterly_attendance: 10,
        bank_holidays: empty_section(),
        leave: empty_section(),
        office_days: q1_section(&["2024-01-05", "2024-01-10", "2024-02-20"]),
    };
    let scheduled = days_worked(&config, Quarter::Q1, None);
    assert_eq!(scheduled, 3);
    for month in 1..=3 {
        for day in [1, 15, 28] {
            let worked = days_worked(&config, Quarter::Q1, Some(date(2024, month, day)));
            assert!(worked <= scheduled);
        }
    }
}

#[test]
fn empty_array_behaves_like_absent_key() {
    let with_empty = Config {
        required_quarterly_attendance: 20,
        bank_holidays: q1_section(&[]),
        leave: q1_section(&[]),
        office_days: q1_section(&[]),
    };
    let with_absent = Config {
        required_quarterly_attendance: 20,
        bank_holidays: empty_section(),
        leave: empty_section(),
        office_days: empty_section(),
    };
    let today = Some(date(2024, 2, 1));
    assert_eq!(
        days_required(&with_empty, Quarter::Q1),
        days_required(&with_absent, Quarter::Q1)
    );
    assert_eq!(
        days_worked(&with_empty, Quarter::Q1, today),
        days_worked(&with_absent, Quarter::Q1, today)
    );
    assert_eq!(
        days_worked(&with_empty, Quarter::Q1, None),
        days_worked(&with_absent, Quarter::Q1, None)
    );
}

#[test]
fn first_quarter_report_scenario() {
    let config = Config {
        required_quarterly_attendance: 20,
        bank_holidays: q1_section(&["2024-01-01"]),
        leave: q1_section(&["2024-02-14"]),
        office_days: q1_section(&["2024-01-05", "2024-01-10", "2024-02-20"]),
    };
    let today = date(2024, 2, 1);
    assert_eq!(days_required(&config, Quarter::Q1), 18);
    assert_eq!(days_worked(&config, Quarter::Q1, Some(today)), 2);
    assert_eq!(days_worked(&config, Quarter::Q1, None), 3);

    let figures = report_figures(&config, Quarter::Q1, today);
    assert_eq!(figures.required, 20);
    assert_eq!(figures.adjustment, 2);
    assert_eq!(figures.total_required, 18);
    assert_eq!(figures.worked, 2);
    assert_eq!(figures.scheduled, 3);
    assert_eq!(figures.remaining, 16);
    assert_eq!(figures.projected, 15);
}

#[test]
fn invalid_date_entry_is_dropped_and_valid_one_kept() {
    let section = q1_section(&["2024-13-40", "2024-01-08"]);
    let dates = section.quarter_dates(Quarter::Q1).unwrap();
    assert_eq!(dates, vec![date(2024, 1, 8)]);

    let config = Config {
        required_quarterly_attendance: 20,
        bank_holidays: empty_section(),
        leave: empty_section(),
        office_days: section,
    };
    assert_eq!(days_worked(&config, Quarter::Q1, None), 1);
}

#[test]
fn empty_office_days_yield_zero_in_both_modes() {
    let config = Config {
        required_quarterly_attendance: 20,
        bank_holidays: empty_section(),
        leave: empty_section(),
        office_days: q1_section(&[]),
    };
    assert_eq!(days_worked(&config, Quarter::Q1, Some(date(2024, 2, 1))), 0);
    assert_eq!(days_worked(&config, Quarter::Q1, None), 0);
}

#[test]
fn other_quarters_see_no_dates_from_a_q1_section() {
    let section = q1_section(&["2024-01-05"]);
    assert_eq!(section.quarter_dates(Quarter::Q1).unwrap().len(), 1);
    assert!(section.quarter_dates(Quarter::Q2).is_none());
    assert!(section.quarter_dates(Quarter::Q3).is_none());
    assert!(section.quarter_dates(Quarter::Q4).is_none());
}

#[test]
fn days_off_count_parsed_entries_only() {
    let config = Config {
        required_quarterly_attendance: 20,
        bank_holidays: q1_section(&["2024-01-01", "not-a-date!"]),
        leave: empty_section(),
        office_days: empty_section(),
    };
    assert_eq!(days_required(&config, Quarter::Q1), 19);
}

#[test]
fn parse_accepts_a_well_formed_date() {
    let d = parse_date(&b"2024-01-01".to_vec()).unwrap();
    assert_eq!(d, date(2024, 1, 1));
}

#[test]
fn parse_rejects_malformed_strings() {
    assert!(parse_date(&b"2024-13-40".to_vec()).is_none());
    assert!(parse_date(&b"2024-00-10".to_vec()).is_none());
    assert!(parse_date(&b"2024-04-31".to_vec()).is_none());
    assert!(parse_date(&b"2024-1-5".to_vec()).is_none());
    assert!(parse_date(&b"20240101".to_vec()).is_none());
    assert!(parse_date(&b"2024/01/01".to_vec()).is_none());
    assert!(parse_date(&b"".to_vec()).is_none());
    assert!(parse_date(&b"2024-01-011".to_vec()).is_none());
}

#[test]
fn parse_follows_the_leap_year_rule() {
    assert_eq!(parse_date(&b"2024-02-29".to_vec()), Some(date(2024, 2, 29)));
    assert_eq!(parse_date(&b"2000-02-29".to_vec()), Some(date(2000, 2, 29)));
    assert!(parse_date(&b"2023-02-29".to_vec()).is_none());
    assert!(parse_date(&b"1900-02-29".to_vec()).is_none());
    assert_eq!(parse_date(&b"1900-02-28".to_vec()), Some(date(1900, 2, 28)));
}

#[test]
fn alert_style_marks_positive_figures_only() {
    assert!(officedays::report::is_alert(17));
    assert!(!officedays::report::is_alert(0));
    assert!(!officedays::report::is_alert(-3));
}

#[test]
fn date_order_is_year_then_month_then_day() {
    assert!(date(2023, 12, 31).le(&date(2024, 1, 1)));
    assert!(date(2024, 1, 31).le(&date(2024, 2, 1)));
    assert!(date(2024, 2, 1).le(&date(2024, 2, 1)));
    assert!(!date(2024, 2, 2).le(&date(2024, 2, 1)));
}

#[test]
fn quarter_dates_keep_configured_order() {
    let section = q1_section(&["2024-02-20", "bad", "2024-01-05", "2024-01-10"]);
    let dates = section.quarter_dates(Quarter::Q1).unwrap();
    assert_eq!(
        dates,
        vec![date(2024, 2, 20), date(2024, 1, 5), date(2024, 1, 10)]
    );
}
