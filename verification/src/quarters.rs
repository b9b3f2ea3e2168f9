use vstd::prelude::*;

verus! {

/// One of the four fixed three-month calendar quarters.
#[derive(Clone, Copy, Debug, PartialEq, Eq, Structural)]
pub enum Quarter {
    Q1,
    Q2,
    Q3,
    Q4,
}

/// The first month of a quarter.
pub open spec fn first_month(q: Quarter) -> int {
    match q {
        Quarter::Q1 => 1,
        Quarter::Q2 => 4,
        Quarter::Q3 => 7,
        Quarter::Q4 => 10,
    }
}

/// Month `m` belongs to quarter `q`: one of the three consecutive months
/// starting at the quarter's first month.
pub open spec fn month_in_quarter(m: int, q: Quarter) -> bool {
    first_month(q) <= m < first_month(q) + 3
}

/// The quarter a month falls in, meaningful for months `1..=12`.
pub open spec fn quarter_of_month(m: int) -> Quarter {
    if m <= 3 {
        Quarter::Q1
    } else if m <= 6 {
        Quarter::Q2
    } else if m <= 9 {
        Quarter::Q3
    } else {
        Quarter::Q4
    }
}

/// Maps a month number to its calendar quarter: 1–3 to Q1, 4–6 to Q2,
/// 7–9 to Q3, 10–12 to Q4.
pub fn current_quarter(month: u8) -> (q: Quarter)
    requires
        1 <= month <= 12,
    ensures
        q == quarter_of_month(month as int),
        month_in_quarter(month as int, q),
{
    if month <= 3 {
        Quarter::Q1
    } else if month <= 6 {
        Quarter::Q2
    } else if month <= 9 {
        Quarter::Q3
    } else {
        Quarter::Q4
    }
}

/// The quarters partition the months 1 through 12: every month lies in the
/// quarter assigned to it and in no other, and every quarter consists of
/// exactly three consecutive months.
pub proof fn lemma_quarter_partition()
    ensures
        forall|m: int| 1 <= m <= 12 ==> #[trigger] month_in_quarter(m, quarter_of_month(m)),
        forall|m: int, q: Quarter| #[trigger] month_in_quarter(m, q) ==> 1 <= m <= 12,
        forall|m: int, q: Quarter| #[trigger] month_in_quarter(m, q) ==> q == quarter_of_month(m),
        forall|q: Quarter|
            #[trigger] month_in_quarter(first_month(q), q) && month_in_quarter(
                first_month(q) + 1,
                q,
            ) && month_in_quarter(first_month(q) + 2, q),
{
    assert forall|m: int, q: Quarter| #[trigger] month_in_quarter(m, q) implies 1 <= m <= 12
        && q == quarter_of_month(m) by {
        match q {
            Quarter::Q1 => {},
            Quarter::Q2 => {},
            Quarter::Q3 => {},
            Quarter::Q4 => {},
        }
    }
}

impl Quarter {
    /// The quarter's name in uppercase, as the report's header shows it.
    pub fn upper_label(self) -> (r: &'static str)
        ensures
            self == Quarter::Q1 ==> r@ == "Q1"@,
            self == Quarter::Q2 ==> r@ == "Q2"@,
            self == Quarter::Q3 ==> r@ == "Q3"@,
            self == Quarter::Q4 ==> r@ == "Q4"@,
    {
        match self {
            Quarter::Q1 => "Q1",
            Quarter::Q2 => "Q2",
            Quarter::Q3 => "Q3",
            Quarter::Q4 => "Q4",
        }
    }
}

} // verus!
