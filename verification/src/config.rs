use vstd::prelude::*;

use crate::date::{parse_date, parsed_date, parses, Date};
use crate::quarters::Quarter;

verus! {

/// One section of the configuration: for each quarter, an optional list of
/// raw date strings (as bytes). An absent quarter means "no entries".
pub struct QuarterDates {
    pub q1: Option<Vec<Vec<u8>>>,
    pub q2: Option<Vec<Vec<u8>>>,
    pub q3: Option<Vec<Vec<u8>>>,
    pub q4: Option<Vec<Vec<u8>>>,
}

/// The dates spelled by a list of raw entries, in order, with entries that
/// do not parse as calendar dates dropped one by one.
pub open spec fn parsed_dates(raws: Seq<Seq<u8>>) -> Seq<Date>
    decreases raws.len(),
{
    if raws.len() == 0 {
        Seq::empty()
    } else {
        parsed_dates(raws.drop_last()) + (if parses(raws.last()) {
            seq![parsed_date(raws.last())]
        } else {
            Seq::empty()
        })
    }
}

impl QuarterDates {
    /// The section's raw entries for a quarter, `None` where the quarter
    /// is absent from the section.
    pub open spec fn raw(self, q: Quarter) -> Option<Seq<Seq<u8>>> {
        match q {
            Quarter::Q1 => self.q1.deep_view(),
            Quarter::Q2 => self.q2.deep_view(),
            Quarter::Q3 => self.q3.deep_view(),
            Quarter::Q4 => self.q4.deep_view(),
        }
    }

    /// The dates configured for a quarter: the entries that parse, in
    /// order, and nothing at all where the quarter is absent.
    pub open spec fn dates_of(self, q: Quarter) -> Seq<Date> {
        match self.raw(q) {
            Option::None => Seq::empty(),
            Option::Some(raws) => parsed_dates(raws),
        }
    }

    /// The dates configured for a quarter, each entry parsed and the
    /// malformed ones silently dropped; `None` where the quarter is absent.
    pub fn quarter_dates(&self, quarter: Quarter) -> (r: Option<Vec<Date>>)
        ensures
            r is Some <==> self.raw(quarter) is Some,
            r matches Some(v) ==> v@ == self.dates_of(quarter),
            r is None ==> self.dates_of(quarter) == Seq::<Date>::empty(),
            forall|i: int| 0 <= i < self.dates_of(quarter).len()
                ==> #[trigger] self.dates_of(quarter)[i].valid(),
    {
        let entries: &Option<Vec<Vec<u8>>> = match quarter {
            Quarter::Q1 => &self.q1,
            Quarter::Q2 => &self.q2,
            Quarter::Q3 => &self.q3,
            Quarter::Q4 => &self.q4,
        };
        match entries {
            Option::None => None,
            Option::Some(list) => {
                let ghost raws: Seq<Seq<u8>> = list.deep_view();
                let mut out: Vec<Date> = Vec::new();
                let mut i: usize = 0;
                while i < list.len()
                    invariant
                        i <= list.len(),
                        raws == list.deep_view(),
                        raws.len() == list.len(),
                        out@ == parsed_dates(raws.take(i as int)),
                        forall|j: int| 0 <= j < out@.len() ==> #[trigger] out@[j].valid(),
                    decreases list.len() - i,
                {
                    assert(list[i as int]@ =~= raws[i as int]);
                    assert(raws.take(i + 1).drop_last() =~= raws.take(i as int));
                    assert(raws.take(i + 1).last() == raws[i as int]);
                    match parse_date(&list[i]) {
                        Option::Some(d) => {
                            out.push(d);
                        },
                        Option::None => {},
                    }
                    assert(out@ =~= parsed_dates(raws.take(i + 1)));
                    i = i + 1;
                }
                proof {
                    assert(raws.take(list.len() as int) =~= raws);
                }
                Some(out)
            },
        }
    }
}

/// Two sections whose entries for a quarter are an explicit empty list and
/// an absent key configure the same dates for it: none.
pub proof fn lemma_empty_section_like_absent(a: QuarterDates, b: QuarterDates, q: Quarter)
    requires
        a.raw(q) is None,
        b.raw(q) matches Some(raws) && raws.len() == 0,
    ensures
        a.dates_of(q) == b.dates_of(q),
        a.dates_of(q) == Seq::<Date>::empty(),
{
}

} // verus!
