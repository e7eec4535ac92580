use crate::report::{spec_derive_report, Report};
use vstd::prelude::*;

verus! {

/// A ticker's series of annual reports, in ascending chronological order.
/// The order is trusted as given: the processor compares each report
/// against the element before it, whatever the `year` labels say.
#[derive(Debug)]
pub struct StockReport {
    pub latest_update: Option<i64>,
    pub ticker: String,
    pub version: i32,
    pub data: Vec<Report>,
}

/// The derived form of the series `rs`, with `last` as the fully derived
/// report preceding `rs[0]`: a left-to-right fold that derives each report
/// against the derived form of the one before it.
pub open spec fn spec_process_from(rs: Seq<Report>, last: Option<Report>) -> Seq<Report>
    decreases rs.len(),
{
    if rs.len() == 0 {
        Seq::empty()
    } else {
        let d = spec_derive_report(rs[0], last);
        seq![d] + spec_process_from(rs.drop_first(), Some(d))
    }
}

/// The derived form of a whole series: its first report has no predecessor.
pub open spec fn spec_process_series(rs: Seq<Report>) -> Seq<Report> {
    spec_process_from(rs, None)
}

/// The derived form of a series keeps its length, and every report in it
/// is well-formed and fully derived.
pub proof fn lemma_process_from_shape(rs: Seq<Report>, last: Option<Report>)
    ensures
        spec_process_from(rs, last).len() == rs.len(),
        forall|i: int|
            0 <= i < rs.len() ==> (#[trigger] spec_process_from(rs, last)[i]).is_derived(),
    decreases rs.len(),
{
    if rs.len() > 0 {
        let d = spec_derive_report(rs[0], last);
        lemma_process_from_shape(rs.drop_first(), Some(d));
    }
}

/// Each report of a derived series is the derivation of the corresponding
/// input report against the derived report before it; the first one is
/// derived against `last`.
pub proof fn lemma_process_from_index(rs: Seq<Report>, last: Option<Report>, i: int)
    requires
        0 <= i < rs.len(),
    ensures
        spec_process_from(rs, last)[i] == spec_derive_report(
            rs[i],
            if i == 0 {
                last
            } else {
                Some(spec_process_from(rs, last)[i - 1])
            },
        ),
    decreases i,
{
    let d = spec_derive_report(rs[0], last);
    lemma_process_from_shape(rs.drop_first(), Some(d));
    if i > 0 {
        lemma_process_from_index(rs.drop_first(), Some(d), i - 1);
    }
}

/// Relies on chrono's `Utc::now`: the seconds since the Unix epoch, read
/// from the system clock. Nothing can be said of the value in advance;
/// chrono panics only if the clock reads earlier than the epoch.
#[verifier::external_body]
fn now_timestamp() -> i64 {
    chrono::Utc::now().timestamp()
}

impl StockReport {
    /// Every report in the series holds well-formed values.
    pub open spec fn wf(self) -> bool {
        forall|i: int| 0 <= i < self.data@.len() ==> (#[trigger] self.data@[i]).wf()
    }

    /// Derives the whole series in place: a strict left-to-right fold that
    /// hands each report the fully derived report before it, so the first
    /// report gets no year-over-year blocks and every later one does.
    pub fn compute_optional_if_required(&mut self)
        requires
            old(self).wf(),
        ensures
            final(self).data@ == spec_process_series(old(self).data@),
            final(self).ticker == old(self).ticker,
            final(self).version == old(self).version,
            final(self).latest_update == old(self).latest_update,
            final(self).wf(),
    {
        let ghost orig: StockReport = *self;
        let ghost processed: Seq<Report> = spec_process_series(orig.data@);
        proof {
            lemma_process_from_shape(orig.data@, None);
        }
        let n = self.data.len();
        let mut i: usize = 0;
        while i < n
            invariant
                i <= n,
                n == self.data@.len(),
                orig.data@.len() == n,
                processed == spec_process_series(orig.data@),
                processed.len() == n,
                self.ticker == orig.ticker,
                self.version == orig.version,
                self.latest_update == orig.latest_update,
                orig.wf(),
                forall|j: int| i <= j < n ==> self.data@[j] == orig.data@[j],
                forall|j: int| 0 <= j < i ==> self.data@[j] == processed[j],
                forall|j: int| 0 <= j < i ==> (#[trigger] self.data@[j]).wf(),
                forall|j: int| 0 <= j < i ==> (#[trigger] self.data@[j]).is_derived(),
            decreases n - i,
        {
            let ghost prev_spec: Option<Report> = if i == 0 {
                None
            } else {
                Some(self.data@[i - 1])
            };
            let prev: Option<Report> = if i == 0 {
                None
            } else {
                Some(self.data[i - 1])
            };
            let mut cur = self.data[i];
            cur.compute_optional_if_required(
                match &prev {
                    Some(p) => Some(p),
                    None => None,
                },
            );
            proof {
                lemma_process_from_index(orig.data@, None, i as int);
                assert(cur == spec_derive_report(orig.data@[i as int], prev_spec));
                assert(cur == processed[i as int]);
            }
            self.data[i] = cur;
            i = i + 1;
        }
        proof {
            assert(self.data@ =~= processed);
            assert(orig == *old(self));
        }
    }

    /// Takes in a freshly supplied series, stamps it with the current time
    /// when the caller gave none, and derives every report in it.
    pub fn from(report: StockReport) -> (r: StockReport)
        requires
            report.wf(),
        ensures
            r.ticker == report.ticker,
            r.version == report.version,
            (report.latest_update is Some ==> r.latest_update == report.latest_update),
            r.latest_update is Some,
            r.data@ == spec_process_series(report.data@),
            r.wf(),
    {
        let mut report = report;
        if report.latest_update.is_none() {
            report.latest_update = Some(now_timestamp());
        }
        report.compute_optional_if_required();
        report
    }

    /// Appends one newly supplied report to an already-derived series and
    /// derives it against the series' most recent report, which must be
    /// fully derived — the lookback the append case owes the new report.
    pub fn add_new_report(&mut self, report: Report)
        requires
            old(self).wf(),
            report.wf(),
            old(self).data@.len() > 0 ==> old(self).data@.last().is_derived(),
        ensures
            final(self).data@ == old(self).data@.push(
                spec_derive_report(
                    report,
                    if old(self).data@.len() == 0 {
                        None
                    } else {
                        Some(old(self).data@.last())
                    },
                ),
            ),
            final(self).ticker == old(self).ticker,
            final(self).version == old(self).version,
            final(self).latest_update == old(self).latest_update,
            final(self).wf(),
    {
        let n = self.data.len();
        let mut r = report;
        if n == 0 {
            r.compute_optional_if_required(None);
        } else {
            let last = self.data[n - 1];
            r.compute_optional_if_required(Some(&last));
        }
        self.data.push(r);
    }
}

} // verus!
