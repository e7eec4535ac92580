use crate::income::IncomeStatement;
use crate::rational::{opt_wf, spec_div, spec_sub, Num};
use vstd::prelude::*;

verus! {

/// One fiscal year's cash-flow statement: caller-supplied base figures and
/// the derived fields the engine recomputes on every pass.
#[derive(Clone, Copy, Debug, PartialEq)]
pub struct CashFlowStatement {
    pub operating_cash_flow: Num,
    pub investing_cash_flow: Num,
    pub capital_expenditure: Num,
    pub financing_cash_flow: Num,
    pub dividends_paid: Num,
    pub dividends_per_share: Num,
    pub free_cash_flow: Option<Num>,
    pub fcf_per_share: Option<Num>,
}

/// The derived cash-flow statement. It needs one figure from the sibling
/// income statement: `shares_outstanding_basic`.
///
/// `fcf_per_share` is the difference `free_cash_flow -
/// shares_outstanding_basic`, not a quotient, kept exactly as the formula
/// stands.
pub open spec fn spec_derive_cash(s: CashFlowStatement, in_state: IncomeStatement) -> CashFlowStatement {
    let free_cash_flow = spec_sub(s.operating_cash_flow, s.capital_expenditure);
    let fcf_per_share = spec_sub(free_cash_flow, in_state.shares_outstanding_basic);
    CashFlowStatement {
        free_cash_flow: Some(free_cash_flow),
        fcf_per_share: Some(fcf_per_share),
        ..s
    }
}

/// The year-over-year comparison of two derived cash-flow statements: every
/// field becomes the plain ratio `current / last`, without the `- 1`
/// offset the other statement types carry.
pub open spec fn spec_yoy_cash(current: CashFlowStatement, last: CashFlowStatement) -> CashFlowStatement {
    CashFlowStatement {
        operating_cash_flow: spec_div(current.operating_cash_flow, last.operating_cash_flow),
        investing_cash_flow: spec_div(current.investing_cash_flow, last.investing_cash_flow),
        capital_expenditure: spec_div(current.capital_expenditure, last.capital_expenditure),
        financing_cash_flow: spec_div(current.financing_cash_flow, last.financing_cash_flow),
        dividends_paid: spec_div(current.dividends_paid, last.dividends_paid),
        dividends_per_share: spec_div(current.dividends_per_share, last.dividends_per_share),
        free_cash_flow: Some(spec_div(current.free_cash_flow.unwrap(), last.free_cash_flow.unwrap())),
        fcf_per_share: Some(spec_div(current.fcf_per_share.unwrap(), last.fcf_per_share.unwrap())),
    }
}

impl CashFlowStatement {
    /// Every field holds a well-formed value.
    pub open spec fn wf(self) -> bool {
        &&& self.operating_cash_flow.wf()
        &&& self.investing_cash_flow.wf()
        &&& self.capital_expenditure.wf()
        &&& self.financing_cash_flow.wf()
        &&& self.dividends_paid.wf()
        &&& self.dividends_per_share.wf()
        &&& opt_wf(self.free_cash_flow)
        &&& opt_wf(self.fcf_per_share)
    }

    /// Every derived field has been computed.
    pub open spec fn is_derived(self) -> bool {
        &&& self.free_cash_flow is Some
        &&& self.fcf_per_share is Some
    }

    /// Populates the derived fields, overwriting any values already
    /// present. `in_state` is the sibling income statement of the same
    /// report, read only for `shares_outstanding_basic`.
    pub fn compute_optional_if_required(&mut self, in_state: &IncomeStatement)
        requires
            old(self).wf(),
            in_state.wf(),
        ensures
            *final(self) == spec_derive_cash(*old(self), *in_state),
            final(self).wf(),
            final(self).is_derived(),
    {
        let fcf = self.operating_cash_flow.sub(self.capital_expenditure);
        self.free_cash_flow = Some(fcf);
        self.fcf_per_share = Some(fcf.sub(in_state.shares_outstanding_basic));
    }

    /// The year-over-year comparison of `current` against the preceding
    /// year's `last`: each field becomes the plain ratio `current / last`.
    /// Both inputs must already be derived.
    pub fn from_as_yoy(current: &CashFlowStatement, last: &CashFlowStatement) -> (r: CashFlowStatement)
        requires
            current.wf(),
            last.wf(),
            current.is_derived(),
            last.is_derived(),
        ensures
            r == spec_yoy_cash(*current, *last),
            r.wf(),
            r.is_derived(),
    {
        CashFlowStatement {
            operating_cash_flow: current.operating_cash_flow.div(last.operating_cash_flow),
            investing_cash_flow: current.investing_cash_flow.div(last.investing_cash_flow),
            capital_expenditure: current.capital_expenditure.div(last.capital_expenditure),
            financing_cash_flow: current.financing_cash_flow.div(last.financing_cash_flow),
            dividends_paid: current.dividends_paid.div(last.dividends_paid),
            dividends_per_share: current.dividends_per_share.div(last.dividends_per_share),
            free_cash_flow: Some(
                current.free_cash_flow.unwrap().div(last.free_cash_flow.unwrap()),
            ),
            fcf_per_share: Some(current.fcf_per_share.unwrap().div(last.fcf_per_share.unwrap())),
        }
    }
}

} // verus!
