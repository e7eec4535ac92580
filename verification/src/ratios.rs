use crate::balance::BalanceSheet;
use crate::cash_flow::CashFlowStatement;
use crate::income::IncomeStatement;
use crate::rational::{opt_wf, spec_div, Num};
use vstd::prelude::*;

verus! {

/// One fiscal year's financial-ratio block. `avg_share_price` is the only
/// base figure; the rest are derived from the report's three statements,
/// and `dividend_growth_rate` additionally needs the preceding report.
#[derive(Clone, Copy, Debug, PartialEq)]
pub struct FinancialRatios {
    pub avg_share_price: Num,
    pub avg_yield: Option<Num>,
    pub dividend_growth_rate: Option<Num>,
    pub eps_payout_ratio: Option<Num>,
    pub fcf_payout_ratio: Option<Num>,
    pub pe_ratio: Option<Num>,
    pub return_on_equity: Option<Num>,
    pub price_to_ebit: Option<Num>,
    pub price_to_opcf: Option<Num>,
    pub price_to_fcf: Option<Num>,
}

/// The preceding report's cash-flow statement, copied out of an optional
/// reference.
pub open spec fn spec_opt_cash(o: Option<&CashFlowStatement>) -> Option<CashFlowStatement> {
    match o {
        Some(c) => Some(*c),
        None => None,
    }
}

/// The derived ratio block for one report, computed from the report's own
/// derived statements. `dividend_growth_rate` compares against the
/// preceding report's cash-flow statement and is absent for the first
/// report of a series.
pub open spec fn spec_derive_ratios(
    r: FinancialRatios,
    cfs: CashFlowStatement,
    inc: IncomeStatement,
    bs: BalanceSheet,
    last_cfs: Option<CashFlowStatement>,
) -> FinancialRatios {
    FinancialRatios {
        avg_share_price: r.avg_share_price,
        avg_yield: Some(spec_div(cfs.dividends_per_share, r.avg_share_price)),
        dividend_growth_rate: match last_cfs {
            Some(l) => Some(spec_div(cfs.dividends_per_share, l.dividends_per_share)),
            None => None,
        },
        eps_payout_ratio: Some(spec_div(cfs.dividends_per_share, inc.eps_basic)),
        fcf_payout_ratio: Some(spec_div(cfs.dividends_per_share, cfs.free_cash_flow.unwrap())),
        pe_ratio: Some(spec_div(r.avg_share_price, inc.eps_basic)),
        return_on_equity: Some(spec_div(inc.net_income, bs.total_equity.unwrap())),
        price_to_ebit: Some(spec_div(r.avg_share_price, inc.operating_income.unwrap())),
        price_to_opcf: Some(spec_div(r.avg_share_price, cfs.operating_cash_flow)),
        price_to_fcf: Some(spec_div(r.avg_share_price, cfs.free_cash_flow.unwrap())),
    }
}

impl FinancialRatios {
    /// Every field holds a well-formed value.
    pub open spec fn wf(self) -> bool {
        &&& self.avg_share_price.wf()
        &&& opt_wf(self.avg_yield)
        &&& opt_wf(self.dividend_growth_rate)
        &&& opt_wf(self.eps_payout_ratio)
        &&& opt_wf(self.fcf_payout_ratio)
        &&& opt_wf(self.pe_ratio)
        &&& opt_wf(self.return_on_equity)
        &&& opt_wf(self.price_to_ebit)
        &&& opt_wf(self.price_to_opcf)
        &&& opt_wf(self.price_to_fcf)
    }

    /// Every derived field except `dividend_growth_rate` has been computed;
    /// that one is present only when a preceding report was.
    pub open spec fn is_derived(self) -> bool {
        &&& self.avg_yield is Some
        &&& self.eps_payout_ratio is Some
        &&& self.fcf_payout_ratio is Some
        &&& self.pe_ratio is Some
        &&& self.return_on_equity is Some
        &&& self.price_to_ebit is Some
        &&& self.price_to_opcf is Some
        &&& self.price_to_fcf is Some
    }

    /// Populates the derived ratios from the report's three already-derived
    /// statements, overwriting any values already present.
    /// `dividend_growth_rate` is set only when the preceding report's
    /// cash-flow statement is supplied, and cleared otherwise. Handing this
    /// function an underived statement is a contract violation of the
    /// series processor.
    pub fn compute_optional_if_required(
        &mut self,
        current_cfs: &CashFlowStatement,
        in_state: &IncomeStatement,
        bl_sheet: &BalanceSheet,
        last_cfs: Option<&CashFlowStatement>,
    )
        requires
            old(self).wf(),
            current_cfs.wf(),
            current_cfs.is_derived(),
            in_state.wf(),
            in_state.is_derived(),
            bl_sheet.wf(),
            bl_sheet.is_derived(),
            (last_cfs matches Some(l) ==> l.wf()),
        ensures
            *final(self) == spec_derive_ratios(
                *old(self),
                *current_cfs,
                *in_state,
                *bl_sheet,
                spec_opt_cash(last_cfs),
            ),
            final(self).wf(),
            final(self).is_derived(),
            final(self).dividend_growth_rate is Some <==> last_cfs is Some,
    {
        self.avg_yield = Some(current_cfs.dividends_per_share.div(self.avg_share_price));
        self.dividend_growth_rate = match last_cfs {
            Some(l) => Some(current_cfs.dividends_per_share.div(l.dividends_per_share)),
            None => None,
        };
        self.eps_payout_ratio = Some(current_cfs.dividends_per_share.div(in_state.eps_basic));
        self.fcf_payout_ratio = Some(
            current_cfs.dividends_per_share.div(current_cfs.free_cash_flow.unwrap()),
        );
        self.pe_ratio = Some(self.avg_share_price.div(in_state.eps_basic));
        self.return_on_equity = Some(in_state.net_income.div(bl_sheet.total_equity.unwrap()));
        self.price_to_ebit = Some(self.avg_share_price.div(in_state.operating_income.unwrap()));
        self.price_to_opcf = Some(self.avg_share_price.div(current_cfs.operating_cash_flow));
        self.price_to_fcf = Some(self.avg_share_price.div(current_cfs.free_cash_flow.unwrap()));
    }
}

} // verus!
