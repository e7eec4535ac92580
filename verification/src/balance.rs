use crate::rational::{opt_wf, spec_add, spec_div, spec_sub, Num};
use vstd::prelude::*;

verus! {

/// One fiscal year's balance sheet: caller-supplied base figures and the
/// derived fields the engine recomputes on every pass.
#[derive(Clone, Copy, Debug, PartialEq)]
pub struct BalanceSheet {
    pub cash_and_equivalents: Num,
    pub total_assets: Num,
    pub short_term_debt: Num,
    pub long_term_debt: Num,
    pub total_liabilities: Num,
    pub total_debt: Option<Num>,
    pub total_equity: Option<Num>,
    pub debt_to_capital: Option<Num>,
}

/// The derived balance sheet.
///
/// `total_equity` is the sum `total_assets + total_liabilities`, not the
/// conventional difference, kept exactly as the formula stands.
pub open spec fn spec_derive_balance(s: BalanceSheet) -> BalanceSheet {
    let total_debt = spec_add(s.short_term_debt, s.long_term_debt);
    let total_equity = spec_add(s.total_assets, s.total_liabilities);
    let debt_to_capital = spec_div(total_debt, spec_add(total_debt, total_equity));
    BalanceSheet {
        total_debt: Some(total_debt),
        total_equity: Some(total_equity),
        debt_to_capital: Some(debt_to_capital),
        ..s
    }
}

/// The year-over-year comparison of two derived balance sheets: every
/// field, base and derived, becomes the fractional change
/// `current / last - 1`.
pub open spec fn spec_yoy_balance(current: BalanceSheet, last: BalanceSheet) -> BalanceSheet {
    let one = Num::Finite { num: 1, den: 1 };
    BalanceSheet {
        cash_and_equivalents: spec_sub(
            spec_div(current.cash_and_equivalents, last.cash_and_equivalents),
            one,
        ),
        total_assets: spec_sub(spec_div(current.total_assets, last.total_assets), one),
        short_term_debt: spec_sub(spec_div(current.short_term_debt, last.short_term_debt), one),
        long_term_debt: spec_sub(spec_div(current.long_term_debt, last.long_term_debt), one),
        total_liabilities: spec_sub(
            spec_div(current.total_liabilities, last.total_liabilities),
            one,
        ),
        total_debt: Some(
            spec_sub(spec_div(current.total_debt.unwrap(), last.total_debt.unwrap()), one),
        ),
        total_equity: Some(
            spec_sub(spec_div(current.total_equity.unwrap(), last.total_equity.unwrap()), one),
        ),
        debt_to_capital: Some(
            spec_sub(
                spec_div(current.debt_to_capital.unwrap(), last.debt_to_capital.unwrap()),
                one,
            ),
        ),
    }
}

impl BalanceSheet {
    /// Every field holds a well-formed value.
    pub open spec fn wf(self) -> bool {
        &&& self.cash_and_equivalents.wf()
        &&& self.total_assets.wf()
        &&& self.short_term_debt.wf()
        &&& self.long_term_debt.wf()
        &&& self.total_liabilities.wf()
        &&& opt_wf(self.total_debt)
        &&& opt_wf(self.total_equity)
        &&& opt_wf(self.debt_to_capital)
    }

    /// Every derived field has been computed.
    pub open spec fn is_derived(self) -> bool {
        &&& self.total_debt is Some
        &&& self.total_equity is Some
        &&& self.debt_to_capital is Some
    }

    /// Populates the derived fields from the base fields, overwriting any
    /// values already present.
    pub fn compute_optional_if_required(&mut self)
        requires
            old(self).wf(),
        ensures
            *final(self) == spec_derive_balance(*old(self)),
            final(self).wf(),
            final(self).is_derived(),
    {
        let total_debt = self.short_term_debt.add(self.long_term_debt);
        self.total_debt = Some(total_debt);
        let total_equity = self.total_assets.add(self.total_liabilities);
        self.total_equity = Some(total_equity);
        self.debt_to_capital = Some(total_debt.div(total_debt.add(total_equity)));
    }

    /// The year-over-year comparison of `current` against the preceding
    /// year's `last`: each field becomes `current / last - 1`. Both inputs
    /// must already be derived.
    pub fn from_as_yoy(current: &BalanceSheet, last: &BalanceSheet) -> (r: BalanceSheet)
        requires
            current.wf(),
            last.wf(),
            current.is_derived(),
            last.is_derived(),
        ensures
            r == spec_yoy_balance(*current, *last),
            r.wf(),
            r.is_derived(),
    {
        let one = Num::from_int(1);
        BalanceSheet {
            cash_and_equivalents: current.cash_and_equivalents.div(last.cash_and_equivalents).sub(
                one,
            ),
            total_assets: current.total_assets.div(last.total_assets).sub(one),
            short_term_debt: current.short_term_debt.div(last.short_term_debt).sub(one),
            long_term_debt: current.long_term_debt.div(last.long_term_debt).sub(one),
            total_liabilities: current.total_liabilities.div(last.total_liabilities).sub(one),
            total_debt: Some(current.total_debt.unwrap().div(last.total_debt.unwrap()).sub(one)),
            total_equity: Some(
                current.total_equity.unwrap().div(last.total_equity.unwrap()).sub(one),
            ),
            debt_to_capital: Some(
                current.debt_to_capital.unwrap().div(last.debt_to_capital.unwrap()).sub(one),
            ),
        }
    }
}

} // verus!
