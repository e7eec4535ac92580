use crate::rational::{opt_wf, spec_div, spec_sub, Num};
use vstd::prelude::*;

verus! {

/// One fiscal year's income statement. The plain `Num` fields are base
/// figures the caller supplies; the `Option<Num>` fields are derived and
/// overwritten on every derivation pass.
#[derive(Clone, Copy, Debug, PartialEq)]
pub struct IncomeStatement {
    pub revenue: Num,
    pub total_cogs: Num,
    pub gross_profit: Option<Num>,
    pub gross_profit_margin: Option<Num>,
    pub operating_expense: Num,
    pub operating_income: Option<Num>,
    pub operating_profit_margin: Option<Num>,
    pub interest_expense: Num,
    pub net_income: Num,
    pub net_profit_margin: Option<Num>,
    pub eps_basic: Num,
    pub shares_outstanding_basic: Num,
}

/// The derived income statement: the base fields are kept and every derived
/// field is recomputed from them.
///
/// `gross_profit_margin` is the difference `gross_profit - total_cogs`, not
/// a ratio, kept exactly as the formula stands.
pub open spec fn spec_derive_income(s: IncomeStatement) -> IncomeStatement {
    let gross_profit = spec_sub(s.revenue, s.total_cogs);
    let gross_profit_margin = spec_sub(gross_profit, s.total_cogs);
    let operating_income = spec_sub(gross_profit, s.operating_expense);
    let operating_profit_margin = spec_div(operating_income, s.revenue);
    let net_profit_margin = spec_div(s.net_income, s.revenue);
    IncomeStatement {
        gross_profit: Some(gross_profit),
        gross_profit_margin: Some(gross_profit_margin),
        operating_income: Some(operating_income),
        operating_profit_margin: Some(operating_profit_margin),
        net_profit_margin: Some(net_profit_margin),
        ..s
    }
}

/// The year-over-year comparison of two derived income statements: every
/// field, base and derived, becomes the fractional change
/// `current / last - 1`.
pub open spec fn spec_yoy_income(current: IncomeStatement, last: IncomeStatement) -> IncomeStatement {
    let one = Num::Finite { num: 1, den: 1 };
    IncomeStatement {
        revenue: spec_sub(spec_div(current.revenue, last.revenue), one),
        total_cogs: spec_sub(spec_div(current.total_cogs, last.total_cogs), one),
        gross_profit: Some(
            spec_sub(spec_div(current.gross_profit.unwrap(), last.gross_profit.unwrap()), one),
        ),
        gross_profit_margin: Some(
            spec_sub(
                spec_div(current.gross_profit_margin.unwrap(), last.gross_profit_margin.unwrap()),
                one,
            ),
        ),
        operating_expense: spec_sub(
            spec_div(current.operating_expense, last.operating_expense),
            one,
        ),
        operating_income: Some(
            spec_sub(
                spec_div(current.operating_income.unwrap(), last.operating_income.unwrap()),
                one,
            ),
        ),
        operating_profit_margin: Some(
            spec_sub(
                spec_div(
                    current.operating_profit_margin.unwrap(),
                    last.operating_profit_margin.unwrap(),
                ),
                one,
            ),
        ),
        interest_expense: spec_sub(spec_div(current.interest_expense, last.interest_expense), one),
        net_income: spec_sub(spec_div(current.net_income, last.net_income), one),
        net_profit_margin: Some(
            spec_sub(
                spec_div(current.net_profit_margin.unwrap(), last.net_profit_margin.unwrap()),
                one,
            ),
        ),
        eps_basic: spec_sub(spec_div(current.eps_basic, last.eps_basic), one),
        shares_outstanding_basic: spec_sub(
            spec_div(current.shares_outstanding_basic, last.shares_outstanding_basic),
            one,
        ),
    }
}

impl IncomeStatement {
    /// Every field holds a well-formed value.
    pub open spec fn wf(self) -> bool {
        &&& self.revenue.wf()
        &&& self.total_cogs.wf()
        &&& opt_wf(self.gross_profit)
        &&& opt_wf(self.gross_profit_margin)
        &&& self.operating_expense.wf()
        &&& opt_wf(self.operating_income)
        &&& opt_wf(self.operating_profit_margin)
        &&& self.interest_expense.wf()
        &&& self.net_income.wf()
        &&& opt_wf(self.net_profit_margin)
        &&& self.eps_basic.wf()
        &&& self.shares_outstanding_basic.wf()
    }

    /// Every derived field has been computed.
    pub open spec fn is_derived(self) -> bool {
        &&& self.gross_profit is Some
        &&& self.gross_profit_margin is Some
        &&& self.operating_income is Some
        &&& self.operating_profit_margin is Some
        &&& self.net_profit_margin is Some
    }

    /// Populates the derived fields from the base fields, overwriting any
    /// values already present.
    pub fn compute_optional_if_required(&mut self)
        requires
            old(self).wf(),
        ensures
            *final(self) == spec_derive_income(*old(self)),
            final(self).wf(),
            final(self).is_derived(),
    {
        let gross_profit = self.revenue.sub(self.total_cogs);
        self.gross_profit = Some(gross_profit);
        self.gross_profit_margin = Some(gross_profit.sub(self.total_cogs));
        let operating_income = gross_profit.sub(self.operating_expense);
        self.operating_income = Some(operating_income);
        self.operating_profit_margin = Some(operating_income.div(self.revenue));
        self.net_profit_margin = Some(self.net_income.div(self.revenue));
    }

    /// The year-over-year comparison of `current` against the preceding
    /// year's `last`: each field becomes `current / last - 1`. Both inputs
    /// must already be derived; handing this function an underived
    /// statement is a contract violation of the series processor.
    pub fn from_as_yoy(current: &IncomeStatement, last: &IncomeStatement) -> (r: IncomeStatement)
        requires
            current.wf(),
            last.wf(),
            current.is_derived(),
            last.is_derived(),
        ensures
            r == spec_yoy_income(*current, *last),
            r.wf(),
            r.is_derived(),
    {
        let one = Num::from_int(1);
        IncomeStatement {
            revenue: current.revenue.div(last.revenue).sub(one),
            total_cogs: current.total_cogs.div(last.total_cogs).sub(one),
            gross_profit: Some(
                current.gross_profit.unwrap().div(last.gross_profit.unwrap()).sub(one),
            ),
            gross_profit_margin: Some(
                current.gross_profit_margin.unwrap().div(last.gross_profit_margin.unwrap()).sub(
                    one,
                ),
            ),
            operating_expense: current.operating_expense.div(last.operating_expense).sub(one),
            operating_income: Some(
                current.operating_income.unwrap().div(last.operating_income.unwrap()).sub(one),
            ),
            operating_profit_margin: Some(
                current.operating_profit_margin.unwrap().div(
                    last.operating_profit_margin.unwrap(),
                ).sub(one),
            ),
            interest_expense: current.interest_expense.div(last.interest_expense).sub(one),
            net_income: current.net_income.div(last.net_income).sub(one),
            net_profit_margin: Some(
                current.net_profit_margin.unwrap().div(last.net_profit_margin.unwrap()).sub(one),
            ),
            eps_basic: current.eps_basic.div(last.eps_basic).sub(one),
            shares_outstanding_basic: current.shares_outstanding_basic.div(
                last.shares_outstanding_basic,
            ).sub(one),
        }
    }
}

} // verus!
