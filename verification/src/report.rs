use crate::balance::{spec_derive_balance, spec_yoy_balance, BalanceSheet};
use crate::cash_flow::{spec_derive_cash, spec_yoy_cash, CashFlowStatement};
use crate::income::{spec_derive_income, spec_yoy_income, IncomeStatement};
use crate::ratios::{spec_derive_ratios, FinancialRatios};
use vstd::prelude::*;

verus! {

/// One fiscal year's report: the four statement blocks, and the three
/// year-over-year blocks that are present exactly when a chronologically
/// preceding report was supplied while this one was processed.
#[derive(Clone, Copy, Debug, PartialEq)]
pub struct Report {
    pub year: i32,
    pub income_statement: IncomeStatement,
    pub income_statement_yoy: Option<IncomeStatement>,
    pub balance_sheet: BalanceSheet,
    pub balance_sheet_yoy: Option<BalanceSheet>,
    pub cash_flow_statement: CashFlowStatement,
    pub cash_flow_statement_yoy: Option<CashFlowStatement>,
    pub financial_ratios: FinancialRatios,
}

/// The preceding report, copied out of an optional reference.
pub open spec fn spec_opt_report(o: Option<&Report>) -> Option<Report> {
    match o {
        Some(r) => Some(*r),
        None => None,
    }
}

/// The fully derived form of one report. The three statements are derived
/// from their base fields (cash flow also reads the derived income
/// statement's `shares_outstanding_basic`, a base figure), the ratio block
/// from all three; the year-over-year blocks compare against `last`, the
/// fully derived preceding report, and are absent when there is none.
pub open spec fn spec_derive_report(r: Report, last: Option<Report>) -> Report {
    let income = spec_derive_income(r.income_statement);
    let balance = spec_derive_balance(r.balance_sheet);
    let cash = spec_derive_cash(r.cash_flow_statement, income);
    let ratios = spec_derive_ratios(
        r.financial_ratios,
        cash,
        income,
        balance,
        match last {
            Some(l) => Some(l.cash_flow_statement),
            None => None,
        },
    );
    Report {
        year: r.year,
        income_statement: income,
        income_statement_yoy: match last {
            Some(l) => Some(spec_yoy_income(income, l.income_statement)),
            None => None,
        },
        balance_sheet: balance,
        balance_sheet_yoy: match last {
            Some(l) => Some(spec_yoy_balance(balance, l.balance_sheet)),
            None => None,
        },
        cash_flow_statement: cash,
        cash_flow_statement_yoy: match last {
            Some(l) => Some(spec_yoy_cash(cash, l.cash_flow_statement)),
            None => None,
        },
        financial_ratios: ratios,
    }
}

impl Report {
    /// Every block holds well-formed values.
    pub open spec fn wf(self) -> bool {
        &&& self.income_statement.wf()
        &&& (self.income_statement_yoy matches Some(s) ==> s.wf())
        &&& self.balance_sheet.wf()
        &&& (self.balance_sheet_yoy matches Some(s) ==> s.wf())
        &&& self.cash_flow_statement.wf()
        &&& (self.cash_flow_statement_yoy matches Some(s) ==> s.wf())
        &&& self.financial_ratios.wf()
    }

    /// Every statement block has all of its derived fields computed.
    pub open spec fn is_derived(self) -> bool {
        &&& self.income_statement.is_derived()
        &&& self.balance_sheet.is_derived()
        &&& self.cash_flow_statement.is_derived()
        &&& self.financial_ratios.is_derived()
    }

    /// All three year-over-year blocks are present.
    pub open spec fn has_yoy(self) -> bool {
        &&& self.income_statement_yoy is Some
        &&& self.balance_sheet_yoy is Some
        &&& self.cash_flow_statement_yoy is Some
    }

    /// Derives this report in place: statement derivations first, then the
    /// ratio block, then the year-over-year blocks against `last_stock`.
    /// `last_stock`, when present, must be fully derived — reports are
    /// always processed in series order — and the year-over-year blocks are
    /// present afterwards exactly when it was.
    pub fn compute_optional_if_required(&mut self, last_stock: Option<&Report>)
        requires
            old(self).wf(),
            (last_stock matches Some(l) ==> l.wf() && l.is_derived()),
        ensures
            *final(self) == spec_derive_report(*old(self), spec_opt_report(last_stock)),
            final(self).wf(),
            final(self).is_derived(),
            final(self).has_yoy() <==> last_stock is Some,
    {
        self.income_statement.compute_optional_if_required();
        self.balance_sheet.compute_optional_if_required();
        let income = self.income_statement;
        self.cash_flow_statement.compute_optional_if_required(&income);
        let cash = self.cash_flow_statement;
        let balance = self.balance_sheet;
        self.financial_ratios.compute_optional_if_required(
            &cash,
            &income,
            &balance,
            match last_stock {
                Some(l) => Some(&l.cash_flow_statement),
                None => None,
            },
        );
        match last_stock {
            Some(last) => {
                self.income_statement_yoy = Some(
                    IncomeStatement::from_as_yoy(&self.income_statement, &last.income_statement),
                );
                self.balance_sheet_yoy = Some(
                    BalanceSheet::from_as_yoy(&self.balance_sheet, &last.balance_sheet),
                );
                self.cash_flow_statement_yoy = Some(
                    CashFlowStatement::from_as_yoy(
                        &self.cash_flow_statement,
                        &last.cash_flow_statement,
                    ),
                );
            },
            None => {
                self.income_statement_yoy = None;
                self.balance_sheet_yoy = None;
                self.cash_flow_statement_yoy = None;
            },
        }
    }
}

} // verus!
