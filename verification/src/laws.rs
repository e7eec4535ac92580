use crate::balance::spec_derive_balance;
use crate::balance::BalanceSheet;
use crate::income::spec_derive_income;
use crate::income::IncomeStatement;
use crate::rational::{
    lemma_add_value, lemma_div_value, lemma_ops_wf, lemma_sub_value, spec_add, spec_div, spec_sub,
    Num,
};
use crate::report::{spec_derive_report, Report};
use crate::series::{
    lemma_process_from_index, lemma_process_from_shape, spec_process_from, spec_process_series,
};
use vstd::prelude::*;

verus! {

/// For any income statement, the derived `operating_profit_margin` is
/// exactly the quotient of the derived `operating_income` by `revenue`,
/// and the derived `net_profit_margin` is exactly the quotient of
/// `net_income` by `revenue` — exactly meaning that whenever revenue is a
/// nonzero finite value and the quotient came out finite,
/// cross-multiplication of the fractions agrees.
pub proof fn lemma_income_margins(s: IncomeStatement)
    requires
        s.wf(),
    ensures
        spec_derive_income(s).operating_profit_margin == Some(
            spec_div(spec_derive_income(s).operating_income.unwrap(), s.revenue),
        ),
        spec_derive_income(s).net_profit_margin == Some(spec_div(s.net_income, s.revenue)),
        (s.revenue is Finite && s.revenue->num != 0 && spec_derive_income(
            s,
        ).operating_income.unwrap() is Finite && spec_derive_income(
            s,
        ).operating_profit_margin.unwrap() is Finite) ==> spec_derive_income(
            s,
        ).operating_profit_margin.unwrap()->num * (spec_derive_income(
            s,
        ).operating_income.unwrap()->den * s.revenue->num) == (spec_derive_income(
            s,
        ).operating_income.unwrap()->num * s.revenue->den) * spec_derive_income(
            s,
        ).operating_profit_margin.unwrap()->den,
        (s.revenue is Finite && s.revenue->num != 0 && s.net_income is Finite
            && spec_derive_income(s).net_profit_margin.unwrap() is Finite) ==> spec_derive_income(
            s,
        ).net_profit_margin.unwrap()->num * (s.net_income->den * s.revenue->num) == (
        s.net_income->num * s.revenue->den) * spec_derive_income(
            s,
        ).net_profit_margin.unwrap()->den,
{
    let gross_profit = spec_sub(s.revenue, s.total_cogs);
    let operating_income = spec_sub(gross_profit, s.operating_expense);
    lemma_ops_wf(gross_profit, s.operating_expense);
    lemma_div_value(operating_income, s.revenue);
    lemma_div_value(s.net_income, s.revenue);
}

/// For every derived balance sheet, `total_debt` is exactly the sum of
/// `short_term_debt` and `long_term_debt`, and `total_equity` exactly the
/// sum of `total_assets` and `total_liabilities` — the sum, not the
/// conventional difference, as the formula stands. Exactly: whenever the
/// operands are finite and the sum came out finite, cross-multiplication
/// of the fractions agrees.
pub proof fn lemma_balance_identities(s: BalanceSheet)
    requires
        s.wf(),
    ensures
        spec_derive_balance(s).total_debt == Some(
            spec_add(s.short_term_debt, s.long_term_debt),
        ),
        spec_derive_balance(s).total_equity == Some(
            spec_add(s.total_assets, s.total_liabilities),
        ),
        (s.short_term_debt is Finite && s.long_term_debt is Finite && spec_derive_balance(
            s,
        ).total_debt.unwrap() is Finite) ==> spec_derive_balance(s).total_debt.unwrap()->num * (
        s.short_term_debt->den * s.long_term_debt->den) == (s.short_term_debt->num
            * s.long_term_debt->den + s.long_term_debt->num * s.short_term_debt->den)
            * spec_derive_balance(s).total_debt.unwrap()->den,
        (s.total_assets is Finite && s.total_liabilities is Finite && spec_derive_balance(
            s,
        ).total_equity.unwrap() is Finite) ==> spec_derive_balance(s).total_equity.unwrap()->num
            * (s.total_assets->den * s.total_liabilities->den) == (s.total_assets->num
            * s.total_liabilities->den + s.total_liabilities->num * s.total_assets->den)
            * spec_derive_balance(s).total_equity.unwrap()->den,
{
    lemma_add_value(s.short_term_debt, s.long_term_debt);
    lemma_add_value(s.total_assets, s.total_liabilities);
}

/// For a two-report series, the later report's income-statement
/// year-over-year block holds the fractional change of revenue:
/// `revenue2 / revenue1 - 1` — and exactly so: when the revenue ratio and
/// the change are finite, the change denotes the ratio less one, by
/// cross-multiplication.
pub proof fn lemma_two_report_income_yoy(r1: Report, r2: Report)
    ensures
        spec_process_series(seq![r1, r2]).len() == 2,
        spec_process_series(seq![r1, r2])[1].income_statement_yoy is Some,
        spec_process_series(seq![r1, r2])[1].income_statement_yoy.unwrap().revenue == spec_sub(
            spec_div(r2.income_statement.revenue, r1.income_statement.revenue),
            (Num::Finite { num: 1, den: 1 }),
        ),
        (spec_div(r2.income_statement.revenue, r1.income_statement.revenue) is Finite
            && spec_process_series(
            seq![r1, r2],
        )[1].income_statement_yoy.unwrap().revenue is Finite) ==> spec_process_series(
            seq![r1, r2],
        )[1].income_statement_yoy.unwrap().revenue->num * spec_div(
            r2.income_statement.revenue,
            r1.income_statement.revenue,
        )->den == (spec_div(r2.income_statement.revenue, r1.income_statement.revenue)->num
            - spec_div(r2.income_statement.revenue, r1.income_statement.revenue)->den)
            * spec_process_series(seq![r1, r2])[1].income_statement_yoy.unwrap().revenue->den,
{
    let rs = seq![r1, r2];
    lemma_process_from_shape(rs, None);
    lemma_process_from_index(rs, None, 0);
    lemma_process_from_index(rs, None, 1);
    let ratio = spec_div(r2.income_statement.revenue, r1.income_statement.revenue);
    lemma_ops_wf(r2.income_statement.revenue, r1.income_statement.revenue);
    lemma_sub_value(ratio, (Num::Finite { num: 1, den: 1 }));
}

/// For the same two-report series, the later report's cash-flow
/// year-over-year block holds the plain ratio of operating cash flow:
/// `operating_cash_flow2 / operating_cash_flow1`, with no `- 1` offset.
pub proof fn lemma_two_report_cash_yoy(r1: Report, r2: Report)
    ensures
        spec_process_series(seq![r1, r2]).len() == 2,
        spec_process_series(seq![r1, r2])[1].cash_flow_statement_yoy is Some,
        spec_process_series(seq![r1, r2])[1].cash_flow_statement_yoy.unwrap().operating_cash_flow
            == spec_div(
            r2.cash_flow_statement.operating_cash_flow,
            r1.cash_flow_statement.operating_cash_flow,
        ),
{
    let rs = seq![r1, r2];
    lemma_process_from_shape(rs, None);
    lemma_process_from_index(rs, None, 0);
    lemma_process_from_index(rs, None, 1);
}

/// A single-report series gets no year-over-year blocks and no
/// `dividend_growth_rate`, while every other derived field, statement- and
/// ratio-level, is populated.
pub proof fn lemma_single_report_series(r: Report)
    ensures
        spec_process_series(seq![r]).len() == 1,
        spec_process_series(seq![r])[0].income_statement_yoy is None,
        spec_process_series(seq![r])[0].balance_sheet_yoy is None,
        spec_process_series(seq![r])[0].cash_flow_statement_yoy is None,
        spec_process_series(seq![r])[0].financial_ratios.dividend_growth_rate is None,
        spec_process_series(seq![r])[0].is_derived(),
{
    lemma_process_from_shape(seq![r], None);
    lemma_process_from_index(seq![r], None, 0);
}

/// Derivation is idempotent: deriving an already-derived report against
/// the same predecessor reproduces it bit for bit, because every derived
/// field is recomputed from the base fields alone and overwritten.
pub proof fn lemma_derive_report_idempotent(r: Report, last: Option<Report>)
    ensures
        spec_derive_report(spec_derive_report(r, last), last) == spec_derive_report(r, last),
{
}

/// Idempotence lifts to whole series: processing an already-processed
/// series reproduces it bit for bit.
pub proof fn lemma_process_series_idempotent(rs: Seq<Report>)
    ensures
        spec_process_series(spec_process_series(rs)) == spec_process_series(rs),
{
    lemma_process_from_idempotent(rs, None);
}

/// The fold's idempotence, for any predecessor the fold starts from.
proof fn lemma_process_from_idempotent(rs: Seq<Report>, last: Option<Report>)
    ensures
        spec_process_from(spec_process_from(rs, last), last) == spec_process_from(rs, last),
    decreases rs.len(),
{
    if rs.len() > 0 {
        let d = spec_derive_report(rs[0], last);
        let p = spec_process_from(rs, last);
        lemma_process_from_shape(rs, last);
        lemma_derive_report_idempotent(rs[0], last);
        assert(p[0] == d);
        assert(p.drop_first() =~= spec_process_from(rs.drop_first(), Some(d)));
        lemma_process_from_idempotent(rs.drop_first(), Some(d));
        assert(spec_process_from(p, last) =~= p);
    }
}

} // verus!
