use stock_new_report::balance::BalanceSheet;
use stock_new_report::cash_flow::CashFlowStatement;
use stock_new_report::income::IncomeStatement;
use stock_new_report::rational::Num;
use stock_new_report::ratios::FinancialRatios;
use stock_new_report::report::Report;
use stock_new_report::series::StockReport;

fn n(i: i64) -> Num {
    Num::from_int(i)
}

fn income(revenue: i64, total_cogs: i64, operating_expense: i64, net_income: i64, eps_basic: i64, shares: i64) -> IncomeStatement {
    IncomeStatement {
        revenue: n(revenue),
        total_cogs: n(total_cogs),
        gross_profit: None,
        gross_profit_margin: None,
        operating_expense: n(operating_expense),
        operating_income: None,
        operating_profit_margin: None,
        interest_expense: n(25),
        net_income: n(net_income),
        net_profit_margin: None,
        eps_basic: n(eps_basic),
        shares_outstanding_basic: n(shares),
    }
}

fn balance(total_assets: i64, short_term_debt: i64, long_term_debt: i64, total_liabilities: i64) -> BalanceSheet {
    BalanceSheet {
        cash_and_equivalents: n(120),
        total_assets: n(total_assets),
        short_term_debt: n(short_term_debt),
        long_term_debt: n(long_term_debt),
        total_liabilities: n(total_liabilities),
        total_debt: None,
        total_equity: None,
        debt_to_capital: None,
    }
}

fn cash(operating_cash_flow: i64, capital_expenditure: i64, dividends_per_share: i64) -> CashFlowStatement {
    CashFlowStatement {
        operating_cash_flow: n(operating_cash_flow),
        investing_cash_flow: n(-30),
        capital_expenditure: n(capital_expenditure),
        financing_cash_flow: n(-20),
        dividends_paid: n(40),
        dividends_per_share: n(dividends_per_share),
        free_cash_flow: None,
        fcf_per_share: None,
    }
}

fn ratios(avg_share_price: i64) -> FinancialRatios {
    FinancialRatios {
        avg_share_price: n(avg_share_price),
        avg_yield: None,
        dividend_growth_rate: None,
        eps_payout_ratio: None,
        fcf_payout_ratio: None,
        pe_ratio: None,
        return_on_equity: None,
        price_to_ebit: None,
        price_to_opcf: None,
        price_to_fcf: None,
    }
}

fn report(year: i32, inc: IncomeStatement, bs: BalanceSheet, cfs: CashFlowStatement, fr: FinancialRatios) -> Report {
    Report {
        year,
        income_statement: inc,
        income_statement_yoy: None,
        balance_sheet: bs,
        balance_sheet_yoy: None,
        cash_flow_statement: cfs,
        cash_flow_statement_yoy: None,
        financial_ratios: fr,
    }
}

fn sample_report(year: i32) -> Report {
    report(
        year,
        income(1000, 400, 200, 150, 4, 10),
        balance(500, 30, 70, 300),
        cash(100, 40, 2),
        ratios(50),
    )
}

#[test]
fn income_statement_concrete_scenario() {
    let mut s = income(1000, 400, 200, 150, 4, 10);
    s.compute_optional_if_required();
    assert_eq!(s.gross_profit, Some(n(600)));
    assert_eq!(s.gross_profit_margin, Some(n(200)));
    assert_eq!(s.operating_income, Some(n(400)));
    assert_eq!(s.operating_profit_margin, Some(Num::new(2, 5)));
    assert_eq!(s.net_profit_margin, Some(Num::new(3, 20)));
    assert_eq!(s.revenue, n(1000));
    assert_eq!(s.total_cogs, n(400));
}

#[test]
fn income_margins_are_exact_quotients() {
    let mut s = income(700, 300, 100, 210, 4, 10);
    s.compute_optional_if_required();
    assert_eq!(s.operating_profit_margin, Some(Num::new(300, 700)));
    assert_eq!(s.net_profit_margin, Some(Num::new(210, 700)));
}

#[test]
fn balance_sheet_identities() {
    let mut s = balance(500, 30, 70, 300);
    s.compute_optional_if_required();
    assert_eq!(s.total_debt, Some(n(100)));
    assert_eq!(s.total_equity, Some(n(800)));
    assert_eq!(s.debt_to_capital, Some(Num::new(100, 900)));
}

#[test]
fn cash_flow_derivation() {
    let mut s = cash(100, 40, 2);
    let inc = income(1000, 400, 200, 150, 4, 10);
    s.compute_optional_if_required(&inc);
    assert_eq!(s.free_cash_flow, Some(n(60)));
    assert_eq!(s.fcf_per_share, Some(n(50)));
}

#[test]
fn ratios_concrete_scenario() {
    let mut r = sample_report(2020);
    r.compute_optional_if_required(None);
    let fr = r.financial_ratios;
    assert_eq!(fr.avg_yield, Some(Num::new(1, 25)));
    assert_eq!(fr.pe_ratio, Some(Num::new(25, 2)));
    assert_eq!(fr.eps_payout_ratio, Some(Num::new(1, 2)));
    assert_eq!(fr.fcf_payout_ratio, Some(Num::new(2, 60)));
    assert_eq!(fr.return_on_equity, Some(Num::new(150, 800)));
    assert_eq!(fr.price_to_ebit, Some(Num::new(50, 400)));
    assert_eq!(fr.price_to_opcf, Some(Num::new(50, 100)));
    assert_eq!(fr.price_to_fcf, Some(Num::new(50, 60)));
    assert_eq!(fr.dividend_growth_rate, None);
}

#[test]
fn division_by_zero_yields_non_finite() {
    let mut s = income(0, 400, 200, 150, 0, 10);
    s.compute_optional_if_required();
    assert_eq!(s.operating_profit_margin, Some(Num::NonFinite));
    assert_eq!(s.net_profit_margin, Some(Num::NonFinite));
    let mut r = sample_report(2020);
    r.income_statement.eps_basic = n(0);
    r.compute_optional_if_required(None);
    assert_eq!(r.financial_ratios.pe_ratio, Some(Num::NonFinite));
    assert_eq!(r.financial_ratios.eps_payout_ratio, Some(Num::NonFinite));
}

#[test]
fn single_report_series_has_no_yoy() {
    let mut sr = StockReport {
        latest_update: Some(7),
        ticker: String::from("ACME"),
        version: 1,
        data: vec![sample_report(2020)],
    };
    sr.compute_optional_if_required();
    assert_eq!(sr.data.len(), 1);
    let r = &sr.data[0];
    assert!(r.income_statement_yoy.is_none());
    assert!(r.balance_sheet_yoy.is_none());
    assert!(r.cash_flow_statement_yoy.is_none());
    assert!(r.financial_ratios.dividend_growth_rate.is_none());
    assert!(r.income_statement.gross_profit.is_some());
    assert!(r.income_statement.gross_profit_margin.is_some());
    assert!(r.income_statement.operating_income.is_some());
    assert!(r.income_statement.operating_profit_margin.is_some());
    assert!(r.income_statement.net_profit_margin.is_some());
    assert!(r.balance_sheet.total_debt.is_some());
    assert!(r.balance_sheet.total_equity.is_some());
    assert!(r.balance_sheet.debt_to_capital.is_some());
    assert!(r.cash_flow_statement.free_cash_flow.is_some());
    assert!(r.cash_flow_statement.fcf_per_share.is_some());
    assert!(r.financial_ratios.avg_yield.is_some());
    assert!(r.financial_ratios.eps_payout_ratio.is_some());
    assert!(r.financial_ratios.fcf_payout_ratio.is_some());
    assert!(r.financial_ratios.pe_ratio.is_some());
    assert!(r.financial_ratios.return_on_equity.is_some());
    assert!(r.financial_ratios.price_to_ebit.is_some());
    assert!(r.financial_ratios.price_to_opcf.is_some());
    assert!(r.financial_ratios.price_to_fcf.is_some());
}

#[test]
fn two_report_series_yoy() {
    let first = sample_report(2020);
    let mut second = sample_report(2021);
    second.income_statement.revenue = n(1200);
    second.cash_flow_statement.operating_cash_flow = n(250);
    second.cash_flow_statement.dividends_per_share = n(3);
    let mut sr = StockReport {
        latest_update: Some(7),
        ticker: String::from("ACME"),
        version: 1,
        data: vec![first, second],
    };
    sr.compute_optional_if_required();
    assert_eq!(sr.data.len(), 2);
    assert!(sr.data[0].income_statement_yoy.is_none());
    let yoy_income = sr.data[1].income_statement_yoy.expect("yoy income");
    // 1200 / 1000 - 1 == 1/5
    assert_eq!(yoy_income.revenue, Num::new(1, 5));
    // unchanged base field: 400 / 400 - 1 == 0
    assert_eq!(yoy_income.total_cogs, n(0));
    let yoy_cash = sr.data[1].cash_flow_statement_yoy.expect("yoy cash");
    // the cash-flow comparison is the plain ratio: 250 / 100, no - 1
    assert_eq!(yoy_cash.operating_cash_flow, Num::new(5, 2));
    // dividend growth rate compares against the previous dividends: 3 / 2
    assert_eq!(sr.data[1].financial_ratios.dividend_growth_rate, Some(Num::new(3, 2)));
    let yoy_balance = sr.data[1].balance_sheet_yoy.expect("yoy balance");
    assert_eq!(yoy_balance.total_assets, n(0));
    assert_eq!(yoy_balance.total_debt, Some(n(0)));
}

#[test]
fn yoy_covers_derived_fields() {
    let first = sample_report(2020);
    let mut second = sample_report(2021);
    // gross profit: first 600, second 1500 - 600 = 900; 900/600 - 1 == 1/2
    second.income_statement.revenue = n(1500);
    second.income_statement.total_cogs = n(600);
    let mut sr = StockReport {
        latest_update: None,
        ticker: String::from("ACME"),
        version: 1,
        data: vec![first, second],
    };
    sr.compute_optional_if_required();
    let yoy_income = sr.data[1].income_statement_yoy.expect("yoy income");
    assert_eq!(yoy_income.gross_profit, Some(Num::new(1, 2)));
    let yoy_cash = sr.data[1].cash_flow_statement_yoy.expect("yoy cash");
    // free cash flow 60 both years: plain ratio 1
    assert_eq!(yoy_cash.free_cash_flow, Some(n(1)));
}

#[test]
fn derivation_is_idempotent() {
    let mut once = sample_report(2020);
    once.compute_optional_if_required(None);
    let mut twice = once;
    twice.compute_optional_if_required(None);
    assert_eq!(once, twice);

    let prev = once;
    let mut cur_once = sample_report(2021);
    cur_once.compute_optional_if_required(Some(&prev));
    let mut cur_twice = cur_once;
    cur_twice.compute_optional_if_required(Some(&prev));
    assert_eq!(cur_once, cur_twice);
}

#[test]
fn series_processing_is_deterministic() {
    let mut a = StockReport {
        latest_update: Some(7),
        ticker: String::from("ACME"),
        version: 1,
        data: vec![sample_report(2020), sample_report(2021)],
    };
    let mut b = StockReport {
        latest_update: Some(7),
        ticker: String::from("ACME"),
        version: 1,
        data: vec![sample_report(2020), sample_report(2021)],
    };
    a.compute_optional_if_required();
    b.compute_optional_if_required();
    assert_eq!(a.data, b.data);
}

#[test]
fn from_stamps_missing_timestamp() {
    let sr = StockReport {
        latest_update: None,
        ticker: String::from("ACME"),
        version: 3,
        data: vec![sample_report(2020)],
    };
    let out = StockReport::from(sr);
    assert!(out.latest_update.is_some());
    assert_eq!(out.ticker, "ACME");
    assert_eq!(out.version, 3);
    assert_eq!(out.data.len(), 1);
    assert!(out.data[0].income_statement.gross_profit.is_some());
}

#[test]
fn from_keeps_existing_timestamp() {
    let sr = StockReport {
        latest_update: Some(42),
        ticker: String::from("ACME"),
        version: 3,
        data: vec![],
    };
    let out = StockReport::from(sr);
    assert_eq!(out.latest_update, Some(42));
    assert!(out.data.is_empty());
}

#[test]
fn add_new_report_derives_against_last() {
    let mut sr = StockReport {
        latest_update: Some(7),
        ticker: String::from("ACME"),
        version: 1,
        data: vec![sample_report(2020)],
    };
    sr.compute_optional_if_required();
    let mut incoming = sample_report(2021);
    incoming.income_statement.revenue = n(2000);
    sr.add_new_report(incoming);
    assert_eq!(sr.data.len(), 2);
    let appended = &sr.data[1];
    assert!(appended.income_statement.gross_profit.is_some());
    let yoy = appended.income_statement_yoy.expect("yoy");
    // 2000 / 1000 - 1 == 1
    assert_eq!(yoy.revenue, n(1));
}

#[test]
fn add_new_report_to_empty_series() {
    let mut sr = StockReport {
        latest_update: Some(7),
        ticker: String::from("ACME"),
        version: 1,
        data: vec![],
    };
    sr.add_new_report(sample_report(2020));
    assert_eq!(sr.data.len(), 1);
    assert!(sr.data[0].income_statement_yoy.is_none());
    assert!(sr.data[0].income_statement.gross_profit.is_some());
}
