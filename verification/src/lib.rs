//! A derivation engine for series of annual company reports: from a small
//! set of caller-supplied base figures it computes each statement's derived
//! fields, the financial-ratio block, and year-over-year comparisons, by a
//! left-to-right fold that threads the previous report forward. All
//! arithmetic is exact, on rationals that carry a `NonFinite` marker where
//! floating point would carry an infinity or NaN.

pub mod balance;
pub mod cash_flow;
pub mod income;
pub mod laws;
pub mod ratios;
pub mod rational;
pub mod report;
pub mod series;
