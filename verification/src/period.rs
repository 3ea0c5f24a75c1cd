//! Fiscal periods.

use vstd::prelude::*;

verus! {

/// The span of a company's fiscal year that a figure reports on.
#[derive(Clone, Copy, Debug, PartialEq, Eq, Structural, Hash)]
pub enum FinancialPeriod {
    FullYear,
    FirstHalf,
    SecondHalf,
    FirstQuarter,
    SecondQuarter,
    ThirdQuarter,
    FourthQuarter,
}

} // verus!
