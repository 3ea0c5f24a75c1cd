//! Monetary amounts.

use vstd::prelude::*;

verus! {

/// An amount of money, held as a whole number of minor units (cents, pence).
///
/// Amounts are totally ordered by that number.
#[derive(Clone, Copy, Debug, PartialEq, Eq, Structural, Hash)]
pub struct Money {
    /// the amount in minor units; negative for a debit
    pub minor_units: i64,
}

impl View for Money {
    type V = int;

    /// The amount as a mathematical integer of minor units.
    open spec fn view(&self) -> int {
        self.minor_units as int
    }
}

impl Money {
    /// An amount of `minor_units` minor units.
    pub fn new(minor_units: i64) -> (m: Money)
        ensures
            m == (Money { minor_units }),
    {
        Money { minor_units }
    }

    /// Whether this amount is strictly less than `other`.
    pub fn is_less_than(&self, other: &Money) -> (b: bool)
        ensures
            b == (self@ < other@),
    {
        self.minor_units < other.minor_units
    }
}

} // verus!
