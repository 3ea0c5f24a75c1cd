//! Consensus price targets and the rules that a sound one keeps.

use vstd::prelude::*;
use crate::error::ValidationError;
use crate::money::Money;
use crate::rating::Counter;

verus! {

/// Consensus price targets; high, low, and average.
///
/// A value may break the rules below: they are checked by `validate`, when
/// the holder asks for it, and not when the value is made.
#[derive(Clone, Copy, Debug, PartialEq, Eq, Structural, Hash)]
pub struct PriceTarget {
    /// anticipated high price
    pub high: Money,
    /// anticipated low price
    pub low: Money,
    /// anticipated average price
    pub average: Money,
    /// number of analysts that provided recommendations
    pub number_of_analysts: Counter,
}

impl PriceTarget {
    /// The rules of a sound price target: the low does not exceed the high,
    /// the average lies between them, and some analyst contributed.
    pub open spec fn is_valid(self) -> bool {
        &&& self.low@ <= self.high@
        &&& self.low@ <= self.average@ <= self.high@
        &&& self.number_of_analysts > 0
    }

    /// The outcome of validation: the first rule that is broken, in the
    /// order range, average, analysts.
    pub open spec fn spec_validate(self) -> Result<(), ValidationError> {
        if self.high@ < self.low@ {
            Err(ValidationError::RangeInverted)
        } else if !(self.low@ <= self.average@ <= self.high@) {
            Err(ValidationError::AverageOutOfBounds)
        } else if self.number_of_analysts == 0 {
            Err(ValidationError::NoAnalysts)
        } else {
            Ok(())
        }
    }

    /// Validate the integrity of the price target data.
    pub fn validate(&self) -> (outcome: Result<(), ValidationError>)
        ensures
            outcome == self.spec_validate(),
            outcome is Ok <==> self.is_valid(),
            outcome == Err::<(), ValidationError>(ValidationError::RangeInverted) <==> self.high@
                < self.low@,
            outcome == Err::<(), ValidationError>(ValidationError::AverageOutOfBounds) <==> self.low@
                <= self.high@ && !(self.low@ <= self.average@ <= self.high@),
            outcome == Err::<(), ValidationError>(ValidationError::NoAnalysts) <==> self.low@
                <= self.average@ <= self.high@ && self.number_of_analysts == 0,
    {
        if self.high.is_less_than(&self.low) {
            return Err(ValidationError::RangeInverted);
        }
        if self.average.is_less_than(&self.low) || self.high.is_less_than(&self.average) {
            return Err(ValidationError::AverageOutOfBounds);
        }
        if self.number_of_analysts == 0 {
            return Err(ValidationError::NoAnalysts);
        }
        Ok(())
    }
}

/// Validation succeeds exactly where the average lies between the low and the
/// high and some analyst contributed; that the low does not exceed the high
/// then follows.
pub proof fn lemma_price_target_valid_iff(target: PriceTarget)
    ensures
        target.spec_validate() is Ok <==> target.low@ <= target.average@ <= target.high@
            && target.number_of_analysts > 0,
        target.spec_validate() is Ok <==> target.is_valid(),
{
}

/// Validation has one outcome for one price target: any two results that
/// `validate` may hand out for the same value are the same.
pub proof fn lemma_price_target_validate_repeatable(
    target: PriceTarget,
    first: Result<(), ValidationError>,
    second: Result<(), ValidationError>,
)
    requires
        first == target.spec_validate(),
        second == target.spec_validate(),
    ensures
        first == second,
{
}

} // verus!
