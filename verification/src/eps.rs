//! Consensus earnings per share and the rules that a sound one keeps.

use vstd::prelude::*;
use crate::date::Date;
use crate::error::ValidationError;
use crate::money::Money;
use crate::period::FinancialPeriod;
use crate::rating::Counter;

verus! {

/// Consensus Earnings per Share (EPS) targets for some fiscal period.
///
/// A value may break the rules below: they are checked by `validate`, when
/// the holder asks for it, and not when the value is made.
#[derive(Clone, Copy, Debug, PartialEq, Eq, Structural, Hash)]
pub struct EPSConsensus {
    /// anticipated earnings per share
    pub consensus: Money,
    /// number of analysts that provided recommendations
    pub number_of_estimates: Counter,
    /// expected for this period
    pub fiscal_period: FinancialPeriod,
    /// the company's end date for `fiscal_period`
    pub fiscal_end_date: Date,
    /// anticipated next reporting date
    pub next_report_date: Date,
}

impl EPSConsensus {
    /// The rules of a sound consensus: the fiscal period does not end after
    /// the next report date, and some estimate contributed.
    pub open spec fn is_valid(self) -> bool {
        &&& self.fiscal_end_date.not_after(self.next_report_date)
        &&& self.number_of_estimates > 0
    }

    /// The outcome of validation: the first rule that is broken, in the
    /// order dates, estimates.
    pub open spec fn spec_validate(self) -> Result<(), ValidationError> {
        if self.fiscal_end_date.after(self.next_report_date) {
            Err(ValidationError::DateOrderInverted)
        } else if self.number_of_estimates == 0 {
            Err(ValidationError::NoEstimates)
        } else {
            Ok(())
        }
    }

    /// Validates the EPS consensus data to check dates and estimates.
    pub fn validate(&self) -> (outcome: Result<(), ValidationError>)
        ensures
            outcome == self.spec_validate(),
            outcome is Ok <==> self.is_valid(),
            outcome == Err::<(), ValidationError>(ValidationError::DateOrderInverted)
                <==> self.fiscal_end_date.after(self.next_report_date),
            outcome == Err::<(), ValidationError>(ValidationError::NoEstimates)
                <==> self.fiscal_end_date.not_after(self.next_report_date)
                && self.number_of_estimates == 0,
    {
        if self.fiscal_end_date.is_after(&self.next_report_date) {
            return Err(ValidationError::DateOrderInverted);
        }
        if self.number_of_estimates == 0 {
            return Err(ValidationError::NoEstimates);
        }
        Ok(())
    }
}

/// Validation succeeds exactly where the fiscal period does not end after the
/// next report date and some estimate contributed.
pub proof fn lemma_eps_consensus_valid_iff(consensus: EPSConsensus)
    ensures
        consensus.spec_validate() is Ok <==> consensus.fiscal_end_date.not_after(
            consensus.next_report_date,
        ) && consensus.number_of_estimates > 0,
        consensus.spec_validate() is Ok <==> consensus.is_valid(),
{
}

/// Validation has one outcome for one consensus: any two results that
/// `validate` may hand out for the same value are the same.
pub proof fn lemma_eps_consensus_validate_repeatable(
    consensus: EPSConsensus,
    first: Result<(), ValidationError>,
    second: Result<(), ValidationError>,
)
    requires
        first == consensus.spec_validate(),
        second == consensus.spec_validate(),
    ensures
        first == second,
{
}

} // verus!
