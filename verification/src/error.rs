//! What can go wrong: an aggregate that contradicts itself, and a request
//! that a provider could not answer.

use vstd::prelude::*;

verus! {

/// The ways in which an aggregate can contradict itself.
#[derive(Clone, Copy, Debug, PartialEq, Eq, Structural, Hash)]
pub enum ValidationError {
    /// the high price target lies below the low one
    RangeInverted,
    /// the average price target lies outside the low and high bounds
    AverageOutOfBounds,
    /// a price target that no analyst contributed to
    NoAnalysts,
    /// the fiscal period ends after the next report is due
    DateOrderInverted,
    /// an earnings consensus that no estimate contributed to
    NoEstimates,
}

impl ValidationError {
    /// The text that describes the error.
    pub open spec fn spec_message(self) -> Seq<char> {
        match self {
            ValidationError::RangeInverted => "High price target cannot be lower than low price target."@,
            ValidationError::AverageOutOfBounds => "Average price target must be within the high and low bounds."@,
            ValidationError::NoAnalysts => "Number of analysts cannot be zero for a valid price target."@,
            ValidationError::DateOrderInverted => "Fiscal end date should be before the next report date."@,
            ValidationError::NoEstimates => "Number of estimates cannot be zero for a valid EPS consensus."@,
        }
    }

    /// A sentence that describes the error.
    pub fn message(&self) -> (text: String)
        ensures
            text@ == self.spec_message(),
    {
        match self {
            ValidationError::RangeInverted => "High price target cannot be lower than low price target.".to_owned(),
            ValidationError::AverageOutOfBounds => "Average price target must be within the high and low bounds.".to_owned(),
            ValidationError::NoAnalysts => "Number of analysts cannot be zero for a valid price target.".to_owned(),
            ValidationError::DateOrderInverted => "Fiscal end date should be before the next report date.".to_owned(),
            ValidationError::NoEstimates => "Number of estimates cannot be zero for a valid EPS consensus.".to_owned(),
        }
    }
}

/// Why a provider could not answer a request.
#[derive(Clone, Copy, Debug, PartialEq, Eq, Structural, Hash)]
pub enum RequestError {
    /// the provider could not be reached, or its answer could not be read
    Transport,
    /// the provider refused the caller's credentials
    Unauthorized,
    /// the provider refused the request as one too many
    RateLimited,
    /// the provider does not know the symbol
    NotFound,
}

/// What a provider answers: the data, or why it could not be had.
pub type RequestResult<T> = Result<T, RequestError>;

} // verus!
