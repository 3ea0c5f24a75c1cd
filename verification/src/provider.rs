//! What a data provider offers: the peers of a company and the analysts'
//! recommendations for it. The library depends on these interfaces only, not
//! on how a provider gets its data.

use vstd::prelude::*;
use std::collections::HashSet;
use crate::date::Date;
use crate::eps::EPSConsensus;
use crate::error::RequestResult;
use crate::price_target::PriceTarget;
use crate::rating::Ratings;

verus! {

/// The identifier of a tradable instrument.
pub type Symbol = String;

/// A set of symbols.
pub type Symbols = HashSet<Symbol>;

/// A value together with the day on which it was observed.
#[derive(Clone, Debug, PartialEq, Eq)]
pub struct Snapshot<T> {
    /// the day of the observation
    pub date: Date,
    /// what was observed
    pub data: T,
}

/// A value together with the days between which it holds.
#[derive(Clone, Debug, PartialEq, Eq)]
pub struct Bounded<T> {
    /// the first day on which the value holds
    pub lower: Date,
    /// the last day on which the value holds
    pub upper: Date,
    /// the value
    pub data: T,
}

/// This trait is implemented by providers to return a set of symbols that are expected
/// to represent peer companies to `for_symbol`. This set of peers could be provided by
/// the market or the service provider itself.
pub trait Peers {
    /// Return a set of peer symbols.
    fn peers(&self, for_symbol: Symbol) -> RequestResult<Symbols>;
}

/// This trait is implemented by providers to return various analyst recommendations.
///
/// An answer of `Ok(None)` says that the provider has no such data for the
/// symbol; an `Err` says that the request itself failed. A provider returns
/// sequences in the order it means them to be read in.
pub trait AnalystRecommendations {
    /// Return the target price recommendations for the symbol.
    fn target_price(&self, for_symbol: Symbol) -> RequestResult<Option<Snapshot<PriceTarget>>>;

    /// Return the consensus ratings for the symbol, each with the days
    /// between which it holds.
    fn consensus_rating(&self, for_symbol: Symbol) -> RequestResult<Option<Vec<Bounded<Ratings>>>>;

    /// Return the consensus earnings per share (EPS) for the symbol, one
    /// entry for each fiscal period.
    fn consensus_eps(&self, for_symbol: Symbol) -> RequestResult<Option<Vec<EPSConsensus>>>;
}

} // verus!
