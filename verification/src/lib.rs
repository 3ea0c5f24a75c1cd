//! Data model and validation rules for market-analysis aggregates: analyst
//! ratings, price targets and earnings-per-share consensus, together with the
//! interfaces through which a data provider hands them out.

pub mod date;
pub mod eps;
pub mod error;
pub mod money;
pub mod period;
pub mod price_target;
pub mod provider;
pub mod rating;
