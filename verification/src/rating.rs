//! Analyst ratings: how many analysts hold each of five positions, and the
//! consensus score that those counts give.

use vstd::prelude::*;

verus! {

/// Used to count things.
pub type Counter = u32;

/// The type of an analyst recommendation/position.
#[derive(Clone, Copy, Debug, PartialEq, Eq, Structural, Hash)]
pub enum RatingType {
    Buy,
    Outperform,
    Hold,
    Underperform,
    Sell,
}

impl RatingType {
    /// The place of a position on the scale from 1 (buy) to 5 (sell).
    pub open spec fn spec_weight(self) -> nat {
        match self {
            RatingType::Buy => 1,
            RatingType::Outperform => 2,
            RatingType::Hold => 3,
            RatingType::Underperform => 4,
            RatingType::Sell => 5,
        }
    }

    /// The place of a position on the scale from 1 (buy) to 5 (sell).
    pub fn weight(self) -> (w: u8)
        ensures
            w == self.spec_weight(),
            1 <= w <= 5,
    {
        match self {
            RatingType::Buy => 1,
            RatingType::Outperform => 2,
            RatingType::Hold => 3,
            RatingType::Underperform => 4,
            RatingType::Sell => 5,
        }
    }

    /// What `count` recommendations of this position add to a weighted total.
    pub fn weigh(self, count: Counter) -> (weighted: u64)
        ensures
            weighted == self.spec_weight() * count,
            count <= weighted <= 5 * count,
    {
        let weight: u64 = self.weight() as u64;
        assert(count <= weight * count <= 5 * count) by (nonlinear_arith)
            requires
                1 <= weight <= 5,
        ;
        weight * (count as u64)
    }
}

/// The count that `counts` holds for `rating`; a position without an entry
/// counts as zero.
pub open spec fn count_of(counts: Map<RatingType, Counter>, rating: RatingType) -> nat {
    if counts.dom().contains(rating) {
        counts[rating] as nat
    } else {
        0
    }
}

/// The number of recommendations in `counts`, over all five positions.
pub open spec fn total_count(counts: Map<RatingType, Counter>) -> nat {
    count_of(counts, RatingType::Buy) + count_of(counts, RatingType::Outperform) + count_of(
        counts,
        RatingType::Hold,
    ) + count_of(counts, RatingType::Underperform) + count_of(counts, RatingType::Sell)
}

/// The sum over all five positions of the position's weight times its count.
pub open spec fn weighted_total(counts: Map<RatingType, Counter>) -> nat {
    RatingType::Buy.spec_weight() * count_of(counts, RatingType::Buy)
        + RatingType::Outperform.spec_weight() * count_of(counts, RatingType::Outperform)
        + RatingType::Hold.spec_weight() * count_of(counts, RatingType::Hold)
        + RatingType::Underperform.spec_weight() * count_of(counts, RatingType::Underperform)
        + RatingType::Sell.spec_weight() * count_of(counts, RatingType::Sell)
}

/// The counts of recommendations by position: a finite mapping from
/// `RatingType` to `Counter`. A position need not have an entry, and an entry
/// may hold zero.
#[derive(Clone, Copy, Debug, PartialEq, Eq, Hash)]
pub struct RatingCounts {
    buy: Option<Counter>,
    outperform: Option<Counter>,
    hold: Option<Counter>,
    underperform: Option<Counter>,
    sell: Option<Counter>,
}

impl RatingCounts {
    /// The entry for `rating`, if there is one.
    pub closed spec fn entry(self, rating: RatingType) -> Option<Counter> {
        match rating {
            RatingType::Buy => self.buy,
            RatingType::Outperform => self.outperform,
            RatingType::Hold => self.hold,
            RatingType::Underperform => self.underperform,
            RatingType::Sell => self.sell,
        }
    }

    /// A mapping without entries.
    pub fn new() -> (counts: RatingCounts)
        ensures
            counts@ == Map::<RatingType, Counter>::empty(),
    {
        let counts = RatingCounts {
            buy: None,
            outperform: None,
            hold: None,
            underperform: None,
            sell: None,
        };
        assert(counts@ =~= Map::<RatingType, Counter>::empty());
        counts
    }

    /// Sets the count for `rating`, and returns the count it had before, if
    /// it had one.
    pub fn insert(&mut self, rating: RatingType, count: Counter) -> (previous: Option<Counter>)
        ensures
            final(self)@ == old(self)@.insert(rating, count),
            previous == old(self)@.get(rating),
    {
        let previous = self.get(rating);
        match rating {
            RatingType::Buy => {
                self.buy = Some(count);
            },
            RatingType::Outperform => {
                self.outperform = Some(count);
            },
            RatingType::Hold => {
                self.hold = Some(count);
            },
            RatingType::Underperform => {
                self.underperform = Some(count);
            },
            RatingType::Sell => {
                self.sell = Some(count);
            },
        }
        assert(final(self)@ =~= old(self)@.insert(rating, count));
        previous
    }

    /// The count for `rating`, if the mapping has an entry for it.
    pub fn get(&self, rating: RatingType) -> (count: Option<Counter>)
        ensures
            count == self@.get(rating),
    {
        match rating {
            RatingType::Buy => self.buy,
            RatingType::Outperform => self.outperform,
            RatingType::Hold => self.hold,
            RatingType::Underperform => self.underperform,
            RatingType::Sell => self.sell,
        }
    }

    /// Whether the mapping has no entry at all.
    pub fn is_empty(&self) -> (empty: bool)
        ensures
            empty == (self@ == Map::<RatingType, Counter>::empty()),
    {
        let empty = self.buy.is_none() && self.outperform.is_none() && self.hold.is_none()
            && self.underperform.is_none() && self.sell.is_none();
        proof {
            if empty {
                assert(self@ =~= Map::<RatingType, Counter>::empty());
            } else {
                let present = choose|rating: RatingType| self.entry(rating) is Some;
                assert(self.entry(RatingType::Buy) is Some || self.entry(RatingType::Outperform)
                    is Some || self.entry(RatingType::Hold) is Some || self.entry(
                    RatingType::Underperform,
                ) is Some || self.entry(RatingType::Sell) is Some);
                assert(self@.dom().contains(present));
            }
        }
        empty
    }

    /// The count for `rating`, zero where the mapping has no entry for it.
    pub fn count(&self, rating: RatingType) -> (count: Counter)
        ensures
            count == count_of(self@, rating),
    {
        match self.get(rating) {
            Some(count) => count,
            None => 0,
        }
    }
}

impl View for RatingCounts {
    type V = Map<RatingType, Counter>;

    /// The mapping that the entries make up.
    closed spec fn view(&self) -> Map<RatingType, Counter> {
        Map::new(
            |rating: RatingType| self.entry(rating) is Some,
            |rating: RatingType| self.entry(rating)->0,
        )
    }
}

/// A consensus score as an exact fraction: `weighted_total / count`.
///
/// One is the strongest buy and five the strongest sell.
#[derive(Clone, Copy, Debug, PartialEq, Eq, Structural, Hash)]
pub struct ScaledAverage {
    /// the sum of weight times count over the positions
    pub weighted_total: u64,
    /// the number of recommendations; never zero in a computed average
    pub count: u64,
}

impl ScaledAverage {
    /// Whether the fraction is defined and lies on the scale: `count` is not
    /// zero and `1 <= weighted_total / count <= 5`.
    pub open spec fn on_scale(self) -> bool {
        &&& self.count > 0
        &&& self.count <= self.weighted_total
        &&& self.weighted_total <= 5 * self.count
    }
}

/// A standardized consensus score as its provider gave it: the bit pattern of
/// a single-precision number, carried along and never interpreted.
#[derive(Clone, Copy, Debug, PartialEq, Eq, Structural, Hash)]
pub struct ScaleMark {
    /// the bits of the score
    pub bits: u32,
}

/// The set of recommendation trends over some period of time.
#[derive(Clone, Copy, Debug, PartialEq, Eq, Hash)]
pub struct Ratings {
    /// a mapping of available rating types to counts, not all types may be available
    pub ratings: RatingCounts,
    /// a standardized representation of the consensus of recommendations
    pub scale_mark: Option<ScaleMark>,
}

impl Ratings {
    /// The consensus score that the counts give, if they give one: the
    /// fraction of `weighted_total` over `total_count`, absent where no
    /// recommendation was counted.
    pub open spec fn spec_scaled_average(self) -> Option<ScaledAverage> {
        if total_count(self.ratings@) == 0 {
            None
        } else {
            Some(
                ScaledAverage {
                    weighted_total: weighted_total(self.ratings@) as u64,
                    count: total_count(self.ratings@) as u64,
                },
            )
        }
    }

    /// Calculate the scaled/weighted average of the current set of ratings.
    /// Returns `None` if there are no ratings, or if all counts are zero.
    pub fn scaled_average(&self) -> (average: Option<ScaledAverage>)
        ensures
            average == self.spec_scaled_average(),
            average is None <==> total_count(self.ratings@) == 0,
            average matches Some(a) ==> {
                &&& a.count == total_count(self.ratings@)
                &&& a.weighted_total == weighted_total(self.ratings@)
                &&& a.on_scale()
            },
    {
        if self.ratings.is_empty() {
            return None;
        }
        let buy: Counter = self.ratings.count(RatingType::Buy);
        let outperform: Counter = self.ratings.count(RatingType::Outperform);
        let hold: Counter = self.ratings.count(RatingType::Hold);
        let underperform: Counter = self.ratings.count(RatingType::Underperform);
        let sell: Counter = self.ratings.count(RatingType::Sell);
        let count: u64 = buy as u64 + outperform as u64 + hold as u64 + underperform as u64
            + sell as u64;
        let total: u64 = RatingType::Buy.weigh(buy) + RatingType::Outperform.weigh(outperform)
            + RatingType::Hold.weigh(hold) + RatingType::Underperform.weigh(underperform)
            + RatingType::Sell.weigh(sell);
        if count == 0 {
            None
        } else {
            Some(ScaledAverage { weighted_total: total, count })
        }
    }
}

/// The weighted total lies between one and five times the number of
/// recommendations, and fits in 64 bits.
pub proof fn lemma_weighted_total_bounds(counts: Map<RatingType, Counter>)
    ensures
        total_count(counts) <= weighted_total(counts) <= 5 * total_count(counts),
        weighted_total(counts) <= 15 * u32::MAX,
{
}

/// No ratings, or ratings whose counts are all zero, have no average.
pub proof fn lemma_scaled_average_absent(ratings: Ratings)
    ensures
        ratings.ratings@ == Map::<RatingType, Counter>::empty()
            ==> ratings.spec_scaled_average() is None,
        total_count(ratings.ratings@) == 0 <==> ratings.spec_scaled_average() is None,
{
}

/// Where any recommendation was counted, the average exists and lies on the
/// scale from one to five.
pub proof fn lemma_scaled_average_on_scale(ratings: Ratings)
    requires
        total_count(ratings.ratings@) > 0,
    ensures
        ratings.spec_scaled_average() matches Some(a) && a.on_scale() && a.count == total_count(
            ratings.ratings@,
        ) && a.weighted_total == weighted_total(ratings.ratings@),
{
    lemma_weighted_total_bounds(ratings.ratings@);
}

/// The average has one value for one set of ratings: any two results that
/// `scaled_average` may hand out for the same value are the same.
pub proof fn lemma_scaled_average_repeatable(
    ratings: Ratings,
    first: Option<ScaledAverage>,
    second: Option<ScaledAverage>,
)
    requires
        first == ratings.spec_scaled_average(),
        second == ratings.spec_scaled_average(),
    ensures
        first == second,
{
}

} // verus!
