use fin_model::rating::{Counter, RatingCounts, RatingType, Ratings, ScaleMark, ScaledAverage};

const ALL: [RatingType; 5] = [
    RatingType::Buy,
    RatingType::Outperform,
    RatingType::Hold,
    RatingType::Underperform,
    RatingType::Sell,
];

fn ratings_of(entries: &[(RatingType, Counter)]) -> Ratings {
    let mut counts = RatingCounts::new();
    for (rating, count) in entries {
        counts.insert(*rating, *count);
    }
    Ratings { ratings: counts, scale_mark: None }
}

fn as_float(average: ScaledAverage) -> f64 {
    average.weighted_total as f64 / average.count as f64
}

#[test]
fn weights_run_from_one_to_five() {
    assert_eq!(RatingType::Buy.weight(), 1);
    assert_eq!(RatingType::Outperform.weight(), 2);
    assert_eq!(RatingType::Hold.weight(), 3);
    assert_eq!(RatingType::Underperform.weight(), 4);
    assert_eq!(RatingType::Sell.weight(), 5);
}

#[test]
fn weigh_multiplies_by_the_weight() {
    assert_eq!(RatingType::Buy.weigh(7), 7);
    assert_eq!(RatingType::Underperform.weigh(7), 28);
    assert_eq!(RatingType::Sell.weigh(0), 0);
    assert_eq!(RatingType::Sell.weigh(u32::MAX), 5 * (u32::MAX as u64));
}

#[test]
fn buy_and_sell_balance_at_three() {
    let ratings = ratings_of(&[(RatingType::Buy, 2), (RatingType::Sell, 2)]);
    let average = ratings.scaled_average().unwrap();
    assert_eq!(average, ScaledAverage { weighted_total: 12, count: 4 });
    assert_eq!(as_float(average), 3.0);
}

#[test]
fn hold_alone_is_three() {
    let ratings = ratings_of(&[(RatingType::Hold, 5)]);
    let average = ratings.scaled_average().unwrap();
    assert_eq!(average, ScaledAverage { weighted_total: 15, count: 5 });
    assert_eq!(as_float(average), 3.0);
}

#[test]
fn no_ratings_no_average() {
    let ratings = ratings_of(&[]);
    assert!(ratings.ratings.is_empty());
    assert_eq!(ratings.scaled_average(), None);
}

#[test]
fn zero_counts_no_average() {
    let ratings = ratings_of(&[(RatingType::Buy, 0), (RatingType::Hold, 0)]);
    assert!(!ratings.ratings.is_empty());
    assert_eq!(ratings.scaled_average(), None);
    let all_zero = ratings_of(&[
        (RatingType::Buy, 0),
        (RatingType::Outperform, 0),
        (RatingType::Hold, 0),
        (RatingType::Underperform, 0),
        (RatingType::Sell, 0),
    ]);
    assert_eq!(all_zero.scaled_average(), None);
}

#[test]
fn every_position_counts_with_its_weight() {
    let ratings = ratings_of(&[
        (RatingType::Buy, 10),
        (RatingType::Outperform, 20),
        (RatingType::Hold, 30),
        (RatingType::Underperform, 40),
        (RatingType::Sell, 50),
    ]);
    let average = ratings.scaled_average().unwrap();
    assert_eq!(average.count, 150);
    assert_eq!(average.weighted_total, 10 + 40 + 90 + 160 + 250);
    assert_eq!(as_float(average), 550.0 / 150.0);
}

#[test]
fn zero_entries_beside_others_change_nothing() {
    let with_zero = ratings_of(&[(RatingType::Buy, 0), (RatingType::Outperform, 3)]);
    let without = ratings_of(&[(RatingType::Outperform, 3)]);
    assert_eq!(with_zero.scaled_average(), without.scaled_average());
    assert_eq!(
        without.scaled_average(),
        Some(ScaledAverage { weighted_total: 6, count: 3 })
    );
}

#[test]
fn single_positions_sit_at_their_weight() {
    for rating in ALL {
        let average = ratings_of(&[(rating, 4)]).scaled_average().unwrap();
        assert_eq!(as_float(average), rating.weight() as f64);
    }
}

#[test]
fn average_stays_on_the_scale() {
    let samples: [Counter; 4] = [0, 1, 7, u32::MAX];
    for buy in samples {
        for hold in samples {
            for sell in samples {
                let ratings = ratings_of(&[
                    (RatingType::Buy, buy),
                    (RatingType::Hold, hold),
                    (RatingType::Sell, sell),
                ]);
                let total = buy as u64 + hold as u64 + sell as u64;
                match ratings.scaled_average() {
                    None => assert_eq!(total, 0),
                    Some(average) => {
                        assert_eq!(average.count, total);
                        assert!(average.count > 0);
                        assert!(average.count <= average.weighted_total);
                        assert!(average.weighted_total <= 5 * average.count);
                        let value = as_float(average);
                        assert!(1.0 <= value && value <= 5.0);
                    }
                }
            }
        }
    }
}

#[test]
fn largest_counts_do_not_overflow() {
    let ratings = ratings_of(&[
        (RatingType::Buy, u32::MAX),
        (RatingType::Outperform, u32::MAX),
        (RatingType::Hold, u32::MAX),
        (RatingType::Underperform, u32::MAX),
        (RatingType::Sell, u32::MAX),
    ]);
    let average = ratings.scaled_average().unwrap();
    assert_eq!(average.count, 5 * (u32::MAX as u64));
    assert_eq!(average.weighted_total, 15 * (u32::MAX as u64));
    assert_eq!(as_float(average), 3.0);
}

#[test]
fn scale_mark_does_not_enter_the_average() {
    let mut ratings = ratings_of(&[(RatingType::Buy, 1), (RatingType::Hold, 1)]);
    let plain = ratings.scaled_average();
    ratings.scale_mark = Some(ScaleMark { bits: 4.5f32.to_bits() });
    assert_eq!(ratings.scaled_average(), plain);
    assert_eq!(plain, Some(ScaledAverage { weighted_total: 4, count: 2 }));
    assert_eq!(f32::from_bits(ratings.scale_mark.unwrap().bits), 4.5);
}

#[test]
fn scaled_average_is_repeatable() {
    let ratings = ratings_of(&[(RatingType::Outperform, 3), (RatingType::Sell, 9)]);
    let first = ratings.scaled_average();
    let second = ratings.scaled_average();
    assert_eq!(first, second);
    assert_eq!(first, Some(ScaledAverage { weighted_total: 51, count: 12 }));
}

#[test]
fn counts_insert_and_get() {
    let mut counts = RatingCounts::new();
    assert!(counts.is_empty());
    for rating in ALL {
        assert_eq!(counts.get(rating), None);
        assert_eq!(counts.count(rating), 0);
    }
    assert_eq!(counts.insert(RatingType::Hold, 3), None);
    assert_eq!(counts.insert(RatingType::Hold, 8), Some(3));
    assert_eq!(counts.get(RatingType::Hold), Some(8));
    assert_eq!(counts.count(RatingType::Hold), 8);
    assert_eq!(counts.get(RatingType::Buy), None);
    assert!(!counts.is_empty());
}

#[test]
fn counts_keep_each_position_apart() {
    let mut counts = RatingCounts::new();
    for (place, rating) in ALL.into_iter().enumerate() {
        assert_eq!(counts.insert(rating, 100 + place as Counter), None);
    }
    for (place, rating) in ALL.into_iter().enumerate() {
        assert_eq!(counts.get(rating), Some(100 + place as Counter));
    }
}

#[test]
fn insertion_order_is_irrelevant() {
    let forward = ratings_of(&[(RatingType::Buy, 1), (RatingType::Sell, 2)]);
    let backward = ratings_of(&[(RatingType::Sell, 2), (RatingType::Buy, 1)]);
    assert_eq!(forward, backward);
    assert_eq!(forward.scaled_average(), backward.scaled_average());
}
