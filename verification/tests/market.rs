use dopewars::catalog::{Substance, NUM_SUBSTANCES};
use dopewars::market::{roll_prices, Market, MarketEvent, PriceRoll, MAX_HISTORY, MAX_PRICE};

fn rolls(draws: [(i32, i32); 6]) -> Vec<PriceRoll> {
    draws
        .iter()
        .map(|&(base_price, special_event)| PriceRoll { base_price, special_event })
        .collect()
}

#[test]
fn new_market_is_empty() {
    let m = Market::new();
    assert_eq!(m.prices, vec![0; 6]);
    assert!(m.events.is_empty());
    assert_eq!(m.price_history.len(), NUM_SUBSTANCES);
    assert!(m.price_history.iter().all(|h| h.is_empty()));
    assert_eq!(m.max_history, 10);
}

#[test]
fn news_multiplies_or_divides_the_base_price() {
    let mut m = Market::new();
    m.apply_rolls(&rolls([(50, 0), (500, 1), (21, 7), (399, 19), (150, 1), (699, 0)]));
    assert_eq!(m.prices, vec![250, 100, 21, 399, 30, 3495]);
    assert_eq!(
        m.events,
        vec![
            MarketEvent::PoliceBust(Substance::Weed),
            MarketEvent::Flood(Substance::Cocaine),
            MarketEvent::Flood(Substance::Heroin),
            MarketEvent::PoliceBust(Substance::Speed),
        ]
    );
    assert_eq!(m.price_of(Substance::Acid), 399);
    for i in 0..NUM_SUBSTANCES {
        assert_eq!(m.price_history[i], vec![m.prices[i]]);
    }
}

#[test]
fn flood_rounds_down() {
    let mut m = Market::new();
    m.apply_rolls(&rolls([(14, 1), (104, 1), (24, 1), (54, 1), (154, 1), (54, 1)]));
    assert_eq!(m.prices, vec![2, 20, 4, 10, 30, 10]);
}

#[test]
fn a_quiet_day_clears_yesterdays_news() {
    let mut m = Market::new();
    m.apply_rolls(&rolls([(50, 0), (500, 1), (21, 7), (399, 19), (150, 1), (699, 0)]));
    m.apply_rolls(&rolls([(50, 5), (500, 5), (21, 5), (399, 5), (150, 5), (699, 5)]));
    assert!(m.events.is_empty());
}

#[test]
fn history_keeps_the_last_ten_prices() {
    let mut m = Market::new();
    for day in 0..15 {
        let base = 10 + day;
        m.apply_rolls(&rolls([(base, 5), (100, 5), (20, 5), (50, 5), (150, 5), (50, 5)]));
    }
    assert_eq!(m.price_history[0].len(), MAX_HISTORY);
    assert_eq!(m.price_history[0], (15..25).collect::<Vec<i32>>());
    assert_eq!(*m.price_history[0].last().unwrap(), m.prices[0]);
}

#[test]
fn random_prices_lie_in_their_ranges() {
    let mut seen = std::collections::HashSet::new();
    for _ in 0..300 {
        let r = roll_prices();
        assert_eq!(r.len(), NUM_SUBSTANCES);
        for (i, roll) in r.iter().enumerate() {
            let s = Substance::from_index(i);
            assert!(roll.base_price >= s.base_price_low() && roll.base_price < s.base_price_high());
            assert!(roll.special_event >= 0 && roll.special_event < 20);
        }
        seen.insert(r[0].base_price);
    }
    assert!(seen.len() > 1, "the dice never changed");
}

#[test]
fn generated_prices_stay_in_range() {
    let mut m = Market::new();
    for _ in 0..50 {
        m.generate_prices();
        for &p in &m.prices {
            assert!(p >= 2 && p < MAX_PRICE);
        }
        assert!(m.price_history.iter().all(|h| h.len() <= MAX_HISTORY));
    }
}

#[test]
fn chart_of_a_rising_price() {
    let mut m = Market::new();
    for base in [10, 20, 30] {
        m.apply_rolls(&rolls([(base, 5), (100, 5), (20, 5), (50, 5), (150, 5), (50, 5)]));
    }
    let c = m.chart(Substance::Weed, 5).unwrap();
    assert_eq!(c.points, vec![10, 20, 30, 30]);
    assert_eq!(c.max_price, 30);
    assert_eq!(c.min_price, 10);
    assert_eq!(c.price_range, 20);
    assert_eq!(c.grid_labels, vec![30, 25, 20, 15, 10]);
    assert_eq!(c.day_labels, vec![2, 3, 4]);
}

#[test]
fn chart_of_a_flat_price_has_range_one() {
    let mut m = Market::new();
    m.apply_rolls(&rolls([(10, 5), (100, 5), (20, 5), (50, 5), (150, 5), (50, 5)]));
    let c = m.chart(Substance::Cocaine, 1).unwrap();
    assert_eq!(c.points, vec![100, 100]);
    assert_eq!(c.price_range, 1);
    assert_eq!(c.grid_labels, vec![100, 100, 100, 100, 99]);
    assert_eq!(c.day_labels, vec![0]);
}

#[test]
fn no_chart_without_history() {
    let m = Market::new();
    assert!(m.chart(Substance::Speed, 1).is_none());
}
