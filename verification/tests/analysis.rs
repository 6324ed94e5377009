use dopewars::analysis::{trend_scaled_of, Advice, MarketAnalysis, Trend};
use dopewars::catalog::Substance;
use dopewars::market::{Market, PriceRoll};

/// The trend as the chart screen computes it in single precision.
fn by_float(first: i32, last: i32) -> f32 {
    if first > 0 {
        ((last - first) as f32 / first as f32) * 100.0
    } else {
        0.0
    }
}

fn trend_by_float(t: f32) -> Trend {
    if t > 15.0 {
        Trend::StrongUpward
    } else if t > 5.0 {
        Trend::Upward
    } else if t < -15.0 {
        Trend::StrongDownward
    } else if t < -5.0 {
        Trend::Downward
    } else {
        Trend::Stable
    }
}

fn advice_by_float(t: f32) -> Advice {
    if t > 10.0 {
        Advice::Sell
    } else if t < -10.0 {
        Advice::Buy
    } else {
        Advice::Hold
    }
}

const SCALE: f64 = 549_755_813_888.0;

fn check(first: i32, last: i32) {
    let scaled = trend_scaled_of(first, last);
    let float = by_float(first, last);
    assert_eq!(scaled as f64 / SCALE, float as f64, "first {} last {}", first, last);
}

#[test]
fn scaled_trend_is_the_single_precision_trend() {
    for first in 1..400 {
        for last in 0..1200 {
            check(first, last);
        }
    }
    for first in (400..7500).step_by(37) {
        for last in (0..7500).step_by(11) {
            check(first, last);
        }
    }
}

#[test]
fn thresholds_met_exactly() {
    for first in 1..7500 {
        for percent in [-15, -10, -5, 5, 10, 15] {
            if (first * percent) % 100 == 0 {
                let last = first + first * percent / 100;
                if last >= 0 && last <= 7499 {
                    check(first, last);
                }
            }
        }
    }
}

#[test]
fn fifteen_percent_rounds_above_the_threshold() {
    assert!(by_float(20, 23) > 15.0);
    assert!(trend_scaled_of(20, 23) > 15 * 549_755_813_888);
}

fn market_with_history(prices: &[i32]) -> Market {
    let mut m = Market::new();
    for &p in prices {
        let rolls: Vec<PriceRoll> = (0..6)
            .map(|i| {
                let s = Substance::from_index(i);
                let base_price = if i == 4 { p } else { s.base_price_low() };
                PriceRoll { base_price, special_event: 5 }
            })
            .collect();
        m.apply_rolls(&rolls);
    }
    m
}

#[test]
fn analysis_needs_two_prices() {
    let m = market_with_history(&[200]);
    assert_eq!(m.analysis(Substance::Heroin), None);
}

#[test]
fn analysis_of_each_trend() {
    let cases = [
        (&[200, 240][..], Trend::StrongUpward, Advice::Sell),
        (&[200, 300, 223][..], Trend::Upward, Advice::Sell),
        (&[200, 215][..], Trend::Upward, Advice::Hold),
        (&[200, 150, 209][..], Trend::Stable, Advice::Hold),
        (&[200, 189][..], Trend::Downward, Advice::Hold),
        (&[200, 175][..], Trend::Downward, Advice::Buy),
        (&[200, 160][..], Trend::StrongDownward, Advice::Buy),
        (&[200, 230][..], Trend::StrongUpward, Advice::Sell),
        (&[200, 210][..], Trend::Stable, Advice::Hold),
        (&[200, 180][..], Trend::Downward, Advice::Hold),
    ];
    for (prices, trend, advice) in cases {
        let m = market_with_history(prices);
        assert_eq!(
            m.analysis(Substance::Heroin),
            Some(MarketAnalysis { trend, advice }),
            "prices {:?}",
            prices
        );
        let t = by_float(prices[0], prices[prices.len() - 1]);
        assert_eq!(trend_by_float(t), trend);
        assert_eq!(advice_by_float(t), advice);
    }
}
