//! The market analysis of the price chart screen: the trend of a good's
//! recorded prices and the trading advice drawn from it.  The trend is the
//! percentage change from the oldest to the newest recorded price, computed
//! in single precision as `((last - first) as f32 / first as f32) * 100.0`;
//! its comparison with the thresholds is stated here exactly, over integers
//! that hold the single-precision values scaled by `2^39`.
use vstd::prelude::*;
use crate::catalog::Substance;
use crate::market::{Market, MAX_PRICE};
use crate::rounding::{f32_round, round_f32};

verus! {

/// `2^39`, the scale at which quotients and percentages are held.
pub open spec fn trend_scale() -> nat {
    0x80_0000_0000
}

/// `n / d` rounded to single precision, times `2^39`.  The quotient is
/// taken to the scale with its remainder kept as one extra low bit, so that
/// rounding the scaled integer rounds the exact quotient; for the prices of
/// the market (numerators and denominators from 1 to 7500) the scaled
/// quotient has more than 26 binary digits, as that needs.
pub open spec fn f32_quotient_scaled(n: nat, d: nat) -> nat {
    let whole = n * trend_scale() / d;
    let sticky: nat = if (n * trend_scale()) % d == 0 {
        0
    } else {
        1
    };
    f32_round(2 * whole + sticky) / 2
}

/// The trend in percent, times `2^39`: the price change over the first
/// price, rounded to single precision, times 100, rounded again; the sign is
/// that of the change.  Without a positive first price the trend is 0.
pub open spec fn trend_scaled(first: int, last: int) -> int {
    if first <= 0 {
        0
    } else {
        let change = last - first;
        let magnitude = if change >= 0 {
            change
        } else {
            -change
        };
        let t = f32_round(f32_quotient_scaled(magnitude as nat, first as nat) * 100) as int;
        if change >= 0 {
            t
        } else {
            -t
        }
    }
}

/// How the analysis describes a trend.
#[derive(Clone, Copy, Debug, PartialEq, Eq, Structural)]
pub enum Trend {
    /// Above 15 percent.
    StrongUpward,
    /// Above 5 percent.
    Upward,
    /// Below -15 percent.
    StrongDownward,
    /// Below -5 percent.
    Downward,
    /// From -5 to 5 percent.
    Stable,
}

/// The trading recommendation.
#[derive(Clone, Copy, Debug, PartialEq, Eq, Structural)]
pub enum Advice {
    /// Above 10 percent: prices are high and may drop.
    Sell,
    /// Below -10 percent: prices are low and may rise.
    Buy,
    /// Otherwise: no strong signal.
    Hold,
}

/// The description of a trend held at scale `2^39`.
pub open spec fn trend_of(t: int) -> Trend {
    if t > 15 * trend_scale() {
        Trend::StrongUpward
    } else if t > 5 * trend_scale() {
        Trend::Upward
    } else if t < -15 * trend_scale() {
        Trend::StrongDownward
    } else if t < -5 * trend_scale() {
        Trend::Downward
    } else {
        Trend::Stable
    }
}

/// The advice for a trend held at scale `2^39`.
pub open spec fn advice_of(t: int) -> Advice {
    if t > 10 * trend_scale() {
        Advice::Sell
    } else if t < -10 * trend_scale() {
        Advice::Buy
    } else {
        Advice::Hold
    }
}

/// The trend from `first` to `last`, times `2^39`.
pub fn trend_scaled_of(first: i32, last: i32) -> (t: i64)
    requires
        0 <= first <= MAX_PRICE,
        0 <= last <= MAX_PRICE,
    ensures
        t == trend_scaled(first as int, last as int),
{
    if first <= 0 {
        return 0;
    }
    let change = last - first;
    let magnitude: u64 = if change >= 0 {
        change as u64
    } else {
        (-change) as u64
    };
    let d = first as u64;
    let scaled = magnitude * 0x80_0000_0000;
    let whole = scaled / d;
    let sticky: u64 = if scaled % d == 0 {
        0
    } else {
        1
    };
    assert(whole <= scaled) by (nonlinear_arith)
        requires
            whole == scaled / d,
            d >= 1,
    ;
    let q = round_f32(2 * whole + sticky) / 2;
    let t = round_f32(q * 100);
    if change >= 0 {
        t as i64
    } else {
        -(t as i64)
    }
}

/// The analysis of the price chart screen.
#[derive(Clone, Copy, Debug, PartialEq, Eq, Structural)]
pub struct MarketAnalysis {
    pub trend: Trend,
    pub advice: Advice,
}

impl Market {
    /// The analysis of a good's recorded prices, from the oldest to the
    /// newest; none with fewer than two recorded prices.
    pub fn analysis(&self, s: Substance) -> (a: Option<MarketAnalysis>)
        requires
            self.wf(),
        ensures
            a is None <==> self.history(s).len() < 2,
            a matches Some(a) ==> {
                let h = self.history(s);
                let t = trend_scaled(h[0] as int, h.last() as int);
                &&& a.trend == trend_of(t)
                &&& a.advice == advice_of(t)
                &&& (t > 10 * 0x80_0000_0000 ==> a.advice == Advice::Sell)
                &&& (t < -10 * 0x80_0000_0000 ==> a.advice == Advice::Buy)
                &&& (-10 * 0x80_0000_0000 <= t <= 10 * 0x80_0000_0000 ==> a.advice == Advice::Hold)
                &&& (t > 15 * 0x80_0000_0000 ==> a.trend == Trend::StrongUpward)
                &&& (5 * 0x80_0000_0000 < t <= 15 * 0x80_0000_0000 ==> a.trend == Trend::Upward)
                &&& (t < -15 * 0x80_0000_0000 ==> a.trend == Trend::StrongDownward)
                &&& (-15 * 0x80_0000_0000 <= t < -5 * 0x80_0000_0000 ==> a.trend == Trend::Downward)
                &&& (-5 * 0x80_0000_0000 <= t <= 5 * 0x80_0000_0000 ==> a.trend == Trend::Stable)
            },
    {
        let history = &self.price_history[s.index()];
        let n = history.len();
        if n < 2 {
            return None;
        }
        let t = trend_scaled_of(history[0], history[n - 1]);
        let trend = if t > 15 * 0x80_0000_0000 {
            Trend::StrongUpward
        } else if t > 5 * 0x80_0000_0000 {
            Trend::Upward
        } else if t < -15 * 0x80_0000_0000 {
            Trend::StrongDownward
        } else if t < -5 * 0x80_0000_0000 {
            Trend::Downward
        } else {
            Trend::Stable
        };
        let advice = if t > 10 * 0x80_0000_0000 {
            Advice::Sell
        } else if t < -10 * 0x80_0000_0000 {
            Advice::Buy
        } else {
            Advice::Hold
        };
        Some(MarketAnalysis { trend, advice })
    }
}

/// The advice follows the ten-percent thresholds: above ten percent sell,
/// below minus ten percent buy, otherwise hold.
pub proof fn law_advice_thresholds(t: int)
    ensures
        t > 10 * 0x80_0000_0000 ==> advice_of(t) == Advice::Sell,
        t < -10 * 0x80_0000_0000 ==> advice_of(t) == Advice::Buy,
        -10 * 0x80_0000_0000 <= t <= 10 * 0x80_0000_0000 ==> advice_of(t) == Advice::Hold,
{
}

/// The trend follows the five- and fifteen-percent thresholds.
pub proof fn law_trend_thresholds(t: int)
    ensures
        t > 15 * 0x80_0000_0000 ==> trend_of(t) == Trend::StrongUpward,
        5 * 0x80_0000_0000 < t <= 15 * 0x80_0000_0000 ==> trend_of(t) == Trend::Upward,
        t < -15 * 0x80_0000_0000 ==> trend_of(t) == Trend::StrongDownward,
        -15 * 0x80_0000_0000 <= t < -5 * 0x80_0000_0000 ==> trend_of(t) == Trend::Downward,
        -5 * 0x80_0000_0000 <= t <= 5 * 0x80_0000_0000 ==> trend_of(t) == Trend::Stable,
{
}

} // verus!
