//! The market: today's price of each good, the news that moved prices, and
//! a short history of past prices per good.
use vstd::prelude::*;
use crate::catalog::{
    Substance, NUM_SUBSTANCES, substance_at, substance_index, base_price_low, base_price_high,
};
use crate::rng::{gen_range, thread_rng};

verus! {

/// How many past prices the market remembers per good.
pub const MAX_HISTORY: usize = 10;

/// No price ever reaches this bound: the dearest base price times five.
pub const MAX_PRICE: i32 = 7500;

/// One in this many draws makes news.
pub const SPECIAL_EVENT_ODDS: i32 = 20;

/// News that moved the price of a good.
#[derive(Clone, Copy, Debug, PartialEq, Eq, Structural)]
pub enum MarketEvent {
    /// The police seized a shipment: the price is five times the base price.
    PoliceBust(Substance),
    /// The market is flooded: the price is a fifth of the base price.
    Flood(Substance),
}

/// The two draws that decide the price of one good: its base price and a
/// number below twenty of which 0 and 1 make news.
#[derive(Clone, Copy, Debug, PartialEq, Eq, Structural)]
pub struct PriceRoll {
    pub base_price: i32,
    pub special_event: i32,
}

/// A draw the dice can give for a good.
pub open spec fn roll_possible(s: Substance, r: PriceRoll) -> bool {
    &&& base_price_low(s) <= r.base_price < base_price_high(s)
    &&& 0 <= r.special_event < SPECIAL_EVENT_ODDS
}

/// Draws the dice can give for every good, in market order.
pub open spec fn rolls_possible(rolls: Seq<PriceRoll>) -> bool {
    &&& rolls.len() == NUM_SUBSTANCES
    &&& forall|i: int| 0 <= i < NUM_SUBSTANCES ==> roll_possible(substance_at(i), #[trigger] rolls[i])
}

/// The price a draw sets: five times the base price after a police bust
/// (event 0), a fifth of it (rounded down) when the market is flooded
/// (event 1), the base price otherwise.
pub open spec fn rolled_price(r: PriceRoll) -> int {
    if r.special_event == 0 {
        r.base_price * 5
    } else if r.special_event == 1 {
        r.base_price / 5
    } else {
        r.base_price as int
    }
}

/// The news a draw makes for a good, if any.
pub open spec fn rolled_event(s: Substance, r: PriceRoll) -> Option<MarketEvent> {
    if r.special_event == 0 {
        Some(MarketEvent::PoliceBust(s))
    } else if r.special_event == 1 {
        Some(MarketEvent::Flood(s))
    } else {
        None
    }
}

/// The news made by the draws of the first `n` goods, in market order.
pub open spec fn rolled_events(rolls: Seq<PriceRoll>, n: int) -> Seq<MarketEvent>
    decreases n,
{
    if n <= 0 {
        Seq::empty()
    } else {
        let earlier = rolled_events(rolls, n - 1);
        match rolled_event(substance_at(n - 1), rolls[n - 1]) {
            Some(e) => earlier.push(e),
            None => earlier,
        }
    }
}

/// A history after a new price: the price is appended and, when that makes
/// the history longer than `max`, the oldest price is dropped.
pub open spec fn recorded_history(h: Seq<i32>, price: i32, max: nat) -> Seq<i32> {
    if h.len() + 1 > max {
        h.push(price).drop_first()
    } else {
        h.push(price)
    }
}

/// Every price of the sequence lies in `[0, MAX_PRICE]`.
pub open spec fn prices_in_range(s: Seq<i32>) -> bool {
    forall|j: int| 0 <= j < s.len() ==> 0 <= #[trigger] s[j] <= MAX_PRICE
}

/// Today's prices, today's news and the recent prices of each good.
pub struct Market {
    /// Today's price of each good, in market order (0 before any draw).
    pub prices: Vec<i32>,
    /// The news of today's draw, in market order.
    pub events: Vec<MarketEvent>,
    /// Recent prices of each good, oldest first.
    pub price_history: Vec<Vec<i32>>,
    /// How many recent prices are kept per good.
    pub max_history: usize,
}

impl Market {
    /// One price and one history per good, histories no longer than the
    /// limit, every price in range.
    pub open spec fn wf(&self) -> bool {
        &&& self.prices@.len() == NUM_SUBSTANCES
        &&& self.price_history@.len() == NUM_SUBSTANCES
        &&& self.max_history == MAX_HISTORY
        &&& prices_in_range(self.prices@)
        &&& forall|i: int| 0 <= i < NUM_SUBSTANCES ==> {
            &&& (#[trigger] self.price_history@[i])@.len() <= self.max_history
            &&& prices_in_range(self.price_history@[i]@)
        }
    }

    /// Today's price of a good.
    pub open spec fn price(&self, s: Substance) -> int {
        self.prices@[substance_index(s)] as int
    }

    /// The recent prices of a good, oldest first.
    pub open spec fn history(&self, s: Substance) -> Seq<i32> {
        self.price_history@[substance_index(s)]@
    }

    /// A market before the first draw: no price set (each reads as 0), no
    /// news, an empty history for every good, ten prices remembered.
    pub fn new() -> (m: Market)
        ensures
            m.wf(),
            m.prices@ == Seq::new(NUM_SUBSTANCES as nat, |i: int| 0i32),
            m.events@ == Seq::<MarketEvent>::empty(),
            forall|i: int| 0 <= i < NUM_SUBSTANCES ==> (#[trigger] m.price_history@[i])@.len() == 0,
            m.max_history == MAX_HISTORY,
    {
        let mut prices: Vec<i32> = Vec::new();
        let mut price_history: Vec<Vec<i32>> = Vec::new();
        let mut i: usize = 0;
        while i < NUM_SUBSTANCES
            invariant
                i <= NUM_SUBSTANCES,
                prices@ == Seq::new(i as nat, |k: int| 0i32),
                price_history@.len() == i,
                forall|k: int| 0 <= k < i ==> (#[trigger] price_history@[k])@.len() == 0,
            decreases NUM_SUBSTANCES - i,
        {
            prices.push(0);
            price_history.push(Vec::new());
            i = i + 1;
        }
        Market { prices, events: Vec::new(), price_history, max_history: MAX_HISTORY }
    }

    /// Today's price of a good.
    pub fn price_of(&self, s: Substance) -> (p: i32)
        requires
            self.wf(),
        ensures
            p == self.price(s),
            0 <= p <= MAX_PRICE,
    {
        self.prices[s.index()]
    }

    /// Sets today's prices from one draw per good, in market order: the news
    /// is replaced by the news of these draws, each price is set by its draw
    /// and appended to the good's history, whose oldest price is dropped
    /// when the history outgrows its limit.
    pub fn apply_rolls(&mut self, rolls: &Vec<PriceRoll>)
        requires
            old(self).wf(),
            rolls_possible(rolls@),
        ensures
            final(self).wf(),
            final(self).max_history == old(self).max_history,
            final(self).events@ == rolled_events(rolls@, NUM_SUBSTANCES as int),
            forall|i: int| 0 <= i < NUM_SUBSTANCES ==>
                #[trigger] final(self).prices@[i] == rolled_price(rolls@[i]),
            forall|i: int| 0 <= i < NUM_SUBSTANCES ==>
                (#[trigger] final(self).price_history@[i])@ == recorded_history(
                    old(self).price_history@[i]@,
                    final(self).prices@[i],
                    old(self).max_history as nat,
                ),
    {
        self.events.clear();
        let mut i: usize = 0;
        while i < NUM_SUBSTANCES
            invariant
                i <= NUM_SUBSTANCES,
                rolls_possible(rolls@),
                self.wf(),
                self.max_history == old(self).max_history,
                self.events@ == rolled_events(rolls@, i as int),
                forall|k: int| 0 <= k < i ==> #[trigger] self.prices@[k] == rolled_price(rolls@[k]),
                forall|k: int| 0 <= k < i ==>
                    (#[trigger] self.price_history@[k])@ == recorded_history(
                        old(self).price_history@[k]@,
                        self.prices@[k],
                        old(self).max_history as nat,
                    ),
                forall|k: int| i <= k < NUM_SUBSTANCES ==>
                    (#[trigger] self.price_history@[k]) == old(self).price_history@[k],
            decreases NUM_SUBSTANCES - i,
        {
            let substance = Substance::from_index(i);
            let roll = rolls[i];
            assert(roll_possible(substance_at(i as int), rolls@[i as int]));
            let price = if roll.special_event == 0 {
                self.events.push(MarketEvent::PoliceBust(substance));
                roll.base_price * 5
            } else if roll.special_event == 1 {
                self.events.push(MarketEvent::Flood(substance));
                roll.base_price / 5
            } else {
                roll.base_price
            };
            self.prices.set(i, price);
            let mut history: Vec<i32> = Vec::new();
            self.price_history.set_and_swap(i, &mut history);
            let ghost before = history@;
            history.push(price);
            if history.len() > self.max_history {
                history.remove(0);
            }
            assert(history@ == recorded_history(before, price, self.max_history as nat));
            self.price_history.set(i, history);
            i = i + 1;
        }
    }

    /// Draws today's prices and news at random, as `apply_rolls` sets them
    /// from draws the dice can give.
    pub fn generate_prices(&mut self)
        requires
            old(self).wf(),
        ensures
            final(self).wf(),
            final(self).max_history == old(self).max_history,
            exists|rolls: Seq<PriceRoll>| {
                &&& rolls_possible(rolls)
                &&& final(self).events@ == rolled_events(rolls, NUM_SUBSTANCES as int)
                &&& forall|i: int| 0 <= i < NUM_SUBSTANCES ==>
                    #[trigger] final(self).prices@[i] == rolled_price(rolls[i])
                &&& forall|i: int| 0 <= i < NUM_SUBSTANCES ==>
                    (#[trigger] final(self).price_history@[i])@ == recorded_history(
                        old(self).price_history@[i]@,
                        final(self).prices@[i],
                        old(self).max_history as nat,
                    )
            },
    {
        let rolls = roll_prices();
        self.apply_rolls(&rolls);
        assert(rolls_possible(rolls@));
    }
}

/// A draw of the dice as it was made: the range asked for, `[low, high)`,
/// and the value that came back.
pub type DrawMade = (int, int, int);

/// Draws a number in `[low, high)` and records the draw.
pub(crate) fn draw(rng: &mut rand::rngs::ThreadRng, low: i32, high: i32, made: &mut Ghost<Seq<DrawMade>>) -> (r: i32)
    requires
        low < high,
    ensures
        low <= r < high,
        final(made)@ == old(made)@.push((low as int, high as int, r as int)),
{
    let r = gen_range(rng, low, high);
    *made = Ghost(made@.push((low as int, high as int, r as int)));
    r
}

/// The draws behind a day's prices, in the order they are made: for each
/// good in market order, its base price drawn over the good's range, then
/// its event number drawn over `[0, 20)`.
pub open spec fn price_draws(rolls: Seq<PriceRoll>, made: Seq<DrawMade>) -> bool {
    &&& rolls.len() == NUM_SUBSTANCES
    &&& made.len() == 2 * NUM_SUBSTANCES
    &&& forall|i: int| #![trigger rolls[i]] 0 <= i < NUM_SUBSTANCES ==> {
        &&& made[2 * i] == (
            base_price_low(substance_at(i)),
            base_price_high(substance_at(i)),
            rolls[i].base_price as int,
        )
        &&& made[2 * i + 1] == (0int, SPECIAL_EVENT_ODDS as int, rolls[i].special_event as int)
    }
}

/// Draws, for each good in market order, a base price in the good's range
/// and an event number below twenty, and hands back the draws as made: each
/// value in the rolls is the value of a draw over the whole range.
pub fn roll_prices_recorded() -> (res: (Vec<PriceRoll>, Ghost<Seq<DrawMade>>))
    ensures
        rolls_possible(res.0@),
        price_draws(res.0@, res.1@),
{
    let mut rng = thread_rng();
    let mut made: Ghost<Seq<DrawMade>> = Ghost(Seq::empty());
    let mut rolls: Vec<PriceRoll> = Vec::new();
    let mut i: usize = 0;
    while i < NUM_SUBSTANCES
        invariant
            i <= NUM_SUBSTANCES,
            rolls@.len() == i,
            made@.len() == 2 * i,
            forall|k: int| 0 <= k < i ==> roll_possible(substance_at(k), #[trigger] rolls@[k]),
            forall|k: int| #![trigger rolls@[k]] 0 <= k < i ==> {
                &&& made@[2 * k] == (
                    base_price_low(substance_at(k)),
                    base_price_high(substance_at(k)),
                    rolls@[k].base_price as int,
                )
                &&& made@[2 * k + 1] == (0int, SPECIAL_EVENT_ODDS as int, rolls@[k].special_event as int)
            },
        decreases NUM_SUBSTANCES - i,
    {
        let substance = Substance::from_index(i);
        let ghost before = made@;
        let ghost rolls_before = rolls@;
        let base_price = draw(&mut rng, substance.base_price_low(), substance.base_price_high(), &mut made);
        let special_event = draw(&mut rng, 0, SPECIAL_EVENT_ODDS, &mut made);
        rolls.push(PriceRoll { base_price, special_event });
        proof {
            assert forall|k: int| #![trigger rolls@[k]] 0 <= k < i + 1 implies {
                &&& made@[2 * k] == (
                    base_price_low(substance_at(k)),
                    base_price_high(substance_at(k)),
                    rolls@[k].base_price as int,
                )
                &&& made@[2 * k + 1] == (0int, SPECIAL_EVENT_ODDS as int, rolls@[k].special_event as int)
            } by {
                if k < i {
                    assert(made@[2 * k] == before[2 * k]);
                    assert(made@[2 * k + 1] == before[2 * k + 1]);
                    assert(rolls@[k] == rolls_before[k]);
                }
            }
        }
        i = i + 1;
    }
    (rolls, made)
}

/// Draws, for each good in market order, a base price in the good's range
/// and an event number below twenty, as `roll_prices_recorded` does.
pub fn roll_prices() -> (rolls: Vec<PriceRoll>)
    ensures
        rolls_possible(rolls@),
{
    let (rolls, _made) = roll_prices_recorded();
    rolls
}

/// The larger of two integers.
pub open spec fn max(a: int, b: int) -> int {
    if a >= b {
        a
    } else {
        b
    }
}

/// The largest price of a nonempty sequence.
pub open spec fn seq_max(s: Seq<i32>) -> int
    decreases s.len(),
{
    if s.len() <= 1 {
        s[0] as int
    } else {
        max(seq_max(s.drop_last()), s.last() as int)
    }
}

/// The smallest price of a nonempty sequence.
pub open spec fn seq_min(s: Seq<i32>) -> int
    decreases s.len(),
{
    if s.len() <= 1 {
        s[0] as int
    } else {
        -max(-seq_min(s.drop_last()), -(s.last() as int))
    }
}

/// The integers a price chart is drawn from.
pub struct PriceChart {
    /// The recent prices followed by today's price, oldest first.
    pub points: Vec<i32>,
    /// The highest of the points.
    pub max_price: i32,
    /// The lowest of the points.
    pub min_price: i32,
    /// The spread of the points, at least 1.
    pub price_range: i32,
    /// The labels of the five horizontal gridlines, top to bottom.
    pub grid_labels: Vec<i32>,
    /// The day of each point but the last, which is labelled "Now".
    pub day_labels: Vec<i32>,
}

/// A chart for the recent prices `history` of a good, today's price
/// `current`, on day `day`: the points are the history followed by today's
/// price; gridline `i` (of five, top down) is labelled with the highest
/// price less `i` quarters of the spread (rounded toward zero); the point
/// `i` of `n` before today is labelled with day `day - (n - 1 - i)`.
pub open spec fn charted(c: PriceChart, history: Seq<i32>, current: i32, day: int) -> bool {
    let points = history.push(current);
    let range = max(seq_max(points) - seq_min(points), 1);
    &&& c.points@ == points
    &&& c.max_price == seq_max(points)
    &&& c.min_price == seq_min(points)
    &&& c.price_range == range
    &&& c.grid_labels@.len() == 5
    &&& forall|i: int| 0 <= i < 5 ==> #[trigger] c.grid_labels@[i] == seq_max(points) - (i * range) / 4
    &&& c.day_labels@.len() == history.len()
    &&& forall|i: int| 0 <= i < history.len() ==> #[trigger] c.day_labels@[i] == day - (history.len() - i)
}

/// The extremes of a nonempty sequence of prices in range are in range.
proof fn lemma_extremes_in_range(s: Seq<i32>)
    requires
        s.len() >= 1,
        prices_in_range(s),
    ensures
        0 <= seq_min(s) <= seq_max(s) <= MAX_PRICE,
    decreases s.len(),
{
    if s.len() > 1 {
        lemma_extremes_in_range(s.drop_last());
    }
}

impl Market {
    /// The chart of a good's recent prices and today's price, on day `day`;
    /// none while the good has no price history.
    pub fn chart(&self, s: Substance, day: i32) -> (c: Option<PriceChart>)
        requires
            self.wf(),
            day >= i32::MIN + MAX_HISTORY,
        ensures
            c is None <==> self.history(s).len() == 0,
            c matches Some(c) ==> charted(c, self.history(s), self.prices@[substance_index(s)], day as int),
    {
        let k = s.index();
        let history = &self.price_history[k];
        let current = self.prices[k];
        if history.len() == 0 {
            return None;
        }
        let mut points: Vec<i32> = Vec::new();
        let mut hi: i32 = history[0];
        let mut lo: i32 = history[0];
        let n = history.len();
        let mut i: usize = 0;
        while i < n
            invariant
                n == history@.len(),
                n >= 1,
                n <= MAX_HISTORY,
                prices_in_range(history@),
                i <= n,
                points@ == history@.take(i as int),
                i >= 1 ==> hi == seq_max(history@.take(i as int)),
                i >= 1 ==> lo == seq_min(history@.take(i as int)),
                i == 0 ==> hi == history@[0] && lo == history@[0],
            decreases n - i,
        {
            let p = history[i];
            points.push(p);
            proof {
                assert(history@.take(i as int + 1).drop_last() =~= history@.take(i as int));
            }
            if i == 0 {
                hi = p;
                lo = p;
            } else {
                if p > hi {
                    hi = p;
                }
                if p < lo {
                    lo = p;
                }
            }
            i = i + 1;
        }
        assert(history@.take(n as int) =~= history@);
        points.push(current);
        if current > hi {
            hi = current;
        }
        if current < lo {
            lo = current;
        }
        let ghost all = history@.push(current);
        assert(points@ == all);
        assert(all.drop_last() =~= history@);
        proof {
            lemma_extremes_in_range(history@);
        }
        let range = if hi - lo > 1 {
            hi - lo
        } else {
            1
        };
        let mut grid_labels: Vec<i32> = Vec::new();
        let mut g: i32 = 0;
        while g < 5
            invariant
                0 <= g <= 5,
                grid_labels@.len() == g,
                1 <= range <= MAX_PRICE,
                0 <= hi <= MAX_PRICE,
                forall|j: int| 0 <= j < g ==> #[trigger] grid_labels@[j] == hi - (j * range) / 4,
            decreases 5 - g,
        {
            assert(0 <= g * range <= 5 * MAX_PRICE) by (nonlinear_arith)
                requires
                    0 <= g < 5,
                    1 <= range <= MAX_PRICE,
            ;
            grid_labels.push(hi - g * range / 4);
            g = g + 1;
        }
        let mut day_labels: Vec<i32> = Vec::new();
        let mut j: usize = 0;
        while j < n
            invariant
                n == history@.len(),
                n <= MAX_HISTORY,
                day >= i32::MIN + MAX_HISTORY,
                j <= n,
                day_labels@.len() == j,
                forall|t: int| 0 <= t < j ==> #[trigger] day_labels@[t] == day - (n - t),
            decreases n - j,
        {
            day_labels.push(day - (n - j) as i32);
            j = j + 1;
        }
        Some(PriceChart { points, max_price: hi, min_price: lo, price_range: range, grid_labels, day_labels })
    }
}

} // verus!
