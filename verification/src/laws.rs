//! Properties that relate several actions of the game, or hold of every
//! state the game can reach.
use vstd::prelude::*;
use crate::catalog::{
    Location, Substance, base_price_high, lemma_substance_index_roundtrip, substance_index,
};
use crate::interest::law_interest_never_lowers_debt;
use crate::player::{
    MAX_CARRYING_CAPACITY, all_nonnegative, lemma_seq_sum_bounds_element, lemma_seq_sum_update,
};
use crate::market::{
    Market, MAX_HISTORY, MAX_PRICE, PriceRoll, recorded_history, roll_possible, rolled_price,
};
use crate::game::{
    Game, GameOverReason, GameState, MAX_DAYS, TravelEvent, after_loan, after_purchase,
    after_repayment, after_sale, can_buy, can_repay, can_sell, fresh_player, state_after_check,
    trade_value, travel_event_possible, travelled, TRAVEL_EVENT_ODDS, incident_of,
};

verus! {

/// Selling right away what was just bought gives back the cash paid and
/// leaves the stash as it was: the sale is allowed, and it earns exactly the
/// price of the purchase.
pub proof fn law_sale_undoes_purchase(g0: Game, g1: Game, g2: Game, s: Substance, amount: i32)
    requires
        g0.wf(),
        can_buy(g0, s, amount as int),
        after_purchase(g0, g1, s, amount),
        after_sale(g1, g2, s, amount),
    ensures
        can_sell(g1, s, amount as int),
        trade_value(g1, s, amount as int) == trade_value(g0, s, amount as int),
        g2.player.cash == g0.player.cash,
        g2.player.inventory@ == g0.player.inventory@,
        g2.player.debt == g0.player.debt,
{
    let i = crate::catalog::substance_index(s);
    crate::player::lemma_seq_sum_bounds_element(g0.player.inventory@, i);
    assert(g1.player.inventory@[i] == g0.player.inventory@[i] + amount);
    assert(g2.player.inventory@ =~= g0.player.inventory@);
}

/// Repaying right away what was just borrowed is allowed and leaves cash
/// and debt as they were.
pub proof fn law_repayment_undoes_loan(g0: Game, g1: Game, g2: Game, amount: i32)
    requires
        g0.wf(),
        amount > 0,
        after_loan(g0, g1, amount),
        after_repayment(g1, g2, amount),
    ensures
        can_repay(g1, amount as int),
        g2.player.cash == g0.player.cash,
        g2.player.debt == g0.player.debt,
        g2.player.inventory == g0.player.inventory,
{
}

/// A price history never outgrows its limit, ends with the newest price,
/// and keeps the most recent prices in order.
pub proof fn law_history_keeps_recent_prices(h: Seq<i32>, price: i32)
    requires
        h.len() <= MAX_HISTORY,
    ensures
        recorded_history(h, price, MAX_HISTORY as nat).len() <= MAX_HISTORY,
        recorded_history(h, price, MAX_HISTORY as nat).last() == price,
        recorded_history(h, price, MAX_HISTORY as nat) == h.push(price).subrange(
            h.push(price).len() - recorded_history(h, price, MAX_HISTORY as nat).len(),
            h.push(price).len() as int,
        ),
        h.len() < MAX_HISTORY ==> recorded_history(h, price, MAX_HISTORY as nat) == h.push(price),
{
    let r = recorded_history(h, price, MAX_HISTORY as nat);
    let full = h.push(price);
    assert(r =~= full.subrange(full.len() - r.len(), full.len() as int));
}

/// Every price the dice can set is positive and below `MAX_PRICE`; a day
/// without news keeps the base price.
pub proof fn law_rolled_price_in_range(s: Substance, r: PriceRoll)
    requires
        roll_possible(s, r),
    ensures
        2 <= rolled_price(r) < 5 * base_price_high(s),
        rolled_price(r) < MAX_PRICE,
        r.special_event >= 2 ==> rolled_price(r) == r.base_price,
{
}

/// The game lasts thirty journeys: starting fresh, after each of the first
/// twenty-nine journeys the calendar still shows a day within the limit, so
/// a running game with health left goes on; the thirtieth journey ends it
/// for lack of time.
pub proof fn law_thirty_journeys(
    games: Seq<Game>,
    dests: Seq<Location>,
    events: Seq<TravelEvent>,
    rolls: Seq<Seq<PriceRoll>>,
)
    requires
        games.len() == MAX_DAYS + 1,
        dests.len() == MAX_DAYS,
        events.len() == MAX_DAYS,
        rolls.len() == MAX_DAYS,
        fresh_player(games[0].player),
        forall|i: int| 0 <= i < MAX_DAYS ==> travelled(
            #[trigger] games[i],
            games[i + 1],
            dests[i],
            events[i],
            rolls[i],
        ),
    ensures
        forall|i: int| 0 <= i <= MAX_DAYS ==> (#[trigger] games[i]).player.day == 1 + i,
        forall|i: int| 0 <= i < MAX_DAYS ==> {
            (#[trigger] games[i]).game_state == GameState::Running && games[i].player.health > 0
                ==> state_after_check(games[i]) == GameState::Running
        },
        games[MAX_DAYS as int].game_state == GameState::Running ==> state_after_check(
            games[MAX_DAYS as int],
        ) == GameState::GameOver(GameOverReason::TimeUp),
{
    assert forall|i: int| 0 <= i <= MAX_DAYS implies (#[trigger] games[i]).player.day == 1 + i by {
        lemma_days_counted(games, dests, events, rolls, i);
    }
}

/// The road only takes: a journey never adds cash, goods or health, and
/// never lowers the debt.
pub proof fn law_journeys_only_take(
    g0: Game,
    g1: Game,
    dest: Location,
    e: TravelEvent,
    rolls: Seq<PriceRoll>,
)
    requires
        g0.wf(),
        travel_event_possible(g0.player, e),
        travelled(g0, g1, dest, e, rolls),
    ensures
        g1.player.cash <= g0.player.cash,
        g1.player.health <= g0.player.health,
        g1.player.debt >= g0.player.debt,
        forall|s: Substance| #[trigger] g1.player.holding(s) <= g0.player.holding(s),
        g1.player.total_held() <= g0.player.total_held(),
{
    law_interest_never_lowers_debt(g0.player.debt as int);
    assert forall|s: Substance| #[trigger] g1.player.holding(s) <= g0.player.holding(s) by {
        lemma_substance_index_roundtrip(s);
    }
    match e {
        TravelEvent::Cops { substance, confiscated } => {
            let i = substance_index(substance);
            lemma_substance_index_roundtrip(substance);
            lemma_seq_sum_update(g0.player.inventory@, i, (g0.player.holding(substance) - confiscated) as i32);
        },
        _ => {},
    }
}

/// A purchase keeps the bag within its capacity and the cash from going
/// negative; it only adds goods and only spends cash.
pub proof fn law_purchase_bounds(g0: Game, g1: Game, s: Substance, amount: i32)
    requires
        g0.wf(),
        can_buy(g0, s, amount as int),
        after_purchase(g0, g1, s, amount),
    ensures
        g1.player.wf(),
        g1.player.total_held() <= MAX_CARRYING_CAPACITY,
        g1.player.cash >= 0,
        all_nonnegative(g1.player.inventory@),
        g1.player.total_held() >= g0.player.total_held(),
        g1.player.cash <= g0.player.cash,
{
    let i = substance_index(s);
    lemma_substance_index_roundtrip(s);
    lemma_seq_sum_bounds_element(g0.player.inventory@, i);
    lemma_seq_sum_update(g0.player.inventory@, i, (g0.player.holding(s) + amount) as i32);
    assert(trade_value(g0, s, amount as int) >= 0) by (nonlinear_arith)
        requires
            amount > 0,
            g0.market.price(s) >= 0,
            trade_value(g0, s, amount as int) == amount * g0.market.price(s),
    ;
}

/// A sale never drives a count negative and never loses cash; it only
/// takes goods away.
pub proof fn law_sale_bounds(g0: Game, g1: Game, s: Substance, amount: i32)
    requires
        g0.wf(),
        can_sell(g0, s, amount as int),
        after_sale(g0, g1, s, amount),
    ensures
        g1.player.wf(),
        all_nonnegative(g1.player.inventory@),
        g1.player.cash >= g0.player.cash,
        g1.player.total_held() <= g0.player.total_held(),
{
    let i = substance_index(s);
    lemma_substance_index_roundtrip(s);
    lemma_seq_sum_update(g0.player.inventory@, i, (g0.player.holding(s) - amount) as i32);
    assert(trade_value(g0, s, amount as int) >= 0) by (nonlinear_arith)
        requires
            amount > 0,
            g0.market.price(s) >= 0,
            trade_value(g0, s, amount as int) == amount * g0.market.price(s),
    ;
}

/// Seven draws in ten make a quiet journey: with an incident number of 3 or
/// more nothing happens on the road, and cash, health and goods are left as
/// they were.
pub proof fn law_high_draws_are_quiet(
    g0: Game,
    g1: Game,
    dest: Location,
    roll: i32,
    k: i32,
    taken: i32,
    loss: i32,
    damage: i32,
    rolls: Seq<PriceRoll>,
)
    requires
        3 <= roll < TRAVEL_EVENT_ODDS,
        travelled(g0, g1, dest, incident_of(g0.player, roll, k, taken, loss, damage), rolls),
    ensures
        incident_of(g0.player, roll, k, taken, loss, damage) == TravelEvent::Quiet,
        g1.player.cash == g0.player.cash,
        g1.player.health == g0.player.health,
        g1.player.inventory@ == g0.player.inventory@,
{
}

/// The price history of a good holds exactly the last ten prices the market
/// set, oldest first: over a run of markets starting with an empty history,
/// each day recording its price as `Market::apply_rolls` and
/// `Market::generate_prices` do, the history after `k` days is the last
/// `min(k, 10)` of the `k` prices.
pub proof fn law_history_is_last_ten_prices(markets: Seq<Market>, s: Substance)
    requires
        markets.len() >= 1,
        markets[0].history(s).len() == 0,
        forall|j: int| 0 <= j < markets.len() - 1 ==> (#[trigger] markets[j + 1]).history(s)
            == recorded_history(
                markets[j].history(s),
                markets[j + 1].prices@[substance_index(s)],
                MAX_HISTORY as nat,
            ),
    ensures
        forall|k: int| 0 <= k < markets.len() ==> (#[trigger] markets[k]).history(s) == Seq::new(
            (markets.len() - 1) as nat,
            |j: int| markets[j + 1].prices@[substance_index(s)],
        ).subrange(if k > MAX_HISTORY { k - MAX_HISTORY } else { 0 }, k),
{
    let prices = Seq::new(
        (markets.len() - 1) as nat,
        |j: int| markets[j + 1].prices@[substance_index(s)],
    );
    assert forall|k: int| 0 <= k < markets.len() implies (#[trigger] markets[k]).history(s)
        == prices.subrange(if k > MAX_HISTORY { k - MAX_HISTORY } else { 0 }, k) by {
        lemma_history_window(markets, s, prices, k);
    }
}

/// The history after `k` days is the window of the last prices.
proof fn lemma_history_window(markets: Seq<Market>, s: Substance, prices: Seq<i32>, k: int)
    requires
        markets.len() >= 1,
        markets[0].history(s).len() == 0,
        forall|j: int| 0 <= j < markets.len() - 1 ==> (#[trigger] markets[j + 1]).history(s)
            == recorded_history(
                markets[j].history(s),
                markets[j + 1].prices@[substance_index(s)],
                MAX_HISTORY as nat,
            ),
        prices == Seq::new(
            (markets.len() - 1) as nat,
            |j: int| markets[j + 1].prices@[substance_index(s)],
        ),
        0 <= k < markets.len(),
    ensures
        markets[k].history(s) == prices.subrange(if k > MAX_HISTORY { k - MAX_HISTORY } else { 0 }, k),
    decreases k,
{
    if k == 0 {
        assert(markets[0].history(s) =~= prices.subrange(0, 0));
    } else {
        lemma_history_window(markets, s, prices, k - 1);
        let lo = if k - 1 > MAX_HISTORY { k - 1 - MAX_HISTORY } else { 0 };
        let h = markets[k - 1].history(s);
        assert(h == prices.subrange(lo, k - 1));
        assert(markets[(k - 1) + 1].history(s) == recorded_history(
            h,
            markets[(k - 1) + 1].prices@[substance_index(s)],
            MAX_HISTORY as nat,
        ));
        assert(prices[k - 1] == markets[k].prices@[substance_index(s)]);
        let lo2 = if k > MAX_HISTORY { k - MAX_HISTORY } else { 0 };
        assert(markets[k].history(s) =~= prices.subrange(lo2, k));
    }
}

/// After `k` journeys from a fresh start the calendar shows day `1 + k`.
proof fn lemma_days_counted(
    games: Seq<Game>,
    dests: Seq<Location>,
    events: Seq<TravelEvent>,
    rolls: Seq<Seq<PriceRoll>>,
    k: int,
)
    requires
        games.len() == MAX_DAYS + 1,
        dests.len() == MAX_DAYS,
        events.len() == MAX_DAYS,
        rolls.len() == MAX_DAYS,
        fresh_player(games[0].player),
        forall|i: int| 0 <= i < MAX_DAYS ==> travelled(
            #[trigger] games[i],
            games[i + 1],
            dests[i],
            events[i],
            rolls[i],
        ),
        0 <= k <= MAX_DAYS,
    ensures
        games[k].player.day == 1 + k,
    decreases k,
{
    if k > 0 {
        lemma_days_counted(games, dests, events, rolls, k - 1);
        assert(travelled(games[k - 1], games[k], dests[k - 1], events[k - 1], rolls[k - 1]));
    }
}

} // verus!
