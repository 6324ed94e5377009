//! The rules of each action, stated with the arithmetic of the game itself:
//! what the hospital charges, what a trade or a loan does to cash and goods,
//! what each incident on the road takes, and how a draw sets a price.  Each
//! law speaks of the states that the actions' contracts describe.
use vstd::prelude::*;
use crate::catalog::{
    Location, Substance, lemma_location_index_roundtrip, lemma_substance_index_roundtrip,
    location_at, location_index, substance_at, substance_index,
};
use crate::market::{
    MarketEvent, PriceRoll, roll_possible, rolled_event, rolled_events, rolled_price,
    rolls_possible, seq_max, seq_min,
};
use crate::player::{Player, lemma_seq_sum_bounds_element, lemma_seq_sum_zero};
use crate::game::{
    Game, GameOverReason, GameState, HealthLevel, Message, Screen, TravelEvent, after_loan,
    after_purchase, after_repayment, after_sale, after_treatment, can_borrow, can_buy, can_heal,
    can_repay, can_sell, destinations_among, fresh_player, healing_cost, health_level_of,
    navigated, state_after_check, travel_event_possible, travelled,
};

verus! {

/// The hospital charges fifty for every missing health point, and treats
/// exactly when the player is below full health and has that much cash.
pub proof fn law_hospital_price(g: Game)
    requires
        g.wf(),
    ensures
        healing_cost(g) == (100 - g.player.health) * 50,
        can_heal(g) <==> g.player.health < 100 && g.player.cash >= (100 - g.player.health) * 50,
{
}

/// Treatment costs fifty per missing point and restores full health, and the
/// player never ends up owing the hospital.
pub proof fn law_treatment(g0: Game, g1: Game)
    requires
        g0.wf(),
        can_heal(g0),
        after_treatment(g0, g1),
    ensures
        g1.player.cash == g0.player.cash - (100 - g0.player.health) * 50,
        g1.player.health == 100,
        g1.player.cash >= 0,
        g1.player.debt == g0.player.debt,
        g1.player.inventory == g0.player.inventory,
{
}

/// A purchase is allowed exactly for a positive amount that fits in the bag
/// and that the cash pays for at today's price; it pays amount times price
/// and adds the units to that good alone.
pub proof fn law_purchase_arithmetic(g0: Game, g1: Game, s: Substance, amount: i32)
    requires
        g0.wf(),
        after_purchase(g0, g1, s, amount),
        can_buy(g0, s, amount as int),
    ensures
        g1.player.cash == g0.player.cash - amount * g0.market.prices@[substance_index(s)],
        g1.player.holding(s) == g0.player.holding(s) + amount,
        forall|o: Substance| o != s ==> #[trigger] g1.player.holding(o) == g0.player.holding(o),
        g1.player.debt == g0.player.debt,
        g1.message_log@.last() == (Message::Bought {
            amount,
            substance: s,
            cost: (amount * g0.market.prices@[substance_index(s)]) as i32,
        }),
{
    lemma_substance_index_roundtrip(s);
    lemma_seq_sum_bounds_element(g0.player.inventory@, substance_index(s));
    assert forall|o: Substance| o != s implies #[trigger] g1.player.holding(o) == g0.player.holding(o) by {
        lemma_substance_index_roundtrip(o);
    }
}

/// When a purchase is allowed: a positive amount, no more than the room
/// left in the bag, costing no more than the cash.
pub proof fn law_purchase_allowed(g: Game, s: Substance, amount: int)
    ensures
        can_buy(g, s, amount) <==> {
            &&& amount > 0
            &&& amount <= 100 - g.player.total_held()
            &&& amount * g.market.prices@[substance_index(s)] <= g.player.cash
        },
{
}

/// A sale is allowed exactly for a positive amount no larger than what is
/// held; it earns amount times price and removes the units from that good
/// alone.
pub proof fn law_sale_arithmetic(g0: Game, g1: Game, s: Substance, amount: i32)
    requires
        g0.wf(),
        after_sale(g0, g1, s, amount),
        can_sell(g0, s, amount as int),
    ensures
        g1.player.cash == g0.player.cash + amount * g0.market.prices@[substance_index(s)],
        g1.player.holding(s) == g0.player.holding(s) - amount,
        forall|o: Substance| o != s ==> #[trigger] g1.player.holding(o) == g0.player.holding(o),
        g1.player.debt == g0.player.debt,
        g1.message_log@.last() == (Message::Sold {
            amount,
            substance: s,
            earned: (amount * g0.market.prices@[substance_index(s)]) as i32,
        }),
{
    lemma_substance_index_roundtrip(s);
    assert forall|o: Substance| o != s implies #[trigger] g1.player.holding(o) == g0.player.holding(o) by {
        lemma_substance_index_roundtrip(o);
    }
}

/// When a sale is allowed: a positive amount no larger than what is held.
pub proof fn law_sale_allowed(g: Game, s: Substance, amount: int)
    ensures
        can_sell(g, s, amount) <==> 0 < amount <= g.player.inventory@[substance_index(s)],
{
}

/// A loan adds the amount to both cash and debt; a repayment takes it from
/// both, and is allowed exactly for a positive amount covered by the cash
/// and no larger than the debt.
pub proof fn law_loan_arithmetic(g0: Game, g1: Game, g2: Game, amount: i32, back: i32)
    requires
        after_loan(g0, g1, amount),
        after_repayment(g0, g2, back),
    ensures
        can_borrow(amount as int) <==> amount > 0,
        g1.player.cash == g0.player.cash + amount,
        g1.player.debt == g0.player.debt + amount,
        g2.player.cash == g0.player.cash - back,
        g2.player.debt == g0.player.debt - back,
        can_repay(g0, back as int) <==> 0 < back && back <= g0.player.cash && back <= g0.player.debt,
{
}

/// A mugging takes the sum asked, or all the cash when there is less, and
/// the log reports what was taken; health and goods are untouched.
pub proof fn law_mugging(g0: Game, g1: Game, dest: Location, loss: i32, rolls: Seq<PriceRoll>)
    requires
        g0.wf(),
        100 <= loss < 500,
        travelled(g0, g1, dest, TravelEvent::Mugging { loss }, rolls),
    ensures
        g1.player.cash == if loss <= g0.player.cash {
            g0.player.cash - loss
        } else {
            0
        },
        g1.message_log@[g0.message_log@.len() as int + 1] == Message::Mugged,
        g1.message_log@[g0.message_log@.len() as int + 2] == Message::LostCash(
            if loss <= g0.player.cash {
                loss
            } else {
                g0.player.cash
            },
        ),
        g1.player.health == g0.player.health,
        g1.player.inventory@ == g0.player.inventory@,
{
}

/// The police take exactly the units confiscated of the good they pick, and
/// nothing else; the log reports it when there was anything to take.
pub proof fn law_police(
    g0: Game,
    g1: Game,
    dest: Location,
    s: Substance,
    confiscated: i32,
    rolls: Seq<PriceRoll>,
)
    requires
        g0.wf(),
        travel_event_possible(g0.player, TravelEvent::Cops { substance: s, confiscated }),
        travelled(g0, g1, dest, TravelEvent::Cops { substance: s, confiscated }, rolls),
    ensures
        g1.player.holding(s) == g0.player.holding(s) - confiscated,
        g0.player.holding(s) == 0 ==> g1.player.holding(s) == 0,
        g0.player.holding(s) > 0 ==> 1 <= confiscated <= g0.player.holding(s),
        forall|o: Substance| o != s ==> #[trigger] g1.player.holding(o) == g0.player.holding(o),
        g1.player.cash == g0.player.cash,
        g1.player.health == g0.player.health,
        g1.message_log@[g0.message_log@.len() as int + 1] == Message::StoppedByCops,
        g0.player.holding(s) > 0 ==> g1.message_log@[g0.message_log@.len() as int + 2]
            == (Message::Confiscated { amount: confiscated, substance: s }),
{
    lemma_substance_index_roundtrip(s);
    lemma_seq_sum_bounds_element(g0.player.inventory@, substance_index(s));
    assert forall|o: Substance| o != s implies #[trigger] g1.player.holding(o) == g0.player.holding(o) by {
        lemma_substance_index_roundtrip(o);
    }
}

/// An injury takes its points of health, down to zero and no further; cash
/// and goods are untouched.
pub proof fn law_injury(g0: Game, g1: Game, dest: Location, damage: i32, rolls: Seq<PriceRoll>)
    requires
        g0.wf(),
        5 <= damage < 20,
        travelled(g0, g1, dest, TravelEvent::Injury { damage }, rolls),
    ensures
        g1.player.health == if damage < g0.player.health {
            g0.player.health - damage
        } else {
            0
        },
        g1.message_log@[g0.message_log@.len() as int + 2] == Message::LostHealth(damage),
        g1.player.cash == g0.player.cash,
        g1.player.inventory@ == g0.player.inventory@,
{
}

/// Every journey ends in the chosen district on the next day, back on the
/// main screen, with the journey's first log entries telling where the
/// player went.
pub proof fn law_journey(g0: Game, g1: Game, dest: Location, e: TravelEvent, rolls: Seq<PriceRoll>)
    requires
        travelled(g0, g1, dest, e, rolls),
    ensures
        g1.player.current_location == dest,
        g1.player.day == g0.player.day + 1,
        g1.current_screen == Screen::Main,
        g1.message_log@.len() > g0.message_log@.len(),
        g1.message_log@[g0.message_log@.len() as int] == Message::Traveling(dest),
        forall|i: int| 0 <= i < g0.message_log@.len() ==> #[trigger] g1.message_log@[i] == g0.message_log@[i],
{
}

/// A draw sets the price at five times the base after a police bust (event
/// 0) with that news, at a fifth of it rounded down after a flood (event 1)
/// with that news, and at the base price without news otherwise.
pub proof fn law_rolled_price(s: Substance, r: PriceRoll)
    requires
        roll_possible(s, r),
    ensures
        r.special_event == 0 ==> rolled_price(r) == 5 * r.base_price
            && rolled_event(s, r) == Some(MarketEvent::PoliceBust(s)),
        r.special_event == 1 ==> 5 * rolled_price(r) <= r.base_price < 5 * rolled_price(r) + 5
            && rolled_event(s, r) == Some(MarketEvent::Flood(s)),
        r.special_event >= 2 ==> rolled_price(r) == r.base_price && rolled_event(s, r) is None,
{
}

/// A running game ends when the thirty days are over, or else when health
/// is gone; otherwise it goes on.  An ended game stays ended.
pub proof fn law_end_of_game(g: Game)
    ensures
        g.game_state == GameState::Running && g.player.day > 30 ==> state_after_check(g)
            == GameState::GameOver(GameOverReason::TimeUp),
        g.game_state == GameState::Running && g.player.day <= 30 && g.player.health <= 0
            ==> state_after_check(g) == GameState::GameOver(GameOverReason::Died),
        g.game_state == GameState::Running && g.player.day <= 30 && g.player.health > 0
            ==> state_after_check(g) == GameState::Running,
        forall|r: GameOverReason| g.game_state == GameState::GameOver(r) ==> #[trigger] state_after_check(g)
            == GameState::GameOver(r),
{
}

/// Health is shown in red below 30, in yellow from 30 to 69, in green from
/// 70 on.
pub proof fn law_health_colours(h: int)
    ensures
        h < 30 ==> health_level_of(h) == HealthLevel::Critical,
        30 <= h < 70 ==> health_level_of(h) == HealthLevel::Hurt,
        h >= 70 ==> health_level_of(h) == HealthLevel::Healthy,
{
}

/// The travel screen offers every district but the current one, each once,
/// in travel order.
pub proof fn law_destinations(here: Location)
    ensures
        destinations_among(here, 6).len() == 5,
        forall|l: Location| #[trigger] destinations_among(here, 6).contains(l) <==> l != here,
        forall|j1: int, j2: int| 0 <= j1 < j2 < 5 ==> location_index(
            #[trigger] destinations_among(here, 6)[j1],
        ) < location_index(#[trigger] destinations_among(here, 6)[j2]),
{
    lemma_destinations(here, 6);
    assert forall|l: Location| #[trigger] destinations_among(here, 6).contains(l) <==> l != here by {
        lemma_location_index_roundtrip(l);
    }
}

/// Among the first `n` districts, the list holds those other than `here`,
/// each once, in travel order.
proof fn lemma_destinations(here: Location, n: int)
    requires
        0 <= n <= 6,
    ensures
        destinations_among(here, n).len() == if 0 <= location_index(here) < n {
            n - 1
        } else {
            n
        },
        forall|i: int| 0 <= i < n ==> (destinations_among(here, n).contains(#[trigger] location_at(i))
            <==> location_at(i) != here),
        forall|j: int| 0 <= j < destinations_among(here, n).len() ==> 0 <= location_index(
            #[trigger] destinations_among(here, n)[j],
        ) < n,
        forall|j1: int, j2: int| 0 <= j1 < j2 < destinations_among(here, n).len() ==> location_index(
            #[trigger] destinations_among(here, n)[j1],
        ) < location_index(#[trigger] destinations_among(here, n)[j2]),
    decreases n,
{
    lemma_location_index_roundtrip(here);
    if n > 0 {
        lemma_destinations(here, n - 1);
        let earlier = destinations_among(here, n - 1);
        let now = destinations_among(here, n);
        assert(location_index(location_at(n - 1)) == n - 1);
        assert forall|i: int| 0 <= i < n implies (now.contains(#[trigger] location_at(i))
            <==> location_at(i) != here) by {
            assert(location_index(location_at(i)) == i);
            if location_at(i) != here && i < n - 1 {
                let j = choose|j: int| 0 <= j < earlier.len() && earlier[j] == location_at(i);
                assert(now[j] == earlier[j]);
            }
            if location_at(i) != here && i == n - 1 {
                assert(now[now.len() - 1] == location_at(i));
            }
            if now.contains(location_at(i)) {
                let j = choose|j: int| 0 <= j < now.len() && now[j] == location_at(i);
                if j < earlier.len() {
                    assert(now[j] == earlier[j]);
                }
            }
        }
        assert forall|j: int| 0 <= j < now.len() implies 0 <= location_index(#[trigger] now[j]) < n by {
            if j < earlier.len() {
                assert(now[j] == earlier[j]);
            }
        }
        assert forall|j1: int, j2: int| 0 <= j1 < j2 < now.len() implies location_index(
            #[trigger] now[j1],
        ) < location_index(#[trigger] now[j2]) by {
            assert(now[j1] == earlier[j1]);
            if j2 < earlier.len() {
                assert(now[j2] == earlier[j2]);
            }
        }
    }
}

/// A game starts in the Bronx on day one with 2000 in cash, 5000 of debt,
/// full health and an empty bag.
pub proof fn law_fresh_start(p: Player)
    requires
        fresh_player(p),
    ensures
        p.cash == 2000,
        p.debt == 5000,
        p.day == 1,
        p.health == 100,
        p.current_location == Location::Bronx,
        p.total_held() == 0,
        forall|s: Substance| #[trigger] p.holding(s) == 0,
{
    lemma_seq_sum_zero(p.inventory@);
    assert forall|s: Substance| #[trigger] p.holding(s) == 0 by {
        lemma_substance_index_roundtrip(s);
    }
}

/// The buy and sell buttons clear the picked good and the typed amount, the
/// loan shark's button clears the typed loan amount, and no button changes
/// the player, the market or the log.
pub proof fn law_navigation(pre: Game, post: Game, target: Screen)
    requires
        navigated(pre, post, target),
    ensures
        post.current_screen == target,
        (target == Screen::Buy || target == Screen::Sell) ==> post.selected_substance.is_none()
            && post.amount_to_trade@ == "0"@,
        target == Screen::LoanShark ==> post.amount_to_borrow_repay@ == "0"@,
        target != Screen::Buy && target != Screen::Sell ==> post.selected_substance
            == pre.selected_substance && post.amount_to_trade == pre.amount_to_trade,
        target != Screen::LoanShark ==> post.amount_to_borrow_repay == pre.amount_to_borrow_repay,
        post.player == pre.player,
        post.market == pre.market,
        post.message_log == pre.message_log,
{
}

/// The day's news names a police bust exactly for each good drawn with
/// event 0 and a flood exactly for each good drawn with event 1, in market
/// order.
pub proof fn law_news(rolls: Seq<PriceRoll>)
    requires
        rolls_possible(rolls),
    ensures
        forall|i: int| 0 <= i < 6 ==> (rolled_events(rolls, 6).contains(
            MarketEvent::PoliceBust(#[trigger] substance_at(i)),
        ) <==> rolls[i].special_event == 0),
        forall|i: int| 0 <= i < 6 ==> (rolled_events(rolls, 6).contains(
            MarketEvent::Flood(#[trigger] substance_at(i)),
        ) <==> rolls[i].special_event == 1),
{
    lemma_news(rolls, 6);
}

/// The good an event is about.
pub open spec fn event_good(e: MarketEvent) -> Substance {
    match e {
        MarketEvent::PoliceBust(s) => s,
        MarketEvent::Flood(s) => s,
    }
}

/// Among the first `n` goods, the news names each good drawn with event 0
/// or 1, with the matching event, and only those.
proof fn lemma_news(rolls: Seq<PriceRoll>, n: int)
    requires
        rolls_possible(rolls),
        0 <= n <= 6,
    ensures
        forall|j: int| 0 <= j < rolled_events(rolls, n).len() ==> 0 <= substance_index(
            event_good(#[trigger] rolled_events(rolls, n)[j]),
        ) < n,
        forall|i: int| 0 <= i < n ==> (rolled_events(rolls, n).contains(
            MarketEvent::PoliceBust(#[trigger] substance_at(i)),
        ) <==> rolls[i].special_event == 0),
        forall|i: int| 0 <= i < n ==> (rolled_events(rolls, n).contains(
            MarketEvent::Flood(#[trigger] substance_at(i)),
        ) <==> rolls[i].special_event == 1),
    decreases n,
{
    if n > 0 {
        lemma_news(rolls, n - 1);
        let earlier = rolled_events(rolls, n - 1);
        let now = rolled_events(rolls, n);
        assert(substance_index(substance_at(n - 1)) == n - 1);
        assert forall|j: int| 0 <= j < now.len() implies 0 <= substance_index(
            event_good(#[trigger] now[j]),
        ) < n by {
            if j < earlier.len() {
                assert(now[j] == earlier[j]);
            }
        }
        assert forall|i: int| 0 <= i < n implies (now.contains(
            MarketEvent::PoliceBust(#[trigger] substance_at(i)),
        ) <==> rolls[i].special_event == 0) by {
            assert(substance_index(substance_at(i)) == i);
            if rolls[i].special_event == 0 {
                if i == n - 1 {
                    assert(now[now.len() - 1] == MarketEvent::PoliceBust(substance_at(i)));
                } else {
                    let j = choose|j: int| 0 <= j < earlier.len() && earlier[j] == MarketEvent::PoliceBust(substance_at(i));
                    assert(now[j] == earlier[j]);
                }
            }
            if now.contains(MarketEvent::PoliceBust(substance_at(i))) {
                let j = choose|j: int| 0 <= j < now.len() && now[j] == MarketEvent::PoliceBust(substance_at(i));
                if j < earlier.len() {
                    assert(now[j] == earlier[j]);
                    assert(event_good(earlier[j]) == substance_at(i));
                } else {
                    assert(i == n - 1);
                }
            }
        }
        assert forall|i: int| 0 <= i < n implies (now.contains(
            MarketEvent::Flood(#[trigger] substance_at(i)),
        ) <==> rolls[i].special_event == 1) by {
            assert(substance_index(substance_at(i)) == i);
            if rolls[i].special_event == 1 {
                if i == n - 1 {
                    assert(now[now.len() - 1] == MarketEvent::Flood(substance_at(i)));
                } else {
                    let j = choose|j: int| 0 <= j < earlier.len() && earlier[j] == MarketEvent::Flood(substance_at(i));
                    assert(now[j] == earlier[j]);
                }
            }
            if now.contains(MarketEvent::Flood(substance_at(i))) {
                let j = choose|j: int| 0 <= j < now.len() && now[j] == MarketEvent::Flood(substance_at(i));
                if j < earlier.len() {
                    assert(now[j] == earlier[j]);
                    assert(event_good(earlier[j]) == substance_at(i));
                } else {
                    assert(i == n - 1);
                }
            }
        }
    }
}

/// The top and bottom of a chart bound every point and are points of it.
pub proof fn law_chart_extremes(s: Seq<i32>)
    requires
        s.len() >= 1,
    ensures
        forall|i: int| 0 <= i < s.len() ==> seq_min(s) <= #[trigger] s[i] <= seq_max(s),
        exists|i: int| 0 <= i < s.len() && s[i] == seq_max(s),
        exists|i: int| 0 <= i < s.len() && s[i] == seq_min(s),
    decreases s.len(),
{
    if s.len() > 1 {
        let t = s.drop_last();
        law_chart_extremes(t);
        assert forall|i: int| 0 <= i < s.len() implies seq_min(s) <= #[trigger] s[i] <= seq_max(s) by {
            if i < t.len() {
                assert(s[i] == t[i]);
            }
        }
        let a = choose|i: int| 0 <= i < t.len() && t[i] == seq_max(t);
        let b = choose|i: int| 0 <= i < t.len() && t[i] == seq_min(t);
        assert(s[a] == t[a]);
        assert(s[b] == t[b]);
        assert(s[s.len() - 1] == s.last());
    } else {
        assert(s[0] == seq_max(s));
    }
}

} // verus!
