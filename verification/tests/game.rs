use dopewars::catalog::{Location, Substance};
use dopewars::game::{
    incident_from_draws, BuyCheck, Game, GameOverReason, GameState, HealthLevel, Message, RepayCheck, Screen,
    SellCheck, TravelEvent,
};
use dopewars::market::{MarketEvent, PriceRoll};

fn rolls(draws: [(i32, i32); 6]) -> Vec<PriceRoll> {
    draws
        .iter()
        .map(|&(base_price, special_event)| PriceRoll { base_price, special_event })
        .collect()
}

fn quiet_rolls() -> Vec<PriceRoll> {
    rolls([(50, 5), (500, 5), (100, 5), (200, 5), (1000, 5), (300, 5)])
}

fn new_game() -> Game {
    Game::start_with(&quiet_rolls())
}

#[test]
fn a_new_game() {
    let g = new_game();
    assert_eq!(g.player.cash, 2000);
    assert_eq!(g.player.debt, 5000);
    assert_eq!(g.player.day, 1);
    assert_eq!(g.player.health, 100);
    assert_eq!(g.player.current_location, Location::Bronx);
    assert_eq!(g.player.total_items(), 0);
    assert_eq!(g.player.space_available(), 100);
    assert_eq!(g.game_state, GameState::Running);
    assert_eq!(g.current_screen, Screen::Main);
    assert_eq!(g.message_log, vec![Message::Welcome, Message::ThirtyDays, Message::BuyLowSellHigh]);
    assert_eq!(g.selected_substance, None);
    assert_eq!(g.amount_to_trade, "0");
    assert_eq!(g.amount_to_borrow_repay, "0");
    assert_eq!(g.selected_chart_substance, Some(Substance::Weed));
    assert!(!g.restart_requested);
    assert_eq!(g.market.prices, vec![50, 500, 100, 200, 1000, 300]);
}

#[test]
fn the_first_days_news_is_logged() {
    let g = Game::start_with(&rolls([(50, 0), (500, 5), (100, 5), (200, 1), (1000, 5), (300, 5)]));
    assert_eq!(
        g.message_log[3..].to_vec(),
        vec![
            Message::News(MarketEvent::PoliceBust(Substance::Weed)),
            Message::News(MarketEvent::Flood(Substance::Acid)),
        ]
    );
}

#[test]
fn random_new_game_is_valid() {
    let g = Game::new();
    assert_eq!(g.player.cash, 2000);
    assert_eq!(g.message_log.len(), 3 + g.market.events.len());
    assert!(g.market.prices.iter().all(|&p| p >= 2));
}

#[test]
fn buying_within_means() {
    let mut g = new_game();
    g.select_substance(Substance::Cocaine);
    assert_eq!(g.trade_value(Substance::Cocaine, 3), 1500);
    assert!(g.buy(Substance::Cocaine, 3));
    assert_eq!(g.player.cash, 500);
    assert_eq!(g.player.amount_of(Substance::Cocaine), 3);
    assert_eq!(g.player.total_items(), 3);
    assert_eq!(g.player.space_available(), 97);
    assert_eq!(
        *g.message_log.last().unwrap(),
        Message::Bought { amount: 3, substance: Substance::Cocaine, cost: 1500 }
    );
    assert_eq!(g.selected_substance, None);
    assert_eq!(g.amount_to_trade, "0");
}

#[test]
fn buying_is_refused_for_each_reason() {
    let mut g = new_game();
    assert_eq!(
        g.buy_check(Substance::Weed, 0),
        BuyCheck { amount_not_positive: true, not_enough_space: false, not_enough_cash: false }
    );
    assert_eq!(
        g.buy_check(Substance::Weed, -3),
        BuyCheck { amount_not_positive: true, not_enough_space: false, not_enough_cash: false }
    );
    assert_eq!(
        g.buy_check(Substance::Cocaine, 5),
        BuyCheck { amount_not_positive: false, not_enough_space: false, not_enough_cash: true }
    );
    assert_eq!(
        g.buy_check(Substance::Weed, 101),
        BuyCheck { amount_not_positive: false, not_enough_space: true, not_enough_cash: true }
    );
    assert_eq!(
        g.buy_check(Substance::Weed, 40),
        BuyCheck { amount_not_positive: false, not_enough_space: false, not_enough_cash: false }
    );
    let before_log = g.message_log.clone();
    assert!(!g.buy(Substance::Cocaine, 5));
    assert!(!g.buy(Substance::Weed, 0));
    assert_eq!(g.player.cash, 2000);
    assert_eq!(g.message_log, before_log);
}

#[test]
fn max_buy_is_limited_by_cash_then_space() {
    let mut g = new_game();
    assert_eq!(g.max_buy_amount(Substance::Cocaine), 4);
    assert_eq!(g.max_buy_amount(Substance::Weed), 40);
    assert!(g.borrow(10000));
    assert_eq!(g.max_buy_amount(Substance::Weed), 100);
    assert!(g.buy(Substance::Weed, 70));
    assert_eq!(g.max_buy_amount(Substance::Weed), 30);
}

#[test]
fn selling_what_is_held() {
    let mut g = new_game();
    assert!(g.buy(Substance::Acid, 5));
    assert_eq!(g.player.cash, 1000);
    assert_eq!(
        g.sell_check(Substance::Acid, 6),
        SellCheck { amount_not_positive: false, not_enough_inventory: true }
    );
    assert_eq!(
        g.sell_check(Substance::Acid, 0),
        SellCheck { amount_not_positive: true, not_enough_inventory: false }
    );
    assert!(!g.sell(Substance::Acid, 6));
    assert!(!g.sell(Substance::Weed, 1));
    assert!(g.sell(Substance::Acid, 2));
    assert_eq!(g.player.cash, 1400);
    assert_eq!(g.player.amount_of(Substance::Acid), 3);
    assert_eq!(
        *g.message_log.last().unwrap(),
        Message::Sold { amount: 2, substance: Substance::Acid, earned: 400 }
    );
    assert_eq!(g.held_goods(), vec![(Substance::Acid, 3)]);
}

#[test]
fn loans_and_repayments() {
    let mut g = new_game();
    assert!(!g.borrow(0));
    assert!(!g.borrow(-5));
    assert!(g.borrow(1000));
    assert_eq!(g.player.cash, 3000);
    assert_eq!(g.player.debt, 6000);
    assert_eq!(*g.message_log.last().unwrap(), Message::Borrowed { amount: 1000, debt: 6000 });
    assert_eq!(
        g.repay_check(0),
        RepayCheck { amount_not_positive: true, not_enough_cash: false, exceeds_debt: false }
    );
    assert_eq!(
        g.repay_check(4000),
        RepayCheck { amount_not_positive: false, not_enough_cash: true, exceeds_debt: false }
    );
    assert_eq!(
        g.repay_check(7000),
        RepayCheck { amount_not_positive: false, not_enough_cash: true, exceeds_debt: true }
    );
    assert!(!g.repay(4000));
    assert!(g.repay(2500));
    assert_eq!(g.player.cash, 500);
    assert_eq!(g.player.debt, 3500);
    assert_eq!(*g.message_log.last().unwrap(), Message::Repaid { amount: 2500, debt: 3500 });
    assert_eq!(g.amount_to_borrow_repay, "0");
    assert_eq!(g.net_worth(), -3000);
}

#[test]
fn repaying_more_than_the_debt_is_refused() {
    let mut g = new_game();
    assert!(g.buy(Substance::Weed, 40));
    g.travel_with(
        Location::Queens,
        TravelEvent::Quiet,
        &rolls([(99, 0), (500, 5), (100, 5), (200, 5), (1000, 5), (300, 5)]),
    );
    assert!(g.sell(Substance::Weed, 40));
    assert_eq!(g.player.cash, 19800);
    assert_eq!(g.player.debt, 5500);
    assert!(g.repay(5500));
    assert_eq!(g.player.debt, 0);
    assert_eq!(
        g.repay_check(1),
        RepayCheck { amount_not_positive: false, not_enough_cash: false, exceeds_debt: true }
    );
    assert!(!g.repay(1));
}

#[test]
fn hospital() {
    let mut g = new_game();
    assert_eq!(g.healing_cost(), 0);
    assert!(!g.heal());
    g.travel_with(Location::Queens, TravelEvent::Injury { damage: 19 }, &quiet_rolls());
    assert_eq!(g.player.health, 81);
    assert_eq!(g.healing_cost(), 950);
    assert!(g.heal());
    assert_eq!(g.player.health, 100);
    assert_eq!(g.player.cash, 1050);
    assert_eq!(*g.message_log.last().unwrap(), Message::Treated);
}

#[test]
fn hospital_refuses_without_cash() {
    let mut g = new_game();
    g.travel_with(Location::Queens, TravelEvent::Injury { damage: 19 }, &quiet_rolls());
    assert!(g.repay(2000));
    assert_eq!(g.player.cash, 0);
    assert!(!g.heal());
    assert_eq!(g.player.health, 81);
}

#[test]
fn a_quiet_journey() {
    let mut g = new_game();
    g.navigate(Screen::Travel);
    g.travel_with(Location::Brooklyn, TravelEvent::Quiet, &rolls([(50, 0), (500, 5), (100, 5), (200, 5), (1000, 5), (300, 5)]));
    assert_eq!(g.player.current_location, Location::Brooklyn);
    assert_eq!(g.player.day, 2);
    assert_eq!(g.player.debt, 5500);
    assert_eq!(g.current_screen, Screen::Main);
    assert_eq!(
        g.message_log[3..].to_vec(),
        vec![
            Message::Traveling(Location::Brooklyn),
            Message::Uneventful,
            Message::Arrived(Location::Brooklyn),
            Message::DebtGrew(5500),
            Message::News(MarketEvent::PoliceBust(Substance::Weed)),
        ]
    );
    assert_eq!(g.market.prices[0], 250);
    assert_eq!(g.market.price_history[0], vec![50, 250]);
}

#[test]
fn the_police_take_some_goods() {
    let mut g = new_game();
    assert!(g.buy(Substance::Weed, 10));
    g.travel_with(
        Location::Manhattan,
        TravelEvent::Cops { substance: Substance::Weed, confiscated: 4 },
        &quiet_rolls(),
    );
    assert_eq!(g.player.amount_of(Substance::Weed), 6);
    assert_eq!(
        g.message_log[5..7].to_vec(),
        vec![Message::StoppedByCops, Message::Confiscated { amount: 4, substance: Substance::Weed }]
    );
}

#[test]
fn the_police_find_nothing() {
    let mut g = new_game();
    g.travel_with(
        Location::Manhattan,
        TravelEvent::Cops { substance: Substance::Heroin, confiscated: 0 },
        &quiet_rolls(),
    );
    assert_eq!(g.player.total_items(), 0);
    assert_eq!(
        g.message_log[3..6].to_vec(),
        vec![Message::Traveling(Location::Manhattan), Message::StoppedByCops, Message::Arrived(Location::Manhattan)]
    );
}

#[test]
fn muggers_take_at_most_the_cash() {
    let mut g = new_game();
    g.travel_with(Location::Queens, TravelEvent::Mugging { loss: 450 }, &quiet_rolls());
    assert_eq!(g.player.cash, 1550);
    assert!(g.message_log.contains(&Message::LostCash(450)));
    assert!(g.repay(1500));
    g.travel_with(Location::Bronx, TravelEvent::Mugging { loss: 450 }, &quiet_rolls());
    assert_eq!(g.player.cash, 0);
    assert!(g.message_log.contains(&Message::LostCash(50)));
}

#[test]
fn injuries_never_take_health_below_zero() {
    let mut g = new_game();
    for i in 0..6 {
        let dest = if i % 2 == 0 { Location::Queens } else { Location::Bronx };
        g.travel_with(dest, TravelEvent::Injury { damage: 19 }, &quiet_rolls());
    }
    assert_eq!(g.player.health, 0);
    let n = g.message_log.len();
    assert!(g.message_log[..n].contains(&Message::SeverelyInjured));
    g.check_game_over();
    assert_eq!(g.game_state, GameState::GameOver(GameOverReason::Died));
}

#[test]
fn random_journeys_keep_the_rules() {
    let mut g = Game::new();
    for day in 0..30 {
        let dest = g.travel_destinations()[0];
        let cash = g.player.cash;
        let debt = g.player.debt;
        g.travel_to(dest);
        assert_eq!(g.player.current_location, dest);
        assert_eq!(g.player.day, day + 2);
        assert!(g.player.cash <= cash && g.player.cash >= 0);
        assert!(g.player.debt >= debt);
        assert!(g.player.health >= 0 && g.player.health <= 100);
        assert_eq!(g.current_screen, Screen::Main);
    }
}

#[test]
fn time_runs_out_after_thirty_journeys() {
    let mut g = new_game();
    for i in 0..30 {
        g.check_game_over();
        assert_eq!(g.game_state, GameState::Running);
        let dest = if i % 2 == 0 { Location::Queens } else { Location::Bronx };
        g.travel_with(dest, TravelEvent::Quiet, &quiet_rolls());
    }
    assert_eq!(g.player.day, 31);
    g.check_game_over();
    assert_eq!(g.game_state, GameState::GameOver(GameOverReason::TimeUp));
    g.check_game_over();
    assert_eq!(g.game_state, GameState::GameOver(GameOverReason::TimeUp));
}

#[test]
fn destinations_leave_out_the_current_district() {
    let mut g = new_game();
    assert_eq!(
        g.travel_destinations(),
        vec![Location::Brooklyn, Location::Manhattan, Location::Queens, Location::StatenIsland, Location::CentralPark]
    );
    g.travel_with(Location::Queens, TravelEvent::Quiet, &quiet_rolls());
    assert_eq!(
        g.travel_destinations(),
        vec![Location::Bronx, Location::Brooklyn, Location::Manhattan, Location::StatenIsland, Location::CentralPark]
    );
}

#[test]
fn navigation_clears_the_right_fields() {
    let mut g = new_game();
    g.select_substance(Substance::Ludes);
    g.amount_to_trade = "12".to_string();
    g.amount_to_borrow_repay = "7".to_string();
    g.navigate(Screen::Hospital);
    assert_eq!(g.current_screen, Screen::Hospital);
    assert_eq!(g.selected_substance, Some(Substance::Ludes));
    assert_eq!(g.amount_to_trade, "12");
    g.navigate(Screen::LoanShark);
    assert_eq!(g.amount_to_borrow_repay, "0");
    assert_eq!(g.amount_to_trade, "12");
    g.navigate(Screen::Sell);
    assert_eq!(g.selected_substance, None);
    assert_eq!(g.amount_to_trade, "0");
    g.select_chart_substance(Substance::Speed);
    assert_eq!(g.selected_chart_substance, Some(Substance::Speed));
}

#[test]
fn restarting_starts_over_but_keeps_the_chart() {
    let mut g = new_game();
    assert!(g.buy(Substance::Weed, 10));
    g.select_chart_substance(Substance::Acid);
    g.travel_with(Location::Queens, TravelEvent::Quiet, &quiet_rolls());
    assert!(!g.process_restart());
    assert_eq!(g.player.day, 2);
    g.request_restart();
    assert!(g.process_restart());
    assert_eq!(g.player.day, 1);
    assert_eq!(g.player.cash, 2000);
    assert_eq!(g.player.total_items(), 0);
    assert_eq!(g.game_state, GameState::Running);
    assert_eq!(g.selected_chart_substance, Some(Substance::Acid));
    assert!(!g.restart_requested);
    assert_eq!(
        g.message_log[..4].to_vec(),
        vec![Message::Welcome, Message::ThirtyDays, Message::BuyLowSellHigh, Message::GameRestarted]
    );
    assert!(g.market.price_history.iter().all(|h| h.len() == 1));
}

#[test]
fn restart_with_known_prices() {
    let mut g = new_game();
    g.request_restart();
    g.restart_with(&rolls([(50, 5), (500, 1), (100, 5), (200, 5), (1000, 5), (300, 5)]));
    assert_eq!(g.market.prices[1], 100);
    assert_eq!(g.message_log.len(), 5);
    assert_eq!(g.message_log[4], Message::News(MarketEvent::Flood(Substance::Cocaine)));
}

#[test]
fn health_bands() {
    let mut g = new_game();
    assert_eq!(g.health_level(), HealthLevel::Healthy);
    g.travel_with(Location::Queens, TravelEvent::Injury { damage: 19 }, &quiet_rolls());
    g.travel_with(Location::Bronx, TravelEvent::Injury { damage: 12 }, &quiet_rolls());
    assert_eq!(g.player.health, 69);
    assert_eq!(g.health_level(), HealthLevel::Hurt);
    g.travel_with(Location::Queens, TravelEvent::Injury { damage: 19 }, &quiet_rolls());
    g.travel_with(Location::Bronx, TravelEvent::Injury { damage: 19 }, &quiet_rolls());
    assert_eq!(g.player.health, 31);
    assert_eq!(g.health_level(), HealthLevel::Hurt);
    g.travel_with(Location::Queens, TravelEvent::Injury { damage: 5 }, &quiet_rolls());
    assert_eq!(g.player.health, 26);
    assert_eq!(g.health_level(), HealthLevel::Critical);
}

#[test]
fn game_price_chart_counts_days_back() {
    let mut g = new_game();
    g.travel_with(Location::Queens, TravelEvent::Quiet, &rolls([(60, 5), (500, 5), (100, 5), (200, 5), (1000, 5), (300, 5)]));
    let c = g.price_chart(Substance::Weed).unwrap();
    assert_eq!(c.points, vec![50, 60, 60]);
    assert_eq!(c.day_labels, vec![0, 1]);
    assert_eq!(c.grid_labels, vec![60, 58, 55, 53, 50]);
}

#[test]
fn typed_amounts_are_read_as_numbers() {
    let mut g = new_game();
    g.amount_to_trade = "12".to_string();
    assert_eq!(g.typed_trade_amount(), 12);
    g.amount_to_trade = "twelve".to_string();
    assert_eq!(g.typed_trade_amount(), 0);
    g.amount_to_borrow_repay = "-7".to_string();
    assert_eq!(g.typed_loan_amount(), -7);
    assert!(!Game::borrow_allowed(-7));
    assert!(Game::borrow_allowed(1));
}

#[test]
fn checks_allow_exactly_when_no_reason_holds() {
    let g = new_game();
    assert!(g.buy_check(Substance::Weed, 40).allows());
    assert!(!g.buy_check(Substance::Weed, 41).allows());
    assert!(!g.sell_check(Substance::Weed, 1).allows());
    assert!(!g.repay_check(2001).allows());
    assert!(g.repay_check(2000).allows());
}

#[test]
fn treatment_offers() {
    let mut g = new_game();
    assert!(!g.needs_treatment());
    g.travel_with(Location::Queens, TravelEvent::Injury { damage: 10 }, &quiet_rolls());
    assert!(g.needs_treatment());
    assert!(g.can_afford_treatment());
    assert!(g.repay(1600));
    assert_eq!(g.player.cash, 400);
    assert!(!g.can_afford_treatment());
}

#[test]
fn draws_become_incidents() {
    let mut g = new_game();
    assert!(g.buy(Substance::Ludes, 6));
    let p = &g.player;
    assert_eq!(
        incident_from_draws(p, 0, 2, 4, 0, 0),
        TravelEvent::Cops { substance: Substance::Ludes, confiscated: 4 }
    );
    assert_eq!(
        incident_from_draws(p, 0, 5, 0, 0, 0),
        TravelEvent::Cops { substance: Substance::Speed, confiscated: 0 }
    );
    assert_eq!(incident_from_draws(p, 1, 0, 0, 321, 0), TravelEvent::Mugging { loss: 321 });
    assert_eq!(incident_from_draws(p, 2, 0, 0, 0, 17), TravelEvent::Injury { damage: 17 });
    assert_eq!(incident_from_draws(p, 3, 0, 0, 0, 0), TravelEvent::Quiet);
    assert_eq!(incident_from_draws(p, 9, 0, 0, 0, 0), TravelEvent::Quiet);
}

#[test]
fn small_debts_grow_on_the_road() {
    let mut g = new_game();
    assert!(g.borrow(1));
    assert!(g.buy(Substance::Weed, 40));
    g.travel_with(Location::Queens, TravelEvent::Quiet, &rolls([(99, 0), (500, 5), (100, 5), (200, 5), (1000, 5), (300, 5)]));
    assert!(g.sell(Substance::Weed, 40));
    assert_eq!(g.player.debt, 5501);
    assert!(g.repay(5499));
    assert_eq!(g.player.debt, 2);
    g.travel_with(Location::Bronx, TravelEvent::Quiet, &quiet_rolls());
    assert_eq!(g.player.debt, 3);
    assert_eq!(*g.message_log.iter().rev().nth(0).unwrap(), Message::DebtGrew(3));
}
