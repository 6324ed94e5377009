use dopewars::catalog::{Location, Substance};
use dopewars::game::{incident_from_draws, Game, GameOverReason, GameState, TravelEvent};
use dopewars::interest::apply_interest;
use dopewars::market::{Market, PriceRoll};

fn quiet_rolls() -> Vec<PriceRoll> {
    [(50, 5), (500, 5), (100, 5), (200, 5), (1000, 5), (300, 5)]
        .iter()
        .map(|&(base_price, special_event)| PriceRoll { base_price, special_event })
        .collect()
}

#[test]
fn law_sale_undoes_purchase_on_an_example() {
    let mut g = Game::start_with(&quiet_rolls());
    let cash = g.player.cash;
    let inventory = g.player.inventory.clone();
    assert!(g.buy(Substance::Ludes, 7));
    assert!(g.sell(Substance::Ludes, 7));
    assert_eq!(g.player.cash, cash);
    assert_eq!(g.player.inventory, inventory);
}

#[test]
fn law_repayment_undoes_loan_on_an_example() {
    let mut g = Game::start_with(&quiet_rolls());
    assert!(g.borrow(1234));
    assert!(g.repay(1234));
    assert_eq!(g.player.cash, 2000);
    assert_eq!(g.player.debt, 5000);
}

#[test]
fn law_interest_is_ten_percent_on_examples() {
    for d in [0, 10, 5000, 123_456, 1_000_000, 1_572_868] {
        assert_eq!(apply_interest(d), d + d / 10);
    }
    for d in 1..10 {
        assert_eq!(apply_interest(d), d + 1);
    }
}

#[test]
fn law_interest_grows_positive_debt_on_examples() {
    for d in [1, 5, 9, 16_777_217, 2_000_000_000, i32::MAX - 1] {
        assert!(apply_interest(d) > d);
    }
}

#[test]
fn law_interest_never_lowers_debt_on_examples() {
    for d in [0, 1, 9, 16_777_217, 33_554_433, 1_999_999_999, i32::MAX] {
        assert!(apply_interest(d) >= d);
    }
}

#[test]
fn law_history_keeps_recent_prices_on_an_example() {
    let mut m = Market::new();
    for k in 0..12 {
        let r: Vec<PriceRoll> = (0..6)
            .map(|i| {
                let s = Substance::from_index(i);
                PriceRoll { base_price: s.base_price_low() + k, special_event: 9 }
            })
            .collect();
        m.apply_rolls(&r);
        for i in 0..6 {
            assert!(m.price_history[i].len() <= 10);
            assert_eq!(*m.price_history[i].last().unwrap(), m.prices[i]);
        }
    }
    assert_eq!(m.price_history[0], (12..22).collect::<Vec<i32>>());
}

#[test]
fn law_rolled_price_in_range_on_examples() {
    let mut m = Market::new();
    let r: Vec<PriceRoll> = (0..6)
        .map(|i| {
            let s = Substance::from_index(i);
            PriceRoll { base_price: s.base_price_high() - 1, special_event: 0 }
        })
        .collect();
    m.apply_rolls(&r);
    assert_eq!(m.prices, vec![495, 4995, 995, 1995, 7495, 3495]);
}

#[test]
fn law_thirty_journeys_on_an_example() {
    let mut g = Game::start_with(&quiet_rolls());
    for i in 0..30 {
        assert_eq!(g.player.day, 1 + i);
        g.check_game_over();
        assert_eq!(g.game_state, GameState::Running);
        let dest = if i % 2 == 0 { Location::Brooklyn } else { Location::Bronx };
        g.travel_with(dest, TravelEvent::Quiet, &quiet_rolls());
    }
    assert_eq!(g.player.day, 31);
    g.check_game_over();
    assert_eq!(g.game_state, GameState::GameOver(GameOverReason::TimeUp));
}

#[test]
fn law_journeys_only_take_on_an_example() {
    let mut g = Game::start_with(&quiet_rolls());
    assert!(g.buy(Substance::Speed, 5));
    let before = (g.player.cash, g.player.debt, g.player.health, g.player.inventory.clone());
    g.travel_with(
        Location::CentralPark,
        TravelEvent::Cops { substance: Substance::Speed, confiscated: 5 },
        &quiet_rolls(),
    );
    assert!(g.player.cash <= before.0);
    assert!(g.player.debt >= before.1);
    assert!(g.player.health <= before.2);
    for i in 0..6 {
        assert!(g.player.inventory[i] <= before.3[i]);
    }
    assert_eq!(g.player.total_items(), 0);
}

#[test]
fn law_purchase_bounds_on_an_example() {
    let mut g = Game::start_with(&quiet_rolls());
    assert!(g.buy(Substance::Weed, 40));
    assert!(g.borrow(100_000));
    assert!(g.buy(Substance::Weed, 60));
    assert_eq!(g.player.total_items(), 100);
    assert!(!g.buy(Substance::Weed, 1));
    assert!(g.player.cash >= 0);
}

#[test]
fn law_sale_bounds_on_an_example() {
    let mut g = Game::start_with(&quiet_rolls());
    assert!(g.buy(Substance::Acid, 3));
    let cash = g.player.cash;
    assert!(!g.sell(Substance::Acid, 4));
    assert!(g.sell(Substance::Acid, 3));
    assert_eq!(g.player.amount_of(Substance::Acid), 0);
    assert!(g.player.cash >= cash);
}

#[test]
fn law_high_draws_are_quiet_on_an_example() {
    let mut g = Game::start_with(&quiet_rolls());
    assert!(g.buy(Substance::Weed, 10));
    for roll in 3..10 {
        let e = incident_from_draws(&g.player, roll, 0, 0, 0, 0);
        assert_eq!(e, TravelEvent::Quiet);
        let (cash, health, inventory) = (g.player.cash, g.player.health, g.player.inventory.clone());
        let dest = if roll % 2 == 0 { Location::Queens } else { Location::Bronx };
        g.travel_with(dest, e, &quiet_rolls());
        assert_eq!((g.player.cash, g.player.health), (cash, health));
        assert_eq!(g.player.inventory, inventory);
    }
}

#[test]
fn law_history_is_last_ten_prices_on_an_example() {
    let mut m = Market::new();
    let mut seen: Vec<i32> = Vec::new();
    for _ in 0..25 {
        m.generate_prices();
        seen.push(m.prices[3]);
        let lo = if seen.len() > 10 { seen.len() - 10 } else { 0 };
        assert_eq!(m.price_history[3], seen[lo..].to_vec());
    }
}
