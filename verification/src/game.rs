//! The game as a state machine: the screens of the interface, the message
//! log, and every action the player can take.  The front end shows the state
//! and turns clicks into calls of these actions.
use vstd::prelude::*;
use crate::catalog::{
    Location, Substance, NUM_LOCATIONS, NUM_SUBSTANCES, location_at, substance_index, substance_at,
};
use crate::market::{
    Market, MarketEvent, PriceChart, PriceRoll, charted, rolls_possible, rolled_events, rolled_price,
    recorded_history, roll_prices, DrawMade, draw,
};
use crate::player::{
    Player, MAX_CARRYING_CAPACITY, MAX_HEALTH, STARTING_CASH, STARTING_DEBT,
    lemma_seq_sum_bounds_element, lemma_seq_sum_update,
};
use crate::interest::{apply_interest, debt_after_interest};
use crate::rng::thread_rng;
use crate::input::{parse_amount, typed_amount};

verus! {

broadcast use vstd::string::to_string_from_display_ensures_for_str;

/// Days the player has to make money.
pub const MAX_DAYS: i32 = 30;

/// Hospital price of one health point.
pub const HEALING_COST_PER_POINT: i32 = 50;

/// Why a game ended.
#[derive(Clone, Copy, Debug, PartialEq, Eq, Structural)]
pub enum GameOverReason {
    /// The thirty days are over.
    TimeUp,
    /// The player's health reached zero.
    Died,
}

/// Whether the game goes on.
#[derive(Clone, Copy, Debug, PartialEq, Eq, Structural)]
pub enum GameState {
    Running,
    GameOver(GameOverReason),
}

/// The screens of the interface.
#[derive(Clone, Copy, Debug, PartialEq, Eq, Structural)]
pub enum Screen {
    Main,
    Buy,
    Sell,
    Travel,
    LoanShark,
    Hospital,
    Settings,
    PriceChart,
}

/// An entry of the message log.
#[derive(Clone, Copy, Debug, PartialEq, Eq, Structural)]
pub enum Message {
    Welcome,
    ThirtyDays,
    BuyLowSellHigh,
    GameRestarted,
    Bought { amount: i32, substance: Substance, cost: i32 },
    Sold { amount: i32, substance: Substance, earned: i32 },
    Traveling(Location),
    StoppedByCops,
    Confiscated { amount: i32, substance: Substance },
    Mugged,
    LostCash(i32),
    InjuredOnTheRoad,
    LostHealth(i32),
    SeverelyInjured,
    Uneventful,
    Arrived(Location),
    DebtGrew(i32),
    News(MarketEvent),
    Borrowed { amount: i32, debt: i32 },
    Repaid { amount: i32, debt: i32 },
    Treated,
}

/// The log entries that report a day's news, in order.
pub open spec fn news_messages(events: Seq<MarketEvent>) -> Seq<Message> {
    events.map_values(|e: MarketEvent| Message::News(e))
}

/// The three lines that greet a new game.
pub open spec fn welcome_messages() -> Seq<Message> {
    seq![Message::Welcome, Message::ThirtyDays, Message::BuyLowSellHigh]
}

/// The whole state of a game.
pub struct Game {
    pub player: Player,
    pub market: Market,
    pub game_state: GameState,
    pub current_screen: Screen,
    pub message_log: Vec<Message>,
    /// The good picked on the buy or sell screen.
    pub selected_substance: Option<Substance>,
    /// The amount typed on the buy or sell screen.
    pub amount_to_trade: String,
    /// The amount typed at the loan shark's.
    pub amount_to_borrow_repay: String,
    /// The good whose prices the chart shows.
    pub selected_chart_substance: Option<Substance>,
    /// Set by "Play Again"; the next frame starts a new game.
    pub restart_requested: bool,
}

/// A player as a new game starts: in the Bronx on day one with the starting
/// cash and debt, full health and nothing in the bag.
pub open spec fn fresh_player(p: Player) -> bool {
    &&& p.wf()
    &&& p.cash == STARTING_CASH
    &&& p.debt == STARTING_DEBT
    &&& p.inventory@ == Seq::new(NUM_SUBSTANCES as nat, |i: int| 0i32)
    &&& p.current_location == Location::Bronx
    &&& p.day == 1
    &&& p.health == MAX_HEALTH
}

/// A market on its first day, priced by `rolls`: the draws' news, their
/// prices, and each price as the only entry of its history.
pub open spec fn first_day_market(m: Market, rolls: Seq<PriceRoll>) -> bool {
    &&& m.wf()
    &&& m.events@ == rolled_events(rolls, NUM_SUBSTANCES as int)
    &&& forall|i: int| 0 <= i < NUM_SUBSTANCES ==> #[trigger] m.prices@[i] == rolled_price(rolls[i])
    &&& forall|i: int| 0 <= i < NUM_SUBSTANCES ==> (#[trigger] m.price_history@[i])@ == seq![m.prices@[i]]
}

impl Game {
    /// The states the game can reach.
    pub open spec fn wf(&self) -> bool {
        &&& self.player.wf()
        &&& self.market.wf()
    }

    /// A new game whose first prices come from `rolls`: a fresh player, the
    /// greeting followed by the day's news in the log, the main screen, no
    /// good picked, both amounts "0", and the chart on the first good.
    pub fn start_with(rolls: &Vec<PriceRoll>) -> (g: Game)
        requires
            rolls_possible(rolls@),
        ensures
            g.wf(),
            fresh_player(g.player),
            first_day_market(g.market, rolls@),
            g.message_log@ == welcome_messages() + news_messages(g.market.events@),
            g.game_state == GameState::Running,
            g.current_screen == Screen::Main,
            g.selected_substance.is_none(),
            g.amount_to_trade@ == "0"@,
            g.amount_to_borrow_repay@ == "0"@,
            g.selected_chart_substance == Some(Substance::Weed),
            !g.restart_requested,
    {
        let mut market = Market::new();
        market.apply_rolls(rolls);
        assert forall|i: int| 0 <= i < NUM_SUBSTANCES implies
            (#[trigger] market.price_history@[i])@ == seq![market.prices@[i]] by {
            assert(market.price_history@[i]@ =~= seq![market.prices@[i]]);
        }
        let mut message_log: Vec<Message> = Vec::new();
        message_log.push(Message::Welcome);
        message_log.push(Message::ThirtyDays);
        message_log.push(Message::BuyLowSellHigh);
        let mut g = Game {
            player: Player::new(),
            market,
            game_state: GameState::Running,
            current_screen: Screen::Main,
            message_log,
            selected_substance: None,
            amount_to_trade: "0".to_string(),
            amount_to_borrow_repay: "0".to_string(),
            selected_chart_substance: Some(Substance::Weed),
            restart_requested: false,
        };
        g.log_news();
        assert(g.message_log@ == welcome_messages() + news_messages(g.market.events@));
        g
    }

    /// A new game with prices drawn at random.
    pub fn new() -> (g: Game)
        ensures
            g.wf(),
            fresh_player(g.player),
            exists|rolls: Seq<PriceRoll>| rolls_possible(rolls) && first_day_market(g.market, rolls),
            g.message_log@ == welcome_messages() + news_messages(g.market.events@),
            g.game_state == GameState::Running,
            g.current_screen == Screen::Main,
            g.selected_substance.is_none(),
            g.amount_to_trade@ == "0"@,
            g.amount_to_borrow_repay@ == "0"@,
            g.selected_chart_substance == Some(Substance::Weed),
            !g.restart_requested,
    {
        let rolls = roll_prices();
        let g = Game::start_with(&rolls);
        assert(first_day_market(g.market, rolls@));
        g
    }

    /// Appends the day's news to the log.
    fn log_news(&mut self)
        ensures
            final(self).message_log@ == old(self).message_log@ + news_messages(old(self).market.events@),
            final(self).player == old(self).player,
            final(self).market == old(self).market,
            final(self).game_state == old(self).game_state,
            final(self).current_screen == old(self).current_screen,
            final(self).selected_substance == old(self).selected_substance,
            final(self).amount_to_trade == old(self).amount_to_trade,
            final(self).amount_to_borrow_repay == old(self).amount_to_borrow_repay,
            final(self).selected_chart_substance == old(self).selected_chart_substance,
            final(self).restart_requested == old(self).restart_requested,
    {
        let n = self.market.events.len();
        let mut i: usize = 0;
        while i < n
            invariant
                n == self.market.events@.len(),
                i <= n,
                self.message_log@ == old(self).message_log@ + news_messages(self.market.events@.take(i as int)),
                self.player == old(self).player,
                self.market == old(self).market,
                self.game_state == old(self).game_state,
                self.current_screen == old(self).current_screen,
                self.selected_substance == old(self).selected_substance,
                self.amount_to_trade == old(self).amount_to_trade,
                self.amount_to_borrow_repay == old(self).amount_to_borrow_repay,
                self.selected_chart_substance == old(self).selected_chart_substance,
                self.restart_requested == old(self).restart_requested,
            decreases n - i,
        {
            let e = self.market.events[i];
            self.message_log.push(Message::News(e));
            assert(self.market.events@.take(i as int + 1) == self.market.events@.take(i as int).push(e));
            i = i + 1;
        }
        assert(self.market.events@.take(n as int) == self.market.events@);
    }
}

/// One in this many journeys brings each of the three incidents.
pub const TRAVEL_EVENT_ODDS: i32 = 10;

/// What happens on the road.
#[derive(Clone, Copy, Debug, PartialEq, Eq, Structural)]
pub enum TravelEvent {
    /// The police stop the player and take `confiscated` units of
    /// `substance` (none when the player holds none of it).
    Cops { substance: Substance, confiscated: i32 },
    /// The player is mugged; `loss` is the sum the muggers want, the player
    /// loses at most the cash in hand.
    Mugging { loss: i32 },
    /// The player is hurt and loses `damage` health points.
    Injury { damage: i32 },
    /// Nothing happens.
    Quiet,
}

/// The smaller of two integers.
pub open spec fn min(a: int, b: int) -> int {
    if a <= b {
        a
    } else {
        b
    }
}

/// An incident the dice can produce for a player: units taken only of a
/// good held, from one unit to all of it; a mugging for 100 to 499; an
/// injury of 5 to 19 points.
pub open spec fn travel_event_possible(p: Player, e: TravelEvent) -> bool {
    match e {
        TravelEvent::Cops { substance, confiscated } => if p.holding(substance) > 0 {
            1 <= confiscated <= p.holding(substance)
        } else {
            confiscated == 0
        },
        TravelEvent::Mugging { loss } => 100 <= loss < 500,
        TravelEvent::Injury { damage } => 5 <= damage < 20,
        TravelEvent::Quiet => true,
    }
}

/// Cash after the incident: a mugging takes the sum asked, or all the cash
/// when there is less.
pub open spec fn cash_after_event(p: Player, e: TravelEvent) -> int {
    match e {
        TravelEvent::Mugging { loss } => p.cash - min(loss as int, p.cash as int),
        _ => p.cash as int,
    }
}

/// Goods after the incident: the police take their units.
pub open spec fn inventory_after_event(p: Player, e: TravelEvent) -> Seq<i32> {
    match e {
        TravelEvent::Cops { substance, confiscated } => p.inventory@.update(
            substance_index(substance),
            (p.holding(substance) - confiscated) as i32,
        ),
        _ => p.inventory@,
    }
}

/// Health after the incident: an injury lowers it, never below zero.
pub open spec fn health_after_event(p: Player, e: TravelEvent) -> int {
    match e {
        TravelEvent::Injury { damage } => if p.health - damage <= 0 {
            0
        } else {
            p.health - damage
        },
        _ => p.health as int,
    }
}

/// The log entries that tell of the incident.
pub open spec fn event_messages(p: Player, e: TravelEvent) -> Seq<Message> {
    match e {
        TravelEvent::Cops { substance, confiscated } => if p.holding(substance) > 0 {
            seq![Message::StoppedByCops, Message::Confiscated { amount: confiscated, substance }]
        } else {
            seq![Message::StoppedByCops]
        },
        TravelEvent::Mugging { loss } => seq![
            Message::Mugged,
            Message::LostCash(min(loss as int, p.cash as int) as i32),
        ],
        TravelEvent::Injury { damage } => if p.health - damage <= 0 {
            seq![Message::InjuredOnTheRoad, Message::LostHealth(damage), Message::SeverelyInjured]
        } else {
            seq![Message::InjuredOnTheRoad, Message::LostHealth(damage)]
        },
        TravelEvent::Quiet => seq![Message::Uneventful],
    }
}

/// Everything but the player, the market, the log and the screen is left as
/// it was.
pub open spec fn same_choices(a: Game, b: Game) -> bool {
    &&& a.game_state == b.game_state
    &&& a.selected_substance == b.selected_substance
    &&& a.amount_to_trade == b.amount_to_trade
    &&& a.amount_to_borrow_repay == b.amount_to_borrow_repay
    &&& a.selected_chart_substance == b.selected_chart_substance
    &&& a.restart_requested == b.restart_requested
}

/// The state after a journey to `dest` with incident `e` and the next day's
/// draws `rolls`: the incident's effects, the new district, one more day,
/// one day of interest, the next day's prices and news, the journey told in
/// the log, and back to the main screen.
pub open spec fn travelled(
    pre: Game,
    post: Game,
    dest: Location,
    e: TravelEvent,
    rolls: Seq<PriceRoll>,
) -> bool {
    &&& post.player.current_location == dest
    &&& post.player.day == pre.player.day + 1
    &&& post.player.debt == debt_after_interest(pre.player.debt as int)
    &&& post.player.cash == cash_after_event(pre.player, e)
    &&& post.player.inventory@ == inventory_after_event(pre.player, e)
    &&& post.player.health == health_after_event(pre.player, e)
    &&& post.market.max_history == pre.market.max_history
    &&& post.market.events@ == rolled_events(rolls, NUM_SUBSTANCES as int)
    &&& (forall|i: int| 0 <= i < NUM_SUBSTANCES ==>
        #[trigger] post.market.prices@[i] == rolled_price(rolls[i]))
    &&& (forall|i: int| 0 <= i < NUM_SUBSTANCES ==>
        (#[trigger] post.market.price_history@[i])@ == recorded_history(
            pre.market.price_history@[i]@,
            post.market.prices@[i],
            pre.market.max_history as nat,
        ))
    &&& post.message_log@ == pre.message_log@ + seq![Message::Traveling(dest)]
        + event_messages(pre.player, e)
        + seq![Message::Arrived(dest), Message::DebtGrew(post.player.debt)]
        + news_messages(post.market.events@)
    &&& post.current_screen == Screen::Main
    &&& same_choices(pre, post)
}

impl Game {
    /// The incident of a journey, applied to the player and told in the log.
    fn apply_travel_event(&mut self, e: TravelEvent)
        requires
            old(self).wf(),
            travel_event_possible(old(self).player, e),
        ensures
            final(self).wf(),
            final(self).player.cash == cash_after_event(old(self).player, e),
            final(self).player.inventory@ == inventory_after_event(old(self).player, e),
            final(self).player.health == health_after_event(old(self).player, e),
            final(self).player.debt == old(self).player.debt,
            final(self).player.day == old(self).player.day,
            final(self).player.current_location == old(self).player.current_location,
            final(self).market == old(self).market,
            final(self).message_log@ == old(self).message_log@ + event_messages(old(self).player, e),
            final(self).current_screen == old(self).current_screen,
            same_choices(*old(self), *final(self)),
    {
        match e {
            TravelEvent::Cops { substance, confiscated } => {
                self.message_log.push(Message::StoppedByCops);
                let i = substance.index();
                let amount = self.player.inventory[i];
                if amount > 0 {
                    proof {
                        lemma_seq_sum_update(self.player.inventory@, i as int, (amount - confiscated) as i32);
                    }
                    self.player.inventory.set(i, amount - confiscated);
                    self.message_log.push(Message::Confiscated { amount: confiscated, substance });
                } else {
                    assert(self.player.inventory@.update(i as int, amount) =~= self.player.inventory@);
                }
            },
            TravelEvent::Mugging { loss } => {
                self.message_log.push(Message::Mugged);
                let lost = if loss <= self.player.cash {
                    loss
                } else {
                    self.player.cash
                };
                self.player.cash = self.player.cash - lost;
                self.message_log.push(Message::LostCash(lost));
            },
            TravelEvent::Injury { damage } => {
                self.message_log.push(Message::InjuredOnTheRoad);
                self.player.health = self.player.health - damage;
                self.message_log.push(Message::LostHealth(damage));
                if self.player.health <= 0 {
                    self.player.health = 0;
                    self.message_log.push(Message::SeverelyInjured);
                }
            },
            TravelEvent::Quiet => {
                self.message_log.push(Message::Uneventful);
            },
        }
    }

    /// A journey to `dest` with incident `e`, the next day's prices drawn as
    /// `rolls`.
    pub fn travel_with(&mut self, dest: Location, e: TravelEvent, rolls: &Vec<PriceRoll>)
        requires
            old(self).wf(),
            travel_event_possible(old(self).player, e),
            rolls_possible(rolls@),
            old(self).player.day < i32::MAX,
        ensures
            final(self).wf(),
            travelled(*old(self), *final(self), dest, e, rolls@),
    {
        let ghost pre = *old(self);
        self.message_log.push(Message::Traveling(dest));
        self.apply_travel_event(e);
        let ghost after_event = self.message_log@;
        assert(after_event =~= pre.message_log@ + seq![Message::Traveling(dest)]
            + event_messages(pre.player, e));
        self.player.current_location = dest;
        self.player.day = self.player.day + 1;
        self.player.debt = apply_interest(self.player.debt);
        self.message_log.push(Message::Arrived(dest));
        self.message_log.push(Message::DebtGrew(self.player.debt));
        let ghost after_arrival = self.message_log@;
        assert(after_arrival =~= after_event + seq![Message::Arrived(dest), Message::DebtGrew(self.player.debt)]);
        self.market.apply_rolls(rolls);
        self.log_news();
        self.current_screen = Screen::Main;
        assert(self.message_log@ =~= pre.message_log@ + seq![Message::Traveling(dest)]
            + event_messages(pre.player, e)
            + seq![Message::Arrived(dest), Message::DebtGrew(self.player.debt)]
            + news_messages(self.market.events@));
    }

    /// A journey to `dest` with the incident and the next day's prices drawn
    /// at random: the police, a mugging or an injury each come with one
    /// chance in ten, and nothing happens with seven chances in ten.
    pub fn travel_to(&mut self, dest: Location)
        requires
            old(self).wf(),
            old(self).player.day < i32::MAX,
        ensures
            final(self).wf(),
            exists|roll: i32, k: i32, taken: i32, loss: i32, damage: i32, rolls: Seq<PriceRoll>| {
                &&& travel_draws_possible(old(self).player, roll, k, taken, loss, damage)
                &&& rolls_possible(rolls)
                &&& travelled(
                    *old(self),
                    *final(self),
                    dest,
                    incident_of(old(self).player, roll, k, taken, loss, damage),
                    rolls,
                )
            },
    {
        let (roll, k, taken, loss, damage, _made) = draw_incident(&self.player);
        let e = incident_from_draws(&self.player, roll, k, taken, loss, damage);
        let rolls = roll_prices();
        let ghost pre = *self;
        self.travel_with(dest, e, &rolls);
        assert(travelled(pre, *self, dest, incident_of(pre.player, roll, k, taken, loss, damage), rolls@));
    }
}

/// The draws behind a journey's incident, in the order they are made: the
/// incident number over `[0, 10)`; after 0 the good's number over `[0, 6)`
/// and, when that good is held, the units taken over one to all of them;
/// after 1 the sum asked over `[100, 500)`; after 2 the damage over
/// `[5, 20)`; nothing more after any other number.
pub open spec fn incident_draws(
    p: Player,
    roll: i32,
    k: i32,
    taken: i32,
    loss: i32,
    damage: i32,
    made: Seq<DrawMade>,
) -> bool {
    &&& made.len() >= 1
    &&& made[0] == (0int, TRAVEL_EVENT_ODDS as int, roll as int)
    &&& roll == 0 ==> {
        &&& made[1] == (0int, NUM_SUBSTANCES as int, k as int)
        &&& if p.holding(substance_at(k as int)) > 0 {
            &&& made.len() == 3
            &&& made[2] == (1int, p.holding(substance_at(k as int)) + 1, taken as int)
        } else {
            made.len() == 2
        }
    }
    &&& roll == 1 ==> made.len() == 2 && made[1] == (100int, 500int, loss as int)
    &&& roll == 2 ==> made.len() == 2 && made[1] == (5int, 20int, damage as int)
    &&& (roll < 0 || roll > 2) ==> made.len() == 1
}

/// Draws the incident of a journey for player `p` and hands back the draws
/// as made; draws the incident does not need are 0.
pub fn draw_incident(p: &Player) -> (res: (i32, i32, i32, i32, i32, Ghost<Seq<DrawMade>>))
    requires
        p.wf(),
    ensures
        travel_draws_possible(*p, res.0, res.1, res.2, res.3, res.4),
        incident_draws(*p, res.0, res.1, res.2, res.3, res.4, res.5@),
{
    let mut rng = thread_rng();
    let mut made: Ghost<Seq<DrawMade>> = Ghost(Seq::empty());
    let roll = draw(&mut rng, 0, TRAVEL_EVENT_ODDS, &mut made);
    let mut k: i32 = 0;
    let mut taken: i32 = 0;
    let mut loss: i32 = 0;
    let mut damage: i32 = 0;
    if roll == 0 {
        k = draw(&mut rng, 0, NUM_SUBSTANCES as i32, &mut made);
        let held = p.amount_of(Substance::from_index(k as usize));
        if held > 0 {
            taken = draw(&mut rng, 1, held + 1, &mut made);
        }
    } else if roll == 1 {
        loss = draw(&mut rng, 100, 500, &mut made);
    } else if roll == 2 {
        damage = draw(&mut rng, 5, 20, &mut made);
    }
    (roll, k, taken, loss, damage, made)
}

/// Draws the dice can give on a journey for player `p`: the incident number
/// below ten; for 0 (the police) the number of a good below six and, when
/// that good is held, the units taken, from one to all of them; for 1 (a
/// mugging) the sum asked, from 100 to 499; for 2 (an injury) the damage,
/// from 5 to 19.  Draws that the incident does not need are not looked at.
pub open spec fn travel_draws_possible(
    p: Player,
    roll: i32,
    k: i32,
    taken: i32,
    loss: i32,
    damage: i32,
) -> bool {
    &&& 0 <= roll < TRAVEL_EVENT_ODDS
    &&& roll == 0 ==> {
        &&& 0 <= k < NUM_SUBSTANCES
        &&& p.holding(substance_at(k as int)) > 0 ==> 1 <= taken <= p.holding(substance_at(k as int))
    }
    &&& roll == 1 ==> 100 <= loss < 500
    &&& roll == 2 ==> 5 <= damage < 20
}

/// The incident the draws make: 0 brings the police, who take `taken` units
/// of good `k` (nothing when none is held); 1 a mugging for `loss`; 2 an
/// injury of `damage` points; any other number nothing.
pub open spec fn incident_of(
    p: Player,
    roll: i32,
    k: i32,
    taken: i32,
    loss: i32,
    damage: i32,
) -> TravelEvent {
    if roll == 0 {
        TravelEvent::Cops {
            substance: substance_at(k as int),
            confiscated: if p.holding(substance_at(k as int)) > 0 {
                taken
            } else {
                0
            },
        }
    } else if roll == 1 {
        TravelEvent::Mugging { loss }
    } else if roll == 2 {
        TravelEvent::Injury { damage }
    } else {
        TravelEvent::Quiet
    }
}

/// Turns the draws of a journey into its incident.
pub fn incident_from_draws(
    p: &Player,
    roll: i32,
    k: i32,
    taken: i32,
    loss: i32,
    damage: i32,
) -> (e: TravelEvent)
    requires
        p.wf(),
        travel_draws_possible(*p, roll, k, taken, loss, damage),
    ensures
        e == incident_of(*p, roll, k, taken, loss, damage),
        travel_event_possible(*p, e),
{
    if roll == 0 {
        let substance = Substance::from_index(k as usize);
        let confiscated = if p.amount_of(substance) > 0 {
            taken
        } else {
            0
        };
        TravelEvent::Cops { substance, confiscated }
    } else if roll == 1 {
        TravelEvent::Mugging { loss }
    } else if roll == 2 {
        TravelEvent::Injury { damage }
    } else {
        TravelEvent::Quiet
    }
}

/// The reasons the buy button stays disabled, as the buy screen lists them.
#[derive(Clone, Copy, Debug, PartialEq, Eq, Structural)]
pub struct BuyCheck {
    pub amount_not_positive: bool,
    pub not_enough_space: bool,
    pub not_enough_cash: bool,
}

/// The reasons the sell button stays disabled, as the sell screen lists them.
#[derive(Clone, Copy, Debug, PartialEq, Eq, Structural)]
pub struct SellCheck {
    pub amount_not_positive: bool,
    pub not_enough_inventory: bool,
}

/// The reasons the repay button stays disabled, as the loan shark's screen
/// lists them.
#[derive(Clone, Copy, Debug, PartialEq, Eq, Structural)]
pub struct RepayCheck {
    pub amount_not_positive: bool,
    pub not_enough_cash: bool,
    pub exceeds_debt: bool,
}

/// The market, the game's course and the chart are left as they were.
pub open spec fn same_world(a: Game, b: Game) -> bool {
    &&& a.market == b.market
    &&& a.game_state == b.game_state
    &&& a.current_screen == b.current_screen
    &&& a.selected_chart_substance == b.selected_chart_substance
    &&& a.restart_requested == b.restart_requested
}

/// Units of `s` bought for `amount` at today's price cost that much.
pub open spec fn trade_value(g: Game, s: Substance, amount: int) -> int {
    amount * g.market.price(s)
}

/// The purchase is allowed: a positive amount that fits in the bag and is
/// paid for with cash in hand.
pub open spec fn can_buy(g: Game, s: Substance, amount: int) -> bool {
    &&& amount > 0
    &&& amount <= MAX_CARRYING_CAPACITY - g.player.total_held()
    &&& trade_value(g, s, amount) <= g.player.cash
}

/// The sale is allowed: a positive amount no larger than what is held.
pub open spec fn can_sell(g: Game, s: Substance, amount: int) -> bool {
    &&& amount > 0
    &&& amount <= g.player.holding(s)
}

/// Borrowing is allowed: a positive amount.
pub open spec fn can_borrow(amount: int) -> bool {
    amount > 0
}

/// Repaying is allowed: a positive amount, covered by the cash and no
/// larger than the debt.
pub open spec fn can_repay(g: Game, amount: int) -> bool {
    &&& amount > 0
    &&& amount <= g.player.cash
    &&& amount <= g.player.debt
}

/// The hospital's price for healing back to full health.
pub open spec fn healing_cost(g: Game) -> int {
    (MAX_HEALTH - g.player.health) * HEALING_COST_PER_POINT
}

/// Treatment is offered and affordable: the player is not at full health
/// and has the cash for it.
pub open spec fn can_heal(g: Game) -> bool {
    &&& g.player.health < MAX_HEALTH
    &&& g.player.cash >= healing_cost(g)
}

/// The player's district, calendar and health are left as they were.
pub open spec fn same_condition(a: Player, b: Player) -> bool {
    &&& a.current_location == b.current_location
    &&& a.day == b.day
    &&& a.health == b.health
}

/// The state after buying `amount` units of `s`: the cost leaves the cash,
/// the units join the stash, the purchase is logged, the buy screen is
/// cleared.
pub open spec fn after_purchase(pre: Game, post: Game, s: Substance, amount: i32) -> bool {
    &&& post.player.cash == pre.player.cash - trade_value(pre, s, amount as int)
    &&& post.player.inventory@ == pre.player.inventory@.update(
        substance_index(s),
        (pre.player.holding(s) + amount) as i32,
    )
    &&& post.player.debt == pre.player.debt
    &&& same_condition(pre.player, post.player)
    &&& post.message_log@ == pre.message_log@.push(
        Message::Bought { amount, substance: s, cost: trade_value(pre, s, amount as int) as i32 },
    )
    &&& post.selected_substance.is_none()
    &&& post.amount_to_trade@ == "0"@
    &&& post.amount_to_borrow_repay == pre.amount_to_borrow_repay
    &&& same_world(pre, post)
}

/// The state after selling `amount` units of `s`: the proceeds join the
/// cash, the units leave the stash, the sale is logged, the sell screen is
/// cleared.
pub open spec fn after_sale(pre: Game, post: Game, s: Substance, amount: i32) -> bool {
    &&& post.player.cash == pre.player.cash + trade_value(pre, s, amount as int)
    &&& post.player.inventory@ == pre.player.inventory@.update(
        substance_index(s),
        (pre.player.holding(s) - amount) as i32,
    )
    &&& post.player.debt == pre.player.debt
    &&& same_condition(pre.player, post.player)
    &&& post.message_log@ == pre.message_log@.push(
        Message::Sold { amount, substance: s, earned: trade_value(pre, s, amount as int) as i32 },
    )
    &&& post.selected_substance.is_none()
    &&& post.amount_to_trade@ == "0"@
    &&& post.amount_to_borrow_repay == pre.amount_to_borrow_repay
    &&& same_world(pre, post)
}

/// The state after borrowing `amount`: cash and debt both grow by it, the
/// loan is logged with the new debt, the amount field is reset.
pub open spec fn after_loan(pre: Game, post: Game, amount: i32) -> bool {
    &&& post.player.cash == pre.player.cash + amount
    &&& post.player.debt == pre.player.debt + amount
    &&& post.player.inventory == pre.player.inventory
    &&& same_condition(pre.player, post.player)
    &&& post.message_log@ == pre.message_log@.push(Message::Borrowed { amount, debt: post.player.debt })
    &&& post.amount_to_borrow_repay@ == "0"@
    &&& post.selected_substance == pre.selected_substance
    &&& post.amount_to_trade == pre.amount_to_trade
    &&& same_world(pre, post)
}

/// The state after repaying `amount`: cash and debt both shrink by it, the
/// repayment is logged with the new debt, the amount field is reset.
pub open spec fn after_repayment(pre: Game, post: Game, amount: i32) -> bool {
    &&& post.player.cash == pre.player.cash - amount
    &&& post.player.debt == pre.player.debt - amount
    &&& post.player.inventory == pre.player.inventory
    &&& same_condition(pre.player, post.player)
    &&& post.message_log@ == pre.message_log@.push(Message::Repaid { amount, debt: post.player.debt })
    &&& post.amount_to_borrow_repay@ == "0"@
    &&& post.selected_substance == pre.selected_substance
    &&& post.amount_to_trade == pre.amount_to_trade
    &&& same_world(pre, post)
}

/// The state after treatment: the price leaves the cash, health is full,
/// the treatment is logged.
pub open spec fn after_treatment(pre: Game, post: Game) -> bool {
    &&& post.player.cash == pre.player.cash - healing_cost(pre)
    &&& post.player.health == MAX_HEALTH
    &&& post.player.debt == pre.player.debt
    &&& post.player.inventory == pre.player.inventory
    &&& post.player.day == pre.player.day
    &&& post.player.current_location == pre.player.current_location
    &&& post.message_log@ == pre.message_log@.push(Message::Treated)
    &&& post.selected_substance == pre.selected_substance
    &&& post.amount_to_trade == pre.amount_to_trade
    &&& post.amount_to_borrow_repay == pre.amount_to_borrow_repay
    &&& same_world(pre, post)
}

impl Game {
    /// Today's price of a good.
    pub fn price_of(&self, s: Substance) -> (p: i32)
        requires
            self.wf(),
        ensures
            p == self.market.price(s),
            0 <= p <= crate::market::MAX_PRICE,
    {
        self.market.price_of(s)
    }

    /// What `amount` units of `s` cost, or earn, at today's price.
    pub fn trade_value(&self, s: Substance, amount: i32) -> (v: i32)
        requires
            self.wf(),
            i32::MIN <= trade_value(*self, s, amount as int) <= i32::MAX,
        ensures
            v == trade_value(*self, s, amount as int),
    {
        amount * self.market.price_of(s)
    }

    /// The most units of `s` the player can buy: as many as the cash pays
    /// for at today's price, but no more than the bag holds.
    pub fn max_buy_amount(&self, s: Substance) -> (n: i32)
        requires
            self.wf(),
            self.market.price(s) != 0,
        ensures
            n == min(
                self.player.cash as int / self.market.price(s),
                MAX_CARRYING_CAPACITY - self.player.total_held(),
            ),
            can_buy(*self, s, n as int) <==> n > 0,
            forall|k: int| #[trigger] can_buy(*self, s, k) ==> k <= n,
            !can_buy(*self, s, n + 1),
    {
        let price = self.market.price_of(s);
        let affordable = self.player.cash / price;
        let space = self.player.space_available();
        assert(affordable * price <= self.player.cash < (affordable + 1) * price) by (nonlinear_arith)
            requires
                price > 0,
                self.player.cash >= 0,
                affordable == self.player.cash / price,
        ;
        assert forall|k: int| #[trigger] can_buy(*self, s, k) implies k <= affordable by {
            assert(k <= affordable) by (nonlinear_arith)
                requires
                    k * price <= self.player.cash,
                    self.player.cash < (affordable + 1) * price,
                    price > 0,
            ;
        }
        if affordable <= space {
            affordable
        } else {
            assert(space * price <= affordable * price) by (nonlinear_arith)
                requires
                    space <= affordable,
                    price > 0,
            ;
            space
        }
    }

    /// Why a purchase of `amount` units of `s` would be refused.
    pub fn buy_check(&self, s: Substance, amount: i32) -> (c: BuyCheck)
        requires
            self.wf(),
            i32::MIN <= trade_value(*self, s, amount as int) <= i32::MAX,
        ensures
            c.amount_not_positive == (amount <= 0),
            c.not_enough_space == (amount > MAX_CARRYING_CAPACITY - self.player.total_held()),
            c.not_enough_cash == (trade_value(*self, s, amount as int) > self.player.cash),
            can_buy(*self, s, amount as int) <==> !c.amount_not_positive && !c.not_enough_space
                && !c.not_enough_cash,
    {
        let cost = self.trade_value(s, amount);
        BuyCheck {
            amount_not_positive: amount <= 0,
            not_enough_space: amount > self.player.space_available(),
            not_enough_cash: cost > self.player.cash,
        }
    }

    /// Buys `amount` units of `s` when allowed: the cost leaves the cash,
    /// the units join the stash, the purchase is logged and the buy screen
    /// is cleared.  Otherwise nothing changes.
    pub fn buy(&mut self, s: Substance, amount: i32) -> (bought: bool)
        requires
            old(self).wf(),
            i32::MIN <= trade_value(*old(self), s, amount as int) <= i32::MAX,
        ensures
            final(self).wf(),
            bought == can_buy(*old(self), s, amount as int),
            bought ==> after_purchase(*old(self), *final(self), s, amount),
            !bought ==> *final(self) == *old(self),
    {
        let cost = self.trade_value(s, amount);
        let space = self.player.space_available();
        if amount > 0 && amount <= space && cost <= self.player.cash {
            let i = s.index();
            let held = self.player.inventory[i];
            proof {
                lemma_seq_sum_bounds_element(self.player.inventory@, i as int);
                lemma_seq_sum_update(self.player.inventory@, i as int, (held + amount) as i32);
            }
            self.player.cash = self.player.cash - cost;
            self.player.inventory.set(i, held + amount);
            self.message_log.push(Message::Bought { amount, substance: s, cost });
            self.selected_substance = None;
            self.amount_to_trade = "0".to_string();
            true
        } else {
            false
        }
    }

    /// Why a sale of `amount` units of `s` would be refused.
    pub fn sell_check(&self, s: Substance, amount: i32) -> (c: SellCheck)
        requires
            self.wf(),
        ensures
            c.amount_not_positive == (amount <= 0),
            c.not_enough_inventory == (amount > self.player.holding(s)),
            can_sell(*self, s, amount as int) <==> !c.amount_not_positive && !c.not_enough_inventory,
    {
        SellCheck {
            amount_not_positive: amount <= 0,
            not_enough_inventory: amount > self.player.amount_of(s),
        }
    }

    /// Sells `amount` units of `s` when allowed: the proceeds join the cash,
    /// the units leave the stash, the sale is logged and the sell screen is
    /// cleared.  Otherwise nothing changes.
    pub fn sell(&mut self, s: Substance, amount: i32) -> (sold: bool)
        requires
            old(self).wf(),
            i32::MIN <= trade_value(*old(self), s, amount as int) <= i32::MAX,
            can_sell(*old(self), s, amount as int) ==> old(self).player.cash + trade_value(
                *old(self),
                s,
                amount as int,
            ) <= i32::MAX,
        ensures
            final(self).wf(),
            sold == can_sell(*old(self), s, amount as int),
            sold ==> after_sale(*old(self), *final(self), s, amount),
            !sold ==> *final(self) == *old(self),
    {
        let earned = self.trade_value(s, amount);
        let i = s.index();
        let held = self.player.inventory[i];
        if amount > 0 && amount <= held {
            proof {
                lemma_seq_sum_update(self.player.inventory@, i as int, (held - amount) as i32);
            }
            self.player.cash = self.player.cash + earned;
            self.player.inventory.set(i, held - amount);
            self.message_log.push(Message::Sold { amount, substance: s, earned });
            self.selected_substance = None;
            self.amount_to_trade = "0".to_string();
            true
        } else {
            false
        }
    }

    /// Borrows `amount` from the loan shark when it is positive: cash and
    /// debt both grow by it, the loan is logged and the amount field is
    /// reset.  Otherwise nothing changes.
    pub fn borrow(&mut self, amount: i32) -> (borrowed: bool)
        requires
            old(self).wf(),
            amount > 0 ==> old(self).player.cash + amount <= i32::MAX,
            amount > 0 ==> old(self).player.debt + amount <= i32::MAX,
        ensures
            final(self).wf(),
            borrowed == can_borrow(amount as int),
            borrowed ==> after_loan(*old(self), *final(self), amount),
            !borrowed ==> *final(self) == *old(self),
    {
        if amount > 0 {
            self.player.cash = self.player.cash + amount;
            self.player.debt = self.player.debt + amount;
            self.message_log.push(Message::Borrowed { amount, debt: self.player.debt });
            self.amount_to_borrow_repay = "0".to_string();
            true
        } else {
            false
        }
    }

    /// Why a repayment of `amount` would be refused.
    pub fn repay_check(&self, amount: i32) -> (c: RepayCheck)
        requires
            self.wf(),
        ensures
            c.amount_not_positive == (amount <= 0),
            c.not_enough_cash == (amount > self.player.cash),
            c.exceeds_debt == (amount > self.player.debt),
            can_repay(*self, amount as int) <==> !c.amount_not_positive && !c.not_enough_cash
                && !c.exceeds_debt,
    {
        RepayCheck {
            amount_not_positive: amount <= 0,
            not_enough_cash: amount > self.player.cash,
            exceeds_debt: amount > self.player.debt,
        }
    }

    /// Repays `amount` when allowed: cash and debt both shrink by it, the
    /// repayment is logged and the amount field is reset.  Otherwise nothing
    /// changes.
    pub fn repay(&mut self, amount: i32) -> (repaid: bool)
        requires
            old(self).wf(),
        ensures
            final(self).wf(),
            repaid == can_repay(*old(self), amount as int),
            repaid ==> after_repayment(*old(self), *final(self), amount),
            !repaid ==> *final(self) == *old(self),
    {
        if amount > 0 && amount <= self.player.cash && amount <= self.player.debt {
            self.player.cash = self.player.cash - amount;
            self.player.debt = self.player.debt - amount;
            self.message_log.push(Message::Repaid { amount, debt: self.player.debt });
            self.amount_to_borrow_repay = "0".to_string();
            true
        } else {
            false
        }
    }

    /// The hospital's price for healing back to full health: fifty per
    /// missing point.
    pub fn healing_cost(&self) -> (c: i32)
        requires
            self.wf(),
        ensures
            c == healing_cost(*self),
            c == (100 - self.player.health) * 50,
            0 <= c <= MAX_HEALTH * HEALING_COST_PER_POINT,
    {
        (MAX_HEALTH - self.player.health) * HEALING_COST_PER_POINT
    }

    /// Buys treatment when offered and affordable: the price leaves the
    /// cash, health is full again and the treatment is logged.  Otherwise
    /// nothing changes.
    pub fn heal(&mut self) -> (healed: bool)
        requires
            old(self).wf(),
        ensures
            final(self).wf(),
            healed == can_heal(*old(self)),
            healed ==> after_treatment(*old(self), *final(self)),
            !healed ==> *final(self) == *old(self),
    {
        if self.player.health >= MAX_HEALTH {
            return false;
        }
        let cost = self.healing_cost();
        if self.player.cash >= cost {
            self.player.cash = self.player.cash - cost;
            self.player.health = MAX_HEALTH;
            self.message_log.push(Message::Treated);
            true
        } else {
            false
        }
    }
}

/// How the top panel colours the player's health.
#[derive(Clone, Copy, Debug, PartialEq, Eq, Structural)]
pub enum HealthLevel {
    /// Below 30: shown in red.
    Critical,
    /// From 30 to 69: shown in yellow.
    Hurt,
    /// 70 and above: shown in green.
    Healthy,
}

/// The colour band of a health value.
pub open spec fn health_level_of(health: int) -> HealthLevel {
    if health < 30 {
        HealthLevel::Critical
    } else if health < 70 {
        HealthLevel::Hurt
    } else {
        HealthLevel::Healthy
    }
}

/// The districts other than `here`, in travel order, among the first `n`.
pub open spec fn destinations_among(here: Location, n: int) -> Seq<Location>
    decreases n,
{
    if n <= 0 {
        Seq::empty()
    } else {
        let earlier = destinations_among(here, n - 1);
        if location_at(n - 1) == here {
            earlier
        } else {
            earlier.push(location_at(n - 1))
        }
    }
}

/// The goods held in positive amounts, with their amounts, in market order,
/// among the first `n` goods.
pub open spec fn held_among(inventory: Seq<i32>, n: int) -> Seq<(Substance, i32)>
    decreases n,
{
    if n <= 0 {
        Seq::empty()
    } else {
        let earlier = held_among(inventory, n - 1);
        if inventory[n - 1] > 0 {
            earlier.push((substance_at(n - 1), inventory[n - 1]))
        } else {
            earlier
        }
    }
}

/// The held list names each good held in a positive amount, with that
/// amount, once and in market order, and no other good.
pub proof fn lemma_held_among(inventory: Seq<i32>, n: int)
    requires
        0 <= n <= inventory.len() <= NUM_SUBSTANCES,
    ensures
        forall|i: int| 0 <= i < n ==> (inventory[i] > 0 <==> held_among(inventory, n).contains(
            (substance_at(i), inventory[i]),
        )),
        forall|j: int| 0 <= j < held_among(inventory, n).len() ==> {
            &&& 0 <= substance_index((#[trigger] held_among(inventory, n)[j]).0) < n
            &&& held_among(inventory, n)[j].1 > 0
            &&& held_among(inventory, n)[j].1 == inventory[substance_index(held_among(inventory, n)[j].0)]
        },
        forall|j1: int, j2: int| 0 <= j1 < j2 < held_among(inventory, n).len() ==> substance_index(
            (#[trigger] held_among(inventory, n)[j1]).0,
        ) < substance_index((#[trigger] held_among(inventory, n)[j2]).0),
    decreases n,
{
    if n > 0 {
        lemma_held_among(inventory, n - 1);
        let earlier = held_among(inventory, n - 1);
        let now = held_among(inventory, n);
        assert(substance_index(substance_at(n - 1)) == n - 1);
        assert forall|i: int| 0 <= i < n implies (inventory[i] > 0 <==> now.contains(
            (substance_at(i), inventory[i]),
        )) by {
            assert(substance_index(substance_at(i)) == i);
            if inventory[i] > 0 {
                if i == n - 1 {
                    assert(now[now.len() - 1] == (substance_at(i), inventory[i]));
                } else {
                    let j = choose|j: int| 0 <= j < earlier.len() && earlier[j] == (substance_at(i), inventory[i]);
                    assert(now[j] == earlier[j]);
                }
            }
            if now.contains((substance_at(i), inventory[i])) {
                let j = choose|j: int| 0 <= j < now.len() && now[j] == (substance_at(i), inventory[i]);
                if j < earlier.len() {
                    assert(now[j] == earlier[j]);
                }
            }
        }
        assert forall|j: int| 0 <= j < now.len() implies {
            &&& 0 <= substance_index((#[trigger] now[j]).0) < n
            &&& now[j].1 > 0
            &&& now[j].1 == inventory[substance_index(now[j].0)]
        } by {
            if j < earlier.len() {
                assert(now[j] == earlier[j]);
            }
        }
        assert forall|j1: int, j2: int| 0 <= j1 < j2 < now.len() implies substance_index(
            (#[trigger] now[j1]).0,
        ) < substance_index((#[trigger] now[j2]).0) by {
            assert(now[j1] == earlier[j1]);
            if j2 < earlier.len() {
                assert(now[j2] == earlier[j2]);
            }
        }
    }
}

/// The screen a button leads to, and the fields it clears: the buy and sell
/// buttons clear the picked good and the typed amount, the loan shark's
/// button clears the typed loan amount.
pub open spec fn navigated(pre: Game, post: Game, target: Screen) -> bool {
    &&& post.current_screen == target
    &&& post.selected_substance == if target == Screen::Buy || target == Screen::Sell {
        None
    } else {
        pre.selected_substance
    }
    &&& (if target == Screen::Buy || target == Screen::Sell {
        post.amount_to_trade@ == "0"@
    } else {
        post.amount_to_trade == pre.amount_to_trade
    })
    &&& (if target == Screen::LoanShark {
        post.amount_to_borrow_repay@ == "0"@
    } else {
        post.amount_to_borrow_repay == pre.amount_to_borrow_repay
    })
    &&& post.player == pre.player
    &&& post.market == pre.market
    &&& post.message_log == pre.message_log
    &&& post.game_state == pre.game_state
    &&& post.selected_chart_substance == pre.selected_chart_substance
    &&& post.restart_requested == pre.restart_requested
}

/// The course of the game after the end-of-frame check: a running game ends
/// when the thirty days are over, or else when health is gone; an ended game
/// stays ended.
pub open spec fn state_after_check(g: Game) -> GameState {
    match g.game_state {
        GameState::Running => if g.player.day > MAX_DAYS {
            GameState::GameOver(GameOverReason::TimeUp)
        } else if g.player.health <= 0 {
            GameState::GameOver(GameOverReason::Died)
        } else {
            GameState::Running
        },
        GameState::GameOver(r) => GameState::GameOver(r),
    }
}

impl Game {
    /// Follows a navigation button to `target`.
    pub fn navigate(&mut self, target: Screen)
        ensures
            navigated(*old(self), *final(self), target),
    {
        self.current_screen = target;
        match target {
            Screen::Buy | Screen::Sell => {
                self.selected_substance = None;
                self.amount_to_trade = "0".to_string();
            },
            Screen::LoanShark => {
                self.amount_to_borrow_repay = "0".to_string();
            },
            _ => {},
        }
    }

    /// Picks a good on the buy or sell screen; the typed amount is reset.
    pub fn select_substance(&mut self, s: Substance)
        ensures
            final(self).selected_substance == Some(s),
            final(self).amount_to_trade@ == "0"@,
            final(self).player == old(self).player,
            final(self).message_log == old(self).message_log,
            final(self).amount_to_borrow_repay == old(self).amount_to_borrow_repay,
            same_world(*old(self), *final(self)),
    {
        self.selected_substance = Some(s);
        self.amount_to_trade = "0".to_string();
    }

    /// Picks the good whose prices the chart shows.
    pub fn select_chart_substance(&mut self, s: Substance)
        ensures
            final(self).selected_chart_substance == Some(s),
            final(self).player == old(self).player,
            final(self).market == old(self).market,
            final(self).message_log == old(self).message_log,
            final(self).game_state == old(self).game_state,
            final(self).current_screen == old(self).current_screen,
            final(self).selected_substance == old(self).selected_substance,
            final(self).amount_to_trade == old(self).amount_to_trade,
            final(self).amount_to_borrow_repay == old(self).amount_to_borrow_repay,
            final(self).restart_requested == old(self).restart_requested,
    {
        self.selected_chart_substance = Some(s);
    }

    /// "Play Again": the next frame starts a new game.
    pub fn request_restart(&mut self)
        ensures
            final(self).restart_requested,
            final(self).player == old(self).player,
            final(self).market == old(self).market,
            final(self).message_log == old(self).message_log,
            final(self).game_state == old(self).game_state,
            final(self).current_screen == old(self).current_screen,
            final(self).selected_substance == old(self).selected_substance,
            final(self).amount_to_trade == old(self).amount_to_trade,
            final(self).amount_to_borrow_repay == old(self).amount_to_borrow_repay,
            final(self).selected_chart_substance == old(self).selected_chart_substance,
    {
        self.restart_requested = true;
    }

    /// Starts the game over with the first prices drawn as `rolls`: a fresh
    /// player and market, a running game on the main screen with no good
    /// picked and both amounts "0", the greeting, a note of the restart and
    /// the day's news as the whole log; the chart keeps its good.
    pub fn restart_with(&mut self, rolls: &Vec<PriceRoll>)
        requires
            rolls_possible(rolls@),
        ensures
            final(self).wf(),
            fresh_player(final(self).player),
            first_day_market(final(self).market, rolls@),
            final(self).message_log@ == welcome_messages() + seq![Message::GameRestarted]
                + news_messages(final(self).market.events@),
            final(self).game_state == GameState::Running,
            final(self).current_screen == Screen::Main,
            final(self).selected_substance.is_none(),
            final(self).amount_to_trade@ == "0"@,
            final(self).amount_to_borrow_repay@ == "0"@,
            final(self).selected_chart_substance == old(self).selected_chart_substance,
            !final(self).restart_requested,
    {
        self.player = Player::new();
        let mut market = Market::new();
        market.apply_rolls(rolls);
        assert forall|i: int| 0 <= i < NUM_SUBSTANCES implies
            (#[trigger] market.price_history@[i])@ == seq![market.prices@[i]] by {
            assert(market.price_history@[i]@ =~= seq![market.prices@[i]]);
        }
        self.market = market;
        self.game_state = GameState::Running;
        self.current_screen = Screen::Main;
        self.selected_substance = None;
        self.amount_to_trade = "0".to_string();
        self.amount_to_borrow_repay = "0".to_string();
        self.message_log.clear();
        self.message_log.push(Message::Welcome);
        self.message_log.push(Message::ThirtyDays);
        self.message_log.push(Message::BuyLowSellHigh);
        self.message_log.push(Message::GameRestarted);
        self.log_news();
        assert(self.message_log@ =~= welcome_messages() + seq![Message::GameRestarted]
            + news_messages(self.market.events@));
        self.restart_requested = false;
    }

    /// Starts the game over, with prices drawn at random, when a restart was
    /// requested; tells whether it did.  Without a request nothing changes.
    pub fn process_restart(&mut self) -> (restarted: bool)
        ensures
            restarted == old(self).restart_requested,
            restarted ==> {
                &&& final(self).wf()
                &&& fresh_player(final(self).player)
                &&& exists|rolls: Seq<PriceRoll>| rolls_possible(rolls) && first_day_market(final(self).market, rolls)
                &&& final(self).message_log@ == welcome_messages() + seq![Message::GameRestarted]
                    + news_messages(final(self).market.events@)
                &&& final(self).game_state == GameState::Running
                &&& final(self).current_screen == Screen::Main
                &&& final(self).selected_substance.is_none()
                &&& final(self).amount_to_trade@ == "0"@
                &&& final(self).amount_to_borrow_repay@ == "0"@
                &&& final(self).selected_chart_substance == old(self).selected_chart_substance
                &&& !final(self).restart_requested
            },
            !restarted ==> *final(self) == *old(self),
    {
        if self.restart_requested {
            let rolls = roll_prices();
            self.restart_with(&rolls);
            assert(first_day_market(self.market, rolls@));
            true
        } else {
            false
        }
    }

    /// The end-of-frame check: ends a running game whose days are over or
    /// whose player has no health left.
    pub fn check_game_over(&mut self)
        ensures
            final(self).game_state == state_after_check(*old(self)),
            final(self).player == old(self).player,
            final(self).market == old(self).market,
            final(self).message_log == old(self).message_log,
            final(self).current_screen == old(self).current_screen,
            final(self).selected_substance == old(self).selected_substance,
            final(self).amount_to_trade == old(self).amount_to_trade,
            final(self).amount_to_borrow_repay == old(self).amount_to_borrow_repay,
            final(self).selected_chart_substance == old(self).selected_chart_substance,
            final(self).restart_requested == old(self).restart_requested,
    {
        if let GameState::Running = self.game_state {
            if self.player.day > MAX_DAYS {
                self.game_state = GameState::GameOver(GameOverReason::TimeUp);
            } else if self.player.health <= 0 {
                self.game_state = GameState::GameOver(GameOverReason::Died);
            }
        }
    }

    /// Whether the game goes on.
    pub fn is_running(&self) -> (r: bool)
        ensures
            r == (self.game_state == GameState::Running),
    {
        match self.game_state {
            GameState::Running => true,
            GameState::GameOver(_) => false,
        }
    }

    /// The districts the player can travel to: all but the current one, in
    /// travel order.
    pub fn travel_destinations(&self) -> (v: Vec<Location>)
        ensures
            v@ == destinations_among(self.player.current_location, NUM_LOCATIONS as int),
    {
        let mut v: Vec<Location> = Vec::new();
        let mut i: usize = 0;
        while i < NUM_LOCATIONS
            invariant
                i <= NUM_LOCATIONS,
                v@ == destinations_among(self.player.current_location, i as int),
            decreases NUM_LOCATIONS - i,
        {
            let l = Location::from_index(i);
            if l != self.player.current_location {
                v.push(l);
            }
            i = i + 1;
        }
        v
    }

    /// The goods the player holds, with their amounts, in market order.
    pub fn held_goods(&self) -> (v: Vec<(Substance, i32)>)
        requires
            self.wf(),
        ensures
            v@ == held_among(self.player.inventory@, NUM_SUBSTANCES as int),
            forall|i: int| 0 <= i < NUM_SUBSTANCES ==> (self.player.inventory@[i] > 0 <==> v@.contains(
                (substance_at(i), self.player.inventory@[i]),
            )),
            forall|j: int| 0 <= j < v@.len() ==> {
                &&& (#[trigger] v@[j]).1 > 0
                &&& v@[j].1 == self.player.inventory@[substance_index(v@[j].0)]
            },
            forall|j1: int, j2: int| 0 <= j1 < j2 < v@.len() ==> substance_index(
                (#[trigger] v@[j1]).0,
            ) < substance_index((#[trigger] v@[j2]).0),
    {
        proof {
            lemma_held_among(self.player.inventory@, NUM_SUBSTANCES as int);
        }
        let mut v: Vec<(Substance, i32)> = Vec::new();
        let mut i: usize = 0;
        while i < NUM_SUBSTANCES
            invariant
                i <= NUM_SUBSTANCES,
                self.wf(),
                v@ == held_among(self.player.inventory@, i as int),
            decreases NUM_SUBSTANCES - i,
        {
            let amount = self.player.inventory[i];
            if amount > 0 {
                v.push((Substance::from_index(i), amount));
            }
            i = i + 1;
        }
        v
    }

    /// Cash minus debt, as the final stats show it.
    pub fn net_worth(&self) -> (w: i32)
        requires
            self.wf(),
        ensures
            w == self.player.cash - self.player.debt,
    {
        self.player.cash - self.player.debt
    }

    /// The chart of a good's recent prices and today's price, with days
    /// counted back from today; none while the good has no price history.
    pub fn price_chart(&self, s: Substance) -> (c: Option<PriceChart>)
        requires
            self.wf(),
        ensures
            c is None <==> self.market.history(s).len() == 0,
            c matches Some(c) ==> charted(
                c,
                self.market.history(s),
                self.market.prices@[substance_index(s)],
                self.player.day as int,
            ),
    {
        self.market.chart(s, self.player.day)
    }

    /// The colour band of the player's health.
    pub fn health_level(&self) -> (l: HealthLevel)
        ensures
            l == health_level_of(self.player.health as int),
    {
        if self.player.health < 30 {
            HealthLevel::Critical
        } else if self.player.health < 70 {
            HealthLevel::Hurt
        } else {
            HealthLevel::Healthy
        }
    }
}

impl BuyCheck {
    /// The purchase goes through: none of the reasons holds.
    pub fn allows(&self) -> (r: bool)
        ensures
            r == (!self.amount_not_positive && !self.not_enough_space && !self.not_enough_cash),
    {
        !self.amount_not_positive && !self.not_enough_space && !self.not_enough_cash
    }
}

impl SellCheck {
    /// The sale goes through: none of the reasons holds.
    pub fn allows(&self) -> (r: bool)
        ensures
            r == (!self.amount_not_positive && !self.not_enough_inventory),
    {
        !self.amount_not_positive && !self.not_enough_inventory
    }
}

impl RepayCheck {
    /// The repayment goes through: none of the reasons holds.
    pub fn allows(&self) -> (r: bool)
        ensures
            r == (!self.amount_not_positive && !self.not_enough_cash && !self.exceeds_debt),
    {
        !self.amount_not_positive && !self.not_enough_cash && !self.exceeds_debt
    }
}

impl Game {
    /// The amount typed on the buy or sell screen, as a number (0 unless the
    /// text is one).
    pub fn typed_trade_amount(&self) -> (n: i32)
        ensures
            n == typed_amount(self.amount_to_trade@),
    {
        parse_amount(self.amount_to_trade.as_str())
    }

    /// The amount typed at the loan shark's, as a number (0 unless the text
    /// is one).
    pub fn typed_loan_amount(&self) -> (n: i32)
        ensures
            n == typed_amount(self.amount_to_borrow_repay@),
    {
        parse_amount(self.amount_to_borrow_repay.as_str())
    }

    /// Whether the loan shark lends `amount`: only a positive amount.
    pub fn borrow_allowed(amount: i32) -> (r: bool)
        ensures
            r == can_borrow(amount as int),
    {
        amount > 0
    }

    /// Whether the hospital has anything to do: the player is below full
    /// health.
    pub fn needs_treatment(&self) -> (r: bool)
        ensures
            r == (self.player.health < MAX_HEALTH),
    {
        self.player.health < MAX_HEALTH
    }

    /// Whether the player can pay for treatment.
    pub fn can_afford_treatment(&self) -> (r: bool)
        requires
            self.wf(),
        ensures
            r == (self.player.cash >= healing_cost(*self)),
            r && self.player.health < MAX_HEALTH <==> can_heal(*self),
    {
        self.player.cash >= self.healing_cost()
    }
}

} // verus!
