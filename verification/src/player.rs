//! The player: cash, debt, stash of goods, whereabouts, calendar and health.
use vstd::prelude::*;
use crate::catalog::{Location, Substance, NUM_SUBSTANCES, substance_index};

verus! {

/// Cash in hand at the start of a game.
pub const STARTING_CASH: i32 = 2000;

/// Debt owed to the loan shark at the start of a game.
pub const STARTING_DEBT: i32 = 5000;

/// How many units of goods the player can carry in all.
pub const MAX_CARRYING_CAPACITY: i32 = 100;

/// Full health.
pub const MAX_HEALTH: i32 = 100;

/// Sum of a sequence of amounts.
pub open spec fn seq_sum(s: Seq<i32>) -> int
    decreases s.len(),
{
    if s.len() == 0 {
        0
    } else {
        seq_sum(s.drop_last()) + s.last()
    }
}

/// Every amount of the sequence is nonnegative.
pub open spec fn all_nonnegative(s: Seq<i32>) -> bool {
    forall|i: int| 0 <= i < s.len() ==> #[trigger] s[i] >= 0
}

/// A sum of nonnegative amounts bounds the sum of each of its prefixes.
pub proof fn lemma_seq_sum_prefix(s: Seq<i32>, i: int)
    requires
        all_nonnegative(s),
        0 <= i <= s.len(),
    ensures
        0 <= seq_sum(s.take(i)) <= seq_sum(s),
        i < s.len() ==> seq_sum(s.take(i + 1)) == seq_sum(s.take(i)) + s[i],
    decreases s.len(),
{
    if s.len() > 0 {
        let t = s.drop_last();
        assert(all_nonnegative(t));
        if i < s.len() {
            lemma_seq_sum_prefix(t, i);
            assert(s.take(i) =~= t.take(i));
            if i + 1 < s.len() {
                assert(s.take(i + 1) =~= t.take(i + 1));
            } else {
                assert(s.take(i + 1) =~= s);
                assert(s.take(i + 1).drop_last() =~= s.take(i));
            }
        } else {
            assert(s.take(i) =~= s);
            lemma_seq_sum_prefix(t, t.len() as int);
            assert(t.take(t.len() as int) =~= t);
        }
    } else {
        assert(s.take(i) =~= s);
    }
}

/// Changing one amount changes the sum by the difference.
pub proof fn lemma_seq_sum_update(s: Seq<i32>, i: int, v: i32)
    requires
        0 <= i < s.len(),
    ensures
        seq_sum(s.update(i, v)) == seq_sum(s) - s[i] + v,
    decreases s.len(),
{
    let t = s.update(i, v);
    if i == s.len() - 1 {
        assert(t.drop_last() =~= s.drop_last());
    } else {
        lemma_seq_sum_update(s.drop_last(), i, v);
        assert(t.drop_last() =~= s.drop_last().update(i, v));
    }
}

/// Nonnegative amounts sum to at least each of them.
pub proof fn lemma_seq_sum_bounds_element(s: Seq<i32>, i: int)
    requires
        all_nonnegative(s),
        0 <= i < s.len(),
    ensures
        s[i] <= seq_sum(s),
{
    lemma_seq_sum_prefix(s, i);
    lemma_seq_sum_prefix(s, i + 1);
    lemma_seq_sum_prefix(s, s.len() as int);
    assert(s.take(s.len() as int) =~= s);
    assert(seq_sum(s.take(i + 1)) <= seq_sum(s)) by {
        lemma_seq_sum_prefix_monotone(s, i + 1, s.len() as int);
    }
}

/// Sums of longer prefixes of nonnegative amounts are no smaller.
pub proof fn lemma_seq_sum_prefix_monotone(s: Seq<i32>, i: int, j: int)
    requires
        all_nonnegative(s),
        0 <= i <= j <= s.len(),
    ensures
        seq_sum(s.take(i)) <= seq_sum(s.take(j)),
    decreases j - i,
{
    if i < j {
        lemma_seq_sum_prefix(s, j - 1);
        lemma_seq_sum_prefix_monotone(s, i, j - 1);
    }
}

/// What the player owns and where the player stands.
pub struct Player {
    pub cash: i32,
    pub debt: i32,
    /// Units held of each good, in market order.
    pub inventory: Vec<i32>,
    pub current_location: Location,
    pub day: i32,
    pub health: i32,
}

impl Player {
    /// The states the game can reach: one nonnegative amount per good, no
    /// more goods than can be carried, no negative cash or debt, health
    /// between none and full, and a calendar that starts at day one.
    pub open spec fn wf(&self) -> bool {
        &&& self.inventory@.len() == NUM_SUBSTANCES
        &&& all_nonnegative(self.inventory@)
        &&& seq_sum(self.inventory@) <= MAX_CARRYING_CAPACITY
        &&& self.cash >= 0
        &&& self.debt >= 0
        &&& 0 <= self.health <= MAX_HEALTH
        &&& self.day >= 1
    }

    /// Units held of a good.
    pub open spec fn holding(&self, s: Substance) -> int {
        self.inventory@[substance_index(s)] as int
    }

    /// Units held of all goods together.
    pub open spec fn total_held(&self) -> int {
        seq_sum(self.inventory@)
    }

    /// A fresh player in the Bronx on day one, with starting cash and debt,
    /// full health and nothing to sell.
    pub fn new() -> (p: Player)
        ensures
            p.wf(),
            p.cash == STARTING_CASH,
            p.debt == STARTING_DEBT,
            p.inventory@ == Seq::new(NUM_SUBSTANCES as nat, |i: int| 0i32),
            p.current_location == Location::Bronx,
            p.day == 1,
            p.health == MAX_HEALTH,
    {
        let mut inventory: Vec<i32> = Vec::new();
        let mut i: usize = 0;
        while i < NUM_SUBSTANCES
            invariant
                i <= NUM_SUBSTANCES,
                inventory@ == Seq::new(i as nat, |k: int| 0i32),
            decreases NUM_SUBSTANCES - i,
        {
            inventory.push(0);
            i = i + 1;
        }
        proof {
            lemma_seq_sum_zero(inventory@);
        }
        Player {
            cash: STARTING_CASH,
            debt: STARTING_DEBT,
            inventory,
            current_location: Location::Bronx,
            day: 1,
            health: MAX_HEALTH,
        }
    }

    /// Units held of all goods together.
    pub fn total_items(&self) -> (n: i32)
        requires
            self.wf(),
        ensures
            n == self.total_held(),
            0 <= n <= MAX_CARRYING_CAPACITY,
    {
        let mut total: i32 = 0;
        let mut i: usize = 0;
        while i < self.inventory.len()
            invariant
                self.wf(),
                i <= self.inventory@.len(),
                total == seq_sum(self.inventory@.take(i as int)),
            decreases self.inventory@.len() - i,
        {
            proof {
                lemma_seq_sum_prefix(self.inventory@, i as int);
                lemma_seq_sum_prefix(self.inventory@, i as int + 1);
            }
            total = total + self.inventory[i];
            i = i + 1;
        }
        proof {
            assert(self.inventory@.take(i as int) =~= self.inventory@);
            lemma_seq_sum_prefix(self.inventory@, i as int);
        }
        total
    }

    /// Room left for more goods.
    pub fn space_available(&self) -> (n: i32)
        requires
            self.wf(),
        ensures
            n == MAX_CARRYING_CAPACITY - self.total_held(),
            0 <= n <= MAX_CARRYING_CAPACITY,
    {
        MAX_CARRYING_CAPACITY - self.total_items()
    }

    /// Units held of a good.
    pub fn amount_of(&self, s: Substance) -> (n: i32)
        requires
            self.wf(),
        ensures
            n == self.holding(s),
            0 <= n <= self.total_held(),
    {
        let i = s.index();
        proof {
            lemma_seq_sum_bounds_element(self.inventory@, i as int);
        }
        self.inventory[i]
    }
}

/// A sequence of zeros sums to zero.
pub proof fn lemma_seq_sum_zero(s: Seq<i32>)
    requires
        forall|i: int| 0 <= i < s.len() ==> #[trigger] s[i] == 0,
    ensures
        seq_sum(s) == 0,
        all_nonnegative(s),
    decreases s.len(),
{
    if s.len() > 0 {
        lemma_seq_sum_zero(s.drop_last());
    }
}

} // verus!
