//! The state of a game and the moves of the shop phase.

use vstd::prelude::*;
use crate::board::{
    count_side, enemy_slot, entering, find_card, find_free_slot, free_slot, has_id, ids_below,
    ids_increasing, lemma_count_push, lemma_count_remove, lemma_free_slot, lemma_free_slot_exists,
    lemma_ids_remove, lemma_sides_sum, side_count, slot_taken, slots_distinct, sides_fit, stats_ok,
    BoardCard, ShopCard, ENEMY_SLOT_BASE,
};
use crate::draw::{all_below, distinct, drawn, enemy_count, lemma_draw_within_tier, shop_count, GameData};
use crate::minion::{
    tier_upgrade_cost, upgrade_cost, Minion, MAX_BOARD, MAX_GOLD, MAX_TIER,
    MINION_PRICE, SHOP_SIZE,
};
use crate::pool::{
    available, holds_entry, lemma_available, lemma_table_tiers, lemma_tier_one_names, pool_entry,
    POOL_SIZE,
};

verus! {

/// Gold a player starts with.
pub const START_GOLD: i32 = 3;

/// Health a player and the enemy start with.
pub const START_HEALTH: i32 = 40;

/// Health never falls to this or below: one lost battle costs at most a tier and a full board.
pub const HEALTH_FLOOR: i32 = -20;

/// The player's gold, tavern tier and health.
#[derive(Clone, Copy, Debug, PartialEq, Eq, Structural)]
pub struct Player {
    pub gold: i32,
    pub tier: i32,
    pub health: i32,
}

/// The enemy's health and tier.
#[derive(Clone, Copy, Debug, PartialEq, Eq, Structural)]
pub struct Enemy {
    pub health: i32,
    pub tier: i32,
}

/// What the game is doing: buying in the shop, fighting, or over.
#[derive(Clone, Copy, Debug, PartialEq, Eq, Structural)]
pub enum Phase {
    Shop,
    Battle,
    GameOver,
}

/// A whole game: the pool and its generator, both sides, the phase, the shop, the board, and
/// the id that the next card to enter the board gets.
pub struct Game {
    pub data: GameData,
    pub player: Player,
    pub enemy: Enemy,
    pub phase: Phase,
    pub frozen: bool,
    pub shop: Vec<ShopCard>,
    pub board: Vec<BoardCard>,
    pub next_id: u64,
}

/// Health within the bounds that the game keeps.
pub open spec fn health_ok(h: int) -> bool {
    HEALTH_FLOOR < h <= START_HEALTH
}

/// Every shop card sits in a shop slot and holds a valid minion.
pub open spec fn shop_ok(s: Seq<ShopCard>) -> bool {
    forall|i: int| 0 <= i < s.len() ==> #[trigger] s[i].slot < SHOP_SIZE && s[i].minion.valid()
}

/// A board card holds a valid minion and valid stats, in a slot of its side; enemy cards fight.
pub open spec fn card_ok(c: BoardCard) -> bool {
    &&& c.minion.valid()
    &&& (c.stats matches Some(s) ==> stats_ok(s))
    &&& if enemy_slot(c.slot) {
        c.slot < ENEMY_SLOT_BASE + MAX_BOARD && c.stats is Some
    } else {
        c.slot < MAX_BOARD
    }
}

/// Every card is sound, no two share a slot, and no side is over full.
pub open spec fn board_ok(b: Seq<BoardCard>) -> bool {
    &&& forall|i: int| 0 <= i < b.len() ==> #[trigger] card_ok(b[i])
    &&& slots_distinct(b)
    &&& sides_fit(b)
}

/// The shop card at `j` is the first one in `slot`.
pub open spec fn is_first_in_shop(s: Seq<ShopCard>, slot: usize, j: int) -> bool {
    &&& 0 <= j < s.len()
    &&& s[j].slot == slot
    &&& forall|k: int| 0 <= k < j ==> (#[trigger] s[k]).slot != slot
}

/// Some shop card is in `slot`.
pub open spec fn shop_has(s: Seq<ShopCard>, slot: usize) -> bool {
    exists|j: int| 0 <= j < s.len() && (#[trigger] s[j]).slot == slot
}

/// The board card at `k` is the first one in `slot`.
pub open spec fn is_first_on_board(b: Seq<BoardCard>, slot: usize, k: int) -> bool {
    &&& 0 <= k < b.len()
    &&& b[k].slot == slot
    &&& forall|i: int| 0 <= i < k ==> (#[trigger] b[i]).slot != slot
}

/// The shop cards that a list of offers becomes: the `i`-th offer in shop slot `i`.
pub open spec fn placed(offers: Seq<Minion>) -> Seq<ShopCard> {
    Seq::new(offers.len(), |i: int| ShopCard { slot: i as usize, minion: offers[i] })
}

/// The board cards that an enemy draw becomes: the `i`-th minion in the `i`-th enemy slot, as
/// card `first + i`.
pub open spec fn enemy_cards(first: u64, enemies: Seq<Minion>) -> Seq<BoardCard> {
    Seq::new(enemies.len(), |i: int| entering((first + i) as u64, (ENEMY_SLOT_BASE + i) as usize, enemies[i]))
}

/// A minion can be bought from shop slot `slot`: in the shop phase, with the price in hand,
/// room on the board, and a card in that slot.
pub open spec fn can_buy(g: Game, slot: usize) -> bool {
    &&& g.phase == Phase::Shop
    &&& g.player.gold >= MINION_PRICE
    &&& g.board@.len() < MAX_BOARD
    &&& shop_has(g.shop@, slot)
}

/// Card `id` can be sold: in the shop phase, while it is on the player's side of the board.
pub open spec fn can_sell(g: Game, id: u64) -> bool {
    &&& g.phase == Phase::Shop
    &&& exists|k: int| has_id(g.board@, id, k) && !enemy_slot(g.board@[k].slot)
}

/// The tavern can be upgraded: in the shop phase, below the top tier, with the cost in hand.
pub open spec fn can_upgrade(g: Game) -> bool {
    &&& g.phase == Phase::Shop
    &&& g.player.tier < MAX_TIER
    &&& g.player.gold >= upgrade_cost(g.player.tier as int)
}

/// The shop can be refreshed: in the shop phase, with one gold in hand.
pub open spec fn can_refresh(g: Game) -> bool {
    g.phase == Phase::Shop && g.player.gold >= 1
}

/// The turn can be ended: in the shop phase, with a card on the player's side.
pub open spec fn can_end_turn(g: Game) -> bool {
    g.phase == Phase::Shop && side_count(g.board@, false) > 0
}

/// One toggle of the freeze: the flag flips and the rest of the game stays as it was.
pub open spec fn freeze_step(before: Game, after: Game) -> bool {
    &&& after.frozen == !before.frozen
    &&& after.data == before.data
    &&& after.player == before.player
    &&& after.enemy == before.enemy
    &&& after.phase == before.phase
    &&& after.shop@ == before.shop@
    &&& after.board@ == before.board@
    &&& after.next_id == before.next_id
}

/// Gold after selling a card of `tier`: the tier is paid back, up to the gold cap.
pub open spec fn gold_after_sale(gold: int, tier: int) -> int {
    if gold + tier < MAX_GOLD { gold + tier } else { MAX_GOLD as int }
}

impl Game {
    /// The invariant of a game.
    pub open spec fn wf(&self) -> bool {
        &&& self.data.wf()
        &&& 0 <= self.player.gold <= MAX_GOLD
        &&& 1 <= self.player.tier <= MAX_TIER
        &&& 1 <= self.enemy.tier <= MAX_TIER
        &&& health_ok(self.player.health as int)
        &&& health_ok(self.enemy.health as int)
        &&& (self.phase == Phase::GameOver) == (self.player.health <= 0 || self.enemy.health <= 0)
        &&& shop_ok(self.shop@)
        &&& board_ok(self.board@)
        &&& ids_increasing(self.board@)
        &&& ids_below(self.board@, self.next_id as int)
        &&& self.phase != Phase::Battle ==> side_count(self.board@, true) == 0
    }

    /// A new game: three gold, tier one, full health on both sides, an unfrozen shop of tier one
    /// and an empty board.
    pub fn new() -> (g: Game)
        ensures
            g.wf(),
            g.player == (Player { gold: START_GOLD, tier: 1, health: START_HEALTH }),
            g.enemy == (Enemy { health: START_HEALTH, tier: 1 }),
            g.phase == Phase::Shop,
            !g.frozen,
            g.board@.len() == 0,
            g.next_id == 0,
            g.data.minions@.len() == POOL_SIZE,
            forall|j: int| 0 <= j < POOL_SIZE ==> holds_entry(#[trigger] g.data.minions@[j], pool_entry(j)),
            g.shop@.len() == SHOP_SIZE,
            forall|i: int, j: int| 0 <= i < j < g.shop@.len()
                ==> #[trigger] g.shop@[i].minion.name@ != #[trigger] g.shop@[j].minion.name@,
            exists|picks: Seq<usize>| #![trigger drawn(g.data.minions@, available(g.data.minions@, 1), picks)] {
                &&& distinct(picks)
                &&& all_below(picks, available(g.data.minions@, 1).len() as int)
                &&& g.shop@ == placed(drawn(g.data.minions@, available(g.data.minions@, 1), picks))
            },
    {
        let mut data = GameData::new();
        let offers = data.refresh_shop(1);
        proof {
            lemma_drawn_valid(data.minions@, 1, offers@);
            lemma_opening_names(data.minions@, offers@);
        }
        let shop = place_offers(&offers);
        let g = Game {
            data,
            player: Player { gold: START_GOLD, tier: 1, health: START_HEALTH },
            enemy: Enemy { health: START_HEALTH, tier: 1 },
            phase: Phase::Shop,
            frozen: false,
            shop,
            board: Vec::new(),
            next_id: 0,
        };
        proof {
            lemma_empty_board(g.board@);
        }
        g
    }

    /// Buys the minion in shop slot `slot`: where `can_buy` holds, it leaves the shop, enters
    /// the first free player slot of the board as card `next_id`, and costs the price;
    /// otherwise nothing changes.
    pub fn buy(&mut self, slot: usize) -> (bought: bool)
        requires
            old(self).wf(),
            old(self).next_id < u64::MAX,
        ensures
            final(self).wf(),
            bought == can_buy(*old(self), slot),
            final(self).data == old(self).data,
            final(self).enemy == old(self).enemy,
            final(self).phase == old(self).phase,
            final(self).frozen == old(self).frozen,
            final(self).player.tier == old(self).player.tier,
            final(self).player.health == old(self).player.health,
            !bought ==> final(self).player == old(self).player && final(self).shop@ == old(self).shop@
                && final(self).board@ == old(self).board@ && final(self).next_id == old(self).next_id,
            bought ==> {
                let j = choose|j: int| is_first_in_shop(old(self).shop@, slot, j);
                &&& final(self).player.gold == old(self).player.gold - MINION_PRICE
                &&& final(self).shop@ == old(self).shop@.remove(j)
                &&& final(self).board@ == old(self).board@.push(entering(old(self).next_id,
                    free_slot(old(self).board@)->Some_0 as usize, old(self).shop@[j].minion))
                &&& final(self).next_id == old(self).next_id + 1
            },
    {
        if self.phase != Phase::Shop || self.player.gold < MINION_PRICE || self.board.len() >= MAX_BOARD {
            return false;
        }
        let found = find_in_shop(&self.shop, slot);
        let j = match found {
            Some(j) => j,
            None => {
                return false;
            },
        };
        let ghost b0 = self.board@;
        let card = self.shop.remove(j);
        let free = find_free_slot(&self.board);
        proof {
            lemma_free_slot_exists(b0);
            lemma_free_slot(b0);
            lemma_sides_sum(b0);
        }
        match free {
            Some(i) => {
                self.player.gold = self.player.gold - MINION_PRICE;
                let entered = BoardCard::entering(self.next_id, i, card.minion);
                self.board.push(entered);
                self.next_id = self.next_id + 1;
                proof {
                    lemma_count_push(b0, entered, false);
                    lemma_count_push(b0, entered, true);
                    assert forall|k: int| 0 <= k < b0.len() implies #[trigger] b0[k].slot != i by {
                        if b0[k].slot == i {
                            assert(slot_taken(b0, i as int));
                        }
                    }
                    assert(self.board@[b0.len() as int] == entered);
                    assert forall|x: int, y: int| 0 <= x < y < self.board@.len() implies
                        #[trigger] self.board@[x].id < #[trigger] self.board@[y].id by {
                        assert(self.board@[x] == b0[x]);
                        if y < b0.len() {
                            assert(self.board@[y] == b0[y]);
                        }
                    }
                    assert forall|x: int| 0 <= x < self.board@.len() implies
                        #[trigger] self.board@[x].id < self.next_id by {
                        if x < b0.len() {
                            assert(self.board@[x] == b0[x]);
                        }
                    }
                }
                true
            },
            None => false,
        }
    }

    /// Sells card `id`: where `can_sell` holds, it leaves the board and its tier is paid back,
    /// up to the gold cap; otherwise nothing changes.
    pub fn sell(&mut self, id: u64) -> (sold: bool)
        requires
            old(self).wf(),
        ensures
            final(self).wf(),
            sold == can_sell(*old(self), id),
            final(self).data == old(self).data,
            final(self).next_id == old(self).next_id,
            final(self).enemy == old(self).enemy,
            final(self).phase == old(self).phase,
            final(self).frozen == old(self).frozen,
            final(self).shop@ == old(self).shop@,
            final(self).player.tier == old(self).player.tier,
            final(self).player.health == old(self).player.health,
            !sold ==> final(self).player == old(self).player && final(self).board@ == old(self).board@,
            sold ==> {
                let k = choose|k: int| has_id(old(self).board@, id, k);
                &&& final(self).player.gold == gold_after_sale(old(self).player.gold as int,
                    old(self).board@[k].minion.tier as int)
                &&& final(self).board@ == old(self).board@.remove(k)
            },
    {
        if self.phase != Phase::Shop {
            return false;
        }
        let found = find_card(&self.board, id);
        let k = match found {
            Some(k) => k,
            None => {
                return false;
            },
        };
        let ghost b0 = self.board@;
        assert forall|k2: int| #[trigger] has_id(b0, id, k2) implies k2 == k by {
            if k2 < k {
                assert(b0[k2].id < b0[k as int].id);
            } else if k2 > k {
                assert(b0[k as int].id < b0[k2].id);
            }
        }
        if self.board[k].slot >= ENEMY_SLOT_BASE {
            return false;
        }
        assert(card_ok(b0[k as int]));
        let card = self.board.remove(k);
        let gold = self.player.gold + card.minion.tier;
        self.player.gold = if gold < MAX_GOLD { gold } else { MAX_GOLD };
        proof {
            lemma_count_remove(b0, k as int, false);
            lemma_count_remove(b0, k as int, true);
            lemma_ids_remove(b0, k as int, self.next_id as int);
            assert forall|i: int| 0 <= i < self.board@.len() implies #[trigger] card_ok(self.board@[i]) by {
                if i < k {
                    assert(self.board@[i] == b0[i]);
                } else {
                    assert(self.board@[i] == b0[i + 1]);
                }
            }
            assert forall|i: int, j: int| 0 <= i < j < self.board@.len() implies
                #[trigger] self.board@[i].slot != #[trigger] self.board@[j].slot by {
                let i0 = if i < k { i } else { i + 1 };
                let j0 = if j < k { j } else { j + 1 };
                assert(self.board@[i] == b0[i0]);
                assert(self.board@[j] == b0[j0]);
            }
        }
        true
    }

    /// Raises the tavern one tier: where `can_upgrade` holds, the cost is paid and the tier
    /// rises by one; otherwise nothing changes.
    pub fn upgrade(&mut self) -> (upgraded: bool)
        requires
            old(self).wf(),
        ensures
            final(self).wf(),
            upgraded == can_upgrade(*old(self)),
            final(self).data == old(self).data,
            final(self).next_id == old(self).next_id,
            final(self).enemy == old(self).enemy,
            final(self).phase == old(self).phase,
            final(self).frozen == old(self).frozen,
            final(self).shop@ == old(self).shop@,
            final(self).board@ == old(self).board@,
            final(self).player.health == old(self).player.health,
            final(self).player == if upgraded {
                Player {
                    gold: (old(self).player.gold - upgrade_cost(old(self).player.tier as int)) as i32,
                    tier: (old(self).player.tier + 1) as i32,
                    health: old(self).player.health,
                }
            } else {
                old(self).player
            },
    {
        if self.phase != Phase::Shop || self.player.tier >= MAX_TIER {
            return false;
        }
        let cost = tier_upgrade_cost(self.player.tier);
        if self.player.gold >= cost {
            self.player.gold = self.player.gold - cost;
            self.player.tier = self.player.tier + 1;
            true
        } else {
            false
        }
    }

    /// Freezes or unfreezes the shop, in the shop phase; otherwise nothing changes.
    pub fn toggle_freeze(&mut self) -> (toggled: bool)
        requires
            old(self).wf(),
        ensures
            final(self).wf(),
            toggled == (old(self).phase == Phase::Shop),
            toggled ==> freeze_step(*old(self), *final(self)),
            final(self).frozen == (old(self).frozen != toggled),
            final(self).data == old(self).data,
            final(self).next_id == old(self).next_id,
            final(self).player == old(self).player,
            final(self).enemy == old(self).enemy,
            final(self).phase == old(self).phase,
            final(self).shop@ == old(self).shop@,
            final(self).board@ == old(self).board@,
    {
        if self.phase != Phase::Shop {
            return false;
        }
        self.frozen = !self.frozen;
        true
    }

    /// Refreshes the shop for one gold: where `can_refresh` holds, the old offers go, a fresh
    /// shop of the player's tier takes their place, and the shop is no longer frozen;
    /// otherwise nothing changes.
    pub fn refresh(&mut self) -> (refreshed: bool)
        requires
            old(self).wf(),
        ensures
            final(self).wf(),
            refreshed == can_refresh(*old(self)),
            final(self).data.minions == old(self).data.minions,
            final(self).next_id == old(self).next_id,
            final(self).enemy == old(self).enemy,
            final(self).phase == old(self).phase,
            final(self).board@ == old(self).board@,
            final(self).player.tier == old(self).player.tier,
            final(self).player.health == old(self).player.health,
            !refreshed ==> final(self).player == old(self).player && final(self).shop@ == old(self).shop@
                && final(self).frozen == old(self).frozen && final(self).data == old(self).data,
            refreshed ==> {
                let avail = available(old(self).data.minions@, old(self).player.tier as int);
                &&& final(self).player.gold == old(self).player.gold - 1
                &&& !final(self).frozen
                &&& final(self).shop@.len() == shop_count(avail.len() as int)
                &&& exists|picks: Seq<usize>| #![trigger drawn(old(self).data.minions@, avail, picks)] {
                    &&& distinct(picks)
                    &&& all_below(picks, avail.len() as int)
                    &&& final(self).shop@ == placed(drawn(old(self).data.minions@, avail, picks))
                }
            },
    {
        if self.phase != Phase::Shop || self.player.gold < 1 {
            return false;
        }
        self.player.gold = self.player.gold - 1;
        self.frozen = false;
        let offers = self.data.refresh_shop(self.player.tier);
        proof {
            lemma_drawn_valid(self.data.minions@, self.player.tier as int, offers@);
        }
        self.shop = place_offers(&offers);
        true
    }

    /// Ends the turn: where `can_end_turn` holds, the shop is cleared unless frozen, an enemy
    /// board of the player's tier is drawn into the enemy slots as the next cards, and the
    /// battle begins; otherwise nothing changes.
    pub fn end_turn(&mut self) -> (ended: bool)
        requires
            old(self).wf(),
            old(self).next_id <= u64::MAX - MAX_BOARD,
        ensures
            final(self).wf(),
            ended == can_end_turn(*old(self)),
            final(self).data.minions == old(self).data.minions,
            final(self).player == old(self).player,
            final(self).enemy == old(self).enemy,
            final(self).frozen == old(self).frozen,
            !ended ==> final(self).phase == old(self).phase && final(self).shop@ == old(self).shop@
                && final(self).board@ == old(self).board@ && final(self).data == old(self).data
                && final(self).next_id == old(self).next_id,
            ended ==> {
                let avail = available(old(self).data.minions@, old(self).player.tier as int);
                &&& final(self).phase == Phase::Battle
                &&& final(self).shop@ == if old(self).frozen { old(self).shop@ } else { Seq::empty() }
                &&& exists|picks: Seq<usize>| #![trigger drawn(old(self).data.minions@, avail, picks)] {
                    &&& picks.len() == enemy_count(old(self).player.tier as int, avail.len() as int)
                    &&& all_below(picks, avail.len() as int)
                    &&& final(self).board@ == old(self).board@
                        + enemy_cards(old(self).next_id, drawn(old(self).data.minions@, avail, picks))
                    &&& final(self).next_id == old(self).next_id + picks.len()
                }
            },
    {
        if self.phase != Phase::Shop || count_side(&self.board, false) == 0 {
            return false;
        }
        if !self.frozen {
            self.shop.clear();
        }
        let enemies = self.data.spawn_enemy(self.player.tier);
        proof {
            lemma_drawn_valid(self.data.minions@, self.player.tier as int, enemies@);
        }
        let ghost b0 = self.board@;
        let first = self.next_id;
        let mut arrivals = enemy_board(first, &enemies);
        self.board.append(&mut arrivals);
        self.next_id = first + enemies.len() as u64;
        self.phase = Phase::Battle;
        proof {
            lemma_enemies_join(b0, first, enemies@);
        }
        true
    }

    /// Starts over after a game is over: the board is cleared, both heroes are back to their
    /// start, the shop is unfrozen and a fresh shop of tier one joins whatever the shop still
    /// held, and shopping resumes. Outside a finished game nothing changes.
    pub fn restart(&mut self) -> (restarted: bool)
        requires
            old(self).wf(),
        ensures
            final(self).wf(),
            restarted == (old(self).phase == Phase::GameOver),
            final(self).data.minions == old(self).data.minions,
            final(self).next_id == old(self).next_id,
            !restarted ==> final(self).player == old(self).player && final(self).enemy == old(self).enemy
                && final(self).phase == old(self).phase && final(self).frozen == old(self).frozen
                && final(self).shop@ == old(self).shop@ && final(self).board@ == old(self).board@
                && final(self).data == old(self).data,
            restarted ==> {
                let avail = available(old(self).data.minions@, 1);
                &&& final(self).player == (Player { gold: START_GOLD, tier: 1, health: START_HEALTH })
                &&& final(self).enemy == (Enemy { health: START_HEALTH, tier: 1 })
                &&& final(self).phase == Phase::Shop
                &&& !final(self).frozen
                &&& final(self).board@.len() == 0
                &&& exists|picks: Seq<usize>| #![trigger drawn(old(self).data.minions@, avail, picks)] {
                    &&& picks.len() == shop_count(avail.len() as int)
                    &&& distinct(picks)
                    &&& all_below(picks, avail.len() as int)
                    &&& final(self).shop@ == old(self).shop@ + placed(drawn(old(self).data.minions@, avail, picks))
                }
            },
    {
        if self.phase != Phase::GameOver {
            return false;
        }
        self.board.clear();
        self.player = Player { gold: START_GOLD, tier: 1, health: START_HEALTH };
        self.enemy = Enemy { health: START_HEALTH, tier: 1 };
        self.frozen = false;
        let offers = self.data.refresh_shop(1);
        proof {
            lemma_drawn_valid(self.data.minions@, 1, offers@);
            lemma_empty_board(self.board@);
        }
        let ghost s0 = self.shop@;
        let mut fresh = place_offers(&offers);
        self.shop.append(&mut fresh);
        self.phase = Phase::Shop;
        proof {
            assert forall|i: int| 0 <= i < self.shop@.len() implies #[trigger] self.shop@[i].slot < SHOP_SIZE
                && self.shop@[i].minion.valid() by {
                if i >= s0.len() {
                    assert(self.shop@[i] == placed(offers@)[i - s0.len()]);
                } else {
                    assert(self.shop@[i] == s0[i]);
                }
            }
        }
        true
    }

    /// Whether the game was lost: the player's health ran out.
    pub fn player_lost(&self) -> (lost: bool)
        ensures
            lost == (self.player.health <= 0),
    {
        self.player.health <= 0
    }

    /// How many cards stand on the player's side of the board.
    pub fn player_board_count(&self) -> (n: usize)
        ensures
            n == side_count(self.board@, false),
    {
        count_side(&self.board, false)
    }

    /// What the next tavern tier costs; none at the top tier.
    pub fn upgrade_price(&self) -> (price: Option<i32>)
        requires
            self.wf(),
        ensures
            price == if self.player.tier >= MAX_TIER {
                None
            } else {
                Some(upgrade_cost(self.player.tier as int) as i32)
            },
    {
        if self.player.tier >= MAX_TIER {
            None
        } else {
            Some(tier_upgrade_cost(self.player.tier))
        }
    }
}

/// Selling pays back the sold minion's tier: with room under the gold cap the gold rises by
/// exactly the tier, so a higher tier pays more; otherwise the purse is filled to the cap. The
/// gold never falls and never passes the cap.
pub proof fn lemma_sale_pays_the_tier(gold: int, tier: int, higher: int)
    requires
        0 <= gold <= MAX_GOLD,
        1 <= tier < higher,
    ensures
        gold <= gold_after_sale(gold, tier) <= MAX_GOLD,
        gold + tier <= MAX_GOLD ==> gold_after_sale(gold, tier) - gold == tier,
        gold + tier >= MAX_GOLD ==> gold_after_sale(gold, tier) == MAX_GOLD,
        gold + higher <= MAX_GOLD ==> gold_after_sale(gold, tier) < gold_after_sale(gold, higher),
{
}

/// In the shop, with the price in hand and a card in the slot, a buy succeeds exactly while
/// the board is not full: a board one short of full takes its last card.
pub proof fn lemma_buy_fills_the_board(g: Game, slot: usize)
    requires
        g.phase == Phase::Shop,
        g.player.gold >= MINION_PRICE,
        shop_has(g.shop@, slot),
    ensures
        can_buy(g, slot) <==> g.board@.len() < MAX_BOARD,
        g.board@.len() == MAX_BOARD - 1 ==> can_buy(g, slot),
{
}

/// In the shop, a player below the top tier with the cost in hand can always raise the tavern,
/// and the cost always fits in a full purse, so every tier up to the top can be reached; at the
/// top no raise is possible.
pub proof fn lemma_upgrade_reaches_the_top(g: Game)
    requires
        g.phase == Phase::Shop,
        1 <= g.player.tier,
    ensures
        g.player.tier < MAX_TIER && g.player.gold >= upgrade_cost(g.player.tier as int) ==> can_upgrade(g),
        g.player.tier < MAX_TIER && g.player.gold == MAX_GOLD ==> can_upgrade(g),
        g.player.tier == MAX_TIER - 1 && g.player.gold >= 2 ==> can_upgrade(g),
        g.player.tier >= MAX_TIER ==> !can_upgrade(g),
{
}

/// Toggling the freeze `k` times flips the flag `k` times: after an even number of toggles
/// the shop is frozen as it was before, after an odd number the other way round; nothing else
/// in the game changes.
pub proof fn lemma_freeze_toggles(games: Seq<Game>)
    requires
        games.len() > 0,
        forall|i: int| 0 <= i < games.len() - 1 ==> freeze_step(#[trigger] games[i], games[i + 1]),
    ensures
        games.last().frozen == (games[0].frozen != ((games.len() - 1) % 2 == 1)),
        games.last().data == games[0].data,
        games.last().player == games[0].player,
        games.last().enemy == games[0].enemy,
        games.last().phase == games[0].phase,
        games.last().shop@ == games[0].shop@,
        games.last().board@ == games[0].board@,
        games.last().next_id == games[0].next_id,
    decreases games.len(),
{
    if games.len() > 1 {
        let fewer = games.drop_last();
        assert forall|i: int| 0 <= i < fewer.len() - 1 implies freeze_step(#[trigger] fewer[i], fewer[i + 1]) by {
            assert(fewer[i] == games[i]);
            assert(fewer[i + 1] == games[i + 1]);
            assert(freeze_step(games[i], games[i + 1]));
        }
        lemma_freeze_toggles(fewer);
        let n = games.len() - 1;
        assert(freeze_step(games[n - 1], games[n]));
        assert(fewer.last() == games[n - 1]);
        assert(fewer[0] == games[0]);
        assert(((n - 1) % 2 == 1) != (n % 2 == 1)) by {
            vstd::arithmetic::div_mod::lemma_fundamental_div_mod(n, 2);
            vstd::arithmetic::div_mod::lemma_fundamental_div_mod(n - 1, 2);
        }
    }
}

/// The minions that a draw from the pool gives are valid, and there are no more than the
/// positions within the tier.
proof fn lemma_drawn_valid(pool: Seq<crate::minion::MinionTemplate>, tier: int, ms: Seq<Minion>)
    requires
        crate::minion::all_valid(pool),
        exists|picks: Seq<usize>| #![trigger drawn(pool, available(pool, tier), picks)] {
            &&& all_below(picks, available(pool, tier).len() as int)
            &&& ms == drawn(pool, available(pool, tier), picks)
        },
    ensures
        forall|i: int| 0 <= i < ms.len() ==> (#[trigger] ms[i]).valid(),
{
    lemma_available(pool, tier);
    let picks = choose|picks: Seq<usize>| #![trigger drawn(pool, available(pool, tier), picks)] {
        &&& all_below(picks, available(pool, tier).len() as int)
        &&& ms == drawn(pool, available(pool, tier), picks)
    };
    assert forall|i: int| 0 <= i < ms.len() implies (#[trigger] ms[i]).valid() by {
        let p = picks[i] as int;
        assert(0 <= available(pool, tier)[p] < pool.len());
        assert(pool[available(pool, tier)[p]].valid());
    }
}

/// A draw of tier one from the game's table without repeated picks gives minions with
/// pairwise different names.
proof fn lemma_opening_names(pool: Seq<crate::minion::MinionTemplate>, ms: Seq<Minion>)
    requires
        pool.len() == POOL_SIZE,
        forall|j: int| 0 <= j < POOL_SIZE ==> holds_entry(#[trigger] pool[j], pool_entry(j)),
        exists|picks: Seq<usize>| #![trigger drawn(pool, available(pool, 1), picks)] {
            &&& distinct(picks)
            &&& all_below(picks, available(pool, 1).len() as int)
            &&& ms == drawn(pool, available(pool, 1), picks)
        },
    ensures
        forall|i: int, j: int| 0 <= i < j < ms.len() ==> #[trigger] ms[i].name@ != #[trigger] ms[j].name@,
{
    let avail = available(pool, 1);
    let picks = choose|picks: Seq<usize>| #![trigger drawn(pool, available(pool, 1), picks)] {
        &&& distinct(picks)
        &&& all_below(picks, available(pool, 1).len() as int)
        &&& ms == drawn(pool, available(pool, 1), picks)
    };
    lemma_available(pool, 1);
    lemma_draw_within_tier(pool, 1, picks);
    lemma_table_tiers();
    lemma_tier_one_names();
    assert forall|i: int, j: int| 0 <= i < j < ms.len() implies #[trigger] ms[i].name@ != #[trigger] ms[j].name@ by {
        let p = avail[picks[i] as int];
        let q = avail[picks[j] as int];
        assert(holds_entry(pool[p], pool_entry(p)));
        assert(holds_entry(pool[q], pool_entry(q)));
        assert(p < 20 && q < 20);
        assert(p != q);
        if p < q {
            assert(pool_entry(p).0 != pool_entry(q).0);
        } else {
            assert(pool_entry(q).0 != pool_entry(p).0);
        }
    }
}

/// An empty board is sound and has nobody on either side.
proof fn lemma_empty_board(b: Seq<BoardCard>)
    requires
        b.len() == 0,
    ensures
        board_ok(b),
        side_count(b, true) == 0,
        side_count(b, false) == 0,
{
}

/// Enemy cards joining a board without enemies, as the next cards: the board stays sound and
/// its ids stay in order.
proof fn lemma_enemies_join(b: Seq<BoardCard>, first: u64, enemies: Seq<Minion>)
    requires
        board_ok(b),
        side_count(b, true) == 0,
        ids_increasing(b),
        ids_below(b, first as int),
        enemies.len() <= MAX_BOARD,
        first + enemies.len() <= u64::MAX,
        forall|i: int| 0 <= i < enemies.len() ==> (#[trigger] enemies[i]).valid(),
    ensures
        board_ok(b + enemy_cards(first, enemies)),
        ids_increasing(b + enemy_cards(first, enemies)),
        ids_below(b + enemy_cards(first, enemies), first + enemies.len()),
{
    let all = b + enemy_cards(first, enemies);
    lemma_enemy_cards_count(b, first, enemies);
    assert forall|x: int, y: int| 0 <= x < y < all.len() implies #[trigger] all[x].id < #[trigger] all[y].id by {
        if x < b.len() {
            assert(all[x] == b[x]);
        } else {
            assert(all[x] == enemy_cards(first, enemies)[x - b.len()]);
        }
        if y < b.len() {
            assert(all[y] == b[y]);
        } else {
            assert(all[y] == enemy_cards(first, enemies)[y - b.len()]);
        }
    }
    assert forall|x: int| 0 <= x < all.len() implies #[trigger] all[x].id < first + enemies.len() by {
        if x < b.len() {
            assert(all[x] == b[x]);
        } else {
            assert(all[x] == enemy_cards(first, enemies)[x - b.len()]);
        }
    }
    assert forall|i: int| 0 <= i < b.len() implies !enemy_slot(#[trigger] b[i].slot) by {
        if enemy_slot(b[i].slot) {
            lemma_side_has_card(b, i);
        }
    }
    assert forall|i: int| 0 <= i < all.len() implies #[trigger] card_ok(all[i]) by {
        if i >= b.len() {
            assert(all[i] == enemy_cards(first, enemies)[i - b.len()]);
        }
    }
    assert forall|i: int, j: int| 0 <= i < j < all.len() implies #[trigger] all[i].slot != #[trigger] all[j].slot by {
        if j >= b.len() && i >= b.len() {
            assert(all[i] == enemy_cards(first, enemies)[i - b.len()]);
            assert(all[j] == enemy_cards(first, enemies)[j - b.len()]);
        } else if j >= b.len() {
            assert(all[i] == b[i]);
            assert(all[j] == enemy_cards(first, enemies)[j - b.len()]);
        } else {
            assert(all[i] == b[i]);
            assert(all[j] == b[j]);
        }
    }
}

/// A card on a side makes the side's count positive.
proof fn lemma_side_has_card(b: Seq<BoardCard>, i: int)
    requires
        0 <= i < b.len(),
    ensures
        side_count(b, enemy_slot(b[i].slot)) > 0,
    decreases b.len(),
{
    if i < b.len() - 1 {
        lemma_side_has_card(b.drop_last(), i);
    }
}

/// Counting the sides after enemy cards join.
proof fn lemma_enemy_cards_count(b: Seq<BoardCard>, first: u64, enemies: Seq<Minion>)
    requires
        enemies.len() <= MAX_BOARD,
    ensures
        side_count(b + enemy_cards(first, enemies), true) == side_count(b, true) + enemies.len(),
        side_count(b + enemy_cards(first, enemies), false) == side_count(b, false),
    decreases enemies.len(),
{
    if enemies.len() == 0 {
        assert(b + enemy_cards(first, enemies) =~= b);
    } else {
        let fewer = enemies.drop_last();
        lemma_enemy_cards_count(b, first, fewer);
        assert((b + enemy_cards(first, enemies)).drop_last() =~= b + enemy_cards(first, fewer));
        let last = enemy_cards(first, enemies)[enemies.len() - 1];
        assert((b + enemy_cards(first, enemies)).last() == last);
        assert(last.slot == ENEMY_SLOT_BASE + enemies.len() - 1);
    }
}

/// The first shop card in `slot`.
fn find_in_shop(s: &Vec<ShopCard>, slot: usize) -> (j: Option<usize>)
    ensures
        match j {
            Some(j) => is_first_in_shop(s@, slot, j as int),
            None => !shop_has(s@, slot),
        },
{
    let mut k: usize = 0;
    while k < s.len()
        invariant
            k <= s@.len(),
            forall|i: int| 0 <= i < k ==> (#[trigger] s@[i]).slot != slot,
        decreases s@.len() - k,
    {
        if s[k].slot == slot {
            return Some(k);
        }
        k = k + 1;
    }
    None
}

/// The first board card in `slot`.
pub fn find_on_board(b: &Vec<BoardCard>, slot: usize) -> (k: Option<usize>)
    ensures
        match k {
            Some(k) => is_first_on_board(b@, slot, k as int),
            None => !slot_taken(b@, slot as int),
        },
{
    let mut k: usize = 0;
    while k < b.len()
        invariant
            k <= b@.len(),
            forall|i: int| 0 <= i < k ==> (#[trigger] b@[i]).slot != slot,
        decreases b@.len() - k,
    {
        if b[k].slot == slot {
            return Some(k);
        }
        k = k + 1;
    }
    None
}

/// The shop cards of a list of offers; see `placed`.
pub fn place_offers(offers: &Vec<Minion>) -> (cards: Vec<ShopCard>)
    ensures
        cards@ == placed(offers@),
{
    let mut cards: Vec<ShopCard> = Vec::new();
    let mut i: usize = 0;
    while i < offers.len()
        invariant
            i <= offers@.len(),
            cards@ == placed(offers@.take(i as int)),
        decreases offers@.len() - i,
    {
        cards.push(ShopCard { slot: i, minion: offers[i].copy() });
        i = i + 1;
        assert(cards@ =~= placed(offers@.take(i as int)));
    }
    assert(offers@.take(i as int) =~= offers@);
    cards
}

/// The enemy cards of an enemy draw, from card `first` on; see `enemy_cards`.
pub fn enemy_board(first: u64, enemies: &Vec<Minion>) -> (cards: Vec<BoardCard>)
    requires
        enemies@.len() <= MAX_BOARD,
        first + enemies@.len() <= u64::MAX,
    ensures
        cards@ == enemy_cards(first, enemies@),
{
    let mut cards: Vec<BoardCard> = Vec::new();
    let mut i: usize = 0;
    while i < enemies.len()
        invariant
            i <= enemies@.len(),
            enemies@.len() <= MAX_BOARD,
            first + enemies@.len() <= u64::MAX,
            cards@ == enemy_cards(first, enemies@.take(i as int)),
        decreases enemies@.len() - i,
    {
        cards.push(BoardCard::entering(first + i as u64, ENEMY_SLOT_BASE + i, enemies[i].copy()));
        i = i + 1;
        assert(cards@ =~= enemy_cards(first, enemies@.take(i as int)));
    }
    assert(enemies@.take(i as int) =~= enemies@);
    cards
}

} // verus!
