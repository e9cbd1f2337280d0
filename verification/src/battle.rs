//! The battle: one exchange at a time between the front fighters of each side, until a side
//! runs out of fighters.

use vstd::prelude::*;
use crate::board::{
    count_fighters, enemy_slot, fighter_count, first_fighter, has_fighter, ids_below,
    ids_increasing, is_first_fighter, is_fighter, lemma_count_remove, lemma_count_update,
    lemma_fighters_within_side, lemma_ids_remove, lemma_ids_update, side_count, slots_distinct,
    BoardCard, CombatStats,
};
use crate::game::{board_ok, card_ok, Game, Phase};
use crate::minion::{MAX_BOARD, MAX_GOLD};

verus! {

/// What one tick of a battle did.
#[derive(Clone, Copy, Debug, PartialEq, Eq, Structural)]
pub enum BattleReport {
    /// No battle was going on.
    Idle,
    /// The front fighters struck each other.
    Exchange {
        player_slot: usize,
        foe_slot: usize,
        damage_to_player_card: i32,
        damage_to_foe: i32,
        player_card_falls: bool,
        foe_falls: bool,
    },
    /// A side had no fighter left; `won` tells whether the player's side still had one, and
    /// `damage` is what the losing hero took.
    Finished { won: bool, damage: i32 },
}

/// The card after taking `dmg` damage.
pub open spec fn hit(c: BoardCard, dmg: int) -> BoardCard {
    BoardCard {
        id: c.id,
        slot: c.slot,
        minion: c.minion,
        stats: Some(CombatStats {
            attack: c.stats->Some_0.attack,
            health: (c.stats->Some_0.health - dmg) as i32,
        }),
    }
}

/// A struck card with no health left falls from the board.
pub open spec fn falls(c: BoardCard) -> bool {
    c.stats->Some_0.health <= 0
}

/// The attack a card fights with.
pub open spec fn attack_of(c: BoardCard) -> int {
    c.stats->Some_0.attack as int
}

/// The board after the cards at `pi` and `ei` strike each other at once, each taking the
/// other's attack as damage, and those with no health left fall.
pub open spec fn exchanged(b: Seq<BoardCard>, pi: int, ei: int) -> Seq<BoardCard> {
    let b1 = b.update(pi, hit(b[pi], attack_of(b[ei]))).update(ei, hit(b[ei], attack_of(b[pi])));
    let hi = if pi < ei { ei } else { pi };
    let lo = if pi < ei { pi } else { ei };
    let b2 = if falls(b1[hi]) { b1.remove(hi) } else { b1 };
    if falls(b1[lo]) { b2.remove(lo) } else { b2 }
}

/// The board after a battle: the enemy cards are gone, and the player's cards keep their
/// slots but no longer carry combat stats.
pub open spec fn after_battle(b: Seq<BoardCard>) -> Seq<BoardCard>
    decreases b.len(),
{
    if b.len() == 0 {
        Seq::empty()
    } else {
        let rest = after_battle(b.drop_last());
        let c = b.last();
        if enemy_slot(c.slot) {
            rest
        } else {
            rest.push(BoardCard { id: c.id, slot: c.slot, minion: c.minion, stats: None })
        }
    }
}

/// Removing one card keeps every other card sound and the slots distinct, and the sides
/// within a full board.
proof fn lemma_remove_ok(b: Seq<BoardCard>, x: int)
    requires
        0 <= x < b.len(),
        forall|i: int| 0 <= i < b.len() && i != x ==> #[trigger] card_ok(b[i]),
        slots_distinct(b),
        side_count(b, false) <= MAX_BOARD,
        side_count(b, true) <= MAX_BOARD,
    ensures
        forall|i: int| 0 <= i < b.remove(x).len() ==> #[trigger] card_ok(b.remove(x)[i]),
        slots_distinct(b.remove(x)),
        side_count(b.remove(x), false) <= side_count(b, false),
        side_count(b.remove(x), true) <= side_count(b, true),
        fighter_count(b.remove(x), false) <= fighter_count(b, false),
        fighter_count(b.remove(x), true) <= fighter_count(b, true),
{
    let r = b.remove(x);
    lemma_count_remove(b, x, false);
    lemma_count_remove(b, x, true);
    assert forall|i: int| 0 <= i < r.len() implies #[trigger] card_ok(r[i]) by {
        if i < x {
            assert(r[i] == b[i]);
        } else {
            assert(r[i] == b[i + 1]);
        }
    }
    assert forall|i: int, j: int| 0 <= i < j < r.len() implies #[trigger] r[i].slot != #[trigger] r[j].slot by {
        let i0 = if i < x { i } else { i + 1 };
        let j0 = if j < x { j } else { j + 1 };
        assert(r[i] == b[i0]);
        assert(r[j] == b[j0]);
    }
}

/// An exchange keeps the board sound and takes no fighter to a side.
proof fn lemma_exchange_ok(b: Seq<BoardCard>, pi: int, ei: int)
    requires
        board_ok(b),
        is_first_fighter(b, false, pi),
        is_first_fighter(b, true, ei),
    ensures
        board_ok(exchanged(b, pi, ei)),
        side_count(exchanged(b, pi, ei), true) <= side_count(b, true),
{
    let pc = b[pi];
    let ec = b[ei];
    assert(card_ok(pc));
    assert(card_ok(ec));
    let b0 = b.update(pi, hit(pc, attack_of(ec)));
    let b1 = b0.update(ei, hit(ec, attack_of(pc)));
    assert(pi != ei);
    lemma_count_update(b, pi, hit(pc, attack_of(ec)), false);
    lemma_count_update(b, pi, hit(pc, attack_of(ec)), true);
    lemma_count_update(b0, ei, hit(ec, attack_of(pc)), false);
    lemma_count_update(b0, ei, hit(ec, attack_of(pc)), true);
    assert(b1[pi] == hit(pc, attack_of(ec)));
    assert(b1[ei] == hit(ec, attack_of(pc)));
    assert(forall|i: int| 0 <= i < b1.len() && i != pi && i != ei ==> b1[i] == b[i]);
    assert forall|i: int, j: int| 0 <= i < j < b1.len() implies #[trigger] b1[i].slot != #[trigger] b1[j].slot by {
        assert(b1[i].slot == b[i].slot);
        assert(b1[j].slot == b[j].slot);
    }
    let hi = if pi < ei { ei } else { pi };
    let lo = if pi < ei { pi } else { ei };
    // every card but the fallen ones is sound
    assert(!falls(b1[pi]) ==> card_ok(b1[pi]));
    assert(!falls(b1[ei]) ==> card_ok(b1[ei]));
    let b2 = if falls(b1[hi]) { b1.remove(hi) } else { b1 };
    if falls(b1[hi]) {
        assert forall|i: int| 0 <= i < b1.len() && i != hi && !(i == lo && falls(b1[lo])) implies #[trigger] card_ok(b1[i]) by {
            if i != pi && i != ei {
                assert(b1[i] == b[i]);
            }
        }
        if falls(b1[lo]) {
            assert forall|i: int| 0 <= i < b1.len() && i != hi implies #[trigger] card_ok(b1[i]) || i == lo by {
                if i != pi && i != ei {
                    assert(b1[i] == b[i]);
                }
            }
            // remove the higher one with lo still not sound: go through a sound stand-in
            let fixed = b1.update(lo, b[lo]);
            assert(fixed.remove(hi).update(lo, b1[lo]) =~= b2);
            assert forall|i: int| 0 <= i < fixed.len() && i != hi implies #[trigger] card_ok(fixed[i]) by {
                if i != lo {
                    assert(fixed[i] == b1[i]);
                    if i != pi && i != ei {
                        assert(b1[i] == b[i]);
                    }
                }
            }
            lemma_count_update(b1, lo, b[lo], false);
            lemma_count_update(b1, lo, b[lo], true);
            assert forall|i: int, j: int| 0 <= i < j < fixed.len() implies #[trigger] fixed[i].slot != #[trigger] fixed[j].slot by {
                assert(fixed[i].slot == b1[i].slot);
                assert(fixed[j].slot == b1[j].slot);
            }
            lemma_remove_ok(fixed, hi);
            let fr = fixed.remove(hi);
            assert(fr[lo] == b[lo]);
            lemma_count_update(fr, lo, b1[lo], false);
            lemma_count_update(fr, lo, b1[lo], true);
            assert(b2.remove(lo) =~= fr.remove(lo));
            lemma_remove_ok(fr, lo);
        } else {
            lemma_remove_ok(b1, hi);
        }
    } else {
        if falls(b1[lo]) {
            assert forall|i: int| 0 <= i < b1.len() && i != lo implies #[trigger] card_ok(b1[i]) by {
                if i != pi && i != ei {
                    assert(b1[i] == b[i]);
                }
            }
            lemma_remove_ok(b1, lo);
        } else {
            assert forall|i: int| 0 <= i < b1.len() implies #[trigger] card_ok(b1[i]) by {
                if i != pi && i != ei {
                    assert(b1[i] == b[i]);
                }
            }
        }
    }
}

/// After a battle the board is sound, has no enemy cards, and keeps the player's cards.
proof fn lemma_after_battle(b: Seq<BoardCard>)
    requires
        forall|i: int| 0 <= i < b.len() ==> #[trigger] card_ok(b[i]),
        slots_distinct(b),
    ensures
        forall|i: int| 0 <= i < after_battle(b).len() ==> #[trigger] card_ok(after_battle(b)[i])
            && !enemy_slot(after_battle(b)[i].slot) && after_battle(b)[i].stats is None,
        forall|i: int| 0 <= i < after_battle(b).len() ==> exists|k: int| 0 <= k < b.len()
            && #[trigger] b[k].slot == (#[trigger] after_battle(b)[i]).slot,
        slots_distinct(after_battle(b)),
        side_count(after_battle(b), true) == 0,
        side_count(after_battle(b), false) == side_count(b, false),
    decreases b.len(),
{
    if b.len() > 0 {
        let r = b.drop_last();
        assert forall|i: int| 0 <= i < r.len() implies #[trigger] card_ok(r[i]) by {
            assert(r[i] == b[i]);
        }
        assert forall|i: int, j: int| 0 <= i < j < r.len() implies #[trigger] r[i].slot != #[trigger] r[j].slot by {
            assert(r[i] == b[i]);
            assert(r[j] == b[j]);
        }
        lemma_after_battle(r);
        let a = after_battle(r);
        let c = b.last();
        assert(card_ok(b[b.len() - 1]));
        if !enemy_slot(c.slot) {
            let n = BoardCard { id: c.id, slot: c.slot, minion: c.minion, stats: None };
            let a2 = a.push(n);
            assert(a2.drop_last() =~= a);
            assert forall|i: int| 0 <= i < a2.len() implies exists|k: int| 0 <= k < b.len()
                && #[trigger] b[k].slot == (#[trigger] a2[i]).slot by {
                if i < a.len() {
                    let k = choose|k: int| 0 <= k < r.len() && #[trigger] r[k].slot == (#[trigger] a[i]).slot;
                    assert(b[k] == r[k]);
                    assert(a2[i] == a[i]);
                } else {
                    assert(b[b.len() - 1].slot == a2[i].slot);
                }
            }
            assert forall|i: int, j: int| 0 <= i < j < a2.len() implies #[trigger] a2[i].slot != #[trigger] a2[j].slot by {
                if j == a.len() {
                    assert(a2[i] == a[i]);
                    let k = choose|k: int| 0 <= k < r.len() && #[trigger] r[k].slot == (#[trigger] a[i]).slot;
                    assert(b[k] == r[k]);
                    assert(b[b.len() - 1].slot != b[k].slot);
                } else {
                    assert(a2[i] == a[i]);
                    assert(a2[j] == a[j]);
                }
            }
            assert forall|i: int| 0 <= i < a2.len() implies #[trigger] card_ok(a2[i])
                && !enemy_slot(a2[i].slot) && a2[i].stats is None by {
                if i < a.len() {
                    assert(a2[i] == a[i]);
                }
            }
        } else {
            assert forall|i: int| 0 <= i < a.len() implies exists|k: int| 0 <= k < b.len()
                && #[trigger] b[k].slot == (#[trigger] a[i]).slot by {
                let k = choose|k: int| 0 <= k < r.len() && #[trigger] r[k].slot == (#[trigger] a[i]).slot;
                assert(b[k] == r[k]);
            }
        }
    }
}

/// An exchange keeps the ids in order and below a bound.
proof fn lemma_exchange_ids(b: Seq<BoardCard>, pi: int, ei: int, n: int)
    requires
        0 <= pi < b.len(),
        0 <= ei < b.len(),
        pi != ei,
        ids_increasing(b),
        ids_below(b, n),
    ensures
        ids_increasing(exchanged(b, pi, ei)),
        ids_below(exchanged(b, pi, ei), n),
{
    let c0 = hit(b[pi], attack_of(b[ei]));
    let b0 = b.update(pi, c0);
    lemma_ids_update(b, pi, c0, n);
    assert(b0[ei] == b[ei]);
    let c1 = hit(b[ei], attack_of(b[pi]));
    let b1 = b0.update(ei, c1);
    lemma_ids_update(b0, ei, c1, n);
    let hi = if pi < ei { ei } else { pi };
    let lo = if pi < ei { pi } else { ei };
    let b2 = if falls(b1[hi]) { b1.remove(hi) } else { b1 };
    if falls(b1[hi]) {
        lemma_ids_remove(b1, hi, n);
    }
    if falls(b1[lo]) {
        lemma_ids_remove(b2, lo, n);
    }
}

/// After a battle the ids stay in order and below a bound.
proof fn lemma_after_battle_ids(b: Seq<BoardCard>, n: int)
    requires
        ids_increasing(b),
        ids_below(b, n),
    ensures
        ids_increasing(after_battle(b)),
        ids_below(after_battle(b), n),
    decreases b.len(),
{
    if b.len() > 0 {
        let r = b.drop_last();
        let last = b.last();
        assert forall|x: int, y: int| 0 <= x < y < r.len() implies #[trigger] r[x].id < #[trigger] r[y].id by {
            assert(r[x] == b[x]);
            assert(r[y] == b[y]);
        }
        assert forall|x: int| 0 <= x < r.len() implies #[trigger] r[x].id < last.id by {
            assert(r[x] == b[x]);
            assert(b[x].id < b[b.len() - 1].id);
        }
        assert forall|x: int| 0 <= x < r.len() implies #[trigger] r[x].id < n by {
            assert(r[x] == b[x]);
        }
        lemma_after_battle_ids(r, last.id as int);
        lemma_after_battle_ids(r, n);
        let a = after_battle(r);
        assert(b[b.len() - 1].id < n);
        if !enemy_slot(last.slot) {
            let a2 = a.push(BoardCard { id: last.id, slot: last.slot, minion: last.minion, stats: None });
            assert forall|x: int, y: int| 0 <= x < y < a2.len() implies #[trigger] a2[x].id < #[trigger] a2[y].id by {
                assert(a2[x] == a[x]);
                if y < a.len() {
                    assert(a2[y] == a[y]);
                }
            }
            assert forall|x: int| 0 <= x < a2.len() implies #[trigger] a2[x].id < n by {
                if x < a.len() {
                    assert(a2[x] == a[x]);
                }
            }
        }
    }
}

/// The health that the fighters of a side have left, all together.
pub open spec fn fighting_health(b: Seq<BoardCard>, enemy: bool) -> int
    decreases b.len(),
{
    if b.len() == 0 {
        0
    } else {
        fighting_health(b.drop_last(), enemy) + if is_fighter(b.last(), enemy) {
            b.last().stats->Some_0.health as int
        } else {
            0
        }
    }
}

/// What one card adds to its side's fighting health.
pub open spec fn share(c: BoardCard, enemy: bool) -> int {
    if is_fighter(c, enemy) { c.stats->Some_0.health as int } else { 0 }
}

/// The smaller of two numbers.
pub open spec fn least(a: int, b: int) -> int {
    if a < b { a } else { b }
}

proof fn lemma_health_update(b: Seq<BoardCard>, i: int, c: BoardCard, enemy: bool)
    requires
        0 <= i < b.len(),
    ensures
        fighting_health(b.update(i, c), enemy) == fighting_health(b, enemy) - share(b[i], enemy) + share(c, enemy),
    decreases b.len(),
{
    if i < b.len() - 1 {
        lemma_health_update(b.drop_last(), i, c, enemy);
        assert(b.update(i, c).drop_last() =~= b.drop_last().update(i, c));
    } else {
        assert(b.update(i, c).drop_last() =~= b.drop_last());
    }
}

proof fn lemma_health_remove(b: Seq<BoardCard>, i: int, enemy: bool)
    requires
        0 <= i < b.len(),
    ensures
        fighting_health(b.remove(i), enemy) == fighting_health(b, enemy) - share(b[i], enemy),
    decreases b.len(),
{
    if i < b.len() - 1 {
        lemma_health_remove(b.drop_last(), i, enemy);
        assert(b.remove(i).drop_last() =~= b.drop_last().remove(i));
        assert(b.remove(i).last() == b.last());
    } else {
        assert(b.remove(i) =~= b.drop_last());
    }
}

/// Each exchange costs each side exactly what its front fighter loses: the other front
/// fighter's attack, or all its health where that is less. So, unless both front fighters have
/// no attack, the fighters' health left drops with every exchange.
pub proof fn lemma_exchange_progress(b: Seq<BoardCard>, pi: int, ei: int)
    requires
        board_ok(b),
        is_first_fighter(b, false, pi),
        is_first_fighter(b, true, ei),
    ensures
        fighting_health(exchanged(b, pi, ei), false) == fighting_health(b, false)
            - least(b[pi].stats->Some_0.health as int, attack_of(b[ei])),
        fighting_health(exchanged(b, pi, ei), true) == fighting_health(b, true)
            - least(b[ei].stats->Some_0.health as int, attack_of(b[pi])),
        attack_of(b[pi]) > 0 || attack_of(b[ei]) > 0 ==>
            fighting_health(exchanged(b, pi, ei), false) + fighting_health(exchanged(b, pi, ei), true)
            < fighting_health(b, false) + fighting_health(b, true),
{
    let pc = b[pi];
    let ec = b[ei];
    assert(card_ok(pc) && card_ok(ec));
    let b0 = b.update(pi, hit(pc, attack_of(ec)));
    let b1 = b0.update(ei, hit(ec, attack_of(pc)));
    lemma_health_update(b, pi, hit(pc, attack_of(ec)), false);
    lemma_health_update(b, pi, hit(pc, attack_of(ec)), true);
    lemma_health_update(b0, ei, hit(ec, attack_of(pc)), false);
    lemma_health_update(b0, ei, hit(ec, attack_of(pc)), true);
    assert(b0[ei] == ec);
    assert(b1[pi] == hit(pc, attack_of(ec)));
    assert(b1[ei] == hit(ec, attack_of(pc)));
    let hi = if pi < ei { ei } else { pi };
    let lo = if pi < ei { pi } else { ei };
    let b2 = if falls(b1[hi]) { b1.remove(hi) } else { b1 };
    if falls(b1[hi]) {
        lemma_health_remove(b1, hi, false);
        lemma_health_remove(b1, hi, true);
    }
    assert(b2[lo] == b1[lo]);
    if falls(b1[lo]) {
        lemma_health_remove(b2, lo, false);
        lemma_health_remove(b2, lo, true);
    }
}

/// The board after a battle; see `after_battle`.
fn clear_battle(b: &Vec<BoardCard>) -> (cleared: Vec<BoardCard>)
    ensures
        cleared@ == after_battle(b@),
{
    let mut cleared: Vec<BoardCard> = Vec::new();
    let mut k: usize = 0;
    while k < b.len()
        invariant
            k <= b@.len(),
            cleared@ == after_battle(b@.take(k as int)),
        decreases b@.len() - k,
    {
        assert(b@.take(k + 1).drop_last() =~= b@.take(k as int));
        if b[k].slot < crate::board::ENEMY_SLOT_BASE {
            cleared.push(BoardCard { id: b[k].id, slot: b[k].slot, minion: b[k].minion.copy(), stats: None });
        }
        k = k + 1;
    }
    assert(b@.take(k as int) =~= b@);
    cleared
}

/// The card at `i` takes `dmg` damage.
fn strike(b: &mut Vec<BoardCard>, i: usize, dmg: i32)
    requires
        i < old(b)@.len(),
        old(b)@[i as int].stats is Some,
        0 < old(b)@[i as int].stats->Some_0.health <= 100,
        0 <= dmg <= 100,
    ensures
        final(b)@ == old(b)@.update(i as int, hit(old(b)@[i as int], dmg as int)),
{
    let mut c = b.remove(i);
    let s = c.stats.unwrap();
    c.stats = Some(CombatStats { attack: s.attack, health: s.health - dmg });
    b.insert(i, c);
    assert(final(b)@ =~= old(b)@.update(i as int, hit(old(b)@[i as int], dmg as int)));
}

/// The damage the losing hero takes: the winner's tier and one for each surviving fighter.
pub open spec fn defeat_damage(tier: int, survivors: int) -> int {
    tier + survivors
}

/// The front fighter of a side is the fighter of that side that entered the board first: every
/// other fighter of the side has a larger id.
pub proof fn lemma_front_fighter_entered_first(b: Seq<BoardCard>, enemy: bool, i: int, k: int)
    requires
        ids_increasing(b),
        is_first_fighter(b, enemy, i),
        0 <= k < b.len(),
        is_fighter(b[k], enemy),
        k != i,
    ensures
        b[i].id < b[k].id,
{
    if k < i {
        assert(!is_fighter(b[k], enemy));
    }
}

/// The losing hero takes the winner's tier where none of the winner's fighters survives, and one
/// more for every surviving fighter, however many survive.
pub proof fn lemma_defeat_damage_counts_survivors(tier: int, survivors: int)
    requires
        0 <= survivors,
    ensures
        defeat_damage(tier, 0) == tier,
        defeat_damage(tier, survivors + 1) == defeat_damage(tier, survivors) + 1,
        defeat_damage(tier, survivors) - defeat_damage(tier, 0) == survivors,
{
}

impl Game {
    /// One tick of the battle. Outside a battle nothing changes. While both sides have a
    /// fighter, the first fighter of each side (in board order) strikes the other, and those
    /// with no health left fall. Once a side has none, the battle ends: the losing hero takes
    /// `defeat_damage` (the player loses where neither side has a fighter), the enemy cards
    /// leave the board, the player's cards lose their combat stats, and the game is over where
    /// a hero has no health left; otherwise the player's gold is refilled and shopping resumes.
    pub fn battle_tick(&mut self) -> (report: BattleReport)
        requires
            old(self).wf(),
        ensures
            final(self).wf(),
            final(self).data == old(self).data,
            final(self).frozen == old(self).frozen,
            final(self).shop@ == old(self).shop@,
            final(self).next_id == old(self).next_id,
            old(self).phase != Phase::Battle ==> report == BattleReport::Idle
                && final(self).player == old(self).player && final(self).enemy == old(self).enemy
                && final(self).phase == old(self).phase && final(self).board@ == old(self).board@,
            old(self).phase == Phase::Battle && has_fighter(old(self).board@, false)
                && has_fighter(old(self).board@, true) ==> {
                let b = old(self).board@;
                let pi = choose|i: int| is_first_fighter(b, false, i);
                let ei = choose|i: int| is_first_fighter(b, true, i);
                let b1 = b.update(pi, hit(b[pi], attack_of(b[ei]))).update(ei, hit(b[ei], attack_of(b[pi])));
                &&& final(self).board@ == exchanged(b, pi, ei)
                &&& final(self).player == old(self).player
                &&& final(self).enemy == old(self).enemy
                &&& final(self).phase == Phase::Battle
                &&& report == BattleReport::Exchange {
                    player_slot: b[pi].slot,
                    foe_slot: b[ei].slot,
                    damage_to_player_card: attack_of(b[ei]) as i32,
                    damage_to_foe: attack_of(b[pi]) as i32,
                    player_card_falls: falls(b1[pi]),
                    foe_falls: falls(b1[ei]),
                }
            },
            old(self).phase == Phase::Battle && !(has_fighter(old(self).board@, false)
                && has_fighter(old(self).board@, true)) ==> {
                let b = old(self).board@;
                let won = has_fighter(b, false);
                let damage = if won {
                    defeat_damage(old(self).player.tier as int, fighter_count(b, false) as int)
                } else {
                    defeat_damage(old(self).enemy.tier as int, fighter_count(b, true) as int)
                };
                let ph = if won { old(self).player.health as int } else { old(self).player.health - damage };
                let eh = if won { old(self).enemy.health - damage } else { old(self).enemy.health as int };
                let over = ph <= 0 || eh <= 0;
                &&& report == BattleReport::Finished { won, damage: damage as i32 }
                &&& final(self).player.health == ph
                &&& final(self).enemy.health == eh
                &&& final(self).player.tier == old(self).player.tier
                &&& final(self).enemy.tier == old(self).enemy.tier
                &&& final(self).player.gold == if over { old(self).player.gold } else { MAX_GOLD }
                &&& final(self).phase == if over { Phase::GameOver } else { Phase::Shop }
                &&& final(self).board@ == after_battle(b)
            },
    {
        if self.phase != Phase::Battle {
            return BattleReport::Idle;
        }
        let ghost b = self.board@;
        let first_ally = first_fighter(&self.board, false);
        let first_foe = first_fighter(&self.board, true);
        proof {
            lemma_fighters_within_side(b, false);
            lemma_fighters_within_side(b, true);
        }
        if first_ally.is_none() || first_foe.is_none() {
            let won = first_ally.is_some();
            let damage: i32;
            if won {
                let survivors = count_fighters(&self.board, false);
                damage = self.player.tier + survivors as i32;
                self.enemy.health = self.enemy.health - damage;
            } else {
                let survivors = count_fighters(&self.board, true);
                damage = self.enemy.tier + survivors as i32;
                self.player.health = self.player.health - damage;
            }
            let cleared = clear_battle(&self.board);
            proof {
                lemma_after_battle(b);
                lemma_after_battle_ids(b, self.next_id as int);
                crate::board::lemma_sides_sum(b);
            }
            self.board = cleared;
            if self.player.health <= 0 || self.enemy.health <= 0 {
                self.phase = Phase::GameOver;
            } else {
                self.player.gold = MAX_GOLD;
                self.phase = Phase::Shop;
            }
            return BattleReport::Finished { won, damage };
        }
        let pi = first_ally.unwrap();
        let ei = first_foe.unwrap();
        assert(card_ok(b[pi as int]));
        assert(card_ok(b[ei as int]));
        let ally_slot = self.board[pi].slot;
        let foe_slot = self.board[ei].slot;
        let ally = self.board[pi].stats.unwrap();
        let foe = self.board[ei].stats.unwrap();
        strike(&mut self.board, pi, foe.attack);
        strike(&mut self.board, ei, ally.attack);
        let ghost b1 = self.board@;
        assert(b1 == b.update(pi as int, hit(b[pi as int], attack_of(b[ei as int]))).update(ei as int,
            hit(b[ei as int], attack_of(b[pi as int]))));
        let ally_falls = self.board[pi].stats.unwrap().health <= 0;
        let foe_falls = self.board[ei].stats.unwrap().health <= 0;
        let (hi, lo, hi_falls, lo_falls) = if pi < ei {
            (ei, pi, foe_falls, ally_falls)
        } else {
            (pi, ei, ally_falls, foe_falls)
        };
        if hi_falls {
            self.board.remove(hi);
        }
        if lo_falls {
            self.board.remove(lo);
        }
        proof {
            lemma_exchange_ok(b, pi as int, ei as int);
            lemma_exchange_ids(b, pi as int, ei as int, self.next_id as int);
        }
        BattleReport::Exchange {
            player_slot: ally_slot,
            foe_slot,
            damage_to_player_card: foe.attack,
            damage_to_foe: ally.attack,
            player_card_falls: ally_falls,
            foe_falls,
        }
    }
}

} // verus!
