//! Cards in the shop and on the board, and counting over the board.

use vstd::prelude::*;
use crate::minion::{Minion, MAX_BOARD, STAT_CAP};

verus! {

/// Board slots from this one on belong to the enemy side.
pub const ENEMY_SLOT_BASE: usize = 100;

/// The attack and health a card fights with.
#[derive(Clone, Copy, Debug, PartialEq, Eq, Structural)]
pub struct CombatStats {
    pub attack: i32,
    pub health: i32,
}

/// A minion offered in the shop, in its shop slot.
#[derive(Clone, Debug)]
pub struct ShopCard {
    pub slot: usize,
    pub minion: Minion,
}

/// A minion on the board, in its board slot; `id` tells it apart from every card that ever
/// entered the board, and `stats` is what it fights with, where it still can fight.
#[derive(Clone, Debug)]
pub struct BoardCard {
    pub id: u64,
    pub slot: usize,
    pub minion: Minion,
    pub stats: Option<CombatStats>,
}

/// Whether a board slot belongs to the enemy side.
pub open spec fn enemy_slot(slot: usize) -> bool {
    slot >= ENEMY_SLOT_BASE
}

/// A card on the given side of the board.
pub open spec fn on_side(c: BoardCard, enemy: bool) -> bool {
    enemy_slot(c.slot) == enemy
}

/// A card that takes part in the next exchange of a battle on the given side: it has
/// combat stats and health left.
pub open spec fn is_fighter(c: BoardCard, enemy: bool) -> bool {
    &&& on_side(c, enemy)
    &&& c.stats is Some
    &&& c.stats->Some_0.health > 0
}

/// How many cards of the given side are on the board.
pub open spec fn side_count(b: Seq<BoardCard>, enemy: bool) -> nat
    decreases b.len(),
{
    if b.len() == 0 {
        0
    } else {
        side_count(b.drop_last(), enemy) + if on_side(b.last(), enemy) { 1nat } else { 0nat }
    }
}

/// How many fighters of the given side are on the board.
pub open spec fn fighter_count(b: Seq<BoardCard>, enemy: bool) -> nat
    decreases b.len(),
{
    if b.len() == 0 {
        0
    } else {
        fighter_count(b.drop_last(), enemy) + if is_fighter(b.last(), enemy) { 1nat } else { 0nat }
    }
}

/// `i` is the first fighter of the side, in board order.
pub open spec fn is_first_fighter(b: Seq<BoardCard>, enemy: bool, i: int) -> bool {
    &&& 0 <= i < b.len()
    &&& is_fighter(b[i], enemy)
    &&& forall|k: int| 0 <= k < i ==> !is_fighter(#[trigger] b[k], enemy)
}

/// The side has a fighter.
pub open spec fn has_fighter(b: Seq<BoardCard>, enemy: bool) -> bool {
    exists|i: int| 0 <= i < b.len() && is_fighter(#[trigger] b[i], enemy)
}

/// The card a minion becomes when it enters the board as card `id` in `slot`: it fights with
/// its own attack and health.
pub open spec fn entering(id: u64, slot: usize, m: Minion) -> BoardCard {
    BoardCard { id, slot, minion: m, stats: Some(CombatStats { attack: m.attack, health: m.health }) }
}

/// The cards stand in the order they entered: their ids increase along the board.
pub open spec fn ids_increasing(b: Seq<BoardCard>) -> bool {
    forall|i: int, j: int| 0 <= i < j < b.len() ==> #[trigger] b[i].id < #[trigger] b[j].id
}

/// Every card's id is below `n`.
pub open spec fn ids_below(b: Seq<BoardCard>, n: int) -> bool {
    forall|i: int| 0 <= i < b.len() ==> #[trigger] b[i].id < n
}

/// The card at `k` is the one with `id`.
pub open spec fn has_id(b: Seq<BoardCard>, id: u64, k: int) -> bool {
    0 <= k < b.len() && b[k].id == id
}

/// Combat stats a card can have: an attack within the cap, and health left within the cap.
pub open spec fn stats_ok(s: CombatStats) -> bool {
    0 <= s.attack <= STAT_CAP && 0 < s.health <= STAT_CAP
}

/// One side of the board never holds more than a full board.
pub open spec fn sides_fit(b: Seq<BoardCard>) -> bool {
    side_count(b, false) <= MAX_BOARD && side_count(b, true) <= MAX_BOARD
}

/// No two cards share a slot.
pub open spec fn slots_distinct(b: Seq<BoardCard>) -> bool {
    forall|i: int, j: int| 0 <= i < j < b.len() ==> #[trigger] b[i].slot != #[trigger] b[j].slot
}

/// Some card takes `slot`.
pub open spec fn slot_taken(b: Seq<BoardCard>, slot: int) -> bool {
    exists|k: int| 0 <= k < b.len() && #[trigger] b[k].slot == slot
}

/// The first player slot that no card takes, searching from `from`.
pub open spec fn free_slot_from(b: Seq<BoardCard>, from: int) -> Option<int>
    decreases MAX_BOARD - from,
{
    if from >= MAX_BOARD || from < 0 {
        None
    } else if !slot_taken(b, from) {
        Some(from)
    } else {
        free_slot_from(b, from + 1)
    }
}

/// The first player slot that no card takes.
pub open spec fn free_slot(b: Seq<BoardCard>) -> Option<int> {
    free_slot_from(b, 0)
}

/// Counting a side after appending one card.
pub proof fn lemma_count_push(b: Seq<BoardCard>, c: BoardCard, enemy: bool)
    ensures
        side_count(b.push(c), enemy) == side_count(b, enemy) + if on_side(c, enemy) { 1nat } else { 0nat },
        fighter_count(b.push(c), enemy) == fighter_count(b, enemy) + if is_fighter(c, enemy) { 1nat } else { 0nat },
{
    assert(b.push(c).drop_last() =~= b);
}

/// Counting a side after removing the card at `i`.
pub proof fn lemma_count_remove(b: Seq<BoardCard>, i: int, enemy: bool)
    requires
        0 <= i < b.len(),
    ensures
        side_count(b.remove(i), enemy) + (if on_side(b[i], enemy) { 1nat } else { 0nat }) == side_count(b, enemy),
        fighter_count(b.remove(i), enemy) + (if is_fighter(b[i], enemy) { 1nat } else { 0nat }) == fighter_count(b, enemy),
    decreases b.len(),
{
    if i < b.len() - 1 {
        lemma_count_remove(b.drop_last(), i, enemy);
        assert(b.remove(i).drop_last() =~= b.drop_last().remove(i));
        assert(b.remove(i).last() == b.last());
    } else {
        assert(b.remove(i) =~= b.drop_last());
    }
}

/// Counting a side after replacing the card at `i` by one on the same side.
pub proof fn lemma_count_update(b: Seq<BoardCard>, i: int, c: BoardCard, enemy: bool)
    requires
        0 <= i < b.len(),
        c.slot == b[i].slot,
    ensures
        side_count(b.update(i, c), enemy) == side_count(b, enemy),
        fighter_count(b.update(i, c), enemy) + (if is_fighter(b[i], enemy) { 1nat } else { 0nat })
            == fighter_count(b, enemy) + (if is_fighter(c, enemy) { 1nat } else { 0nat }),
    decreases b.len(),
{
    if i < b.len() - 1 {
        lemma_count_update(b.drop_last(), i, c, enemy);
        assert(b.update(i, c).drop_last() =~= b.drop_last().update(i, c));
    } else {
        assert(b.update(i, c).drop_last() =~= b.drop_last());
    }
}

/// There are never more fighters on a side than cards on it, and a side with a fighter has
/// at least one.
pub proof fn lemma_fighters_within_side(b: Seq<BoardCard>, enemy: bool)
    ensures
        fighter_count(b, enemy) <= side_count(b, enemy),
        fighter_count(b, enemy) > 0 <==> has_fighter(b, enemy),
    decreases b.len(),
{
    if b.len() > 0 {
        let r = b.drop_last();
        lemma_fighters_within_side(r, enemy);
        if has_fighter(r, enemy) {
            let i = choose|i: int| 0 <= i < r.len() && is_fighter(#[trigger] r[i], enemy);
            assert(b[i] == r[i]);
        }
        if has_fighter(b, enemy) && !is_fighter(b.last(), enemy) {
            let i = choose|i: int| 0 <= i < b.len() && is_fighter(#[trigger] b[i], enemy);
            assert(r[i] == b[i]);
        }
        if is_fighter(b.last(), enemy) {
            assert(is_fighter(b[b.len() - 1], enemy));
        }
    }
}

/// A side with no card on it has no count.
pub proof fn lemma_empty_side(b: Seq<BoardCard>, enemy: bool)
    requires
        forall|i: int| 0 <= i < b.len() ==> !on_side(#[trigger] b[i], enemy),
    ensures
        side_count(b, enemy) == 0,
    decreases b.len(),
{
    if b.len() > 0 {
        let r = b.drop_last();
        assert forall|i: int| 0 <= i < r.len() implies !on_side(#[trigger] r[i], enemy) by {
            assert(r[i] == b[i]);
        }
        lemma_empty_side(r, enemy);
        assert(!on_side(b[b.len() - 1], enemy));
    }
}


/// Replacing a card by one with the same id keeps the ids in order and below a bound.
pub proof fn lemma_ids_update(b: Seq<BoardCard>, i: int, c: BoardCard, n: int)
    requires
        0 <= i < b.len(),
        c.id == b[i].id,
        ids_increasing(b),
        ids_below(b, n),
    ensures
        ids_increasing(b.update(i, c)),
        ids_below(b.update(i, c), n),
{
    assert forall|x: int, y: int| 0 <= x < y < b.len() implies
        #[trigger] b.update(i, c)[x].id < #[trigger] b.update(i, c)[y].id by {
        assert(b.update(i, c)[x].id == b[x].id);
        assert(b.update(i, c)[y].id == b[y].id);
    }
    assert forall|x: int| 0 <= x < b.len() implies #[trigger] b.update(i, c)[x].id < n by {
        assert(b.update(i, c)[x].id == b[x].id);
    }
}

/// Removing a card keeps the ids in order and below a bound.
pub proof fn lemma_ids_remove(b: Seq<BoardCard>, i: int, n: int)
    requires
        0 <= i < b.len(),
        ids_increasing(b),
        ids_below(b, n),
    ensures
        ids_increasing(b.remove(i)),
        ids_below(b.remove(i), n),
{
    let r = b.remove(i);
    assert forall|x: int, y: int| 0 <= x < y < r.len() implies #[trigger] r[x].id < #[trigger] r[y].id by {
        let x0 = if x < i { x } else { x + 1 };
        let y0 = if y < i { y } else { y + 1 };
        assert(r[x] == b[x0]);
        assert(r[y] == b[y0]);
    }
    assert forall|x: int| 0 <= x < r.len() implies #[trigger] r[x].id < n by {
        let x0 = if x < i { x } else { x + 1 };
        assert(r[x] == b[x0]);
    }
}

/// Every card is on one side or the other.
pub proof fn lemma_sides_sum(b: Seq<BoardCard>)
    ensures
        side_count(b, false) + side_count(b, true) == b.len(),
    decreases b.len(),
{
    if b.len() > 0 {
        lemma_sides_sum(b.drop_last());
    }
}

/// Where no free slot is found from `from` on, every slot from `from` up to a full board is taken.
proof fn lemma_no_free_slot_from(b: Seq<BoardCard>, from: int)
    requires
        0 <= from,
        free_slot_from(b, from) is None,
    ensures
        forall|v: int| from <= v < MAX_BOARD ==> slot_taken(b, v),
    decreases MAX_BOARD - from,
{
    if from < MAX_BOARD {
        lemma_no_free_slot_from(b, from + 1);
    }
}

/// The free slot is the lowest player slot that no card takes: it is in range, not taken, and
/// every slot below it is taken; where there is none, every player slot is taken.
pub proof fn lemma_free_slot(b: Seq<BoardCard>)
    ensures
        free_slot(b) matches Some(s) ==> 0 <= s < MAX_BOARD && !slot_taken(b, s)
            && forall|v: int| 0 <= v < s ==> slot_taken(b, v),
        free_slot(b) is None ==> forall|v: int| 0 <= v < MAX_BOARD ==> slot_taken(b, v),
{
    lemma_free_slot_from(b, 0);
    if free_slot(b) is None {
        lemma_no_free_slot_from(b, 0);
    }
}

proof fn lemma_free_slot_from(b: Seq<BoardCard>, from: int)
    ensures
        free_slot_from(b, from) matches Some(s) ==> from <= s < MAX_BOARD && !slot_taken(b, s)
            && forall|v: int| from <= v < s ==> slot_taken(b, v),
    decreases MAX_BOARD - from,
{
    if 0 <= from < MAX_BOARD && slot_taken(b, from) {
        lemma_free_slot_from(b, from + 1);
    }
}

/// Fewer cards than a full board always leave a player slot free.
pub proof fn lemma_free_slot_exists(b: Seq<BoardCard>)
    requires
        b.len() < MAX_BOARD,
    ensures
        free_slot(b) is Some,
{
    broadcast use vstd::seq_lib::seq_to_set_is_finite;
    if free_slot(b) is None {
        lemma_no_free_slot_from(b, 0);
        let slots = b.map_values(|c: BoardCard| c.slot as int);
        let range = vstd::set_lib::set_int_range(0, MAX_BOARD as int);
        assert forall|v: int| range.contains(v) implies slots.to_set().contains(v) by {
            assert(slot_taken(b, v));
            let k = choose|k: int| 0 <= k < b.len() && #[trigger] b[k].slot == v;
            assert(slots[k] == v);
        }
        vstd::set_lib::lemma_int_range(0, MAX_BOARD as int);
        vstd::set_lib::lemma_len_subset(range, slots.to_set());
        slots.lemma_cardinality_of_set();
        assert(false);
    }
}

impl ShopCard {
    /// A copy of this card, field for field.
    pub fn copy(&self) -> (c: ShopCard)
        ensures
            c == *self,
    {
        ShopCard { slot: self.slot, minion: self.minion.copy() }
    }
}

impl BoardCard {
    /// A copy of this card, field for field.
    pub fn copy(&self) -> (c: BoardCard)
        ensures
            c == *self,
    {
        BoardCard { id: self.id, slot: self.slot, minion: self.minion.copy(), stats: self.stats }
    }

    /// The card `m` becomes when it enters the board as card `id` in `slot`.
    pub fn entering(id: u64, slot: usize, m: Minion) -> (c: BoardCard)
        ensures
            c == entering(id, slot, m),
    {
        let stats = CombatStats { attack: m.attack, health: m.health };
        BoardCard { id, slot, minion: m, stats: Some(stats) }
    }
}

/// The card with `id`, where one is on the board.
pub fn find_card(b: &Vec<BoardCard>, id: u64) -> (k: Option<usize>)
    ensures
        match k {
            Some(k) => has_id(b@, id, k as int),
            None => forall|i: int| 0 <= i < b@.len() ==> (#[trigger] b@[i]).id != id,
        },
{
    let mut k: usize = 0;
    while k < b.len()
        invariant
            k <= b@.len(),
            forall|i: int| 0 <= i < k ==> (#[trigger] b@[i]).id != id,
        decreases b@.len() - k,
    {
        if b[k].id == id {
            return Some(k);
        }
        k = k + 1;
    }
    None
}

/// Whether some card takes `slot`.
pub fn is_slot_taken(b: &Vec<BoardCard>, slot: usize) -> (taken: bool)
    ensures
        taken == slot_taken(b@, slot as int),
{
    let mut k: usize = 0;
    while k < b.len()
        invariant
            k <= b@.len(),
            forall|j: int| 0 <= j < k ==> #[trigger] b@[j].slot != slot,
        decreases b@.len() - k,
    {
        if b[k].slot == slot {
            return true;
        }
        k = k + 1;
    }
    false
}

/// The first player slot that no card takes; see `free_slot`.
pub fn find_free_slot(b: &Vec<BoardCard>) -> (slot: Option<usize>)
    ensures
        match slot {
            Some(s) => free_slot(b@) == Some(s as int),
            None => free_slot(b@) is None,
        },
{
    let mut i: usize = 0;
    while i < MAX_BOARD
        invariant
            i <= MAX_BOARD,
            free_slot(b@) == free_slot_from(b@, i as int),
        decreases MAX_BOARD - i,
    {
        if !is_slot_taken(b, i) {
            return Some(i);
        }
        i = i + 1;
    }
    None
}

/// How many cards of the given side are on the board.
pub fn count_side(b: &Vec<BoardCard>, enemy: bool) -> (n: usize)
    ensures
        n == side_count(b@, enemy),
{
    let mut n: usize = 0;
    let mut k: usize = 0;
    while k < b.len()
        invariant
            k <= b@.len(),
            n == side_count(b@.take(k as int), enemy),
            n <= k,
        decreases b@.len() - k,
    {
        assert(b@.take(k + 1).drop_last() =~= b@.take(k as int));
        if (b[k].slot >= ENEMY_SLOT_BASE) == enemy {
            n = n + 1;
        }
        k = k + 1;
    }
    assert(b@.take(k as int) =~= b@);
    n
}

/// How many fighters of the given side are on the board.
pub fn count_fighters(b: &Vec<BoardCard>, enemy: bool) -> (n: usize)
    ensures
        n == fighter_count(b@, enemy),
{
    let mut n: usize = 0;
    let mut k: usize = 0;
    while k < b.len()
        invariant
            k <= b@.len(),
            n == fighter_count(b@.take(k as int), enemy),
            n <= k,
        decreases b@.len() - k,
    {
        assert(b@.take(k + 1).drop_last() =~= b@.take(k as int));
        if fights(&b[k], enemy) {
            n = n + 1;
        }
        k = k + 1;
    }
    assert(b@.take(k as int) =~= b@);
    n
}

/// Whether the card is a fighter of the given side.
pub fn fights(c: &BoardCard, enemy: bool) -> (f: bool)
    ensures
        f == is_fighter(*c, enemy),
{
    if (c.slot >= ENEMY_SLOT_BASE) != enemy {
        return false;
    }
    match c.stats {
        Some(s) => s.health > 0,
        None => false,
    }
}

/// The first fighter of the given side, in board order.
pub fn first_fighter(b: &Vec<BoardCard>, enemy: bool) -> (i: Option<usize>)
    ensures
        match i {
            Some(i) => is_first_fighter(b@, enemy, i as int),
            None => !has_fighter(b@, enemy),
        },
{
    let mut k: usize = 0;
    while k < b.len()
        invariant
            k <= b@.len(),
            forall|j: int| 0 <= j < k ==> !is_fighter(#[trigger] b@[j], enemy),
        decreases b@.len() - k,
    {
        if fights(&b[k], enemy) {
            return Some(k);
        }
        k = k + 1;
    }
    None
}

} // verus!
