//! The player's selection of a shop slot and a board card, moved by the keys of a frame, and
//! the orders the keys give.

use vstd::prelude::*;
use crate::board::BoardCard;
use crate::game::{find_on_board, is_first_on_board, shop_has, Game};
use crate::minion::SHOP_SIZE;

verus! {

/// The board slot that the first board key selects; the others follow it.
pub const FIRST_SELLABLE_SLOT: usize = 4;

/// How many board keys there are.
pub const BOARD_KEYS: usize = 3;

/// The keys pressed in a frame.
#[derive(Clone, Copy, Debug)]
pub struct Keys {
    /// The keys that select shop slot 0, 1, 2 and 3.
    pub shop_digits: [bool; 4],
    /// The keys that select the card in board slot 4, 5 and 6.
    pub board_digits: [bool; 3],
    /// Move the shop selection one slot back.
    pub prev: bool,
    /// Move the shop selection one slot on.
    pub next: bool,
    pub buy: bool,
    pub sell: bool,
    pub refresh: bool,
    pub upgrade: bool,
    pub freeze: bool,
    pub end_turn: bool,
}

/// The selected shop slot, and the id of the selected board card.
#[derive(Clone, Copy, Debug, PartialEq, Eq, Structural)]
pub struct Selection {
    pub shop: Option<usize>,
    pub board: Option<u64>,
}

/// What the keys of a frame ask the game to do.
#[derive(Clone, Copy, Debug, PartialEq, Eq, Structural)]
pub struct Orders {
    /// Buy from this shop slot.
    pub buy: Option<usize>,
    /// Sell the card with this id.
    pub sell: Option<u64>,
    pub refresh: bool,
    pub upgrade: bool,
    pub freeze: bool,
    pub end_turn: bool,
}

/// How many shop cards sit in `slot`.
pub open spec fn slot_count(shop: Seq<crate::board::ShopCard>, slot: int) -> nat
    decreases shop.len(),
{
    if shop.len() == 0 {
        0
    } else {
        slot_count(shop.drop_last(), slot) + if shop.last().slot == slot { 1nat } else { 0nat }
    }
}

/// The slots below `v` that the shop's cards sit in, in increasing order, each as often as
/// cards sit in it.
pub open spec fn slots_below(shop: Seq<crate::board::ShopCard>, v: int) -> Seq<usize>
    decreases v,
{
    if v <= 0 {
        Seq::empty()
    } else {
        slots_below(shop, v - 1) + Seq::new(slot_count(shop, v - 1), |_k: int| (v - 1) as usize)
    }
}

/// The shop's slots in increasing order, each as often as cards sit in it.
pub open spec fn sorted_slots(shop: Seq<crate::board::ShopCard>) -> Seq<usize> {
    slots_below(shop, SHOP_SIZE as int)
}

/// The sorted slots of a shop whose cards all sit below `SHOP_SIZE` name every card once and
/// are in increasing order.
pub proof fn lemma_sorted_slots(shop: Seq<crate::board::ShopCard>)
    requires
        forall|i: int| 0 <= i < shop.len() ==> #[trigger] shop[i].slot < SHOP_SIZE,
    ensures
        sorted_slots(shop).len() == shop.len(),
        forall|i: int, j: int| 0 <= i <= j < sorted_slots(shop).len()
            ==> #[trigger] sorted_slots(shop)[i] <= #[trigger] sorted_slots(shop)[j],
        forall|i: int| 0 <= i < sorted_slots(shop).len() ==> shop_has(shop, #[trigger] sorted_slots(shop)[i]),
{
    lemma_slots_below(shop, SHOP_SIZE as int);
    lemma_counts_cover(shop);
}

/// After a frame's keys, a shop with cards always has a selection and an empty shop has none;
/// a selection made by stepping back or on always names a slot that holds a card.
pub proof fn lemma_selection_present(shop: Seq<crate::board::ShopCard>, keys: Keys, sel: Option<usize>)
    requires
        forall|i: int| 0 <= i < shop.len() ==> #[trigger] shop[i].slot < SHOP_SIZE,
    ensures
        (next_shop_selection(shop, keys, sel) is Some) == (shop.len() > 0),
        shop.len() > 0 && (keys.prev || keys.next) ==> shop_has(shop, next_shop_selection(shop, keys, sel)->Some_0),
{
    lemma_sorted_slots(shop);
    let slots = sorted_slots(shop);
    if slots.len() > 0 {
        let picked = digit_pick(shop, keys, sel, SHOP_SIZE as int);
        let backed = if keys.prev { Some(step_back(slots, picked.unwrap_or(slots[0]))) } else { picked };
        if keys.prev {
            let pos = position_or_start(slots, picked.unwrap_or(slots[0]));
            lemma_position_in_range(slots, picked.unwrap_or(slots[0]));
            let at = if pos == 0 { slots.len() - 1 } else { pos - 1 };
            assert(shop_has(shop, slots[at]));
        }
        if keys.next {
            let cur = backed.unwrap_or(slots[0]);
            let pos = position_or_start(slots, cur);
            lemma_position_in_range(slots, cur);
            let at = (pos + 1) % (slots.len() as int);
            assert(shop_has(shop, slots[at]));
        }
    }
}

/// With no two shop cards in one slot and no shop key pressed, a step back followed by a step
/// on in the same frame returns the selection to the slot it started from.
pub proof fn lemma_back_then_on(shop: Seq<crate::board::ShopCard>, keys: Keys, s: usize)
    requires
        forall|i: int| 0 <= i < shop.len() ==> #[trigger] shop[i].slot < SHOP_SIZE,
        forall|i: int, j: int| 0 <= i < j < shop.len() ==> #[trigger] shop[i].slot != #[trigger] shop[j].slot,
        shop_has(shop, s),
        keys.prev,
        keys.next,
        forall|d: int| 0 <= d < SHOP_SIZE ==> !#[trigger] keys.shop_digits@[d],
    ensures
        next_shop_selection(shop, keys, Some(s)) == Some(s),
{
    assert(!keys.shop_digits@[0] && !keys.shop_digits@[1] && !keys.shop_digits@[2] && !keys.shop_digits@[3]);
    assert(digit_pick(shop, keys, Some(s), 0) == Some(s));
    assert(digit_pick(shop, keys, Some(s), 1) == Some(s));
    assert(digit_pick(shop, keys, Some(s), 2) == Some(s));
    assert(digit_pick(shop, keys, Some(s), 3) == Some(s));
    assert(digit_pick(shop, keys, Some(s), 4) == Some(s));
    lemma_sorted_slots(shop);
    assert forall|u: int| #[trigger] slot_count(shop, u) <= 1 by {
        lemma_count_at_most_one(shop, u);
    }
    let slots = sorted_slots(shop);
    lemma_slots_below_strict(shop, SHOP_SIZE as int);
    lemma_slot_listed(shop, SHOP_SIZE as int, s);
    let p = choose|i: int| 0 <= i < slots.len() && #[trigger] slots[i] == s;
    let len = slots.len() as int;
    lemma_position_of(slots, p);
    let q = if p == 0 { len - 1 } else { p - 1 };
    assert(step_back(slots, s) == slots[q]);
    lemma_position_of(slots, q);
    if p == 0 {
        vstd::arithmetic::div_mod::lemma_mod_self_0(len);
    } else {
        vstd::arithmetic::div_mod::lemma_small_mod(p as nat, len as nat);
    }
    assert(step_on(slots, slots[q]) == slots[p]);
}

/// A slot that holds a card is counted.
proof fn lemma_has_count(shop: Seq<crate::board::ShopCard>, v: usize)
    requires
        shop_has(shop, v),
    ensures
        slot_count(shop, v as int) > 0,
    decreases shop.len(),
{
    let j = choose|j: int| 0 <= j < shop.len() && (#[trigger] shop[j]).slot == v;
    if j < shop.len() - 1 {
        let r = shop.drop_last();
        assert(r[j] == shop[j]);
        lemma_has_count(r, v);
    }
}

/// With no two cards in one slot, no slot is counted more than once.
proof fn lemma_count_at_most_one(shop: Seq<crate::board::ShopCard>, u: int)
    requires
        forall|i: int, j: int| 0 <= i < j < shop.len() ==> #[trigger] shop[i].slot != #[trigger] shop[j].slot,
    ensures
        slot_count(shop, u) <= 1,
    decreases shop.len(),
{
    if shop.len() > 0 {
        let r = shop.drop_last();
        assert forall|i: int, j: int| 0 <= i < j < r.len() implies #[trigger] r[i].slot != #[trigger] r[j].slot by {
            assert(r[i] == shop[i]);
            assert(r[j] == shop[j]);
        }
        lemma_count_at_most_one(r, u);
        if shop.last().slot == u && slot_count(r, u) > 0 {
            lemma_count_has(r, u);
            let j = choose|j: int| 0 <= j < r.len() && (#[trigger] r[j]).slot == u as usize;
            assert(r[j] == shop[j]);
            assert(shop[j].slot != shop[shop.len() - 1].slot);
        }
    }
}

/// Where no slot is counted more than once, the slots below `v` strictly increase.
proof fn lemma_slots_below_strict(shop: Seq<crate::board::ShopCard>, v: int)
    requires
        0 <= v <= SHOP_SIZE,
        forall|u: int| #[trigger] slot_count(shop, u) <= 1,
    ensures
        forall|i: int, j: int| 0 <= i < j < slots_below(shop, v).len()
            ==> #[trigger] slots_below(shop, v)[i] < #[trigger] slots_below(shop, v)[j],
    decreases v,
{
    if v > 0 {
        lemma_slots_below_strict(shop, v - 1);
        lemma_slots_below(shop, v - 1);
        let prev = slots_below(shop, v - 1);
        let block = Seq::new(slot_count(shop, v - 1), |_k: int| (v - 1) as usize);
        let all = prev + block;
        assert(slots_below(shop, v) == all);
        assert(block.len() <= 1);
        assert forall|i: int, j: int| 0 <= i < j < all.len() implies #[trigger] all[i] < #[trigger] all[j] by {
            assert(all[i] == prev[i]);
            if j < prev.len() {
                assert(all[j] == prev[j]);
            } else {
                assert(all[j] == block[j - prev.len()]);
            }
        }
    }
}

/// A slot below `v` that holds a card is among the slots below `v`.
proof fn lemma_slot_listed(shop: Seq<crate::board::ShopCard>, v: int, u: usize)
    requires
        0 <= v <= SHOP_SIZE,
        u < v,
        shop_has(shop, u),
    ensures
        exists|i: int| 0 <= i < slots_below(shop, v).len() && #[trigger] slots_below(shop, v)[i] == u,
    decreases v,
{
    let prev = slots_below(shop, v - 1);
    let block = Seq::new(slot_count(shop, v - 1), |_k: int| (v - 1) as usize);
    let all = prev + block;
    assert(slots_below(shop, v) == all);
    if u < v - 1 {
        lemma_slot_listed(shop, v - 1, u);
        let i = choose|i: int| 0 <= i < prev.len() && #[trigger] prev[i] == u;
        assert(all[i] == prev[i]);
    } else {
        lemma_has_count(shop, u);
        assert(all[prev.len() as int] == block[0]);
    }
}

/// In a sequence that strictly increases, an element is found where it stands.
proof fn lemma_position_of(s: Seq<usize>, p: int)
    requires
        0 <= p < s.len(),
        forall|i: int, j: int| 0 <= i < j < s.len() ==> #[trigger] s[i] < #[trigger] s[j],
    ensures
        position_or_start(s, s[p]) == p,
{
    lemma_first_from_at(s, p, 0);
}

proof fn lemma_first_from_at(s: Seq<usize>, p: int, from: int)
    requires
        0 <= from <= p < s.len(),
        forall|i: int, j: int| 0 <= i < j < s.len() ==> #[trigger] s[i] < #[trigger] s[j],
    ensures
        first_from(s, s[p], from) == p,
    decreases p - from,
{
    if from < p {
        assert(s[from] < s[p]);
        lemma_first_from_at(s, p, from + 1);
    }
}

proof fn lemma_position_in_range(s: Seq<usize>, x: usize)
    requires
        s.len() > 0,
    ensures
        0 <= position_or_start(s, x) < s.len(),
{
    lemma_first_from_range(s, x, 0);
}

proof fn lemma_first_from_range(s: Seq<usize>, x: usize, from: int)
    requires
        0 <= from,
    ensures
        first_from(s, x, from) == -1 || from <= first_from(s, x, from) < s.len(),
    decreases s.len() - from,
{
    if from < s.len() && s[from] != x {
        lemma_first_from_range(s, x, from + 1);
    }
}

/// The slots below `v` are in increasing order, below `v`, each held by a card, and as many as
/// the cards in those slots.
proof fn lemma_slots_below(shop: Seq<crate::board::ShopCard>, v: int)
    requires
        0 <= v <= SHOP_SIZE,
    ensures
        forall|i: int, j: int| 0 <= i <= j < slots_below(shop, v).len()
            ==> #[trigger] slots_below(shop, v)[i] <= #[trigger] slots_below(shop, v)[j],
        forall|i: int| 0 <= i < slots_below(shop, v).len() ==> #[trigger] slots_below(shop, v)[i] < v,
        forall|i: int| 0 <= i < slots_below(shop, v).len() ==> shop_has(shop, #[trigger] slots_below(shop, v)[i]),
        slots_below(shop, v).len() == count_below(shop, v),
    decreases v,
{
    if v > 0 {
        lemma_slots_below(shop, v - 1);
        let prev = slots_below(shop, v - 1);
        let block = Seq::new(slot_count(shop, v - 1), |_k: int| (v - 1) as usize);
        let all = prev + block;
        assert(slots_below(shop, v) == all);
        if slot_count(shop, v - 1) > 0 {
            lemma_count_has(shop, v - 1);
        }
        assert forall|i: int| 0 <= i < all.len() implies shop_has(shop, #[trigger] all[i]) by {
            if i < prev.len() {
                assert(all[i] == prev[i]);
            } else {
                assert(all[i] == block[i - prev.len()]);
            }
        }
        assert forall|i: int, j: int| 0 <= i <= j < all.len() implies #[trigger] all[i] <= #[trigger] all[j] by {
            if j < prev.len() {
                assert(all[i] == prev[i]);
                assert(all[j] == prev[j]);
            } else if i < prev.len() {
                assert(all[i] == prev[i]);
                assert(prev[i] < v - 1);
                assert(all[j] == block[j - prev.len()]);
            } else {
                assert(all[i] == block[i - prev.len()]);
                assert(all[j] == block[j - prev.len()]);
            }
        }
        assert forall|i: int| 0 <= i < all.len() implies #[trigger] all[i] < v by {
            if i < prev.len() {
                assert(all[i] == prev[i]);
            } else {
                assert(all[i] == block[i - prev.len()]);
            }
        }
    }
}

/// How many shop cards sit in slots below `v`.
pub open spec fn count_below(shop: Seq<crate::board::ShopCard>, v: int) -> nat
    decreases v,
{
    if v <= 0 { 0 } else { count_below(shop, v - 1) + slot_count(shop, v - 1) }
}

/// A slot counted at least once holds a card.
proof fn lemma_count_has(shop: Seq<crate::board::ShopCard>, v: int)
    requires
        slot_count(shop, v) > 0,
    ensures
        shop_has(shop, v as usize),
    decreases shop.len(),
{
    if shop.last().slot == v {
        assert(shop[shop.len() - 1].slot == v as usize);
    } else {
        lemma_count_has(shop.drop_last(), v);
        let j = choose|j: int| 0 <= j < shop.drop_last().len() && (#[trigger] shop.drop_last()[j]).slot == v as usize;
        assert(shop[j] == shop.drop_last()[j]);
    }
}

/// Where every card sits below `SHOP_SIZE`, counting the slots below it counts every card.
proof fn lemma_counts_cover(shop: Seq<crate::board::ShopCard>)
    requires
        forall|i: int| 0 <= i < shop.len() ==> #[trigger] shop[i].slot < SHOP_SIZE,
    ensures
        count_below(shop, SHOP_SIZE as int) == shop.len(),
    decreases shop.len(),
{
    if shop.len() > 0 {
        let r = shop.drop_last();
        assert forall|i: int| 0 <= i < r.len() implies #[trigger] r[i].slot < SHOP_SIZE by {
            assert(r[i] == shop[i]);
        }
        lemma_counts_cover(r);
        assert(shop[shop.len() - 1].slot < SHOP_SIZE);
        let l = shop.last().slot;
        assert(SHOP_SIZE as int == 4);
        assert(slot_count(shop, 0) == slot_count(r, 0) + if l == 0 { 1nat } else { 0nat });
        assert(slot_count(shop, 1) == slot_count(r, 1) + if l == 1 { 1nat } else { 0nat });
        assert(slot_count(shop, 2) == slot_count(r, 2) + if l == 2 { 1nat } else { 0nat });
        assert(slot_count(shop, 3) == slot_count(r, 3) + if l == 3 { 1nat } else { 0nat });
        assert(count_below(shop, 0) == 0 && count_below(r, 0) == 0);
        assert(count_below(shop, 1) == count_below(r, 1) + if l < 1 { 1nat } else { 0nat });
        assert(count_below(shop, 2) == count_below(r, 2) + if l < 2 { 1nat } else { 0nat });
        assert(count_below(shop, 3) == count_below(r, 3) + if l < 3 { 1nat } else { 0nat });
        assert(count_below(shop, 4) == count_below(r, 4) + if l < 4 { 1nat } else { 0nat });
    } else {
        assert(slot_count(shop, 0) == 0 && slot_count(shop, 1) == 0);
        assert(slot_count(shop, 2) == 0 && slot_count(shop, 3) == 0);
        assert(count_below(shop, 0) == 0);
        assert(count_below(shop, 1) == 0);
        assert(count_below(shop, 2) == 0);
        assert(count_below(shop, 3) == 0);
        assert(count_below(shop, 4) == 0);
    }
}

/// Where `x` first stands in `s` from `from` on; -1 where it does not.
pub open spec fn first_from(s: Seq<usize>, x: usize, from: int) -> int
    decreases s.len() - from,
{
    if from < 0 || from >= s.len() {
        -1
    } else if s[from] == x {
        from
    } else {
        first_from(s, x, from + 1)
    }
}

/// Where `x` first stands in `s`; the start where it does not.
pub open spec fn position_or_start(s: Seq<usize>, x: usize) -> int {
    let p = first_from(s, x, 0);
    if p < 0 { 0 } else { p }
}

/// The slot before `cur` in `slots`, wrapping round to the last.
pub open spec fn step_back(slots: Seq<usize>, cur: usize) -> usize {
    let pos = position_or_start(slots, cur);
    slots[if pos == 0 { slots.len() - 1 } else { pos - 1 }]
}

/// The slot after `cur` in `slots`, wrapping round to the first.
pub open spec fn step_on(slots: Seq<usize>, cur: usize) -> usize {
    let pos = position_or_start(slots, cur);
    slots[(pos + 1) % (slots.len() as int)]
}

/// The shop selection after the first `n` shop keys: the last pressed key whose slot holds a
/// card wins; without one the selection stays.
pub open spec fn digit_pick(shop: Seq<crate::board::ShopCard>, keys: Keys, sel: Option<usize>, n: int) -> Option<usize>
    decreases n,
{
    if n <= 0 {
        sel
    } else {
        let before = digit_pick(shop, keys, sel, n - 1);
        if keys.shop_digits@[n - 1] && shop_has(shop, (n - 1) as usize) {
            Some((n - 1) as usize)
        } else {
            before
        }
    }
}

/// The shop selection after a frame's keys: the shop keys, then a step back and a step on
/// through the sorted slots, starting from the first slot where nothing is selected; an empty
/// shop selects nothing, and a shop with cards always has a selection.
pub open spec fn next_shop_selection(shop: Seq<crate::board::ShopCard>, keys: Keys, sel: Option<usize>) -> Option<usize> {
    let picked = digit_pick(shop, keys, sel, SHOP_SIZE as int);
    let slots = sorted_slots(shop);
    if slots.len() == 0 {
        None
    } else {
        let backed = if keys.prev { Some(step_back(slots, picked.unwrap_or(slots[0]))) } else { picked };
        let moved = if keys.next { Some(step_on(slots, backed.unwrap_or(slots[0]))) } else { backed };
        if moved is None { Some(slots[0]) } else { moved }
    }
}

/// The id of the first card in board slot `slot`, where there is one.
pub open spec fn card_in_slot(board: Seq<BoardCard>, slot: usize) -> Option<u64> {
    if exists|k: int| is_first_on_board(board, slot, k) {
        Some(board[choose|k: int| is_first_on_board(board, slot, k)].id)
    } else {
        None
    }
}

/// The board selection after the first `n` board keys: the last pressed key selects the card
/// in its slot, or nothing where no card is there.
pub open spec fn board_pick(board: Seq<BoardCard>, keys: Keys, sel: Option<u64>, n: int) -> Option<u64>
    decreases n,
{
    if n <= 0 {
        sel
    } else {
        let before = board_pick(board, keys, sel, n - 1);
        if keys.board_digits@[n - 1] {
            card_in_slot(board, (FIRST_SELLABLE_SLOT + n - 1) as usize)
        } else {
            before
        }
    }
}

/// The sorted slots of the shop; see `sorted_slots`.
pub fn shop_slots_sorted(shop: &Vec<crate::board::ShopCard>) -> (slots: Vec<usize>)
    ensures
        slots@ == sorted_slots(shop@),
{
    let mut slots: Vec<usize> = Vec::new();
    let mut v: usize = 0;
    while v < SHOP_SIZE
        invariant
            v <= SHOP_SIZE,
            slots@ == slots_below(shop@, v as int),
        decreases SHOP_SIZE - v,
    {
        let mut j: usize = 0;
        while j < shop.len()
            invariant
                v < SHOP_SIZE,
                j <= shop@.len(),
                slots@ == slots_below(shop@, v as int) + Seq::new(slot_count(shop@.take(j as int), v as int), |_k: int| v),
            decreases shop@.len() - j,
        {
            assert(shop@.take(j + 1).drop_last() =~= shop@.take(j as int));
            if shop[j].slot == v {
                slots.push(v);
            }
            j = j + 1;
            assert(slots@ =~= slots_below(shop@, v as int) + Seq::new(slot_count(shop@.take(j as int), v as int), |_k: int| v));
        }
        assert(shop@.take(j as int) =~= shop@);
        v = v + 1;
        assert(slots@ =~= slots_below(shop@, v as int));
    }
    slots
}

/// Where `x` first stands in `s`, or the start where it does not.
fn find_position(s: &Vec<usize>, x: usize) -> (pos: usize)
    ensures
        pos == position_or_start(s@, x),
        s@.len() > 0 ==> pos < s@.len(),
{
    let mut k: usize = 0;
    while k < s.len()
        invariant
            k <= s@.len(),
            first_from(s@, x, 0) == first_from(s@, x, k as int),
        decreases s@.len() - k,
    {
        if s[k] == x {
            return k;
        }
        k = k + 1;
    }
    0
}

/// Whether a shop card sits in `slot`.
fn shop_slot_filled(shop: &Vec<crate::board::ShopCard>, slot: usize) -> (filled: bool)
    ensures
        filled == shop_has(shop@, slot),
{
    let mut k: usize = 0;
    while k < shop.len()
        invariant
            k <= shop@.len(),
            forall|j: int| 0 <= j < k ==> (#[trigger] shop@[j]).slot != slot,
        decreases shop@.len() - k,
    {
        if shop[k].slot == slot {
            return true;
        }
        k = k + 1;
    }
    false
}

/// The shop selection after the shop keys; see `digit_pick`.
fn pick_by_digits(shop: &Vec<crate::board::ShopCard>, keys: &Keys, sel: Option<usize>) -> (picked: Option<usize>)
    ensures
        picked == digit_pick(shop@, *keys, sel, SHOP_SIZE as int),
{
    let mut picked = sel;
    let mut i: usize = 0;
    while i < SHOP_SIZE
        invariant
            i <= SHOP_SIZE,
            picked == digit_pick(shop@, *keys, sel, i as int),
        decreases SHOP_SIZE - i,
    {
        if keys.shop_digits[i] && shop_slot_filled(shop, i) {
            picked = Some(i);
        }
        i = i + 1;
    }
    picked
}

/// The slot before `cur` in `slots`; see `step_back`.
fn slot_before(slots: &Vec<usize>, cur: usize) -> (s: usize)
    requires
        slots@.len() > 0,
    ensures
        s == step_back(slots@, cur),
{
    let pos = find_position(slots, cur);
    let back = if pos == 0 { slots.len() - 1 } else { pos - 1 };
    slots[back]
}

/// The slot after `cur` in `slots`; see `step_on`.
fn slot_after(slots: &Vec<usize>, cur: usize) -> (s: usize)
    requires
        slots@.len() > 0,
    ensures
        s == step_on(slots@, cur),
{
    let pos = find_position(slots, cur);
    let len: usize = slots.len();
    let on = if pos + 1 < len { pos + 1 } else { 0 };
    proof {
        if pos + 1 < len {
            vstd::arithmetic::div_mod::lemma_small_mod((pos + 1) as nat, len as nat);
        } else {
            vstd::arithmetic::div_mod::lemma_mod_self_0(len as int);
        }
    }
    slots[on]
}

/// The shop selection after a frame's keys; see `next_shop_selection`.
pub fn move_shop_selection(shop: &Vec<crate::board::ShopCard>, keys: &Keys, sel: Option<usize>) -> (moved: Option<usize>)
    ensures
        moved == next_shop_selection(shop@, *keys, sel),
{
    let picked = pick_by_digits(shop, keys, sel);
    let slots = shop_slots_sorted(shop);
    if slots.len() == 0 {
        return None;
    }
    let backed = if keys.prev {
        let cur = match picked { Some(s) => s, None => slots[0] };
        Some(slot_before(&slots, cur))
    } else {
        picked
    };
    let moved = if keys.next {
        let cur = match backed { Some(s) => s, None => slots[0] };
        Some(slot_after(&slots, cur))
    } else {
        backed
    };
    match moved {
        Some(s) => Some(s),
        None => Some(slots[0]),
    }
}

/// The id of the first card in board slot `slot`; see `card_in_slot`.
pub fn card_id_in_slot(board: &Vec<BoardCard>, slot: usize) -> (id: Option<u64>)
    ensures
        id == card_in_slot(board@, slot),
{
    match find_on_board(board, slot) {
        Some(k) => {
            assert forall|k2: int| #[trigger] is_first_on_board(board@, slot, k2) implies k2 == k by {
                if k2 < k {
                    assert(board@[k2].slot == slot);
                } else if k2 > k {
                    assert(board@[k as int].slot == slot);
                }
            }
            Some(board[k].id)
        },
        None => {
            assert forall|k2: int| !#[trigger] is_first_on_board(board@, slot, k2) by {
                if is_first_on_board(board@, slot, k2) {
                    assert(board@[k2].slot == slot);
                }
            }
            None
        },
    }
}

/// The board selection after the board keys; see `board_pick`.
pub fn move_board_selection(board: &Vec<BoardCard>, keys: &Keys, sel: Option<u64>) -> (moved: Option<u64>)
    ensures
        moved == board_pick(board@, *keys, sel, BOARD_KEYS as int),
{
    let mut moved = sel;
    let mut k: usize = 0;
    while k < BOARD_KEYS
        invariant
            k <= BOARD_KEYS,
            moved == board_pick(board@, *keys, sel, k as int),
        decreases BOARD_KEYS - k,
    {
        if keys.board_digits[k] {
            moved = card_id_in_slot(board, FIRST_SELLABLE_SLOT + k);
        }
        k = k + 1;
    }
    moved
}

impl Game {
    /// Reads the keys of a frame in the shop phase: moves the selection as `next_shop_selection`
    /// and `board_pick` say, and gives the orders: buy from the selected shop slot, sell the
    /// selected board card (which then is no longer selected), refresh, upgrade, freeze and end
    /// the turn as their keys ask.
    pub fn read_keys(&self, sel: &mut Selection, keys: &Keys) -> (orders: Orders)
        ensures
            final(sel).shop == next_shop_selection(self.shop@, *keys, old(sel).shop),
            final(sel).board == if keys.sell && board_pick(self.board@, *keys, old(sel).board, BOARD_KEYS as int) is Some {
                None
            } else {
                board_pick(self.board@, *keys, old(sel).board, BOARD_KEYS as int)
            },
            orders == (Orders {
                buy: if keys.buy { next_shop_selection(self.shop@, *keys, old(sel).shop) } else { None },
                sell: if keys.sell { board_pick(self.board@, *keys, old(sel).board, BOARD_KEYS as int) } else { None },
                refresh: keys.refresh,
                upgrade: keys.upgrade,
                freeze: keys.freeze,
                end_turn: keys.end_turn,
            }),
    {
        let shop_sel = move_shop_selection(&self.shop, keys, sel.shop);
        let board_sel = move_board_selection(&self.board, keys, sel.board);
        sel.shop = shop_sel;
        let buy = if keys.buy { shop_sel } else { None };
        let sell = if keys.sell { board_sel } else { None };
        sel.board = if keys.sell && board_sel.is_some() { None } else { board_sel };
        Orders {
            buy,
            sell,
            refresh: keys.refresh,
            upgrade: keys.upgrade,
            freeze: keys.freeze,
            end_turn: keys.end_turn,
        }
    }
}

} // verus!
