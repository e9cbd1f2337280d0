//! The pool together with its random generator, and the draws of shops and enemy boards.

use vstd::prelude::*;
use rand::rngs::StdRng;
use crate::chance::{below, rng_from_entropy, sample_distinct};
use crate::minion::{all_valid, minion_of, Minion, MinionTemplate, MAX_BOARD, SHOP_SIZE};
use crate::pool::{available, holds_entry, lemma_available, minion_pool, pool_entry, POOL_SIZE};

verus! {

/// The minions a sequence of picks stands for: pick `p` names the `p`-th position of
/// `avail`, which names an entry of `pool`.
pub open spec fn drawn(pool: Seq<MinionTemplate>, avail: Seq<int>, picks: Seq<usize>) -> Seq<Minion> {
    Seq::new(picks.len(), |k: int| minion_of(pool[avail[picks[k] as int]]))
}

/// No two picks are the same.
pub open spec fn distinct(picks: Seq<usize>) -> bool {
    forall|k: int, l: int| 0 <= k < l < picks.len() ==> #[trigger] picks[k] != #[trigger] picks[l]
}

/// Every pick is below `bound`.
pub open spec fn all_below(picks: Seq<usize>, bound: int) -> bool {
    forall|k: int| 0 <= k < picks.len() ==> #[trigger] picks[k] < bound
}

/// The smaller of two numbers.
pub open spec fn min(a: int, b: int) -> int {
    if a < b { a } else { b }
}

/// How many minions an enemy board of `tier` holds, `avail` being how many pool entries are
/// within the tier: none without entries, else two more than the tier but at most a full
/// board (a negative tier counts as a huge one).
pub open spec fn enemy_count(tier: int, avail: int) -> int {
    if avail == 0 {
        0
    } else if tier < 0 {
        MAX_BOARD as int
    } else {
        min(tier + 2, MAX_BOARD as int)
    }
}

/// How many minions a shop of `tier` offers, `avail` being how many pool entries are within
/// the tier.
pub open spec fn shop_count(avail: int) -> int {
    min(avail, SHOP_SIZE as int)
}

/// Every drawn minion is exactly the pool entry it was drawn from: the same name, attack,
/// health, tier and race.
pub proof fn lemma_drawn_from_pool(pool: Seq<MinionTemplate>, avail: Seq<int>, picks: Seq<usize>, k: int)
    requires
        0 <= k < picks.len(),
    ensures
        drawn(pool, avail, picks).len() == picks.len(),
        drawn(pool, avail, picks)[k].name@ == pool[avail[picks[k] as int]].name@,
        drawn(pool, avail, picks)[k].attack == pool[avail[picks[k] as int]].attack,
        drawn(pool, avail, picks)[k].health == pool[avail[picks[k] as int]].health,
        drawn(pool, avail, picks)[k].tier == pool[avail[picks[k] as int]].tier,
        drawn(pool, avail, picks)[k].race == pool[avail[picks[k] as int]].race,
{
    crate::minion::lemma_minion_keeps_template(pool[avail[picks[k] as int]]);
}

/// A shop offers one minion for each entry within the tier, but never more than a shop holds.
pub proof fn lemma_shop_count(avail: int)
    requires
        0 <= avail,
    ensures
        avail <= SHOP_SIZE ==> shop_count(avail) == avail,
        avail >= SHOP_SIZE ==> shop_count(avail) == SHOP_SIZE,
        shop_count(avail + 1) == if shop_count(avail) < SHOP_SIZE { shop_count(avail) + 1 } else { shop_count(avail) },
{
}

/// With entries within the tier, an enemy board of tier zero holds two minions and each tier
/// higher one more, until the board is full; without entries it is empty.
pub proof fn lemma_enemy_count_steps(tier: int, avail: int)
    requires
        0 <= tier,
    ensures
        enemy_count(tier, 0) == 0,
        avail > 0 ==> enemy_count(0, avail) == 2,
        avail > 0 ==> enemy_count(tier + 1, avail)
            == if enemy_count(tier, avail) < MAX_BOARD { enemy_count(tier, avail) + 1 } else { MAX_BOARD as int },
        avail > 0 ==> 2 <= enemy_count(tier, avail) <= MAX_BOARD,
{
}

/// Every minion that a draw within `tier` gives has a tier of at most `tier`, and a draw whose
/// picks are distinct never gives the same pool entry twice.
pub proof fn lemma_draw_within_tier(pool: Seq<MinionTemplate>, tier: int, picks: Seq<usize>)
    requires
        all_below(picks, available(pool, tier).len() as int),
    ensures
        forall|i: int| 0 <= i < picks.len() ==> (#[trigger] drawn(pool, available(pool, tier), picks)[i]).tier <= tier,
        distinct(picks) ==> forall|i: int, j: int| 0 <= i < j < picks.len()
            ==> available(pool, tier)[#[trigger] picks[i] as int] != available(pool, tier)[#[trigger] picks[j] as int],
{
    lemma_available(pool, tier);
    let avail = available(pool, tier);
    assert forall|i: int| 0 <= i < picks.len() implies (#[trigger] drawn(pool, avail, picks)[i]).tier <= tier by {
        let p = picks[i] as int;
        assert(avail[p] == avail[p]);
    }
    if distinct(picks) {
        assert forall|i: int, j: int| 0 <= i < j < picks.len()
            implies avail[#[trigger] picks[i] as int] != avail[#[trigger] picks[j] as int] by {
            let a = picks[i] as int;
            let b = picks[j] as int;
            if a < b {
                assert(avail[a] < avail[b]);
            } else {
                assert(a != b);
                assert(avail[b] < avail[a]);
            }
        }
    }
}

/// The positions of the pool entries whose tier is at most `tier`.
pub fn available_positions(pool: &Vec<MinionTemplate>, tier: i32) -> (avail: Vec<usize>)
    ensures
        avail@.len() == available(pool@, tier as int).len(),
        forall|k: int| 0 <= k < avail@.len() ==> #[trigger] avail@[k] as int == available(pool@, tier as int)[k],
{
    let mut avail: Vec<usize> = Vec::new();
    let mut i: usize = 0;
    while i < pool.len()
        invariant
            i <= pool@.len(),
            avail@.len() == available(pool@.take(i as int), tier as int).len(),
            forall|k: int| 0 <= k < avail@.len() ==> #[trigger] avail@[k] as int == available(pool@.take(i as int), tier as int)[k],
        decreases pool@.len() - i,
    {
        assert(pool@.take(i + 1).drop_last() =~= pool@.take(i as int));
        if pool[i].tier <= tier {
            avail.push(i);
        }
        i = i + 1;
    }
    assert(pool@.take(i as int) =~= pool@);
    avail
}

/// The minions that `picks` stand for; see `drawn`.
pub fn draw(pool: &Vec<MinionTemplate>, avail: &Vec<usize>, picks: &Vec<usize>) -> (minions: Vec<Minion>)
    requires
        forall|k: int| 0 <= k < avail@.len() ==> #[trigger] avail@[k] < pool@.len(),
        all_below(picks@, avail@.len() as int),
    ensures
        minions@ == drawn(pool@, avail@.map_values(|p: usize| p as int), picks@),
{
    let ghost av = avail@.map_values(|p: usize| p as int);
    let mut minions: Vec<Minion> = Vec::new();
    let mut k: usize = 0;
    while k < picks.len()
        invariant
            k <= picks@.len(),
            forall|j: int| 0 <= j < avail@.len() ==> #[trigger] avail@[j] < pool@.len(),
            all_below(picks@, avail@.len() as int),
            av == avail@.map_values(|p: usize| p as int),
            minions@ == drawn(pool@, av, picks@.take(k as int)),
        decreases picks@.len() - k,
    {
        let p = picks[k];
        let m = Minion::from_template(&pool[avail[p]]);
        minions.push(m);
        k = k + 1;
        assert(minions@ =~= drawn(pool@, av, picks@.take(k as int)));
    }
    assert(picks@.take(k as int) =~= picks@);
    minions
}

/// `n` picks, each below `bound`, made one at a time.
fn pick_many(rng: &mut StdRng, bound: usize, n: usize) -> (picks: Vec<usize>)
    requires
        bound > 0,
    ensures
        picks@.len() == n,
        all_below(picks@, bound as int),
{
    let mut picks: Vec<usize> = Vec::new();
    let mut i: usize = 0;
    while i < n
        invariant
            i <= n,
            picks@.len() == i,
            bound > 0,
            all_below(picks@, bound as int),
        decreases n - i,
    {
        let p = below(rng, bound);
        picks.push(p);
        i = i + 1;
    }
    picks
}

/// The pool of minions and the generator that draws from it.
pub struct GameData {
    pub minions: Vec<MinionTemplate>,
    pub rng: StdRng,
}

impl GameData {
    /// The pool holds valid minions only.
    pub open spec fn wf(&self) -> bool {
        all_valid(self.minions@)
    }

    /// The game's pool, with a generator seeded from the system.
    pub fn new() -> (data: GameData)
        ensures
            data.wf(),
            data.minions@.len() == POOL_SIZE,
            forall|j: int| 0 <= j < data.minions@.len() ==> holds_entry(#[trigger] data.minions@[j], pool_entry(j)),
            available(data.minions@, 1).len() == 20,
            available(data.minions@, 2).len() == 44,
            available(data.minions@, 3).len() == 61,
            available(data.minions@, 4).len() == 73,
            available(data.minions@, 5).len() == 84,
            available(data.minions@, 6).len() == 92,
    {
        GameData { minions: minion_pool(), rng: rng_from_entropy() }
    }

    /// A fresh shop for `tier`: as many minions as there are entries within the tier, at most
    /// a shop's worth, each drawn from a different entry within the tier. Where no entry is
    /// within the tier nothing is drawn and the generator is left as it was.
    pub fn refresh_shop(&mut self, tier: i32) -> (offers: Vec<Minion>)
        ensures
            final(self).minions == old(self).minions,
            available(old(self).minions@, tier as int).len() == 0 ==> *final(self) == *old(self),
            offers@.len() == shop_count(available(old(self).minions@, tier as int).len() as int),
            exists|picks: Seq<usize>| #![trigger drawn(old(self).minions@, available(old(self).minions@, tier as int), picks)] {
                &&& picks.len() == offers@.len()
                &&& distinct(picks)
                &&& all_below(picks, available(old(self).minions@, tier as int).len() as int)
                &&& offers@ == drawn(old(self).minions@, available(old(self).minions@, tier as int), picks)
            },
    {
        let avail = available_positions(&self.minions, tier);
        proof {
            lemma_available(self.minions@, tier as int);
            assert(avail@.map_values(|p: usize| p as int) =~= available(self.minions@, tier as int));
        }
        if avail.len() == 0 {
            let offers: Vec<Minion> = Vec::new();
            assert(offers@ =~= drawn(self.minions@, available(self.minions@, tier as int), Seq::<usize>::empty()));
            return offers;
        }
        let n = if avail.len() < SHOP_SIZE { avail.len() } else { SHOP_SIZE };
        let picks = sample_distinct(&mut self.rng, avail.len(), n);
        let offers = self::draw(&self.minions, &avail, &picks);
        assert(offers@ == drawn(self.minions@, available(self.minions@, tier as int), picks@));
        offers
    }

    /// An enemy board for `tier`: `enemy_count` minions, each drawn from the entries within the
    /// tier, repeats allowed. Where no entry is within the tier nothing is drawn and the
    /// generator is left as it was. The tiers -1 and -2 with entries within them are left out:
    /// there the count overflows.
    pub fn spawn_enemy(&mut self, tier: i32) -> (enemies: Vec<Minion>)
        requires
            tier >= 0 || tier <= -3 || available(old(self).minions@, tier as int).len() == 0,
        ensures
            final(self).minions == old(self).minions,
            available(old(self).minions@, tier as int).len() == 0 ==> *final(self) == *old(self),
            enemies@.len() == enemy_count(tier as int, available(old(self).minions@, tier as int).len() as int),
            exists|picks: Seq<usize>| #![trigger drawn(old(self).minions@, available(old(self).minions@, tier as int), picks)] {
                &&& picks.len() == enemies@.len()
                &&& all_below(picks, available(old(self).minions@, tier as int).len() as int)
                &&& enemies@ == drawn(old(self).minions@, available(old(self).minions@, tier as int), picks)
            },
    {
        let avail = available_positions(&self.minions, tier);
        proof {
            lemma_available(self.minions@, tier as int);
            assert(avail@.map_values(|p: usize| p as int) =~= available(self.minions@, tier as int));
        }
        if avail.len() == 0 {
            let enemies: Vec<Minion> = Vec::new();
            assert(enemies@ =~= drawn(self.minions@, available(self.minions@, tier as int), Seq::<usize>::empty()));
            return enemies;
        }
        let n: usize = if tier < 0 {
            MAX_BOARD
        } else {
            let t: usize = tier as usize;
            if t + 2 < MAX_BOARD { t + 2 } else { MAX_BOARD }
        };
        let picks = pick_many(&mut self.rng, avail.len(), n);
        let enemies = self::draw(&self.minions, &avail, &picks);
        assert(enemies@ == drawn(self.minions@, available(self.minions@, tier as int), picks@));
        enemies
    }
}

} // verus!
