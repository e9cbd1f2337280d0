//! Minions, their races, and the constants of the game's economy.

use vstd::prelude::*;

verus! {

/// Gold a player can hold at most.
pub const MAX_GOLD: i32 = 10;

/// Cards a player's side of the board can hold at most.
pub const MAX_BOARD: usize = 7;

/// Cards a shop offers at most after a refresh.
pub const SHOP_SIZE: usize = 4;

/// The highest tavern tier.
pub const MAX_TIER: i32 = 6;

/// Price of one minion in the shop.
pub const MINION_PRICE: i32 = 3;

/// No attack or health of a minion in the pool goes beyond this.
pub const STAT_CAP: i32 = 100;

/// The races a minion can belong to.
#[derive(Clone, Copy, Debug, PartialEq, Eq, Structural)]
pub enum Race {
    Beast,
    Demon,
    Dragon,
    Elemental,
    Mech,
    Murloc,
    Undead,
    Quilboar,
    Pirate,
    Neutral,
}

/// The icon drawn before a minion's name.
pub open spec fn icon_of(race: Race) -> Seq<char> {
    match race {
        Race::Beast => "🐾"@,
        Race::Demon => "😈"@,
        Race::Dragon => "🐉"@,
        Race::Elemental => "🌊"@,
        Race::Mech => "🤖"@,
        Race::Murloc => "🐸"@,
        Race::Undead => "💀"@,
        Race::Quilboar => "🐗"@,
        Race::Pirate => "🏴"@,
        Race::Neutral => "⚪"@,
    }
}

/// Every race has an icon of its own: none is empty, and no two races share one.
pub proof fn lemma_icons_distinct(a: Race, b: Race)
    ensures
        icon_of(a).len() > 0,
        a != b ==> icon_of(a) != icon_of(b),
{
    reveal_strlit("🐾");
    assert("🐾"@.len() == 1 && "🐾"@[0] == '🐾');
    reveal_strlit("😈");
    assert("😈"@.len() == 1 && "😈"@[0] == '😈');
    reveal_strlit("🐉");
    assert("🐉"@.len() == 1 && "🐉"@[0] == '🐉');
    reveal_strlit("🌊");
    assert("🌊"@.len() == 1 && "🌊"@[0] == '🌊');
    reveal_strlit("🤖");
    assert("🤖"@.len() == 1 && "🤖"@[0] == '🤖');
    reveal_strlit("🐸");
    assert("🐸"@.len() == 1 && "🐸"@[0] == '🐸');
    reveal_strlit("💀");
    assert("💀"@.len() == 1 && "💀"@[0] == '💀');
    reveal_strlit("🐗");
    assert("🐗"@.len() == 1 && "🐗"@[0] == '🐗');
    reveal_strlit("🏴");
    assert("🏴"@.len() == 1 && "🏴"@[0] == '🏴');
    reveal_strlit("⚪");
    assert("⚪"@.len() == 1 && "⚪"@[0] == '⚪');
    if a != b {
        assert(icon_of(a)[0] != icon_of(b)[0]);
    }
}

impl Race {
    /// The icon of this race.
    pub fn icon(&self) -> (icon: &'static str)
        ensures
            icon@ == icon_of(*self),
    {
        match self {
            Race::Beast => "🐾",
            Race::Demon => "😈",
            Race::Dragon => "🐉",
            Race::Elemental => "🌊",
            Race::Mech => "🤖",
            Race::Murloc => "🐸",
            Race::Undead => "💀",
            Race::Quilboar => "🐗",
            Race::Pirate => "🏴",
            Race::Neutral => "⚪",
        }
    }
}

/// What it costs to raise the tavern from `tier` to the next one.
pub open spec fn upgrade_cost(tier: int) -> int {
    if 6 - tier > 2 { 6 - tier } else { 2 }
}

/// The gold needed to raise the tavern from `tier`: six less the tier, and never under two.
pub fn tier_upgrade_cost(tier: i32) -> (cost: i32)
    requires
        tier >= i32::MIN + 7,
    ensures
        cost == upgrade_cost(tier as int),
{
    let c = 6 - tier;
    if c > 2 { c } else { 2 }
}

/// A minion as it is offered in the shop or stands on the board.
#[derive(Clone, Debug)]
pub struct Minion {
    pub name: String,
    pub attack: i32,
    pub health: i32,
    pub tier: i32,
    pub race: Race,
}

/// An entry of the pool that shops and enemy boards are drawn from.
#[derive(Clone, Debug)]
pub struct MinionTemplate {
    pub name: String,
    pub attack: i32,
    pub health: i32,
    pub tier: i32,
    pub race: Race,
}

/// Stats that a minion of the pool can have.
pub open spec fn valid_stats(attack: int, health: int, tier: int) -> bool {
    &&& 0 <= attack <= STAT_CAP
    &&& 1 <= health <= STAT_CAP
    &&& 1 <= tier <= MAX_TIER
}

impl Minion {
    pub open spec fn valid(self) -> bool {
        valid_stats(self.attack as int, self.health as int, self.tier as int)
    }

    /// A copy of this minion, field for field.
    pub fn copy(&self) -> (m: Minion)
        ensures
            m == *self,
    {
        Minion {
            name: self.name.clone(),
            attack: self.attack,
            health: self.health,
            tier: self.tier,
            race: self.race,
        }
    }

    /// The minion that a pool entry stands for.
    pub fn from_template(t: &MinionTemplate) -> (m: Minion)
        ensures
            m == minion_of(*t),
            m.name@ == t.name@,
            m.attack == t.attack,
            m.health == t.health,
            m.tier == t.tier,
            m.race == t.race,
    {
        Minion {
            name: t.name.clone(),
            attack: t.attack,
            health: t.health,
            tier: t.tier,
            race: t.race,
        }
    }
}

impl MinionTemplate {
    pub open spec fn valid(self) -> bool {
        valid_stats(self.attack as int, self.health as int, self.tier as int)
    }
}

/// The minion that a pool entry stands for: the same name, stats, tier and race.
pub open spec fn minion_of(t: MinionTemplate) -> Minion {
    Minion { name: t.name, attack: t.attack, health: t.health, tier: t.tier, race: t.race }
}

/// The minion of a pool entry keeps every field of the entry: its name, attack, health, tier
/// and race.
pub proof fn lemma_minion_keeps_template(t: MinionTemplate)
    ensures
        minion_of(t).name@ == t.name@,
        minion_of(t).attack == t.attack,
        minion_of(t).health == t.health,
        minion_of(t).tier == t.tier,
        minion_of(t).race == t.race,
{
}

/// Raising the tavern from tier one costs five gold, and each tier higher costs one gold less,
/// down to two; every raise fits in a full purse.
pub proof fn lemma_upgrade_cost_steps(tier: int)
    requires
        1 <= tier,
    ensures
        upgrade_cost(1) == 5,
        upgrade_cost(tier + 1) == if upgrade_cost(tier) - 1 > 2 { upgrade_cost(tier) - 1 } else { 2 },
        2 <= upgrade_cost(tier) <= MAX_GOLD,
{
}

/// Every entry of the pool has valid stats.
pub open spec fn all_valid(pool: Seq<MinionTemplate>) -> bool {
    forall|i: int| 0 <= i < pool.len() ==> #[trigger] pool[i].valid()
}

} // verus!
