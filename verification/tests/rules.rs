use tavern::battle::BattleReport;
use tavern::board::{BoardCard, CombatStats, ShopCard};
use tavern::card_art::card_image_key;
use tavern::cursor::{Keys, Selection};
use tavern::draw::GameData;
use tavern::game::{Enemy, Game, Phase, Player};
use tavern::minion::{tier_upgrade_cost, Minion, Race, MAX_GOLD};
use tavern::pool::minion_pool;

fn minion(name: &str, attack: i32, health: i32, tier: i32) -> Minion {
    Minion { name: name.to_string(), attack, health, tier, race: Race::Neutral }
}

fn card(slot: usize, attack: i32, health: i32) -> BoardCard {
    BoardCard {
        id: 0,
        slot,
        minion: minion("x", attack, health, 1),
        stats: Some(CombatStats { attack, health }),
    }
}

/// Puts the cards on the board as the cards that entered first, in order.
fn set_board(g: &mut Game, mut cards: Vec<BoardCard>) {
    for (i, c) in cards.iter_mut().enumerate() {
        c.id = i as u64;
    }
    g.next_id = cards.len() as u64;
    g.board = cards;
}

fn no_keys() -> Keys {
    Keys {
        shop_digits: [false; 4],
        board_digits: [false; 3],
        prev: false,
        next: false,
        buy: false,
        sell: false,
        refresh: false,
        upgrade: false,
        freeze: false,
        end_turn: false,
    }
}

#[test]
fn upgrade_cost_falls_with_tier_to_two() {
    assert_eq!(tier_upgrade_cost(1), 5);
    assert_eq!(tier_upgrade_cost(2), 4);
    assert_eq!(tier_upgrade_cost(3), 3);
    assert_eq!(tier_upgrade_cost(4), 2);
    assert_eq!(tier_upgrade_cost(5), 2);
    assert_eq!(tier_upgrade_cost(6), 2);
    assert_eq!(tier_upgrade_cost(-4), 10);
}

#[test]
fn race_icons() {
    assert_eq!(Race::Beast.icon(), "🐾");
    assert_eq!(Race::Mech.icon(), "🤖");
    assert_eq!(Race::Neutral.icon(), "⚪");
}

#[test]
fn card_image_keys() {
    assert_eq!(card_image_key("魔刃豹"), "Manasaber");
    assert_eq!(card_image_key("吵吵机器人"), "Annoy-o-Tron");
    assert_eq!(card_image_key("机械加拉克隆"), "Moonsteel_Juggernaut");
    assert_eq!(card_image_key("江河弹跳鱼"), "");
    assert_eq!(card_image_key(""), "");
}

#[test]
fn pool_has_every_tier() {
    let pool = minion_pool();
    assert_eq!(pool.len(), 92);
    for (tier, count) in [(1, 20), (2, 24), (3, 17), (4, 12), (5, 11), (6, 8)] {
        assert_eq!(pool.iter().filter(|t| t.tier == tier).count(), count);
    }
    assert_eq!(pool[0].name, "魔刃豹");
    assert_eq!((pool[0].attack, pool[0].health), (4, 1));
}

#[test]
fn shop_draws_distinct_minions_within_tier() {
    let mut data = GameData::new();
    for tier in 1..=6 {
        let offers = data.refresh_shop(tier);
        assert_eq!(offers.len(), 4);
        for o in &offers {
            assert!(o.tier <= tier);
        }
        for i in 0..offers.len() {
            for j in i + 1..offers.len() {
                assert_ne!(offers[i].name, offers[j].name);
            }
        }
    }
    assert!(data.refresh_shop(0).is_empty());
}

#[test]
fn enemy_board_grows_with_tier() {
    let mut data = GameData::new();
    assert_eq!(data.spawn_enemy(1).len(), 3);
    assert_eq!(data.spawn_enemy(4).len(), 6);
    assert_eq!(data.spawn_enemy(5).len(), 7);
    assert_eq!(data.spawn_enemy(6).len(), 7);
    assert_eq!(data.spawn_enemy(0).len(), 0);
    for m in data.spawn_enemy(2) {
        assert!(m.tier <= 2);
    }
}

#[test]
fn new_game_starts_in_the_shop() {
    let g = Game::new();
    assert_eq!(g.player, Player { gold: 3, tier: 1, health: 40 });
    assert_eq!(g.enemy, Enemy { health: 40, tier: 1 });
    assert_eq!(g.phase, Phase::Shop);
    assert!(!g.frozen);
    assert!(g.board.is_empty());
    let slots: Vec<usize> = g.shop.iter().map(|c| c.slot).collect();
    assert_eq!(slots, vec![0, 1, 2, 3]);
    assert!(g.shop.iter().all(|c| c.minion.tier == 1));
}

#[test]
fn buying_moves_a_minion_to_the_board() {
    let mut g = Game::new();
    let name = g.shop[2].minion.name.clone();
    assert!(g.buy(2));
    assert_eq!(g.player.gold, 0);
    assert_eq!(g.shop.len(), 3);
    assert_eq!(g.board.len(), 1);
    assert_eq!(g.board[0].slot, 0);
    assert_eq!(g.board[0].minion.name, name);
    assert_eq!(g.board[0].id, 0);
    assert_eq!(g.next_id, 1);
    let m = &g.board[0].minion;
    assert_eq!(g.board[0].stats, Some(CombatStats { attack: m.attack, health: m.health }));
    // no gold left
    assert!(!g.buy(0));
    assert_eq!(g.shop.len(), 3);
}

#[test]
fn buying_fills_the_first_free_slot() {
    let mut g = Game::new();
    g.player.gold = 10;
    set_board(&mut g, vec![card(0, 1, 1), card(2, 1, 1)]);
    assert!(g.buy(0));
    assert_eq!(g.board[2].slot, 1);
    assert_eq!(g.player.gold, 7);
}

#[test]
fn buying_needs_a_card_and_room() {
    let mut g = Game::new();
    g.player.gold = 10;
    assert!(!g.buy(7));
    set_board(&mut g, (0..7).map(|s| card(s, 1, 1)).collect());
    assert!(!g.buy(0));
    assert_eq!(g.shop.len(), 4);
    assert_eq!(g.player.gold, 10);
}

#[test]
fn selling_pays_back_the_tier_up_to_the_cap() {
    let mut g = Game::new();
    g.player.gold = 4;
    set_board(&mut g, vec![
        BoardCard { id: 0, slot: 5, minion: minion("a", 1, 1, 3), stats: None },
        BoardCard { id: 0, slot: 6, minion: minion("b", 1, 1, 6), stats: None },
    ]);
    assert!(g.sell(0));
    assert_eq!(g.player.gold, 7);
    assert_eq!(g.board[0].slot, 6);
    assert!(g.sell(1));
    assert_eq!(g.player.gold, MAX_GOLD);
    assert!(g.board.is_empty());
    assert!(!g.sell(0));
}

#[test]
fn enemy_cards_cannot_be_sold() {
    let mut g = Game::new();
    set_board(&mut g, vec![card(0, 1, 1), card(100, 1, 1)]);
    assert!(!g.sell(1));
    assert_eq!(g.board.len(), 2);
    assert_eq!(g.player.gold, 3);
    g.phase = Phase::Battle;
    assert!(!g.sell(0));
}

#[test]
fn a_stale_selection_sells_nothing() {
    let mut g = Game::new();
    g.player.gold = 10;
    set_board(&mut g, (0..6).map(|s| card(s, 1, 1)).collect());
    let mut sel = Selection { shop: None, board: None };
    let mut keys = no_keys();
    keys.board_digits[1] = true;
    g.read_keys(&mut sel, &keys);
    assert_eq!(sel.board, Some(5));
    // the selected card leaves the board, and a bought card takes its slot
    g.board.remove(5);
    assert!(g.buy(0));
    assert_eq!(g.board[5].slot, 5);
    assert_eq!(g.board[5].id, 6);
    let mut keys = no_keys();
    keys.sell = true;
    let orders = g.read_keys(&mut sel, &keys);
    assert_eq!(orders.sell, Some(5));
    assert!(!g.sell(5));
    assert_eq!(g.board.len(), 6);
    assert_eq!(g.player.gold, 7);
}

#[test]
fn upgrading_costs_gold_and_stops_at_the_top() {
    let mut g = Game::new();
    assert!(!g.upgrade());
    g.player.gold = 10;
    assert!(g.upgrade());
    assert_eq!(g.player, Player { gold: 5, tier: 2, health: 40 });
    assert_eq!(g.upgrade_price(), Some(4));
    g.player.tier = 6;
    assert_eq!(g.upgrade_price(), None);
    assert!(!g.upgrade());
    assert_eq!(g.player.gold, 5);
}

#[test]
fn freezing_toggles() {
    let mut g = Game::new();
    assert!(g.toggle_freeze());
    assert!(g.frozen);
    assert!(g.toggle_freeze());
    assert!(!g.frozen);
    g.phase = Phase::Battle;
    assert!(!g.toggle_freeze());
    assert!(!g.frozen);
}

#[test]
fn refreshing_costs_one_and_unfreezes() {
    let mut g = Game::new();
    g.frozen = true;
    g.shop.truncate(1);
    assert!(g.refresh());
    assert_eq!(g.player.gold, 2);
    assert!(!g.frozen);
    let slots: Vec<usize> = g.shop.iter().map(|c| c.slot).collect();
    assert_eq!(slots, vec![0, 1, 2, 3]);
    g.player.gold = 0;
    assert!(!g.refresh());
}

#[test]
fn ending_the_turn_brings_the_enemy() {
    let mut g = Game::new();
    assert!(!g.end_turn());
    set_board(&mut g, vec![card(0, 2, 2)]);
    assert!(g.end_turn());
    assert_eq!(g.phase, Phase::Battle);
    assert!(g.shop.is_empty());
    let enemy_slots: Vec<usize> = g.board.iter().skip(1).map(|c| c.slot).collect();
    assert_eq!(enemy_slots, vec![100, 101, 102]);
    let enemy_ids: Vec<u64> = g.board.iter().skip(1).map(|c| c.id).collect();
    assert_eq!(enemy_ids, vec![1, 2, 3]);
    assert_eq!(g.next_id, 4);
    assert!(g.board.iter().skip(1).all(|c| c.stats.is_some() && c.minion.tier == 1));
}

#[test]
fn a_frozen_shop_stays_for_the_next_turn() {
    let mut g = Game::new();
    set_board(&mut g, vec![card(0, 2, 2)]);
    g.toggle_freeze();
    assert!(g.end_turn());
    assert_eq!(g.shop.len(), 4);
    assert!(g.frozen);
}

#[test]
fn an_exchange_hurts_both_front_fighters() {
    let mut g = Game::new();
    g.phase = Phase::Battle;
    set_board(&mut g, vec![card(0, 3, 5), card(1, 1, 1), card(100, 2, 3), card(101, 9, 9)]);
    let r = g.battle_tick();
    assert_eq!(
        r,
        BattleReport::Exchange {
            player_slot: 0,
            foe_slot: 100,
            damage_to_player_card: 2,
            damage_to_foe: 3,
            player_card_falls: false,
            foe_falls: true,
        }
    );
    assert_eq!(g.board.len(), 3);
    assert_eq!(g.board[0].stats, Some(CombatStats { attack: 3, health: 3 }));
    assert_eq!(g.board[2].slot, 101);
}

#[test]
fn both_front_fighters_can_fall_at_once() {
    let mut g = Game::new();
    g.phase = Phase::Battle;
    set_board(&mut g, vec![card(100, 4, 2), card(3, 5, 4)]);
    let r = g.battle_tick();
    assert_eq!(
        r,
        BattleReport::Exchange {
            player_slot: 3,
            foe_slot: 100,
            damage_to_player_card: 4,
            damage_to_foe: 5,
            player_card_falls: true,
            foe_falls: true,
        }
    );
    assert!(g.board.is_empty());
}

#[test]
fn a_won_battle_hurts_the_enemy_and_refills_gold() {
    let mut g = Game::new();
    g.phase = Phase::Battle;
    g.player.gold = 0;
    g.player.tier = 2;
    set_board(&mut g, vec![card(0, 1, 1), card(3, 1, 1), BoardCard { id: 0, slot: 4, minion: minion("old", 1, 1, 1), stats: None }]);
    let r = g.battle_tick();
    assert_eq!(r, BattleReport::Finished { won: true, damage: 4 });
    assert_eq!(g.enemy.health, 36);
    assert_eq!(g.player.gold, MAX_GOLD);
    assert_eq!(g.phase, Phase::Shop);
    assert_eq!(g.board.len(), 3);
    assert!(g.board.iter().all(|c| c.stats.is_none()));
}

#[test]
fn a_lost_battle_hurts_the_player() {
    let mut g = Game::new();
    g.phase = Phase::Battle;
    set_board(&mut g, vec![card(0, 0, 1), card(100, 0, 3), card(101, 0, 3)]);
    g.board[0].stats = None;
    let r = g.battle_tick();
    assert_eq!(r, BattleReport::Finished { won: false, damage: 3 });
    assert_eq!(g.player.health, 37);
    assert_eq!(g.board.len(), 1);
    assert_eq!(g.board[0].slot, 0);
}

#[test]
fn an_empty_battle_is_lost() {
    let mut g = Game::new();
    g.phase = Phase::Battle;
    let r = g.battle_tick();
    assert_eq!(r, BattleReport::Finished { won: false, damage: 1 });
    assert_eq!(g.player.health, 39);
}

#[test]
fn the_game_ends_when_a_hero_falls_and_can_restart() {
    let mut g = Game::new();
    g.phase = Phase::Battle;
    g.enemy.health = 2;
    set_board(&mut g, vec![card(0, 1, 1)]);
    let r = g.battle_tick();
    assert_eq!(r, BattleReport::Finished { won: true, damage: 2 });
    assert_eq!(g.phase, Phase::GameOver);
    assert_eq!(g.player.gold, 3);
    assert!(!g.player_lost());
    assert_eq!(g.battle_tick(), BattleReport::Idle);
    g.frozen = true;
    let kept = g.shop.len();
    assert!(g.restart());
    assert_eq!(g.player, Player { gold: 3, tier: 1, health: 40 });
    assert_eq!(g.enemy, Enemy { health: 40, tier: 1 });
    assert_eq!(g.phase, Phase::Shop);
    assert!(!g.frozen);
    assert!(g.board.is_empty());
    assert_eq!(g.shop.len(), kept + 4);
    assert!(!g.restart());
}

#[test]
fn a_whole_battle_runs_to_its_end() {
    let mut g = Game::new();
    set_board(&mut g, vec![card(0, 3, 3), card(1, 2, 4)]);
    assert!(g.end_turn());
    let mut ticks = 0;
    loop {
        ticks += 1;
        assert!(ticks < 100);
        match g.battle_tick() {
            BattleReport::Finished { .. } => break,
            BattleReport::Exchange { .. } => {}
            BattleReport::Idle => panic!("the battle stopped"),
        }
    }
    assert_ne!(g.phase, Phase::Battle);
    assert!(g.board.iter().all(|c| c.slot < 100 && c.stats.is_none()));
}

#[test]
fn digit_keys_select_shop_slots_that_hold_cards() {
    let mut g = Game::new();
    g.shop.remove(1);
    let mut sel = Selection { shop: None, board: None };
    let mut keys = no_keys();
    keys.shop_digits[2] = true;
    g.read_keys(&mut sel, &keys);
    assert_eq!(sel.shop, Some(2));
    keys.shop_digits = [false, true, false, false];
    g.read_keys(&mut sel, &keys);
    assert_eq!(sel.shop, Some(2));
}

#[test]
fn arrow_keys_cycle_through_sorted_slots() {
    let mut g = Game::new();
    g.shop = vec![
        ShopCard { slot: 3, minion: minion("c", 1, 1, 1) },
        ShopCard { slot: 0, minion: minion("a", 1, 1, 1) },
        ShopCard { slot: 2, minion: minion("b", 1, 1, 1) },
    ];
    let mut sel = Selection { shop: None, board: None };
    g.read_keys(&mut sel, &no_keys());
    assert_eq!(sel.shop, Some(0));
    let mut back = no_keys();
    back.prev = true;
    g.read_keys(&mut sel, &back);
    assert_eq!(sel.shop, Some(3));
    let mut on = no_keys();
    on.next = true;
    g.read_keys(&mut sel, &on);
    assert_eq!(sel.shop, Some(0));
    g.read_keys(&mut sel, &on);
    assert_eq!(sel.shop, Some(2));
    sel.shop = Some(1);
    g.read_keys(&mut sel, &on);
    assert_eq!(sel.shop, Some(2));
    g.shop.clear();
    g.read_keys(&mut sel, &no_keys());
    assert_eq!(sel.shop, None);
}

#[test]
fn keys_give_orders() {
    let mut g = Game::new();
    set_board(&mut g, vec![card(5, 1, 1)]);
    let mut sel = Selection { shop: Some(1), board: None };
    let mut keys = no_keys();
    keys.board_digits[1] = true;
    keys.buy = true;
    keys.sell = true;
    keys.end_turn = true;
    let orders = g.read_keys(&mut sel, &keys);
    assert_eq!(orders.buy, Some(1));
    assert_eq!(orders.sell, Some(0));
    assert!(orders.end_turn && !orders.refresh && !orders.upgrade && !orders.freeze);
    assert_eq!(sel.board, None);
    let mut keys = no_keys();
    keys.board_digits[0] = true;
    g.read_keys(&mut sel, &keys);
    assert_eq!(sel.board, None);
    keys.board_digits = [false, true, false];
    g.read_keys(&mut sel, &keys);
    assert_eq!(sel.board, Some(0));
}

#[test]
fn counting_the_board() {
    let mut g = Game::new();
    set_board(&mut g, vec![card(0, 1, 1), card(1, 1, 1), card(100, 1, 1)]);
    assert_eq!(g.player_board_count(), 2);
    g.player.health = 0;
    assert!(g.player_lost());
}


#[test]
fn freezing_three_times_leaves_the_shop_frozen() {
    let mut g = Game::new();
    let shop: Vec<String> = g.shop.iter().map(|c| c.minion.name.clone()).collect();
    for _ in 0..3 {
        assert!(g.toggle_freeze());
    }
    assert!(g.frozen);
    assert!(g.toggle_freeze());
    assert!(!g.frozen);
    let after: Vec<String> = g.shop.iter().map(|c| c.minion.name.clone()).collect();
    assert_eq!(shop, after);
    assert_eq!(g.player, Player { gold: 3, tier: 1, health: 40 });
}

#[test]
fn back_then_on_returns_to_the_slot() {
    let mut g = Game::new();
    g.shop.remove(2);
    let mut keys = no_keys();
    keys.prev = true;
    keys.next = true;
    for start in [0, 1, 3] {
        let mut sel = Selection { shop: Some(start), board: None };
        g.read_keys(&mut sel, &keys);
        assert_eq!(sel.shop, Some(start));
    }
}

#[test]
fn pictures_are_distinct_and_belong_to_pool_minions() {
    let pool = minion_pool();
    let mut keys: Vec<&str> = pool.iter().map(|t| card_image_key(&t.name)).filter(|k| !k.is_empty()).collect();
    assert_eq!(keys.len(), 40);
    keys.sort();
    keys.dedup();
    assert_eq!(keys.len(), 40);
    assert_eq!(card_image_key("缝合怪"), "One-Amalgam_Tour_Group");
    assert!(pool.iter().any(|t| t.name == "缝合怪"));
}

#[test]
fn race_icons_are_distinct() {
    let races = [
        Race::Beast, Race::Demon, Race::Dragon, Race::Elemental, Race::Mech,
        Race::Murloc, Race::Undead, Race::Quilboar, Race::Pirate, Race::Neutral,
    ];
    let mut icons: Vec<&str> = races.iter().map(|r| r.icon()).collect();
    assert!(icons.iter().all(|i| !i.is_empty()));
    icons.sort();
    icons.dedup();
    assert_eq!(icons.len(), 10);
}

#[test]
fn the_opening_shop_comes_from_the_table() {
    let g = Game::new();
    assert_eq!(g.data.minions.len(), 92);
    assert_eq!(g.data.minions[91].name, "缝合怪");
    assert_eq!(g.next_id, 0);
    for i in 0..g.shop.len() {
        for j in i + 1..g.shop.len() {
            assert_ne!(g.shop[i].minion.name, g.shop[j].minion.name);
        }
    }
}
