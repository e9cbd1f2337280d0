//! The pool of minions that shops and enemy boards are drawn from.

use vstd::prelude::*;
use crate::minion::{all_valid, valid_stats, MinionTemplate, Race};

verus! {

/// The positions in `pool` of the entries whose tier is at most `tier`, in increasing order.
pub open spec fn available(pool: Seq<MinionTemplate>, tier: int) -> Seq<int>
    decreases pool.len(),
{
    if pool.len() == 0 {
        Seq::empty()
    } else {
        let rest = available(pool.drop_last(), tier);
        if pool.last().tier <= tier {
            rest.push(pool.len() - 1)
        } else {
            rest
        }
    }
}

/// The positions that `available` gives are in range, strictly increasing, of entries
/// within the tier, and every entry within the tier is among them.
pub proof fn lemma_available(pool: Seq<MinionTemplate>, tier: int)
    ensures
        forall|k: int| 0 <= k < available(pool, tier).len()
            ==> 0 <= #[trigger] available(pool, tier)[k] < pool.len(),
        forall|k: int| 0 <= k < available(pool, tier).len()
            ==> pool[#[trigger] available(pool, tier)[k]].tier <= tier,
        forall|k: int, l: int| 0 <= k < l < available(pool, tier).len()
            ==> #[trigger] available(pool, tier)[k] < #[trigger] available(pool, tier)[l],
        forall|i: int| 0 <= i < pool.len() && pool[i].tier <= tier
            ==> #[trigger] available(pool, tier).contains(i),
        available(pool, tier).len() <= pool.len(),
    decreases pool.len(),
{
    if pool.len() > 0 {
        let rest = pool.drop_last();
        lemma_available(rest, tier);
        let a = available(pool, tier);
        let r = available(rest, tier);
        assert forall|i: int| 0 <= i < pool.len() && pool[i].tier <= tier implies a.contains(i) by {
            if i < pool.len() - 1 {
                assert(rest[i] == pool[i]);
                assert(r.contains(i));
                let k = choose|k: int| 0 <= k < r.len() && r[k] == i;
                assert(a[k] == i);
            } else {
                assert(a[a.len() - 1] == i);
            }
        }
    }
}

/// The entry at position `i` of the game's pool: name, attack, health, tier and race.
pub open spec fn pool_entry(i: int) -> (Seq<char>, i32, i32, i32, Race) {
    if i == 0 {
        ("魔刃豹"@, 4, 1, 1, Race::Beast)
    } else if i == 1 {
        ("江河弹跳鱼"@, 1, 1, 1, Race::Beast)
    } else if i == 2 {
        ("厄运先知"@, 2, 1, 1, Race::Demon)
    } else if i == 3 {
        ("挑食魔犬"@, 1, 1, 1, Race::Demon)
    } else if i == 4 {
        ("愤怒编织者"@, 1, 4, 1, Race::Demon)
    } else if i == 5 {
        ("血色幸存飞龙"@, 3, 3, 1, Race::Dragon)
    } else if i == 6 {
        ("暮光龙崽"@, 1, 1, 1, Race::Dragon)
    } else if i == 7 {
        ("蓄势主唱幼龙"@, 1, 1, 1, Race::Dragon)
    } else if i == 8 {
        ("爆裂飓风"@, 2, 1, 1, Race::Elemental)
    } else if i == 9 {
        ("沙丘土著"@, 3, 2, 1, Race::Elemental)
    } else if i == 10 {
        ("吵吵机器人"@, 1, 2, 1, Race::Mech)
    } else if i == 11 {
        ("拔线机"@, 1, 1, 1, Race::Mech)
    } else if i == 12 {
        ("好斗的斥候"@, 3, 3, 1, Race::Murloc)
    } else if i == 13 {
        ("无害的骨颅"@, 1, 1, 1, Race::Undead)
    } else if i == 14 {
        ("复活的骑兵"@, 2, 1, 1, Race::Undead)
    } else if i == 15 {
        ("剃刀沼泽地卜师"@, 2, 1, 1, Race::Quilboar)
    } else if i == 16 {
        ("晾膘的游客"@, 2, 3, 1, Race::Quilboar)
    } else if i == 17 {
        ("夺金健将"@, 1, 1, 1, Race::Pirate)
    } else if i == 18 {
        ("南海卖艺者"@, 3, 1, 1, Race::Pirate)
    } else if i == 19 {
        ("贪吃的穴居人"@, 2, 3, 1, Race::Neutral)
    } else if i == 20 {
        ("哼鸣蜂鸟"@, 1, 4, 2, Race::Beast)
    } else if i == 21 {
        ("下水道老鼠"@, 3, 2, 2, Race::Beast)
    } else if i == 22 {
        ("实验室助理"@, 3, 4, 2, Race::Demon)
    } else if i == 23 {
        ("灵魂回溯者"@, 4, 1, 2, Race::Demon)
    } else if i == 24 {
        ("烈火飞鱼"@, 2, 4, 2, Race::Dragon)
    } else if i == 25 {
        ("贪睡的援护巨龙"@, 4, 3, 2, Race::Dragon)
    } else if i == 26 {
        ("泰蕾苟萨"@, 4, 4, 2, Race::Dragon)
    } else if i == 27 {
        ("火焰投球手"@, 4, 3, 2, Race::Elemental)
    } else if i == 28 {
        ("商贩元素"@, 3, 3, 2, Race::Elemental)
    } else if i == 29 {
        ("冰雪投球手"@, 3, 4, 2, Race::Elemental)
    } else if i == 30 {
        ("星元自动机"@, 3, 4, 2, Race::Mech)
    } else if i == 31 {
        ("钢铁猎人"@, 2, 1, 2, Race::Mech)
    } else if i == 32 {
        ("通报警告机"@, 1, 1, 2, Race::Mech)
    } else if i == 33 {
        ("飞行专家"@, 3, 4, 2, Race::Murloc)
    } else if i == 34 {
        ("塔德"@, 2, 2, 2, Race::Murloc)
    } else if i == 35 {
        ("巨饿冬鳍鱼人"@, 2, 5, 2, Race::Murloc)
    } else if i == 36 {
        ("永恒骑士"@, 4, 1, 2, Race::Undead)
    } else if i == 37 {
        ("死亡群居蛛魔"@, 1, 4, 2, Race::Undead)
    } else if i == 38 {
        ("古老之魂"@, 3, 4, 2, Race::Undead)
    } else if i == 39 {
        ("野猪预言者"@, 2, 3, 2, Race::Quilboar)
    } else if i == 40 {
        ("挑衅的船工"@, 2, 5, 2, Race::Pirate)
    } else if i == 41 {
        ("白赚赌徒"@, 3, 3, 2, Race::Pirate)
    } else if i == 42 {
        ("新锐植物学家"@, 3, 4, 2, Race::Neutral)
    } else if i == 43 {
        ("耐心的侦查员"@, 1, 1, 2, Race::Neutral)
    } else if i == 44 {
        ("狡猾的迅猛龙"@, 1, 3, 3, Race::Beast)
    } else if i == 45 {
        ("邪能元素"@, 3, 3, 3, Race::Demon)
    } else if i == 46 {
        ("吸血地狱犬"@, 3, 3, 3, Race::Demon)
    } else if i == 47 {
        ("琥珀卫士"@, 3, 2, 3, Race::Dragon)
    } else if i == 48 {
        ("钩牙船长"@, 1, 4, 3, Race::Dragon)
    } else if i == 49 {
        ("野火元素"@, 6, 3, 3, Race::Elemental)
    } else if i == 50 {
        ("聚积风暴"@, 5, 1, 3, Race::Elemental)
    } else if i == 51 {
        ("偏折机器人"@, 3, 2, 3, Race::Mech)
    } else if i == 52 {
        ("吵吵模组"@, 2, 4, 3, Race::Mech)
    } else if i == 53 {
        ("手风琴机器人"@, 3, 3, 3, Race::Mech)
    } else if i == 54 {
        ("拜戈尔格国王"@, 2, 3, 3, Race::Murloc)
    } else if i == 55 {
        ("刺豚野猪"@, 2, 6, 3, Race::Quilboar)
    } else if i == 56 {
        ("刺头吹笛人"@, 5, 1, 3, Race::Quilboar)
    } else if i == 57 {
        ("暗膘爵士乐手"@, 2, 5, 3, Race::Quilboar)
    } else if i == 58 {
        ("佩吉·斯特迪伯"@, 2, 1, 3, Race::Pirate)
    } else if i == 59 {
        ("断手被遗忘者"@, 2, 1, 3, Race::Undead)
    } else if i == 60 {
        ("致命的孢子"@, 1, 1, 3, Race::Neutral)
    } else if i == 61 {
        ("香蕉猛击者"@, 3, 6, 4, Race::Beast)
    } else if i == 62 {
        ("铁喙猫头鹰"@, 5, 4, 4, Race::Beast)
    } else if i == 63 {
        ("舞者达瑞尔"@, 5, 4, 4, Race::Demon)
    } else if i == 64 {
        ("火药运输工"@, 4, 5, 4, Race::Demon)
    } else if i == 65 {
        ("末日之卵"@, 0, 5, 4, Race::Dragon)
    } else if i == 66 {
        ("冲浪的希尔梵"@, 4, 6, 4, Race::Elemental)
    } else if i == 67 {
        ("机械剑龙"@, 3, 5, 4, Race::Mech)
    } else if i == 68 {
        ("寻宝鱼人"@, 4, 4, 4, Race::Murloc)
    } else if i == 69 {
        ("拜戈尔格王后"@, 6, 3, 4, Race::Murloc)
    } else if i == 70 {
        ("瘟疫行者"@, 4, 2, 4, Race::Undead)
    } else if i == 71 {
        ("过路旅客"@, 1, 10, 4, Race::Neutral)
    } else if i == 72 {
        ("隧道爆破者"@, 3, 7, 4, Race::Neutral)
    } else if i == 73 {
        ("鼠王"@, 4, 6, 5, Race::Beast)
    } else if i == 74 {
        ("刺背恶霸"@, 8, 2, 5, Race::Beast)
    } else if i == 75 {
        ("大方的地卜师"@, 4, 6, 5, Race::Demon)
    } else if i == 76 {
        ("提克特斯"@, 3, 6, 5, Race::Demon)
    } else if i == 77 {
        ("玛里苟斯"@, 4, 12, 5, Race::Dragon)
    } else if i == 78 {
        ("狂风之翼"@, 16, 8, 5, Race::Dragon)
    } else if i == 79 {
        ("死神4000型"@, 6, 2, 5, Race::Mech)
    } else if i == 80 {
        ("菌菇术士弗洛格尔"@, 4, 8, 5, Race::Murloc)
    } else if i == 81 {
        ("尤朵拉船长"@, 10, 5, 5, Race::Pirate)
    } else if i == 82 {
        ("布莱恩·铜须"@, 2, 4, 5, Race::Neutral)
    } else if i == 83 {
        ("瑞文戴尔男爵"@, 1, 7, 5, Race::Neutral)
    } else if i == 84 {
        ("戈德林大狼"@, 8, 8, 6, Race::Beast)
    } else if i == 85 {
        ("饥饿的魔蝠"@, 9, 5, 6, Race::Demon)
    } else if i == 86 {
        ("卡雷苟斯"@, 4, 12, 6, Race::Dragon)
    } else if i == 87 {
        ("死亡之翼"@, 10, 10, 6, Race::Dragon)
    } else if i == 88 {
        ("小瞎眼"@, 8, 8, 6, Race::Elemental)
    } else if i == 89 {
        ("机械加拉克隆"@, 6, 6, 6, Race::Mech)
    } else if i == 90 {
        ("天空上尉库拉格"@, 4, 6, 6, Race::Pirate)
    } else if i == 91 {
        ("缝合怪"@, 6, 7, 6, Race::Neutral)
    } else {
        (Seq::empty(), 0, 0, 0, Race::Neutral)
    }
}

/// The template holds the given entry.
pub open spec fn holds_entry(t: MinionTemplate, e: (Seq<char>, i32, i32, i32, Race)) -> bool {
    &&& t.name@ == e.0
    &&& t.attack == e.1
    &&& t.health == e.2
    &&& t.tier == e.3
    &&& t.race == e.4
}

/// Past the first twenty entries of the table every minion is of tier two or more.
pub proof fn lemma_table_tiers()
    ensures
        forall|j: int| 20 <= j < POOL_SIZE ==> #[trigger] pool_entry(j).3 >= 2,
        forall|j: int| 0 <= j < 20 ==> #[trigger] pool_entry(j).3 == 1,
{
}

/// The tier-one minions of the table all have different names.
pub proof fn lemma_tier_one_names()
    ensures
        forall|i: int, j: int| 0 <= i < j < 20 ==> #[trigger] pool_entry(i).0 != #[trigger] pool_entry(j).0,
{
    assert forall|i: int, j: int| 0 <= i < j < 20 implies #[trigger] pool_entry(i).0 != #[trigger] pool_entry(j).0 by {
        if i == 0 {
            if j == 1 {
                reveal_strlit("魔刃豹");
                reveal_strlit("江河弹跳鱼");
                assert(pool_entry(0).0 == "魔刃豹"@);
                assert(pool_entry(1).0 == "江河弹跳鱼"@);
                assert("魔刃豹"@.len() != "江河弹跳鱼"@.len());
                assert(pool_entry(0).0 != pool_entry(1).0);
            } else if j == 2 {
                reveal_strlit("魔刃豹");
                reveal_strlit("厄运先知");
                assert(pool_entry(0).0 == "魔刃豹"@);
                assert(pool_entry(2).0 == "厄运先知"@);
                assert("魔刃豹"@.len() != "厄运先知"@.len());
                assert(pool_entry(0).0 != pool_entry(2).0);
            } else if j == 3 {
                reveal_strlit("魔刃豹");
                reveal_strlit("挑食魔犬");
                assert(pool_entry(0).0 == "魔刃豹"@);
                assert(pool_entry(3).0 == "挑食魔犬"@);
                assert("魔刃豹"@.len() != "挑食魔犬"@.len());
                assert(pool_entry(0).0 != pool_entry(3).0);
            } else if j == 4 {
                reveal_strlit("魔刃豹");
                reveal_strlit("愤怒编织者");
                assert(pool_entry(0).0 == "魔刃豹"@);
                assert(pool_entry(4).0 == "愤怒编织者"@);
                assert("魔刃豹"@.len() != "愤怒编织者"@.len());
                assert(pool_entry(0).0 != pool_entry(4).0);
            } else if j == 5 {
                reveal_strlit("魔刃豹");
                reveal_strlit("血色幸存飞龙");
                assert(pool_entry(0).0 == "魔刃豹"@);
                assert(pool_entry(5).0 == "血色幸存飞龙"@);
                assert("魔刃豹"@.len() != "血色幸存飞龙"@.len());
                assert(pool_entry(0).0 != pool_entry(5).0);
            } else if j == 6 {
                reveal_strlit("魔刃豹");
                reveal_strlit("暮光龙崽");
                assert(pool_entry(0).0 == "魔刃豹"@);
                assert(pool_entry(6).0 == "暮光龙崽"@);
                assert("魔刃豹"@.len() != "暮光龙崽"@.len());
                assert(pool_entry(0).0 != pool_entry(6).0);
            } else if j == 7 {
                reveal_strlit("魔刃豹");
                reveal_strlit("蓄势主唱幼龙");
                assert(pool_entry(0).0 == "魔刃豹"@);
                assert(pool_entry(7).0 == "蓄势主唱幼龙"@);
                assert("魔刃豹"@.len() != "蓄势主唱幼龙"@.len());
                assert(pool_entry(0).0 != pool_entry(7).0);
            } else if j == 8 {
                reveal_strlit("魔刃豹");
                reveal_strlit("爆裂飓风");
                assert(pool_entry(0).0 == "魔刃豹"@);
                assert(pool_entry(8).0 == "爆裂飓风"@);
                assert("魔刃豹"@.len() != "爆裂飓风"@.len());
                assert(pool_entry(0).0 != pool_entry(8).0);
            } else if j == 9 {
                reveal_strlit("魔刃豹");
                reveal_strlit("沙丘土著");
                assert(pool_entry(0).0 == "魔刃豹"@);
                assert(pool_entry(9).0 == "沙丘土著"@);
                assert("魔刃豹"@.len() != "沙丘土著"@.len());
                assert(pool_entry(0).0 != pool_entry(9).0);
            } else if j == 10 {
                reveal_strlit("魔刃豹");
                reveal_strlit("吵吵机器人");
                assert(pool_entry(0).0 == "魔刃豹"@);
                assert(pool_entry(10).0 == "吵吵机器人"@);
                assert("魔刃豹"@.len() != "吵吵机器人"@.len());
                assert(pool_entry(0).0 != pool_entry(10).0);
            } else if j == 11 {
                reveal_strlit("魔刃豹");
                reveal_strlit("拔线机");
                assert(pool_entry(0).0 == "魔刃豹"@);
                assert(pool_entry(11).0 == "拔线机"@);
                assert("魔刃豹"@[0] != "拔线机"@[0]);
                assert(pool_entry(0).0 != pool_entry(11).0);
            } else if j == 12 {
                reveal_strlit("魔刃豹");
                reveal_strlit("好斗的斥候");
                assert(pool_entry(0).0 == "魔刃豹"@);
                assert(pool_entry(12).0 == "好斗的斥候"@);
                assert("魔刃豹"@.len() != "好斗的斥候"@.len());
                assert(pool_entry(0).0 != pool_entry(12).0);
            } else if j == 13 {
                reveal_strlit("魔刃豹");
                reveal_strlit("无害的骨颅");
                assert(pool_entry(0).0 == "魔刃豹"@);
                assert(pool_entry(13).0 == "无害的骨颅"@);
                assert("魔刃豹"@.len() != "无害的骨颅"@.len());
                assert(pool_entry(0).0 != pool_entry(13).0);
            } else if j == 14 {
                reveal_strlit("魔刃豹");
                reveal_strlit("复活的骑兵");
                assert(pool_entry(0).0 == "魔刃豹"@);
                assert(pool_entry(14).0 == "复活的骑兵"@);
                assert("魔刃豹"@.len() != "复活的骑兵"@.len());
                assert(pool_entry(0).0 != pool_entry(14).0);
            } else if j == 15 {
                reveal_strlit("魔刃豹");
                reveal_strlit("剃刀沼泽地卜师");
                assert(pool_entry(0).0 == "魔刃豹"@);
                assert(pool_entry(15).0 == "剃刀沼泽地卜师"@);
                assert("魔刃豹"@.len() != "剃刀沼泽地卜师"@.len());
                assert(pool_entry(0).0 != pool_entry(15).0);
            } else if j == 16 {
                reveal_strlit("魔刃豹");
                reveal_strlit("晾膘的游客");
                assert(pool_entry(0).0 == "魔刃豹"@);
                assert(pool_entry(16).0 == "晾膘的游客"@);
                assert("魔刃豹"@.len() != "晾膘的游客"@.len());
                assert(pool_entry(0).0 != pool_entry(16).0);
            } else if j == 17 {
                reveal_strlit("魔刃豹");
                reveal_strlit("夺金健将");
                assert(pool_entry(0).0 == "魔刃豹"@);
                assert(pool_entry(17).0 == "夺金健将"@);
                assert("魔刃豹"@.len() != "夺金健将"@.len());
                assert(pool_entry(0).0 != pool_entry(17).0);
            } else if j == 18 {
                reveal_strlit("魔刃豹");
                reveal_strlit("南海卖艺者");
                assert(pool_entry(0).0 == "魔刃豹"@);
                assert(pool_entry(18).0 == "南海卖艺者"@);
                assert("魔刃豹"@.len() != "南海卖艺者"@.len());
                assert(pool_entry(0).0 != pool_entry(18).0);
            } else if j == 19 {
                reveal_strlit("魔刃豹");
                reveal_strlit("贪吃的穴居人");
                assert(pool_entry(0).0 == "魔刃豹"@);
                assert(pool_entry(19).0 == "贪吃的穴居人"@);
                assert("魔刃豹"@.len() != "贪吃的穴居人"@.len());
                assert(pool_entry(0).0 != pool_entry(19).0);
            }
        } else if i == 1 {
            if j == 2 {
                reveal_strlit("江河弹跳鱼");
                reveal_strlit("厄运先知");
                assert(pool_entry(1).0 == "江河弹跳鱼"@);
                assert(pool_entry(2).0 == "厄运先知"@);
                assert("江河弹跳鱼"@.len() != "厄运先知"@.len());
                assert(pool_entry(1).0 != pool_entry(2).0);
            } else if j == 3 {
                reveal_strlit("江河弹跳鱼");
                reveal_strlit("挑食魔犬");
                assert(pool_entry(1).0 == "江河弹跳鱼"@);
                assert(pool_entry(3).0 == "挑食魔犬"@);
                assert("江河弹跳鱼"@.len() != "挑食魔犬"@.len());
                assert(pool_entry(1).0 != pool_entry(3).0);
            } else if j == 4 {
                reveal_strlit("江河弹跳鱼");
                reveal_strlit("愤怒编织者");
                assert(pool_entry(1).0 == "江河弹跳鱼"@);
                assert(pool_entry(4).0 == "愤怒编织者"@);
                assert("江河弹跳鱼"@[0] != "愤怒编织者"@[0]);
                assert(pool_entry(1).0 != pool_entry(4).0);
            } else if j == 5 {
                reveal_strlit("江河弹跳鱼");
                reveal_strlit("血色幸存飞龙");
                assert(pool_entry(1).0 == "江河弹跳鱼"@);
                assert(pool_entry(5).0 == "血色幸存飞龙"@);
                assert("江河弹跳鱼"@.len() != "血色幸存飞龙"@.len());
                assert(pool_entry(1).0 != pool_entry(5).0);
            } else if j == 6 {
                reveal_strlit("江河弹跳鱼");
                reveal_strlit("暮光龙崽");
                assert(pool_entry(1).0 == "江河弹跳鱼"@);
                assert(pool_entry(6).0 == "暮光龙崽"@);
                assert("江河弹跳鱼"@.len() != "暮光龙崽"@.len());
                assert(pool_entry(1).0 != pool_entry(6).0);
            } else if j == 7 {
                reveal_strlit("江河弹跳鱼");
                reveal_strlit("蓄势主唱幼龙");
                assert(pool_entry(1).0 == "江河弹跳鱼"@);
                assert(pool_entry(7).0 == "蓄势主唱幼龙"@);
                assert("江河弹跳鱼"@.len() != "蓄势主唱幼龙"@.len());
                assert(pool_entry(1).0 != pool_entry(7).0);
            } else if j == 8 {
                reveal_strlit("江河弹跳鱼");
                reveal_strlit("爆裂飓风");
                assert(pool_entry(1).0 == "江河弹跳鱼"@);
                assert(pool_entry(8).0 == "爆裂飓风"@);
                assert("江河弹跳鱼"@.len() != "爆裂飓风"@.len());
                assert(pool_entry(1).0 != pool_entry(8).0);
            } else if j == 9 {
                reveal_strlit("江河弹跳鱼");
                reveal_strlit("沙丘土著");
                assert(pool_entry(1).0 == "江河弹跳鱼"@);
                assert(pool_entry(9).0 == "沙丘土著"@);
                assert("江河弹跳鱼"@.len() != "沙丘土著"@.len());
                assert(pool_entry(1).0 != pool_entry(9).0);
            } else if j == 10 {
                reveal_strlit("江河弹跳鱼");
                reveal_strlit("吵吵机器人");
                assert(pool_entry(1).0 == "江河弹跳鱼"@);
                assert(pool_entry(10).0 == "吵吵机器人"@);
                assert("江河弹跳鱼"@[0] != "吵吵机器人"@[0]);
                assert(pool_entry(1).0 != pool_entry(10).0);
            } else if j == 11 {
                reveal_strlit("江河弹跳鱼");
                reveal_strlit("拔线机");
                assert(pool_entry(1).0 == "江河弹跳鱼"@);
                assert(pool_entry(11).0 == "拔线机"@);
                assert("江河弹跳鱼"@.len() != "拔线机"@.len());
                assert(pool_entry(1).0 != pool_entry(11).0);
            } else if j == 12 {
                reveal_strlit("江河弹跳鱼");
                reveal_strlit("好斗的斥候");
                assert(pool_entry(1).0 == "江河弹跳鱼"@);
                assert(pool_entry(12).0 == "好斗的斥候"@);
                assert("江河弹跳鱼"@[0] != "好斗的斥候"@[0]);
                assert(pool_entry(1).0 != pool_entry(12).0);
            } else if j == 13 {
                reveal_strlit("江河弹跳鱼");
                reveal_strlit("无害的骨颅");
                assert(pool_entry(1).0 == "江河弹跳鱼"@);
                assert(pool_entry(13).0 == "无害的骨颅"@);
                assert("江河弹跳鱼"@[0] != "无害的骨颅"@[0]);
                assert(pool_entry(1).0 != pool_entry(13).0);
            } else if j == 14 {
                reveal_strlit("江河弹跳鱼");
                reveal_strlit("复活的骑兵");
                assert(pool_entry(1).0 == "江河弹跳鱼"@);
                assert(pool_entry(14).0 == "复活的骑兵"@);
                assert("江河弹跳鱼"@[0] != "复活的骑兵"@[0]);
                assert(pool_entry(1).0 != pool_entry(14).0);
            } else if j == 15 {
                reveal_strlit("江河弹跳鱼");
                reveal_strlit("剃刀沼泽地卜师");
                assert(pool_entry(1).0 == "江河弹跳鱼"@);
                assert(pool_entry(15).0 == "剃刀沼泽地卜师"@);
                assert("江河弹跳鱼"@.len() != "剃刀沼泽地卜师"@.len());
                assert(pool_entry(1).0 != pool_entry(15).0);
            } else if j == 16 {
                reveal_strlit("江河弹跳鱼");
                reveal_strlit("晾膘的游客");
                assert(pool_entry(1).0 == "江河弹跳鱼"@);
                assert(pool_entry(16).0 == "晾膘的游客"@);
                assert("江河弹跳鱼"@[0] != "晾膘的游客"@[0]);
                assert(pool_entry(1).0 != pool_entry(16).0);
            } else if j == 17 {
                reveal_strlit("江河弹跳鱼");
                reveal_strlit("夺金健将");
                assert(pool_entry(1).0 == "江河弹跳鱼"@);
                assert(pool_entry(17).0 == "夺金健将"@);
                assert("江河弹跳鱼"@.len() != "夺金健将"@.len());
                assert(pool_entry(1).0 != pool_entry(17).0);
            } else if j == 18 {
                reveal_strlit("江河弹跳鱼");
                reveal_strlit("南海卖艺者");
                assert(pool_entry(1).0 == "江河弹跳鱼"@);
                assert(pool_entry(18).0 == "南海卖艺者"@);
                assert("江河弹跳鱼"@[0] != "南海卖艺者"@[0]);
                assert(pool_entry(1).0 != pool_entry(18).0);
            } else if j == 19 {
                reveal_strlit("江河弹跳鱼");
                reveal_strlit("贪吃的穴居人");
                assert(pool_entry(1).0 == "江河弹跳鱼"@);
                assert(pool_entry(19).0 == "贪吃的穴居人"@);
                assert("江河弹跳鱼"@.len() != "贪吃的穴居人"@.len());
                assert(pool_entry(1).0 != pool_entry(19).0);
            }
        } else if i == 2 {
            if j == 3 {
                reveal_strlit("厄运先知");
                reveal_strlit("挑食魔犬");
                assert(pool_entry(2).0 == "厄运先知"@);
                assert(pool_entry(3).0 == "挑食魔犬"@);
                assert("厄运先知"@[0] != "挑食魔犬"@[0]);
                assert(pool_entry(2).0 != pool_entry(3).0);
            } else if j == 4 {
                reveal_strlit("厄运先知");
                reveal_strlit("愤怒编织者");
                assert(pool_entry(2).0 == "厄运先知"@);
                assert(pool_entry(4).0 == "愤怒编织者"@);
                assert("厄运先知"@.len() != "愤怒编织者"@.len());
                assert(pool_entry(2).0 != pool_entry(4).0);
            } else if j == 5 {
                reveal_strlit("厄运先知");
                reveal_strlit("血色幸存飞龙");
                assert(pool_entry(2).0 == "厄运先知"@);
                assert(pool_entry(5).0 == "血色幸存飞龙"@);
                assert("厄运先知"@.len() != "血色幸存飞龙"@.len());
                assert(pool_entry(2).0 != pool_entry(5).0);
            } else if j == 6 {
                reveal_strlit("厄运先知");
                reveal_strlit("暮光龙崽");
                assert(pool_entry(2).0 == "厄运先知"@);
                assert(pool_entry(6).0 == "暮光龙崽"@);
                assert("厄运先知"@[0] != "暮光龙崽"@[0]);
                assert(pool_entry(2).0 != pool_entry(6).0);
            } else if j == 7 {
                reveal_strlit("厄运先知");
                reveal_strlit("蓄势主唱幼龙");
                assert(pool_entry(2).0 == "厄运先知"@);
                assert(pool_entry(7).0 == "蓄势主唱幼龙"@);
                assert("厄运先知"@.len() != "蓄势主唱幼龙"@.len());
                assert(pool_entry(2).0 != pool_entry(7).0);
            } else if j == 8 {
                reveal_strlit("厄运先知");
                reveal_strlit("爆裂飓风");
                assert(pool_entry(2).0 == "厄运先知"@);
                assert(pool_entry(8).0 == "爆裂飓风"@);
                assert("厄运先知"@[0] != "爆裂飓风"@[0]);
                assert(pool_entry(2).0 != pool_entry(8).0);
            } else if j == 9 {
                reveal_strlit("厄运先知");
                reveal_strlit("沙丘土著");
                assert(pool_entry(2).0 == "厄运先知"@);
                assert(pool_entry(9).0 == "沙丘土著"@);
                assert("厄运先知"@[0] != "沙丘土著"@[0]);
                assert(pool_entry(2).0 != pool_entry(9).0);
            } else if j == 10 {
                reveal_strlit("厄运先知");
                reveal_strlit("吵吵机器人");
                assert(pool_entry(2).0 == "厄运先知"@);
                assert(pool_entry(10).0 == "吵吵机器人"@);
                assert("厄运先知"@.len() != "吵吵机器人"@.len());
                assert(pool_entry(2).0 != pool_entry(10).0);
            } else if j == 11 {
                reveal_strlit("厄运先知");
                reveal_strlit("拔线机");
                assert(pool_entry(2).0 == "厄运先知"@);
                assert(pool_entry(11).0 == "拔线机"@);
                assert("厄运先知"@.len() != "拔线机"@.len());
                assert(pool_entry(2).0 != pool_entry(11).0);
            } else if j == 12 {
                reveal_strlit("厄运先知");
                reveal_strlit("好斗的斥候");
                assert(pool_entry(2).0 == "厄运先知"@);
                assert(pool_entry(12).0 == "好斗的斥候"@);
                assert("厄运先知"@.len() != "好斗的斥候"@.len());
                assert(pool_entry(2).0 != pool_entry(12).0);
            } else if j == 13 {
                reveal_strlit("厄运先知");
                reveal_strlit("无害的骨颅");
                assert(pool_entry(2).0 == "厄运先知"@);
                assert(pool_entry(13).0 == "无害的骨颅"@);
                assert("厄运先知"@.len() != "无害的骨颅"@.len());
                assert(pool_entry(2).0 != pool_entry(13).0);
            } else if j == 14 {
                reveal_strlit("厄运先知");
                reveal_strlit("复活的骑兵");
                assert(pool_entry(2).0 == "厄运先知"@);
                assert(pool_entry(14).0 == "复活的骑兵"@);
                assert("厄运先知"@.len() != "复活的骑兵"@.len());
                assert(pool_entry(2).0 != pool_entry(14).0);
            } else if j == 15 {
                reveal_strlit("厄运先知");
                reveal_strlit("剃刀沼泽地卜师");
                assert(pool_entry(2).0 == "厄运先知"@);
                assert(pool_entry(15).0 == "剃刀沼泽地卜师"@);
                assert("厄运先知"@.len() != "剃刀沼泽地卜师"@.len());
                assert(pool_entry(2).0 != pool_entry(15).0);
            } else if j == 16 {
                reveal_strlit("厄运先知");
                reveal_strlit("晾膘的游客");
                assert(pool_entry(2).0 == "厄运先知"@);
                assert(pool_entry(16).0 == "晾膘的游客"@);
                assert("厄运先知"@.len() != "晾膘的游客"@.len());
                assert(pool_entry(2).0 != pool_entry(16).0);
            } else if j == 17 {
                reveal_strlit("厄运先知");
                reveal_strlit("夺金健将");
                assert(pool_entry(2).0 == "厄运先知"@);
                assert(pool_entry(17).0 == "夺金健将"@);
                assert("厄运先知"@[0] != "夺金健将"@[0]);
                assert(pool_entry(2).0 != pool_entry(17).0);
            } else if j == 18 {
                reveal_strlit("厄运先知");
                reveal_strlit("南海卖艺者");
                assert(pool_entry(2).0 == "厄运先知"@);
                assert(pool_entry(18).0 == "南海卖艺者"@);
                assert("厄运先知"@.len() != "南海卖艺者"@.len());
                assert(pool_entry(2).0 != pool_entry(18).0);
            } else if j == 19 {
                reveal_strlit("厄运先知");
                reveal_strlit("贪吃的穴居人");
                assert(pool_entry(2).0 == "厄运先知"@);
                assert(pool_entry(19).0 == "贪吃的穴居人"@);
                assert("厄运先知"@.len() != "贪吃的穴居人"@.len());
                assert(pool_entry(2).0 != pool_entry(19).0);
            }
        } else if i == 3 {
            if j == 4 {
                reveal_strlit("挑食魔犬");
                reveal_strlit("愤怒编织者");
                assert(pool_entry(3).0 == "挑食魔犬"@);
                assert(pool_entry(4).0 == "愤怒编织者"@);
                assert("挑食魔犬"@.len() != "愤怒编织者"@.len());
                assert(pool_entry(3).0 != pool_entry(4).0);
            } else if j == 5 {
                reveal_strlit("挑食魔犬");
                reveal_strlit("血色幸存飞龙");
                assert(pool_entry(3).0 == "挑食魔犬"@);
                assert(pool_entry(5).0 == "血色幸存飞龙"@);
                assert("挑食魔犬"@.len() != "血色幸存飞龙"@.len());
                assert(pool_entry(3).0 != pool_entry(5).0);
            } else if j == 6 {
                reveal_strlit("挑食魔犬");
                reveal_strlit("暮光龙崽");
                assert(pool_entry(3).0 == "挑食魔犬"@);
                assert(pool_entry(6).0 == "暮光龙崽"@);
                assert("挑食魔犬"@[0] != "暮光龙崽"@[0]);
                assert(pool_entry(3).0 != pool_entry(6).0);
            } else if j == 7 {
                reveal_strlit("挑食魔犬");
                reveal_strlit("蓄势主唱幼龙");
                assert(pool_entry(3).0 == "挑食魔犬"@);
                assert(pool_entry(7).0 == "蓄势主唱幼龙"@);
                assert("挑食魔犬"@.len() != "蓄势主唱幼龙"@.len());
                assert(pool_entry(3).0 != pool_entry(7).0);
            } else if j == 8 {
                reveal_strlit("挑食魔犬");
                reveal_strlit("爆裂飓风");
                assert(pool_entry(3).0 == "挑食魔犬"@);
                assert(pool_entry(8).0 == "爆裂飓风"@);
                assert("挑食魔犬"@[0] != "爆裂飓风"@[0]);
                assert(pool_entry(3).0 != pool_entry(8).0);
            } else if j == 9 {
                reveal_strlit("挑食魔犬");
                reveal_strlit("沙丘土著");
                assert(pool_entry(3).0 == "挑食魔犬"@);
                assert(pool_entry(9).0 == "沙丘土著"@);
                assert("挑食魔犬"@[0] != "沙丘土著"@[0]);
                assert(pool_entry(3).0 != pool_entry(9).0);
            } else if j == 10 {
                reveal_strlit("挑食魔犬");
                reveal_strlit("吵吵机器人");
                assert(pool_entry(3).0 == "挑食魔犬"@);
                assert(pool_entry(10).0 == "吵吵机器人"@);
                assert("挑食魔犬"@.len() != "吵吵机器人"@.len());
                assert(pool_entry(3).0 != pool_entry(10).0);
            } else if j == 11 {
                reveal_strlit("挑食魔犬");
                reveal_strlit("拔线机");
                assert(pool_entry(3).0 == "挑食魔犬"@);
                assert(pool_entry(11).0 == "拔线机"@);
                assert("挑食魔犬"@.len() != "拔线机"@.len());
                assert(pool_entry(3).0 != pool_entry(11).0);
            } else if j == 12 {
                reveal_strlit("挑食魔犬");
                reveal_strlit("好斗的斥候");
                assert(pool_entry(3).0 == "挑食魔犬"@);
                assert(pool_entry(12).0 == "好斗的斥候"@);
                assert("挑食魔犬"@.len() != "好斗的斥候"@.len());
                assert(pool_entry(3).0 != pool_entry(12).0);
            } else if j == 13 {
                reveal_strlit("挑食魔犬");
                reveal_strlit("无害的骨颅");
                assert(pool_entry(3).0 == "挑食魔犬"@);
                assert(pool_entry(13).0 == "无害的骨颅"@);
                assert("挑食魔犬"@.len() != "无害的骨颅"@.len());
                assert(pool_entry(3).0 != pool_entry(13).0);
            } else if j == 14 {
                reveal_strlit("挑食魔犬");
                reveal_strlit("复活的骑兵");
                assert(pool_entry(3).0 == "挑食魔犬"@);
                assert(pool_entry(14).0 == "复活的骑兵"@);
                assert("挑食魔犬"@.len() != "复活的骑兵"@.len());
                assert(pool_entry(3).0 != pool_entry(14).0);
            } else if j == 15 {
                reveal_strlit("挑食魔犬");
                reveal_strlit("剃刀沼泽地卜师");
                assert(pool_entry(3).0 == "挑食魔犬"@);
                assert(pool_entry(15).0 == "剃刀沼泽地卜师"@);
                assert("挑食魔犬"@.len() != "剃刀沼泽地卜师"@.len());
                assert(pool_entry(3).0 != pool_entry(15).0);
            } else if j == 16 {
                reveal_strlit("挑食魔犬");
                reveal_strlit("晾膘的游客");
                assert(pool_entry(3).0 == "挑食魔犬"@);
                assert(pool_entry(16).0 == "晾膘的游客"@);
                assert("挑食魔犬"@.len() != "晾膘的游客"@.len());
                assert(pool_entry(3).0 != pool_entry(16).0);
            } else if j == 17 {
                reveal_strlit("挑食魔犬");
                reveal_strlit("夺金健将");
                assert(pool_entry(3).0 == "挑食魔犬"@);
                assert(pool_entry(17).0 == "夺金健将"@);
                assert("挑食魔犬"@[0] != "夺金健将"@[0]);
                assert(pool_entry(3).0 != pool_entry(17).0);
            } else if j == 18 {
                reveal_strlit("挑食魔犬");
                reveal_strlit("南海卖艺者");
                assert(pool_entry(3).0 == "挑食魔犬"@);
                assert(pool_entry(18).0 == "南海卖艺者"@);
                assert("挑食魔犬"@.len() != "南海卖艺者"@.len());
                assert(pool_entry(3).0 != pool_entry(18).0);
            } else if j == 19 {
                reveal_strlit("挑食魔犬");
                reveal_strlit("贪吃的穴居人");
                assert(pool_entry(3).0 == "挑食魔犬"@);
                assert(pool_entry(19).0 == "贪吃的穴居人"@);
                assert("挑食魔犬"@.len() != "贪吃的穴居人"@.len());
                assert(pool_entry(3).0 != pool_entry(19).0);
            }
        } else if i == 4 {
            if j == 5 {
                reveal_strlit("愤怒编织者");
                reveal_strlit("血色幸存飞龙");
                assert(pool_entry(4).0 == "愤怒编织者"@);
                assert(pool_entry(5).0 == "血色幸存飞龙"@);
                assert("愤怒编织者"@.len() != "血色幸存飞龙"@.len());
                assert(pool_entry(4).0 != pool_entry(5).0);
            } else if j == 6 {
                reveal_strlit("愤怒编织者");
                reveal_strlit("暮光龙崽");
                assert(pool_entry(4).0 == "愤怒编织者"@);
                assert(pool_entry(6).0 == "暮光龙崽"@);
                assert("愤怒编织者"@.len() != "暮光龙崽"@.len());
                assert(pool_entry(4).0 != pool_entry(6).0);
            } else if j == 7 {
                reveal_strlit("愤怒编织者");
                reveal_strlit("蓄势主唱幼龙");
                assert(pool_entry(4).0 == "愤怒编织者"@);
                assert(pool_entry(7).0 == "蓄势主唱幼龙"@);
                assert("愤怒编织者"@.len() != "蓄势主唱幼龙"@.len());
                assert(pool_entry(4).0 != pool_entry(7).0);
            } else if j == 8 {
                reveal_strlit("愤怒编织者");
                reveal_strlit("爆裂飓风");
                assert(pool_entry(4).0 == "愤怒编织者"@);
                assert(pool_entry(8).0 == "爆裂飓风"@);
                assert("愤怒编织者"@.len() != "爆裂飓风"@.len());
                assert(pool_entry(4).0 != pool_entry(8).0);
            } else if j == 9 {
                reveal_strlit("愤怒编织者");
                reveal_strlit("沙丘土著");
                assert(pool_entry(4).0 == "愤怒编织者"@);
                assert(pool_entry(9).0 == "沙丘土著"@);
                assert("愤怒编织者"@.len() != "沙丘土著"@.len());
                assert(pool_entry(4).0 != pool_entry(9).0);
            } else if j == 10 {
                reveal_strlit("愤怒编织者");
                reveal_strlit("吵吵机器人");
                assert(pool_entry(4).0 == "愤怒编织者"@);
                assert(pool_entry(10).0 == "吵吵机器人"@);
                assert("愤怒编织者"@[0] != "吵吵机器人"@[0]);
                assert(pool_entry(4).0 != pool_entry(10).0);
            } else if j == 11 {
                reveal_strlit("愤怒编织者");
                reveal_strlit("拔线机");
                assert(pool_entry(4).0 == "愤怒编织者"@);
                assert(pool_entry(11).0 == "拔线机"@);
                assert("愤怒编织者"@.len() != "拔线机"@.len());
                assert(pool_entry(4).0 != pool_entry(11).0);
            } else if j == 12 {
                reveal_strlit("愤怒编织者");
                reveal_strlit("好斗的斥候");
                assert(pool_entry(4).0 == "愤怒编织者"@);
                assert(pool_entry(12).0 == "好斗的斥候"@);
                assert("愤怒编织者"@[0] != "好斗的斥候"@[0]);
                assert(pool_entry(4).0 != pool_entry(12).0);
            } else if j == 13 {
                reveal_strlit("愤怒编织者");
                reveal_strlit("无害的骨颅");
                assert(pool_entry(4).0 == "愤怒编织者"@);
                assert(pool_entry(13).0 == "无害的骨颅"@);
                assert("愤怒编织者"@[0] != "无害的骨颅"@[0]);
                assert(pool_entry(4).0 != pool_entry(13).0);
            } else if j == 14 {
                reveal_strlit("愤怒编织者");
                reveal_strlit("复活的骑兵");
                assert(pool_entry(4).0 == "愤怒编织者"@);
                assert(pool_entry(14).0 == "复活的骑兵"@);
                assert("愤怒编织者"@[0] != "复活的骑兵"@[0]);
                assert(pool_entry(4).0 != pool_entry(14).0);
            } else if j == 15 {
                reveal_strlit("愤怒编织者");
                reveal_strlit("剃刀沼泽地卜师");
                assert(pool_entry(4).0 == "愤怒编织者"@);
                assert(pool_entry(15).0 == "剃刀沼泽地卜师"@);
                assert("愤怒编织者"@.len() != "剃刀沼泽地卜师"@.len());
                assert(pool_entry(4).0 != pool_entry(15).0);
            } else if j == 16 {
                reveal_strlit("愤怒编织者");
                reveal_strlit("晾膘的游客");
                assert(pool_entry(4).0 == "愤怒编织者"@);
                assert(pool_entry(16).0 == "晾膘的游客"@);
                assert("愤怒编织者"@[0] != "晾膘的游客"@[0]);
                assert(pool_entry(4).0 != pool_entry(16).0);
            } else if j == 17 {
                reveal_strlit("愤怒编织者");
                reveal_strlit("夺金健将");
                assert(pool_entry(4).0 == "愤怒编织者"@);
                assert(pool_entry(17).0 == "夺金健将"@);
                assert("愤怒编织者"@.len() != "夺金健将"@.len());
                assert(pool_entry(4).0 != pool_entry(17).0);
            } else if j == 18 {
                reveal_strlit("愤怒编织者");
                reveal_strlit("南海卖艺者");
                assert(pool_entry(4).0 == "愤怒编织者"@);
                assert(pool_entry(18).0 == "南海卖艺者"@);
                assert("愤怒编织者"@[0] != "南海卖艺者"@[0]);
                assert(pool_entry(4).0 != pool_entry(18).0);
            } else if j == 19 {
                reveal_strlit("愤怒编织者");
                reveal_strlit("贪吃的穴居人");
                assert(pool_entry(4).0 == "愤怒编织者"@);
                assert(pool_entry(19).0 == "贪吃的穴居人"@);
                assert("愤怒编织者"@.len() != "贪吃的穴居人"@.len());
                assert(pool_entry(4).0 != pool_entry(19).0);
            }
        } else if i == 5 {
            if j == 6 {
                reveal_strlit("血色幸存飞龙");
                reveal_strlit("暮光龙崽");
                assert(pool_entry(5).0 == "血色幸存飞龙"@);
                assert(pool_entry(6).0 == "暮光龙崽"@);
                assert("血色幸存飞龙"@.len() != "暮光龙崽"@.len());
                assert(pool_entry(5).0 != pool_entry(6).0);
            } else if j == 7 {
                reveal_strlit("血色幸存飞龙");
                reveal_strlit("蓄势主唱幼龙");
                assert(pool_entry(5).0 == "血色幸存飞龙"@);
                assert(pool_entry(7).0 == "蓄势主唱幼龙"@);
                assert("血色幸存飞龙"@[0] != "蓄势主唱幼龙"@[0]);
                assert(pool_entry(5).0 != pool_entry(7).0);
            } else if j == 8 {
                reveal_strlit("血色幸存飞龙");
                reveal_strlit("爆裂飓风");
                assert(pool_entry(5).0 == "血色幸存飞龙"@);
                assert(pool_entry(8).0 == "爆裂飓风"@);
                assert("血色幸存飞龙"@.len() != "爆裂飓风"@.len());
                assert(pool_entry(5).0 != pool_entry(8).0);
            } else if j == 9 {
                reveal_strlit("血色幸存飞龙");
                reveal_strlit("沙丘土著");
                assert(pool_entry(5).0 == "血色幸存飞龙"@);
                assert(pool_entry(9).0 == "沙丘土著"@);
                assert("血色幸存飞龙"@.len() != "沙丘土著"@.len());
                assert(pool_entry(5).0 != pool_entry(9).0);
            } else if j == 10 {
                reveal_strlit("血色幸存飞龙");
                reveal_strlit("吵吵机器人");
                assert(pool_entry(5).0 == "血色幸存飞龙"@);
                assert(pool_entry(10).0 == "吵吵机器人"@);
                assert("血色幸存飞龙"@.len() != "吵吵机器人"@.len());
                assert(pool_entry(5).0 != pool_entry(10).0);
            } else if j == 11 {
                reveal_strlit("血色幸存飞龙");
                reveal_strlit("拔线机");
                assert(pool_entry(5).0 == "血色幸存飞龙"@);
                assert(pool_entry(11).0 == "拔线机"@);
                assert("血色幸存飞龙"@.len() != "拔线机"@.len());
                assert(pool_entry(5).0 != pool_entry(11).0);
            } else if j == 12 {
                reveal_strlit("血色幸存飞龙");
                reveal_strlit("好斗的斥候");
                assert(pool_entry(5).0 == "血色幸存飞龙"@);
                assert(pool_entry(12).0 == "好斗的斥候"@);
                assert("血色幸存飞龙"@.len() != "好斗的斥候"@.len());
                assert(pool_entry(5).0 != pool_entry(12).0);
            } else if j == 13 {
                reveal_strlit("血色幸存飞龙");
                reveal_strlit("无害的骨颅");
                assert(pool_entry(5).0 == "血色幸存飞龙"@);
                assert(pool_entry(13).0 == "无害的骨颅"@);
                assert("血色幸存飞龙"@.len() != "无害的骨颅"@.len());
                assert(pool_entry(5).0 != pool_entry(13).0);
            } else if j == 14 {
                reveal_strlit("血色幸存飞龙");
                reveal_strlit("复活的骑兵");
                assert(pool_entry(5).0 == "血色幸存飞龙"@);
                assert(pool_entry(14).0 == "复活的骑兵"@);
                assert("血色幸存飞龙"@.len() != "复活的骑兵"@.len());
                assert(pool_entry(5).0 != pool_entry(14).0);
            } else if j == 15 {
                reveal_strlit("血色幸存飞龙");
                reveal_strlit("剃刀沼泽地卜师");
                assert(pool_entry(5).0 == "血色幸存飞龙"@);
                assert(pool_entry(15).0 == "剃刀沼泽地卜师"@);
                assert("血色幸存飞龙"@.len() != "剃刀沼泽地卜师"@.len());
                assert(pool_entry(5).0 != pool_entry(15).0);
            } else if j == 16 {
                reveal_strlit("血色幸存飞龙");
                reveal_strlit("晾膘的游客");
                assert(pool_entry(5).0 == "血色幸存飞龙"@);
                assert(pool_entry(16).0 == "晾膘的游客"@);
                assert("血色幸存飞龙"@.len() != "晾膘的游客"@.len());
                assert(pool_entry(5).0 != pool_entry(16).0);
            } else if j == 17 {
                reveal_strlit("血色幸存飞龙");
                reveal_strlit("夺金健将");
                assert(pool_entry(5).0 == "血色幸存飞龙"@);
                assert(pool_entry(17).0 == "夺金健将"@);
                assert("血色幸存飞龙"@.len() != "夺金健将"@.len());
                assert(pool_entry(5).0 != pool_entry(17).0);
            } else if j == 18 {
                reveal_strlit("血色幸存飞龙");
                reveal_strlit("南海卖艺者");
                assert(pool_entry(5).0 == "血色幸存飞龙"@);
                assert(pool_entry(18).0 == "南海卖艺者"@);
                assert("血色幸存飞龙"@.len() != "南海卖艺者"@.len());
                assert(pool_entry(5).0 != pool_entry(18).0);
            } else if j == 19 {
                reveal_strlit("血色幸存飞龙");
                reveal_strlit("贪吃的穴居人");
                assert(pool_entry(5).0 == "血色幸存飞龙"@);
                assert(pool_entry(19).0 == "贪吃的穴居人"@);
                assert("血色幸存飞龙"@[0] != "贪吃的穴居人"@[0]);
                assert(pool_entry(5).0 != pool_entry(19).0);
            }
        } else if i == 6 {
            if j == 7 {
                reveal_strlit("暮光龙崽");
                reveal_strlit("蓄势主唱幼龙");
                assert(pool_entry(6).0 == "暮光龙崽"@);
                assert(pool_entry(7).0 == "蓄势主唱幼龙"@);
                assert("暮光龙崽"@.len() != "蓄势主唱幼龙"@.len());
                assert(pool_entry(6).0 != pool_entry(7).0);
            } else if j == 8 {
                reveal_strlit("暮光龙崽");
                reveal_strlit("爆裂飓风");
                assert(pool_entry(6).0 == "暮光龙崽"@);
                assert(pool_entry(8).0 == "爆裂飓风"@);
                assert("暮光龙崽"@[0] != "爆裂飓风"@[0]);
                assert(pool_entry(6).0 != pool_entry(8).0);
            } else if j == 9 {
                reveal_strlit("暮光龙崽");
                reveal_strlit("沙丘土著");
                assert(pool_entry(6).0 == "暮光龙崽"@);
                assert(pool_entry(9).0 == "沙丘土著"@);
                assert("暮光龙崽"@[0] != "沙丘土著"@[0]);
                assert(pool_entry(6).0 != pool_entry(9).0);
            } else if j == 10 {
                reveal_strlit("暮光龙崽");
                reveal_strlit("吵吵机器人");
                assert(pool_entry(6).0 == "暮光龙崽"@);
                assert(pool_entry(10).0 == "吵吵机器人"@);
                assert("暮光龙崽"@.len() != "吵吵机器人"@.len());
                assert(pool_entry(6).0 != pool_entry(10).0);
            } else if j == 11 {
                reveal_strlit("暮光龙崽");
                reveal_strlit("拔线机");
                assert(pool_entry(6).0 == "暮光龙崽"@);
                assert(pool_entry(11).0 == "拔线机"@);
                assert("暮光龙崽"@.len() != "拔线机"@.len());
                assert(pool_entry(6).0 != pool_entry(11).0);
            } else if j == 12 {
                reveal_strlit("暮光龙崽");
                reveal_strlit("好斗的斥候");
                assert(pool_entry(6).0 == "暮光龙崽"@);
                assert(pool_entry(12).0 == "好斗的斥候"@);
                assert("暮光龙崽"@.len() != "好斗的斥候"@.len());
                assert(pool_entry(6).0 != pool_entry(12).0);
            } else if j == 13 {
                reveal_strlit("暮光龙崽");
                reveal_strlit("无害的骨颅");
                assert(pool_entry(6).0 == "暮光龙崽"@);
                assert(pool_entry(13).0 == "无害的骨颅"@);
                assert("暮光龙崽"@.len() != "无害的骨颅"@.len());
                assert(pool_entry(6).0 != pool_entry(13).0);
            } else if j == 14 {
                reveal_strlit("暮光龙崽");
                reveal_strlit("复活的骑兵");
                assert(pool_entry(6).0 == "暮光龙崽"@);
                assert(pool_entry(14).0 == "复活的骑兵"@);
                assert("暮光龙崽"@.len() != "复活的骑兵"@.len());
                assert(pool_entry(6).0 != pool_entry(14).0);
            } else if j == 15 {
                reveal_strlit("暮光龙崽");
                reveal_strlit("剃刀沼泽地卜师");
                assert(pool_entry(6).0 == "暮光龙崽"@);
                assert(pool_entry(15).0 == "剃刀沼泽地卜师"@);
                assert("暮光龙崽"@.len() != "剃刀沼泽地卜师"@.len());
                assert(pool_entry(6).0 != pool_entry(15).0);
            } else if j == 16 {
                reveal_strlit("暮光龙崽");
                reveal_strlit("晾膘的游客");
                assert(pool_entry(6).0 == "暮光龙崽"@);
                assert(pool_entry(16).0 == "晾膘的游客"@);
                assert("暮光龙崽"@.len() != "晾膘的游客"@.len());
                assert(pool_entry(6).0 != pool_entry(16).0);
            } else if j == 17 {
                reveal_strlit("暮光龙崽");
                reveal_strlit("夺金健将");
                assert(pool_entry(6).0 == "暮光龙崽"@);
                assert(pool_entry(17).0 == "夺金健将"@);
                assert("暮光龙崽"@[0] != "夺金健将"@[0]);
                assert(pool_entry(6).0 != pool_entry(17).0);
            } else if j == 18 {
                reveal_strlit("暮光龙崽");
                reveal_strlit("南海卖艺者");
                assert(pool_entry(6).0 == "暮光龙崽"@);
                assert(pool_entry(18).0 == "南海卖艺者"@);
                assert("暮光龙崽"@.len() != "南海卖艺者"@.len());
                assert(pool_entry(6).0 != pool_entry(18).0);
            } else if j == 19 {
                reveal_strlit("暮光龙崽");
                reveal_strlit("贪吃的穴居人");
                assert(pool_entry(6).0 == "暮光龙崽"@);
                assert(pool_entry(19).0 == "贪吃的穴居人"@);
                assert("暮光龙崽"@.len() != "贪吃的穴居人"@.len());
                assert(pool_entry(6).0 != pool_entry(19).0);
            }
        } else if i == 7 {
            if j == 8 {
                reveal_strlit("蓄势主唱幼龙");
                reveal_strlit("爆裂飓风");
                assert(pool_entry(7).0 == "蓄势主唱幼龙"@);
                assert(pool_entry(8).0 == "爆裂飓风"@);
                assert("蓄势主唱幼龙"@.len() != "爆裂飓风"@.len());
                assert(pool_entry(7).0 != pool_entry(8).0);
            } else if j == 9 {
                reveal_strlit("蓄势主唱幼龙");
                reveal_strlit("沙丘土著");
                assert(pool_entry(7).0 == "蓄势主唱幼龙"@);
                assert(pool_entry(9).0 == "沙丘土著"@);
                assert("蓄势主唱幼龙"@.len() != "沙丘土著"@.len());
                assert(pool_entry(7).0 != pool_entry(9).0);
            } else if j == 10 {
                reveal_strlit("蓄势主唱幼龙");
                reveal_strlit("吵吵机器人");
                assert(pool_entry(7).0 == "蓄势主唱幼龙"@);
                assert(pool_entry(10).0 == "吵吵机器人"@);
                assert("蓄势主唱幼龙"@.len() != "吵吵机器人"@.len());
                assert(pool_entry(7).0 != pool_entry(10).0);
            } else if j == 11 {
                reveal_strlit("蓄势主唱幼龙");
                reveal_strlit("拔线机");
                assert(pool_entry(7).0 == "蓄势主唱幼龙"@);
                assert(pool_entry(11).0 == "拔线机"@);
                assert("蓄势主唱幼龙"@.len() != "拔线机"@.len());
                assert(pool_entry(7).0 != pool_entry(11).0);
            } else if j == 12 {
                reveal_strlit("蓄势主唱幼龙");
                reveal_strlit("好斗的斥候");
                assert(pool_entry(7).0 == "蓄势主唱幼龙"@);
                assert(pool_entry(12).0 == "好斗的斥候"@);
                assert("蓄势主唱幼龙"@.len() != "好斗的斥候"@.len());
                assert(pool_entry(7).0 != pool_entry(12).0);
            } else if j == 13 {
                reveal_strlit("蓄势主唱幼龙");
                reveal_strlit("无害的骨颅");
                assert(pool_entry(7).0 == "蓄势主唱幼龙"@);
                assert(pool_entry(13).0 == "无害的骨颅"@);
                assert("蓄势主唱幼龙"@.len() != "无害的骨颅"@.len());
                assert(pool_entry(7).0 != pool_entry(13).0);
            } else if j == 14 {
                reveal_strlit("蓄势主唱幼龙");
                reveal_strlit("复活的骑兵");
                assert(pool_entry(7).0 == "蓄势主唱幼龙"@);
                assert(pool_entry(14).0 == "复活的骑兵"@);
                assert("蓄势主唱幼龙"@.len() != "复活的骑兵"@.len());
                assert(pool_entry(7).0 != pool_entry(14).0);
            } else if j == 15 {
                reveal_strlit("蓄势主唱幼龙");
                reveal_strlit("剃刀沼泽地卜师");
                assert(pool_entry(7).0 == "蓄势主唱幼龙"@);
                assert(pool_entry(15).0 == "剃刀沼泽地卜师"@);
                assert("蓄势主唱幼龙"@.len() != "剃刀沼泽地卜师"@.len());
                assert(pool_entry(7).0 != pool_entry(15).0);
            } else if j == 16 {
                reveal_strlit("蓄势主唱幼龙");
                reveal_strlit("晾膘的游客");
                assert(pool_entry(7).0 == "蓄势主唱幼龙"@);
                assert(pool_entry(16).0 == "晾膘的游客"@);
                assert("蓄势主唱幼龙"@.len() != "晾膘的游客"@.len());
                assert(pool_entry(7).0 != pool_entry(16).0);
            } else if j == 17 {
                reveal_strlit("蓄势主唱幼龙");
                reveal_strlit("夺金健将");
                assert(pool_entry(7).0 == "蓄势主唱幼龙"@);
                assert(pool_entry(17).0 == "夺金健将"@);
                assert("蓄势主唱幼龙"@.len() != "夺金健将"@.len());
                assert(pool_entry(7).0 != pool_entry(17).0);
            } else if j == 18 {
                reveal_strlit("蓄势主唱幼龙");
                reveal_strlit("南海卖艺者");
                assert(pool_entry(7).0 == "蓄势主唱幼龙"@);
                assert(pool_entry(18).0 == "南海卖艺者"@);
                assert("蓄势主唱幼龙"@.len() != "南海卖艺者"@.len());
                assert(pool_entry(7).0 != pool_entry(18).0);
            } else if j == 19 {
                reveal_strlit("蓄势主唱幼龙");
                reveal_strlit("贪吃的穴居人");
                assert(pool_entry(7).0 == "蓄势主唱幼龙"@);
                assert(pool_entry(19).0 == "贪吃的穴居人"@);
                assert("蓄势主唱幼龙"@[0] != "贪吃的穴居人"@[0]);
                assert(pool_entry(7).0 != pool_entry(19).0);
            }
        } else if i == 8 {
            if j == 9 {
                reveal_strlit("爆裂飓风");
                reveal_strlit("沙丘土著");
                assert(pool_entry(8).0 == "爆裂飓风"@);
                assert(pool_entry(9).0 == "沙丘土著"@);
                assert("爆裂飓风"@[0] != "沙丘土著"@[0]);
                assert(pool_entry(8).0 != pool_entry(9).0);
            } else if j == 10 {
                reveal_strlit("爆裂飓风");
                reveal_strlit("吵吵机器人");
                assert(pool_entry(8).0 == "爆裂飓风"@);
                assert(pool_entry(10).0 == "吵吵机器人"@);
                assert("爆裂飓风"@.len() != "吵吵机器人"@.len());
                assert(pool_entry(8).0 != pool_entry(10).0);
            } else if j == 11 {
                reveal_strlit("爆裂飓风");
                reveal_strlit("拔线机");
                assert(pool_entry(8).0 == "爆裂飓风"@);
                assert(pool_entry(11).0 == "拔线机"@);
                assert("爆裂飓风"@.len() != "拔线机"@.len());
                assert(pool_entry(8).0 != pool_entry(11).0);
            } else if j == 12 {
                reveal_strlit("爆裂飓风");
                reveal_strlit("好斗的斥候");
                assert(pool_entry(8).0 == "爆裂飓风"@);
                assert(pool_entry(12).0 == "好斗的斥候"@);
                assert("爆裂飓风"@.len() != "好斗的斥候"@.len());
                assert(pool_entry(8).0 != pool_entry(12).0);
            } else if j == 13 {
                reveal_strlit("爆裂飓风");
                reveal_strlit("无害的骨颅");
                assert(pool_entry(8).0 == "爆裂飓风"@);
                assert(pool_entry(13).0 == "无害的骨颅"@);
                assert("爆裂飓风"@.len() != "无害的骨颅"@.len());
                assert(pool_entry(8).0 != pool_entry(13).0);
            } else if j == 14 {
                reveal_strlit("爆裂飓风");
                reveal_strlit("复活的骑兵");
                assert(pool_entry(8).0 == "爆裂飓风"@);
                assert(pool_entry(14).0 == "复活的骑兵"@);
                assert("爆裂飓风"@.len() != "复活的骑兵"@.len());
                assert(pool_entry(8).0 != pool_entry(14).0);
            } else if j == 15 {
                reveal_strlit("爆裂飓风");
                reveal_strlit("剃刀沼泽地卜师");
                assert(pool_entry(8).0 == "爆裂飓风"@);
                assert(pool_entry(15).0 == "剃刀沼泽地卜师"@);
                assert("爆裂飓风"@.len() != "剃刀沼泽地卜师"@.len());
                assert(pool_entry(8).0 != pool_entry(15).0);
            } else if j == 16 {
                reveal_strlit("爆裂飓风");
                reveal_strlit("晾膘的游客");
                assert(pool_entry(8).0 == "爆裂飓风"@);
                assert(pool_entry(16).0 == "晾膘的游客"@);
                assert("爆裂飓风"@.len() != "晾膘的游客"@.len());
                assert(pool_entry(8).0 != pool_entry(16).0);
            } else if j == 17 {
                reveal_strlit("爆裂飓风");
                reveal_strlit("夺金健将");
                assert(pool_entry(8).0 == "爆裂飓风"@);
                assert(pool_entry(17).0 == "夺金健将"@);
                assert("爆裂飓风"@[0] != "夺金健将"@[0]);
                assert(pool_entry(8).0 != pool_entry(17).0);
            } else if j == 18 {
                reveal_strlit("爆裂飓风");
                reveal_strlit("南海卖艺者");
                assert(pool_entry(8).0 == "爆裂飓风"@);
                assert(pool_entry(18).0 == "南海卖艺者"@);
                assert("爆裂飓风"@.len() != "南海卖艺者"@.len());
                assert(pool_entry(8).0 != pool_entry(18).0);
            } else if j == 19 {
                reveal_strlit("爆裂飓风");
                reveal_strlit("贪吃的穴居人");
                assert(pool_entry(8).0 == "爆裂飓风"@);
                assert(pool_entry(19).0 == "贪吃的穴居人"@);
                assert("爆裂飓风"@.len() != "贪吃的穴居人"@.len());
                assert(pool_entry(8).0 != pool_entry(19).0);
            }
        } else if i == 9 {
            if j == 10 {
                reveal_strlit("沙丘土著");
                reveal_strlit("吵吵机器人");
                assert(pool_entry(9).0 == "沙丘土著"@);
                assert(pool_entry(10).0 == "吵吵机器人"@);
                assert("沙丘土著"@.len() != "吵吵机器人"@.len());
                assert(pool_entry(9).0 != pool_entry(10).0);
            } else if j == 11 {
                reveal_strlit("沙丘土著");
                reveal_strlit("拔线机");
                assert(pool_entry(9).0 == "沙丘土著"@);
                assert(pool_entry(11).0 == "拔线机"@);
                assert("沙丘土著"@.len() != "拔线机"@.len());
                assert(pool_entry(9).0 != pool_entry(11).0);
            } else if j == 12 {
                reveal_strlit("沙丘土著");
                reveal_strlit("好斗的斥候");
                assert(pool_entry(9).0 == "沙丘土著"@);
                assert(pool_entry(12).0 == "好斗的斥候"@);
                assert("沙丘土著"@.len() != "好斗的斥候"@.len());
                assert(pool_entry(9).0 != pool_entry(12).0);
            } else if j == 13 {
                reveal_strlit("沙丘土著");
                reveal_strlit("无害的骨颅");
                assert(pool_entry(9).0 == "沙丘土著"@);
                assert(pool_entry(13).0 == "无害的骨颅"@);
                assert("沙丘土著"@.len() != "无害的骨颅"@.len());
                assert(pool_entry(9).0 != pool_entry(13).0);
            } else if j == 14 {
                reveal_strlit("沙丘土著");
                reveal_strlit("复活的骑兵");
                assert(pool_entry(9).0 == "沙丘土著"@);
                assert(pool_entry(14).0 == "复活的骑兵"@);
                assert("沙丘土著"@.len() != "复活的骑兵"@.len());
                assert(pool_entry(9).0 != pool_entry(14).0);
            } else if j == 15 {
                reveal_strlit("沙丘土著");
                reveal_strlit("剃刀沼泽地卜师");
                assert(pool_entry(9).0 == "沙丘土著"@);
                assert(pool_entry(15).0 == "剃刀沼泽地卜师"@);
                assert("沙丘土著"@.len() != "剃刀沼泽地卜师"@.len());
                assert(pool_entry(9).0 != pool_entry(15).0);
            } else if j == 16 {
                reveal_strlit("沙丘土著");
                reveal_strlit("晾膘的游客");
                assert(pool_entry(9).0 == "沙丘土著"@);
                assert(pool_entry(16).0 == "晾膘的游客"@);
                assert("沙丘土著"@.len() != "晾膘的游客"@.len());
                assert(pool_entry(9).0 != pool_entry(16).0);
            } else if j == 17 {
                reveal_strlit("沙丘土著");
                reveal_strlit("夺金健将");
                assert(pool_entry(9).0 == "沙丘土著"@);
                assert(pool_entry(17).0 == "夺金健将"@);
                assert("沙丘土著"@[0] != "夺金健将"@[0]);
                assert(pool_entry(9).0 != pool_entry(17).0);
            } else if j == 18 {
                reveal_strlit("沙丘土著");
                reveal_strlit("南海卖艺者");
                assert(pool_entry(9).0 == "沙丘土著"@);
                assert(pool_entry(18).0 == "南海卖艺者"@);
                assert("沙丘土著"@.len() != "南海卖艺者"@.len());
                assert(pool_entry(9).0 != pool_entry(18).0);
            } else if j == 19 {
                reveal_strlit("沙丘土著");
                reveal_strlit("贪吃的穴居人");
                assert(pool_entry(9).0 == "沙丘土著"@);
                assert(pool_entry(19).0 == "贪吃的穴居人"@);
                assert("沙丘土著"@.len() != "贪吃的穴居人"@.len());
                assert(pool_entry(9).0 != pool_entry(19).0);
            }
        } else if i == 10 {
            if j == 11 {
                reveal_strlit("吵吵机器人");
                reveal_strlit("拔线机");
                assert(pool_entry(10).0 == "吵吵机器人"@);
                assert(pool_entry(11).0 == "拔线机"@);
                assert("吵吵机器人"@.len() != "拔线机"@.len());
                assert(pool_entry(10).0 != pool_entry(11).0);
            } else if j == 12 {
                reveal_strlit("吵吵机器人");
                reveal_strlit("好斗的斥候");
                assert(pool_entry(10).0 == "吵吵机器人"@);
                assert(pool_entry(12).0 == "好斗的斥候"@);
                assert("吵吵机器人"@[0] != "好斗的斥候"@[0]);
                assert(pool_entry(10).0 != pool_entry(12).0);
            } else if j == 13 {
                reveal_strlit("吵吵机器人");
                reveal_strlit("无害的骨颅");
                assert(pool_entry(10).0 == "吵吵机器人"@);
                assert(pool_entry(13).0 == "无害的骨颅"@);
                assert("吵吵机器人"@[0] != "无害的骨颅"@[0]);
                assert(pool_entry(10).0 != pool_entry(13).0);
            } else if j == 14 {
                reveal_strlit("吵吵机器人");
                reveal_strlit("复活的骑兵");
                assert(pool_entry(10).0 == "吵吵机器人"@);
                assert(pool_entry(14).0 == "复活的骑兵"@);
                assert("吵吵机器人"@[0] != "复活的骑兵"@[0]);
                assert(pool_entry(10).0 != pool_entry(14).0);
            } else if j == 15 {
                reveal_strlit("吵吵机器人");
                reveal_strlit("剃刀沼泽地卜师");
                assert(pool_entry(10).0 == "吵吵机器人"@);
                assert(pool_entry(15).0 == "剃刀沼泽地卜师"@);
                assert("吵吵机器人"@.len() != "剃刀沼泽地卜师"@.len());
                assert(pool_entry(10).0 != pool_entry(15).0);
            } else if j == 16 {
                reveal_strlit("吵吵机器人");
                reveal_strlit("晾膘的游客");
                assert(pool_entry(10).0 == "吵吵机器人"@);
                assert(pool_entry(16).0 == "晾膘的游客"@);
                assert("吵吵机器人"@[0] != "晾膘的游客"@[0]);
                assert(pool_entry(10).0 != pool_entry(16).0);
            } else if j == 17 {
                reveal_strlit("吵吵机器人");
                reveal_strlit("夺金健将");
                assert(pool_entry(10).0 == "吵吵机器人"@);
                assert(pool_entry(17).0 == "夺金健将"@);
                assert("吵吵机器人"@.len() != "夺金健将"@.len());
                assert(pool_entry(10).0 != pool_entry(17).0);
            } else if j == 18 {
                reveal_strlit("吵吵机器人");
                reveal_strlit("南海卖艺者");
                assert(pool_entry(10).0 == "吵吵机器人"@);
                assert(pool_entry(18).0 == "南海卖艺者"@);
                assert("吵吵机器人"@[0] != "南海卖艺者"@[0]);
                assert(pool_entry(10).0 != pool_entry(18).0);
            } else if j == 19 {
                reveal_strlit("吵吵机器人");
                reveal_strlit("贪吃的穴居人");
                assert(pool_entry(10).0 == "吵吵机器人"@);
                assert(pool_entry(19).0 == "贪吃的穴居人"@);
                assert("吵吵机器人"@.len() != "贪吃的穴居人"@.len());
                assert(pool_entry(10).0 != pool_entry(19).0);
            }
        } else if i == 11 {
            if j == 12 {
                reveal_strlit("拔线机");
                reveal_strlit("好斗的斥候");
                assert(pool_entry(11).0 == "拔线机"@);
                assert(pool_entry(12).0 == "好斗的斥候"@);
                assert("拔线机"@.len() != "好斗的斥候"@.len());
                assert(pool_entry(11).0 != pool_entry(12).0);
            } else if j == 13 {
                reveal_strlit("拔线机");
                reveal_strlit("无害的骨颅");
                assert(pool_entry(11).0 == "拔线机"@);
                assert(pool_entry(13).0 == "无害的骨颅"@);
                assert("拔线机"@.len() != "无害的骨颅"@.len());
                assert(pool_entry(11).0 != pool_entry(13).0);
            } else if j == 14 {
                reveal_strlit("拔线机");
                reveal_strlit("复活的骑兵");
                assert(pool_entry(11).0 == "拔线机"@);
                assert(pool_entry(14).0 == "复活的骑兵"@);
                assert("拔线机"@.len() != "复活的骑兵"@.len());
                assert(pool_entry(11).0 != pool_entry(14).0);
            } else if j == 15 {
                reveal_strlit("拔线机");
                reveal_strlit("剃刀沼泽地卜师");
                assert(pool_entry(11).0 == "拔线机"@);
                assert(pool_entry(15).0 == "剃刀沼泽地卜师"@);
                assert("拔线机"@.len() != "剃刀沼泽地卜师"@.len());
                assert(pool_entry(11).0 != pool_entry(15).0);
            } else if j == 16 {
                reveal_strlit("拔线机");
                reveal_strlit("晾膘的游客");
                assert(pool_entry(11).0 == "拔线机"@);
                assert(pool_entry(16).0 == "晾膘的游客"@);
                assert("拔线机"@.len() != "晾膘的游客"@.len());
                assert(pool_entry(11).0 != pool_entry(16).0);
            } else if j == 17 {
                reveal_strlit("拔线机");
                reveal_strlit("夺金健将");
                assert(pool_entry(11).0 == "拔线机"@);
                assert(pool_entry(17).0 == "夺金健将"@);
                assert("拔线机"@.len() != "夺金健将"@.len());
                assert(pool_entry(11).0 != pool_entry(17).0);
            } else if j == 18 {
                reveal_strlit("拔线机");
                reveal_strlit("南海卖艺者");
                assert(pool_entry(11).0 == "拔线机"@);
                assert(pool_entry(18).0 == "南海卖艺者"@);
                assert("拔线机"@.len() != "南海卖艺者"@.len());
                assert(pool_entry(11).0 != pool_entry(18).0);
            } else if j == 19 {
                reveal_strlit("拔线机");
                reveal_strlit("贪吃的穴居人");
                assert(pool_entry(11).0 == "拔线机"@);
                assert(pool_entry(19).0 == "贪吃的穴居人"@);
                assert("拔线机"@.len() != "贪吃的穴居人"@.len());
                assert(pool_entry(11).0 != pool_entry(19).0);
            }
        } else if i == 12 {
            if j == 13 {
                reveal_strlit("好斗的斥候");
                reveal_strlit("无害的骨颅");
                assert(pool_entry(12).0 == "好斗的斥候"@);
                assert(pool_entry(13).0 == "无害的骨颅"@);
                assert("好斗的斥候"@[0] != "无害的骨颅"@[0]);
                assert(pool_entry(12).0 != pool_entry(13).0);
            } else if j == 14 {
                reveal_strlit("好斗的斥候");
                reveal_strlit("复活的骑兵");
                assert(pool_entry(12).0 == "好斗的斥候"@);
                assert(pool_entry(14).0 == "复活的骑兵"@);
                assert("好斗的斥候"@[0] != "复活的骑兵"@[0]);
                assert(pool_entry(12).0 != pool_entry(14).0);
            } else if j == 15 {
                reveal_strlit("好斗的斥候");
                reveal_strlit("剃刀沼泽地卜师");
                assert(pool_entry(12).0 == "好斗的斥候"@);
                assert(pool_entry(15).0 == "剃刀沼泽地卜师"@);
                assert("好斗的斥候"@.len() != "剃刀沼泽地卜师"@.len());
                assert(pool_entry(12).0 != pool_entry(15).0);
            } else if j == 16 {
                reveal_strlit("好斗的斥候");
                reveal_strlit("晾膘的游客");
                assert(pool_entry(12).0 == "好斗的斥候"@);
                assert(pool_entry(16).0 == "晾膘的游客"@);
                assert("好斗的斥候"@[0] != "晾膘的游客"@[0]);
                assert(pool_entry(12).0 != pool_entry(16).0);
            } else if j == 17 {
                reveal_strlit("好斗的斥候");
                reveal_strlit("夺金健将");
                assert(pool_entry(12).0 == "好斗的斥候"@);
                assert(pool_entry(17).0 == "夺金健将"@);
                assert("好斗的斥候"@.len() != "夺金健将"@.len());
                assert(pool_entry(12).0 != pool_entry(17).0);
            } else if j == 18 {
                reveal_strlit("好斗的斥候");
                reveal_strlit("南海卖艺者");
                assert(pool_entry(12).0 == "好斗的斥候"@);
                assert(pool_entry(18).0 == "南海卖艺者"@);
                assert("好斗的斥候"@[0] != "南海卖艺者"@[0]);
                assert(pool_entry(12).0 != pool_entry(18).0);
            } else if j == 19 {
                reveal_strlit("好斗的斥候");
                reveal_strlit("贪吃的穴居人");
                assert(pool_entry(12).0 == "好斗的斥候"@);
                assert(pool_entry(19).0 == "贪吃的穴居人"@);
                assert("好斗的斥候"@.len() != "贪吃的穴居人"@.len());
                assert(pool_entry(12).0 != pool_entry(19).0);
            }
        } else if i == 13 {
            if j == 14 {
                reveal_strlit("无害的骨颅");
                reveal_strlit("复活的骑兵");
                assert(pool_entry(13).0 == "无害的骨颅"@);
                assert(pool_entry(14).0 == "复活的骑兵"@);
                assert("无害的骨颅"@[0] != "复活的骑兵"@[0]);
                assert(pool_entry(13).0 != pool_entry(14).0);
            } else if j == 15 {
                reveal_strlit("无害的骨颅");
                reveal_strlit("剃刀沼泽地卜师");
                assert(pool_entry(13).0 == "无害的骨颅"@);
                assert(pool_entry(15).0 == "剃刀沼泽地卜师"@);
                assert("无害的骨颅"@.len() != "剃刀沼泽地卜师"@.len());
                assert(pool_entry(13).0 != pool_entry(15).0);
            } else if j == 16 {
                reveal_strlit("无害的骨颅");
                reveal_strlit("晾膘的游客");
                assert(pool_entry(13).0 == "无害的骨颅"@);
                assert(pool_entry(16).0 == "晾膘的游客"@);
                assert("无害的骨颅"@[0] != "晾膘的游客"@[0]);
                assert(pool_entry(13).0 != pool_entry(16).0);
            } else if j == 17 {
                reveal_strlit("无害的骨颅");
                reveal_strlit("夺金健将");
                assert(pool_entry(13).0 == "无害的骨颅"@);
                assert(pool_entry(17).0 == "夺金健将"@);
                assert("无害的骨颅"@.len() != "夺金健将"@.len());
                assert(pool_entry(13).0 != pool_entry(17).0);
            } else if j == 18 {
                reveal_strlit("无害的骨颅");
                reveal_strlit("南海卖艺者");
                assert(pool_entry(13).0 == "无害的骨颅"@);
                assert(pool_entry(18).0 == "南海卖艺者"@);
                assert("无害的骨颅"@[0] != "南海卖艺者"@[0]);
                assert(pool_entry(13).0 != pool_entry(18).0);
            } else if j == 19 {
                reveal_strlit("无害的骨颅");
                reveal_strlit("贪吃的穴居人");
                assert(pool_entry(13).0 == "无害的骨颅"@);
                assert(pool_entry(19).0 == "贪吃的穴居人"@);
                assert("无害的骨颅"@.len() != "贪吃的穴居人"@.len());
                assert(pool_entry(13).0 != pool_entry(19).0);
            }
        } else if i == 14 {
            if j == 15 {
                reveal_strlit("复活的骑兵");
                reveal_strlit("剃刀沼泽地卜师");
                assert(pool_entry(14).0 == "复活的骑兵"@);
                assert(pool_entry(15).0 == "剃刀沼泽地卜师"@);
                assert("复活的骑兵"@.len() != "剃刀沼泽地卜师"@.len());
                assert(pool_entry(14).0 != pool_entry(15).0);
            } else if j == 16 {
                reveal_strlit("复活的骑兵");
                reveal_strlit("晾膘的游客");
                assert(pool_entry(14).0 == "复活的骑兵"@);
                assert(pool_entry(16).0 == "晾膘的游客"@);
                assert("复活的骑兵"@[0] != "晾膘的游客"@[0]);
                assert(pool_entry(14).0 != pool_entry(16).0);
            } else if j == 17 {
                reveal_strlit("复活的骑兵");
                reveal_strlit("夺金健将");
                assert(pool_entry(14).0 == "复活的骑兵"@);
                assert(pool_entry(17).0 == "夺金健将"@);
                assert("复活的骑兵"@.len() != "夺金健将"@.len());
                assert(pool_entry(14).0 != pool_entry(17).0);
            } else if j == 18 {
                reveal_strlit("复活的骑兵");
                reveal_strlit("南海卖艺者");
                assert(pool_entry(14).0 == "复活的骑兵"@);
                assert(pool_entry(18).0 == "南海卖艺者"@);
                assert("复活的骑兵"@[0] != "南海卖艺者"@[0]);
                assert(pool_entry(14).0 != pool_entry(18).0);
            } else if j == 19 {
                reveal_strlit("复活的骑兵");
                reveal_strlit("贪吃的穴居人");
                assert(pool_entry(14).0 == "复活的骑兵"@);
                assert(pool_entry(19).0 == "贪吃的穴居人"@);
                assert("复活的骑兵"@.len() != "贪吃的穴居人"@.len());
                assert(pool_entry(14).0 != pool_entry(19).0);
            }
        } else if i == 15 {
            if j == 16 {
                reveal_strlit("剃刀沼泽地卜师");
                reveal_strlit("晾膘的游客");
                assert(pool_entry(15).0 == "剃刀沼泽地卜师"@);
                assert(pool_entry(16).0 == "晾膘的游客"@);
                assert("剃刀沼泽地卜师"@.len() != "晾膘的游客"@.len());
                assert(pool_entry(15).0 != pool_entry(16).0);
            } else if j == 17 {
                reveal_strlit("剃刀沼泽地卜师");
                reveal_strlit("夺金健将");
                assert(pool_entry(15).0 == "剃刀沼泽地卜师"@);
                assert(pool_entry(17).0 == "夺金健将"@);
                assert("剃刀沼泽地卜师"@.len() != "夺金健将"@.len());
                assert(pool_entry(15).0 != pool_entry(17).0);
            } else if j == 18 {
                reveal_strlit("剃刀沼泽地卜师");
                reveal_strlit("南海卖艺者");
                assert(pool_entry(15).0 == "剃刀沼泽地卜师"@);
                assert(pool_entry(18).0 == "南海卖艺者"@);
                assert("剃刀沼泽地卜师"@.len() != "南海卖艺者"@.len());
                assert(pool_entry(15).0 != pool_entry(18).0);
            } else if j == 19 {
                reveal_strlit("剃刀沼泽地卜师");
                reveal_strlit("贪吃的穴居人");
                assert(pool_entry(15).0 == "剃刀沼泽地卜师"@);
                assert(pool_entry(19).0 == "贪吃的穴居人"@);
                assert("剃刀沼泽地卜师"@.len() != "贪吃的穴居人"@.len());
                assert(pool_entry(15).0 != pool_entry(19).0);
            }
        } else if i == 16 {
            if j == 17 {
                reveal_strlit("晾膘的游客");
                reveal_strlit("夺金健将");
                assert(pool_entry(16).0 == "晾膘的游客"@);
                assert(pool_entry(17).0 == "夺金健将"@);
                assert("晾膘的游客"@.len() != "夺金健将"@.len());
                assert(pool_entry(16).0 != pool_entry(17).0);
            } else if j == 18 {
                reveal_strlit("晾膘的游客");
                reveal_strlit("南海卖艺者");
                assert(pool_entry(16).0 == "晾膘的游客"@);
                assert(pool_entry(18).0 == "南海卖艺者"@);
                assert("晾膘的游客"@[0] != "南海卖艺者"@[0]);
                assert(pool_entry(16).0 != pool_entry(18).0);
            } else if j == 19 {
                reveal_strlit("晾膘的游客");
                reveal_strlit("贪吃的穴居人");
                assert(pool_entry(16).0 == "晾膘的游客"@);
                assert(pool_entry(19).0 == "贪吃的穴居人"@);
                assert("晾膘的游客"@.len() != "贪吃的穴居人"@.len());
                assert(pool_entry(16).0 != pool_entry(19).0);
            }
        } else if i == 17 {
            if j == 18 {
                reveal_strlit("夺金健将");
                reveal_strlit("南海卖艺者");
                assert(pool_entry(17).0 == "夺金健将"@);
                assert(pool_entry(18).0 == "南海卖艺者"@);
                assert("夺金健将"@.len() != "南海卖艺者"@.len());
                assert(pool_entry(17).0 != pool_entry(18).0);
            } else if j == 19 {
                reveal_strlit("夺金健将");
                reveal_strlit("贪吃的穴居人");
                assert(pool_entry(17).0 == "夺金健将"@);
                assert(pool_entry(19).0 == "贪吃的穴居人"@);
                assert("夺金健将"@.len() != "贪吃的穴居人"@.len());
                assert(pool_entry(17).0 != pool_entry(19).0);
            }
        } else if i == 18 {
            if j == 19 {
                reveal_strlit("南海卖艺者");
                reveal_strlit("贪吃的穴居人");
                assert(pool_entry(18).0 == "南海卖艺者"@);
                assert(pool_entry(19).0 == "贪吃的穴居人"@);
                assert("南海卖艺者"@.len() != "贪吃的穴居人"@.len());
                assert(pool_entry(18).0 != pool_entry(19).0);
            }
        } else if i == 19 {
        }
    }
}

/// Adds one entry to the pool.
fn add_entry(pool: &mut Vec<MinionTemplate>, name: &str, attack: i32, health: i32, tier: i32, race: Race)
    requires
        all_valid(old(pool)@),
        valid_stats(attack as int, health as int, tier as int),
        forall|j: int| 0 <= j < old(pool)@.len() ==> holds_entry(#[trigger] old(pool)@[j], pool_entry(j)),
        (name@, attack, health, tier, race) == pool_entry(old(pool)@.len() as int),
    ensures
        forall|j: int| 0 <= j < final(pool)@.len() ==> holds_entry(#[trigger] final(pool)@[j], pool_entry(j)),
        all_valid(final(pool)@),
        final(pool)@.len() == old(pool)@.len() + 1,
        final(pool)@.drop_last() == old(pool)@,
        final(pool)@.last().name@ == name@,
        final(pool)@.last().attack == attack,
        final(pool)@.last().health == health,
        final(pool)@.last().tier == tier,
        final(pool)@.last().race == race,
        forall|t: int| #[trigger] available(final(pool)@, t) == if tier <= t {
            available(old(pool)@, t).push(old(pool)@.len() as int)
        } else {
            available(old(pool)@, t)
        },
{
    let t = MinionTemplate { name: name.to_owned(), attack, health, tier, race };
    pool.push(t);
    assert(holds_entry(pool@[old(pool)@.len() as int], pool_entry(old(pool)@.len() as int)));
    assert(final(pool)@.drop_last() =~= old(pool)@) by {
        assert(pool@.drop_last() =~= old(pool)@);
    }
}

/// The minions of the game: the entries of `pool_entry`, in order, every one with valid stats.
pub fn minion_pool() -> (pool: Vec<MinionTemplate>)
    ensures
        all_valid(pool@),
        pool@.len() == POOL_SIZE,
        forall|j: int| 0 <= j < pool@.len() ==> holds_entry(#[trigger] pool@[j], pool_entry(j)),
        available(pool@, 1).len() == 20,
        available(pool@, 2).len() == 44,
        available(pool@, 3).len() == 61,
        available(pool@, 4).len() == 73,
        available(pool@, 5).len() == 84,
        available(pool@, 6).len() == 92,
{
    let mut pool: Vec<MinionTemplate> = Vec::new();
    add_entry(&mut pool, "魔刃豹", 4, 1, 1, Race::Beast);
    add_entry(&mut pool, "江河弹跳鱼", 1, 1, 1, Race::Beast);
    add_entry(&mut pool, "厄运先知", 2, 1, 1, Race::Demon);
    add_entry(&mut pool, "挑食魔犬", 1, 1, 1, Race::Demon);
    add_entry(&mut pool, "愤怒编织者", 1, 4, 1, Race::Demon);
    add_entry(&mut pool, "血色幸存飞龙", 3, 3, 1, Race::Dragon);
    add_entry(&mut pool, "暮光龙崽", 1, 1, 1, Race::Dragon);
    add_entry(&mut pool, "蓄势主唱幼龙", 1, 1, 1, Race::Dragon);
    add_entry(&mut pool, "爆裂飓风", 2, 1, 1, Race::Elemental);
    add_entry(&mut pool, "沙丘土著", 3, 2, 1, Race::Elemental);
    add_entry(&mut pool, "吵吵机器人", 1, 2, 1, Race::Mech);
    add_entry(&mut pool, "拔线机", 1, 1, 1, Race::Mech);
    add_entry(&mut pool, "好斗的斥候", 3, 3, 1, Race::Murloc);
    add_entry(&mut pool, "无害的骨颅", 1, 1, 1, Race::Undead);
    add_entry(&mut pool, "复活的骑兵", 2, 1, 1, Race::Undead);
    add_entry(&mut pool, "剃刀沼泽地卜师", 2, 1, 1, Race::Quilboar);
    add_entry(&mut pool, "晾膘的游客", 2, 3, 1, Race::Quilboar);
    add_entry(&mut pool, "夺金健将", 1, 1, 1, Race::Pirate);
    add_entry(&mut pool, "南海卖艺者", 3, 1, 1, Race::Pirate);
    add_entry(&mut pool, "贪吃的穴居人", 2, 3, 1, Race::Neutral);
    add_entry(&mut pool, "哼鸣蜂鸟", 1, 4, 2, Race::Beast);
    add_entry(&mut pool, "下水道老鼠", 3, 2, 2, Race::Beast);
    add_entry(&mut pool, "实验室助理", 3, 4, 2, Race::Demon);
    add_entry(&mut pool, "灵魂回溯者", 4, 1, 2, Race::Demon);
    add_entry(&mut pool, "烈火飞鱼", 2, 4, 2, Race::Dragon);
    add_entry(&mut pool, "贪睡的援护巨龙", 4, 3, 2, Race::Dragon);
    add_entry(&mut pool, "泰蕾苟萨", 4, 4, 2, Race::Dragon);
    add_entry(&mut pool, "火焰投球手", 4, 3, 2, Race::Elemental);
    add_entry(&mut pool, "商贩元素", 3, 3, 2, Race::Elemental);
    add_entry(&mut pool, "冰雪投球手", 3, 4, 2, Race::Elemental);
    add_entry(&mut pool, "星元自动机", 3, 4, 2, Race::Mech);
    add_entry(&mut pool, "钢铁猎人", 2, 1, 2, Race::Mech);
    add_entry(&mut pool, "通报警告机", 1, 1, 2, Race::Mech);
    add_entry(&mut pool, "飞行专家", 3, 4, 2, Race::Murloc);
    add_entry(&mut pool, "塔德", 2, 2, 2, Race::Murloc);
    add_entry(&mut pool, "巨饿冬鳍鱼人", 2, 5, 2, Race::Murloc);
    add_entry(&mut pool, "永恒骑士", 4, 1, 2, Race::Undead);
    add_entry(&mut pool, "死亡群居蛛魔", 1, 4, 2, Race::Undead);
    add_entry(&mut pool, "古老之魂", 3, 4, 2, Race::Undead);
    add_entry(&mut pool, "野猪预言者", 2, 3, 2, Race::Quilboar);
    add_entry(&mut pool, "挑衅的船工", 2, 5, 2, Race::Pirate);
    add_entry(&mut pool, "白赚赌徒", 3, 3, 2, Race::Pirate);
    add_entry(&mut pool, "新锐植物学家", 3, 4, 2, Race::Neutral);
    add_entry(&mut pool, "耐心的侦查员", 1, 1, 2, Race::Neutral);
    add_entry(&mut pool, "狡猾的迅猛龙", 1, 3, 3, Race::Beast);
    add_entry(&mut pool, "邪能元素", 3, 3, 3, Race::Demon);
    add_entry(&mut pool, "吸血地狱犬", 3, 3, 3, Race::Demon);
    add_entry(&mut pool, "琥珀卫士", 3, 2, 3, Race::Dragon);
    add_entry(&mut pool, "钩牙船长", 1, 4, 3, Race::Dragon);
    add_entry(&mut pool, "野火元素", 6, 3, 3, Race::Elemental);
    add_entry(&mut pool, "聚积风暴", 5, 1, 3, Race::Elemental);
    add_entry(&mut pool, "偏折机器人", 3, 2, 3, Race::Mech);
    add_entry(&mut pool, "吵吵模组", 2, 4, 3, Race::Mech);
    add_entry(&mut pool, "手风琴机器人", 3, 3, 3, Race::Mech);
    add_entry(&mut pool, "拜戈尔格国王", 2, 3, 3, Race::Murloc);
    add_entry(&mut pool, "刺豚野猪", 2, 6, 3, Race::Quilboar);
    add_entry(&mut pool, "刺头吹笛人", 5, 1, 3, Race::Quilboar);
    add_entry(&mut pool, "暗膘爵士乐手", 2, 5, 3, Race::Quilboar);
    add_entry(&mut pool, "佩吉·斯特迪伯", 2, 1, 3, Race::Pirate);
    add_entry(&mut pool, "断手被遗忘者", 2, 1, 3, Race::Undead);
    add_entry(&mut pool, "致命的孢子", 1, 1, 3, Race::Neutral);
    add_entry(&mut pool, "香蕉猛击者", 3, 6, 4, Race::Beast);
    add_entry(&mut pool, "铁喙猫头鹰", 5, 4, 4, Race::Beast);
    add_entry(&mut pool, "舞者达瑞尔", 5, 4, 4, Race::Demon);
    add_entry(&mut pool, "火药运输工", 4, 5, 4, Race::Demon);
    add_entry(&mut pool, "末日之卵", 0, 5, 4, Race::Dragon);
    add_entry(&mut pool, "冲浪的希尔梵", 4, 6, 4, Race::Elemental);
    add_entry(&mut pool, "机械剑龙", 3, 5, 4, Race::Mech);
    add_entry(&mut pool, "寻宝鱼人", 4, 4, 4, Race::Murloc);
    add_entry(&mut pool, "拜戈尔格王后", 6, 3, 4, Race::Murloc);
    add_entry(&mut pool, "瘟疫行者", 4, 2, 4, Race::Undead);
    add_entry(&mut pool, "过路旅客", 1, 10, 4, Race::Neutral);
    add_entry(&mut pool, "隧道爆破者", 3, 7, 4, Race::Neutral);
    add_entry(&mut pool, "鼠王", 4, 6, 5, Race::Beast);
    add_entry(&mut pool, "刺背恶霸", 8, 2, 5, Race::Beast);
    add_entry(&mut pool, "大方的地卜师", 4, 6, 5, Race::Demon);
    add_entry(&mut pool, "提克特斯", 3, 6, 5, Race::Demon);
    add_entry(&mut pool, "玛里苟斯", 4, 12, 5, Race::Dragon);
    add_entry(&mut pool, "狂风之翼", 16, 8, 5, Race::Dragon);
    add_entry(&mut pool, "死神4000型", 6, 2, 5, Race::Mech);
    add_entry(&mut pool, "菌菇术士弗洛格尔", 4, 8, 5, Race::Murloc);
    add_entry(&mut pool, "尤朵拉船长", 10, 5, 5, Race::Pirate);
    add_entry(&mut pool, "布莱恩·铜须", 2, 4, 5, Race::Neutral);
    add_entry(&mut pool, "瑞文戴尔男爵", 1, 7, 5, Race::Neutral);
    add_entry(&mut pool, "戈德林大狼", 8, 8, 6, Race::Beast);
    add_entry(&mut pool, "饥饿的魔蝠", 9, 5, 6, Race::Demon);
    add_entry(&mut pool, "卡雷苟斯", 4, 12, 6, Race::Dragon);
    add_entry(&mut pool, "死亡之翼", 10, 10, 6, Race::Dragon);
    add_entry(&mut pool, "小瞎眼", 8, 8, 6, Race::Elemental);
    add_entry(&mut pool, "机械加拉克隆", 6, 6, 6, Race::Mech);
    add_entry(&mut pool, "天空上尉库拉格", 4, 6, 6, Race::Pirate);
    add_entry(&mut pool, "缝合怪", 6, 7, 6, Race::Neutral);
    pool
}

/// How many minions the pool holds.
pub const POOL_SIZE: usize = 92;

} // verus!
