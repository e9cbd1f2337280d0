//! Which card picture belongs to which minion name.

use vstd::prelude::*;
use crate::pool::{pool_entry, POOL_SIZE};

verus! {

/// The picture key of the minion called `name`; empty where the minion has no picture.
pub open spec fn image_key_of(name: Seq<char>) -> Seq<char> {
    if name == "吵吵机器人"@ {
        "Annoy-o-Tron"@
    } else if name == "爆裂飓风"@ {
        "Crackling_Cyclone"@
    } else if name == "沙丘土著"@ {
        "Dune_Dweller"@
    } else if name == "无害的骨颅"@ {
        "Harmless_Bonehead"@
    } else if name == "魔刃豹"@ {
        "Manasaber"@
    } else if name == "愤怒编织者"@ {
        "Wrath_Weaver"@
    } else if name == "血色幸存飞龙"@ {
        "Scarlet_Survivor"@
    } else if name == "晾膘的游客"@ {
        "Sun-Bacon_Relaxer"@
    } else if name == "南海卖艺者"@ {
        "Southsea_Busker"@
    } else if name == "贪吃的穴居人"@ {
        "Gluttonous_Trogg"@
    } else if name == "复活的骑兵"@ {
        "Risen_Rider"@
    } else if name == "剃刀沼泽地卜师"@ {
        "Razorfen_Geomancer"@
    } else if name == "哼鸣蜂鸟"@ {
        "Humming_Bird"@
    } else if name == "下水道老鼠"@ {
        "Sewer_Rat"@
    } else if name == "永恒骑士"@ {
        "Eternal_Knight"@
    } else if name == "泰蕾苟萨"@ {
        "Tarecgosa"@
    } else if name == "商贩元素"@ {
        "Sellemental"@
    } else if name == "星元自动机"@ {
        "Ancestral_Automaton"@
    } else if name == "白赚赌徒"@ {
        "Freedealing_Gambler"@
    } else if name == "实验室助理"@ {
        "Laboratory_Assistant"@
    } else if name == "野猪预言者"@ {
        "Prophet_of_the_Boar"@
    } else if name == "偏折机器人"@ {
        "Deflect-o-Bot"@
    } else if name == "吵吵模组"@ {
        "Annoy-o-Module"@
    } else if name == "拜戈尔格国王"@ {
        "King_Bagurgle"@
    } else if name == "邪能元素"@ {
        "Felemental"@
    } else if name == "刺豚野猪"@ {
        "Pufferquil"@
    } else if name == "琥珀卫士"@ {
        "Amber_Guardian"@
    } else if name == "香蕉猛击者"@ {
        "Banana_Slamma"@
    } else if name == "舞者达瑞尔"@ {
        "Malchezaar_Prince_of_Dance"@
    } else if name == "隧道爆破者"@ {
        "Tunnel_Blaster"@
    } else if name == "布莱恩·铜须"@ {
        "Brann_Bronzebeard"@
    } else if name == "瑞文戴尔男爵"@ {
        "Titus_Rivendare"@
    } else if name == "玛里苟斯"@ {
        "Kalecgos_Arcane_Aspect"@
    } else if name == "大方的地卜师"@ {
        "Bazaar_Dealer"@
    } else if name == "死神4000型"@ {
        "Scrap_Scraper"@
    } else if name == "戈德林大狼"@ {
        "Goldrinn_the_Great_Wolf"@
    } else if name == "饥饿的魔蝠"@ {
        "Famished_Felbat"@
    } else if name == "狂风之翼"@ {
        "Nightbane_Ignited"@
    } else if name == "缝合怪"@ {
        "One-Amalgam_Tour_Group"@
    } else if name == "机械加拉克隆"@ {
        "Moonsteel_Juggernaut"@
    } else {
        ""@
    }
}

/// The name whose picture `key` is; empty where no name has that picture.
spec fn picture_owner(key: Seq<char>) -> Seq<char> {
    if key == "Annoy-o-Tron"@ {
        "吵吵机器人"@
    } else if key == "Crackling_Cyclone"@ {
        "爆裂飓风"@
    } else if key == "Dune_Dweller"@ {
        "沙丘土著"@
    } else if key == "Harmless_Bonehead"@ {
        "无害的骨颅"@
    } else if key == "Manasaber"@ {
        "魔刃豹"@
    } else if key == "Wrath_Weaver"@ {
        "愤怒编织者"@
    } else if key == "Scarlet_Survivor"@ {
        "血色幸存飞龙"@
    } else if key == "Sun-Bacon_Relaxer"@ {
        "晾膘的游客"@
    } else if key == "Southsea_Busker"@ {
        "南海卖艺者"@
    } else if key == "Gluttonous_Trogg"@ {
        "贪吃的穴居人"@
    } else if key == "Risen_Rider"@ {
        "复活的骑兵"@
    } else if key == "Razorfen_Geomancer"@ {
        "剃刀沼泽地卜师"@
    } else if key == "Humming_Bird"@ {
        "哼鸣蜂鸟"@
    } else if key == "Sewer_Rat"@ {
        "下水道老鼠"@
    } else if key == "Eternal_Knight"@ {
        "永恒骑士"@
    } else if key == "Tarecgosa"@ {
        "泰蕾苟萨"@
    } else if key == "Sellemental"@ {
        "商贩元素"@
    } else if key == "Ancestral_Automaton"@ {
        "星元自动机"@
    } else if key == "Freedealing_Gambler"@ {
        "白赚赌徒"@
    } else if key == "Laboratory_Assistant"@ {
        "实验室助理"@
    } else if key == "Prophet_of_the_Boar"@ {
        "野猪预言者"@
    } else if key == "Deflect-o-Bot"@ {
        "偏折机器人"@
    } else if key == "Annoy-o-Module"@ {
        "吵吵模组"@
    } else if key == "King_Bagurgle"@ {
        "拜戈尔格国王"@
    } else if key == "Felemental"@ {
        "邪能元素"@
    } else if key == "Pufferquil"@ {
        "刺豚野猪"@
    } else if key == "Amber_Guardian"@ {
        "琥珀卫士"@
    } else if key == "Banana_Slamma"@ {
        "香蕉猛击者"@
    } else if key == "Malchezaar_Prince_of_Dance"@ {
        "舞者达瑞尔"@
    } else if key == "Tunnel_Blaster"@ {
        "隧道爆破者"@
    } else if key == "Brann_Bronzebeard"@ {
        "布莱恩·铜须"@
    } else if key == "Titus_Rivendare"@ {
        "瑞文戴尔男爵"@
    } else if key == "Kalecgos_Arcane_Aspect"@ {
        "玛里苟斯"@
    } else if key == "Bazaar_Dealer"@ {
        "大方的地卜师"@
    } else if key == "Scrap_Scraper"@ {
        "死神4000型"@
    } else if key == "Goldrinn_the_Great_Wolf"@ {
        "戈德林大狼"@
    } else if key == "Famished_Felbat"@ {
        "饥饿的魔蝠"@
    } else if key == "Nightbane_Ignited"@ {
        "狂风之翼"@
    } else if key == "One-Amalgam_Tour_Group"@ {
        "缝合怪"@
    } else if key == "Moonsteel_Juggernaut"@ {
        "机械加拉克隆"@
    } else {
        ""@
    }
}

/// Each picture leads back to the name it was drawn for.
proof fn lemma_picture_owner()
    ensures
        picture_owner("Annoy-o-Tron"@) == "吵吵机器人"@,
        picture_owner("Crackling_Cyclone"@) == "爆裂飓风"@,
        picture_owner("Dune_Dweller"@) == "沙丘土著"@,
        picture_owner("Harmless_Bonehead"@) == "无害的骨颅"@,
        picture_owner("Manasaber"@) == "魔刃豹"@,
        picture_owner("Wrath_Weaver"@) == "愤怒编织者"@,
        picture_owner("Scarlet_Survivor"@) == "血色幸存飞龙"@,
        picture_owner("Sun-Bacon_Relaxer"@) == "晾膘的游客"@,
        picture_owner("Southsea_Busker"@) == "南海卖艺者"@,
        picture_owner("Gluttonous_Trogg"@) == "贪吃的穴居人"@,
        picture_owner("Risen_Rider"@) == "复活的骑兵"@,
        picture_owner("Razorfen_Geomancer"@) == "剃刀沼泽地卜师"@,
        picture_owner("Humming_Bird"@) == "哼鸣蜂鸟"@,
        picture_owner("Sewer_Rat"@) == "下水道老鼠"@,
        picture_owner("Eternal_Knight"@) == "永恒骑士"@,
        picture_owner("Tarecgosa"@) == "泰蕾苟萨"@,
        picture_owner("Sellemental"@) == "商贩元素"@,
        picture_owner("Ancestral_Automaton"@) == "星元自动机"@,
        picture_owner("Freedealing_Gambler"@) == "白赚赌徒"@,
        picture_owner("Laboratory_Assistant"@) == "实验室助理"@,
        picture_owner("Prophet_of_the_Boar"@) == "野猪预言者"@,
        picture_owner("Deflect-o-Bot"@) == "偏折机器人"@,
        picture_owner("Annoy-o-Module"@) == "吵吵模组"@,
        picture_owner("King_Bagurgle"@) == "拜戈尔格国王"@,
        picture_owner("Felemental"@) == "邪能元素"@,
        picture_owner("Pufferquil"@) == "刺豚野猪"@,
        picture_owner("Amber_Guardian"@) == "琥珀卫士"@,
        picture_owner("Banana_Slamma"@) == "香蕉猛击者"@,
        picture_owner("Malchezaar_Prince_of_Dance"@) == "舞者达瑞尔"@,
        picture_owner("Tunnel_Blaster"@) == "隧道爆破者"@,
        picture_owner("Brann_Bronzebeard"@) == "布莱恩·铜须"@,
        picture_owner("Titus_Rivendare"@) == "瑞文戴尔男爵"@,
        picture_owner("Kalecgos_Arcane_Aspect"@) == "玛里苟斯"@,
        picture_owner("Bazaar_Dealer"@) == "大方的地卜师"@,
        picture_owner("Scrap_Scraper"@) == "死神4000型"@,
        picture_owner("Goldrinn_the_Great_Wolf"@) == "戈德林大狼"@,
        picture_owner("Famished_Felbat"@) == "饥饿的魔蝠"@,
        picture_owner("Nightbane_Ignited"@) == "狂风之翼"@,
        picture_owner("One-Amalgam_Tour_Group"@) == "缝合怪"@,
        picture_owner("Moonsteel_Juggernaut"@) == "机械加拉克隆"@,
{
    reveal_strlit("Annoy-o-Tron");
    assert("Annoy-o-Tron"@.len() == 12);
    assert("Annoy-o-Tron"@[0] == 'A');
    reveal_strlit("Crackling_Cyclone");
    assert("Crackling_Cyclone"@.len() == 17);
    assert("Crackling_Cyclone"@[0] == 'C');
    reveal_strlit("Dune_Dweller");
    assert("Dune_Dweller"@.len() == 12);
    assert("Dune_Dweller"@[0] == 'D');
    reveal_strlit("Harmless_Bonehead");
    assert("Harmless_Bonehead"@.len() == 17);
    assert("Harmless_Bonehead"@[0] == 'H');
    reveal_strlit("Manasaber");
    assert("Manasaber"@.len() == 9);
    assert("Manasaber"@[0] == 'M');
    reveal_strlit("Wrath_Weaver");
    assert("Wrath_Weaver"@.len() == 12);
    assert("Wrath_Weaver"@[0] == 'W');
    reveal_strlit("Scarlet_Survivor");
    assert("Scarlet_Survivor"@.len() == 16);
    assert("Scarlet_Survivor"@[0] == 'S');
    reveal_strlit("Sun-Bacon_Relaxer");
    assert("Sun-Bacon_Relaxer"@.len() == 17);
    assert("Sun-Bacon_Relaxer"@[0] == 'S');
    reveal_strlit("Southsea_Busker");
    assert("Southsea_Busker"@.len() == 15);
    assert("Southsea_Busker"@[0] == 'S');
    reveal_strlit("Gluttonous_Trogg");
    assert("Gluttonous_Trogg"@.len() == 16);
    assert("Gluttonous_Trogg"@[0] == 'G');
    reveal_strlit("Risen_Rider");
    assert("Risen_Rider"@.len() == 11);
    assert("Risen_Rider"@[0] == 'R');
    reveal_strlit("Razorfen_Geomancer");
    assert("Razorfen_Geomancer"@.len() == 18);
    reveal_strlit("Humming_Bird");
    assert("Humming_Bird"@.len() == 12);
    assert("Humming_Bird"@[0] == 'H');
    reveal_strlit("Sewer_Rat");
    assert("Sewer_Rat"@.len() == 9);
    assert("Sewer_Rat"@[0] == 'S');
    reveal_strlit("Eternal_Knight");
    assert("Eternal_Knight"@.len() == 14);
    assert("Eternal_Knight"@[0] == 'E');
    reveal_strlit("Tarecgosa");
    assert("Tarecgosa"@.len() == 9);
    assert("Tarecgosa"@[0] == 'T');
    reveal_strlit("Sellemental");
    assert("Sellemental"@.len() == 11);
    assert("Sellemental"@[0] == 'S');
    reveal_strlit("Ancestral_Automaton");
    assert("Ancestral_Automaton"@.len() == 19);
    assert("Ancestral_Automaton"@[0] == 'A');
    reveal_strlit("Freedealing_Gambler");
    assert("Freedealing_Gambler"@.len() == 19);
    assert("Freedealing_Gambler"@[0] == 'F');
    reveal_strlit("Laboratory_Assistant");
    assert("Laboratory_Assistant"@.len() == 20);
    assert("Laboratory_Assistant"@[0] == 'L');
    reveal_strlit("Prophet_of_the_Boar");
    assert("Prophet_of_the_Boar"@.len() == 19);
    assert("Prophet_of_the_Boar"@[0] == 'P');
    reveal_strlit("Deflect-o-Bot");
    assert("Deflect-o-Bot"@.len() == 13);
    assert("Deflect-o-Bot"@[0] == 'D');
    reveal_strlit("Annoy-o-Module");
    assert("Annoy-o-Module"@.len() == 14);
    assert("Annoy-o-Module"@[0] == 'A');
    assert("Annoy-o-Module"@[1] == 'n');
    reveal_strlit("King_Bagurgle");
    assert("King_Bagurgle"@.len() == 13);
    assert("King_Bagurgle"@[0] == 'K');
    reveal_strlit("Felemental");
    assert("Felemental"@.len() == 10);
    assert("Felemental"@[0] == 'F');
    reveal_strlit("Pufferquil");
    assert("Pufferquil"@.len() == 10);
    assert("Pufferquil"@[0] == 'P');
    reveal_strlit("Amber_Guardian");
    assert("Amber_Guardian"@.len() == 14);
    assert("Amber_Guardian"@[0] == 'A');
    assert("Amber_Guardian"@[1] == 'm');
    reveal_strlit("Banana_Slamma");
    assert("Banana_Slamma"@.len() == 13);
    assert("Banana_Slamma"@[0] == 'B');
    assert("Banana_Slamma"@[2] == 'n');
    reveal_strlit("Malchezaar_Prince_of_Dance");
    assert("Malchezaar_Prince_of_Dance"@.len() == 26);
    reveal_strlit("Tunnel_Blaster");
    assert("Tunnel_Blaster"@.len() == 14);
    assert("Tunnel_Blaster"@[0] == 'T');
    reveal_strlit("Brann_Bronzebeard");
    assert("Brann_Bronzebeard"@.len() == 17);
    assert("Brann_Bronzebeard"@[0] == 'B');
    reveal_strlit("Titus_Rivendare");
    assert("Titus_Rivendare"@.len() == 15);
    assert("Titus_Rivendare"@[0] == 'T');
    reveal_strlit("Kalecgos_Arcane_Aspect");
    assert("Kalecgos_Arcane_Aspect"@.len() == 22);
    assert("Kalecgos_Arcane_Aspect"@[0] == 'K');
    reveal_strlit("Bazaar_Dealer");
    assert("Bazaar_Dealer"@.len() == 13);
    assert("Bazaar_Dealer"@[0] == 'B');
    assert("Bazaar_Dealer"@[2] == 'z');
    reveal_strlit("Scrap_Scraper");
    assert("Scrap_Scraper"@.len() == 13);
    assert("Scrap_Scraper"@[0] == 'S');
    reveal_strlit("Goldrinn_the_Great_Wolf");
    assert("Goldrinn_the_Great_Wolf"@.len() == 23);
    reveal_strlit("Famished_Felbat");
    assert("Famished_Felbat"@.len() == 15);
    assert("Famished_Felbat"@[0] == 'F');
    reveal_strlit("Nightbane_Ignited");
    assert("Nightbane_Ignited"@.len() == 17);
    assert("Nightbane_Ignited"@[0] == 'N');
    reveal_strlit("One-Amalgam_Tour_Group");
    assert("One-Amalgam_Tour_Group"@.len() == 22);
    assert("One-Amalgam_Tour_Group"@[0] == 'O');
    reveal_strlit("Moonsteel_Juggernaut");
    assert("Moonsteel_Juggernaut"@.len() == 20);
    assert("Moonsteel_Juggernaut"@[0] == 'M');
}

/// No two names share a picture: a nonempty picture key belongs to one name only.
pub proof fn lemma_picture_keys_distinct(a: Seq<char>, b: Seq<char>)
    requires
        image_key_of(a) != ""@,
        image_key_of(a) == image_key_of(b),
    ensures
        a == b,
{
    lemma_picture_owner();
    assert(picture_owner(image_key_of(a)) == a);
    assert(picture_owner(image_key_of(b)) == b);
}

/// Every picture was drawn for a minion of the game's table.
pub proof fn lemma_pictures_in_pool(name: Seq<char>)
    requires
        image_key_of(name) != ""@,
    ensures
        exists|j: int| 0 <= j < POOL_SIZE && #[trigger] pool_entry(j).0 == name,
{
    if name == "吵吵机器人"@ {
        assert(pool_entry(10).0 == name);
    } else if name == "爆裂飓风"@ {
        assert(pool_entry(8).0 == name);
    } else if name == "沙丘土著"@ {
        assert(pool_entry(9).0 == name);
    } else if name == "无害的骨颅"@ {
        assert(pool_entry(13).0 == name);
    } else if name == "魔刃豹"@ {
        assert(pool_entry(0).0 == name);
    } else if name == "愤怒编织者"@ {
        assert(pool_entry(4).0 == name);
    } else if name == "血色幸存飞龙"@ {
        assert(pool_entry(5).0 == name);
    } else if name == "晾膘的游客"@ {
        assert(pool_entry(16).0 == name);
    } else if name == "南海卖艺者"@ {
        assert(pool_entry(18).0 == name);
    } else if name == "贪吃的穴居人"@ {
        assert(pool_entry(19).0 == name);
    } else if name == "复活的骑兵"@ {
        assert(pool_entry(14).0 == name);
    } else if name == "剃刀沼泽地卜师"@ {
        assert(pool_entry(15).0 == name);
    } else if name == "哼鸣蜂鸟"@ {
        assert(pool_entry(20).0 == name);
    } else if name == "下水道老鼠"@ {
        assert(pool_entry(21).0 == name);
    } else if name == "永恒骑士"@ {
        assert(pool_entry(36).0 == name);
    } else if name == "泰蕾苟萨"@ {
        assert(pool_entry(26).0 == name);
    } else if name == "商贩元素"@ {
        assert(pool_entry(28).0 == name);
    } else if name == "星元自动机"@ {
        assert(pool_entry(30).0 == name);
    } else if name == "白赚赌徒"@ {
        assert(pool_entry(41).0 == name);
    } else if name == "实验室助理"@ {
        assert(pool_entry(22).0 == name);
    } else if name == "野猪预言者"@ {
        assert(pool_entry(39).0 == name);
    } else if name == "偏折机器人"@ {
        assert(pool_entry(51).0 == name);
    } else if name == "吵吵模组"@ {
        assert(pool_entry(52).0 == name);
    } else if name == "拜戈尔格国王"@ {
        assert(pool_entry(54).0 == name);
    } else if name == "邪能元素"@ {
        assert(pool_entry(45).0 == name);
    } else if name == "刺豚野猪"@ {
        assert(pool_entry(55).0 == name);
    } else if name == "琥珀卫士"@ {
        assert(pool_entry(47).0 == name);
    } else if name == "香蕉猛击者"@ {
        assert(pool_entry(61).0 == name);
    } else if name == "舞者达瑞尔"@ {
        assert(pool_entry(63).0 == name);
    } else if name == "隧道爆破者"@ {
        assert(pool_entry(72).0 == name);
    } else if name == "布莱恩·铜须"@ {
        assert(pool_entry(82).0 == name);
    } else if name == "瑞文戴尔男爵"@ {
        assert(pool_entry(83).0 == name);
    } else if name == "玛里苟斯"@ {
        assert(pool_entry(77).0 == name);
    } else if name == "大方的地卜师"@ {
        assert(pool_entry(75).0 == name);
    } else if name == "死神4000型"@ {
        assert(pool_entry(79).0 == name);
    } else if name == "戈德林大狼"@ {
        assert(pool_entry(84).0 == name);
    } else if name == "饥饿的魔蝠"@ {
        assert(pool_entry(85).0 == name);
    } else if name == "狂风之翼"@ {
        assert(pool_entry(78).0 == name);
    } else if name == "缝合怪"@ {
        assert(pool_entry(91).0 == name);
    } else if name == "机械加拉克隆"@ {
        assert(pool_entry(89).0 == name);
    }
}

/// Whether two strings hold the same characters.
fn same_text(a: &String, b: &str) -> (same: bool)
    ensures
        same == (a@ == b@),
{
    let b_owned: String = b.to_owned();
    *a == b_owned
}

/// The picture key of the card of the minion called `zh_name`; the empty string
/// where no picture was drawn for it.
pub fn card_image_key(zh_name: &str) -> (key: &'static str)
    ensures
        key@ == image_key_of(zh_name@),
{
    let name: String = zh_name.to_owned();
    if same_text(&name, "吵吵机器人") {
        "Annoy-o-Tron"
    } else if same_text(&name, "爆裂飓风") {
        "Crackling_Cyclone"
    } else if same_text(&name, "沙丘土著") {
        "Dune_Dweller"
    } else if same_text(&name, "无害的骨颅") {
        "Harmless_Bonehead"
    } else if same_text(&name, "魔刃豹") {
        "Manasaber"
    } else if same_text(&name, "愤怒编织者") {
        "Wrath_Weaver"
    } else if same_text(&name, "血色幸存飞龙") {
        "Scarlet_Survivor"
    } else if same_text(&name, "晾膘的游客") {
        "Sun-Bacon_Relaxer"
    } else if same_text(&name, "南海卖艺者") {
        "Southsea_Busker"
    } else if same_text(&name, "贪吃的穴居人") {
        "Gluttonous_Trogg"
    } else if same_text(&name, "复活的骑兵") {
        "Risen_Rider"
    } else if same_text(&name, "剃刀沼泽地卜师") {
        "Razorfen_Geomancer"
    } else if same_text(&name, "哼鸣蜂鸟") {
        "Humming_Bird"
    } else if same_text(&name, "下水道老鼠") {
        "Sewer_Rat"
    } else if same_text(&name, "永恒骑士") {
        "Eternal_Knight"
    } else if same_text(&name, "泰蕾苟萨") {
        "Tarecgosa"
    } else if same_text(&name, "商贩元素") {
        "Sellemental"
    } else if same_text(&name, "星元自动机") {
        "Ancestral_Automaton"
    } else if same_text(&name, "白赚赌徒") {
        "Freedealing_Gambler"
    } else if same_text(&name, "实验室助理") {
        "Laboratory_Assistant"
    } else if same_text(&name, "野猪预言者") {
        "Prophet_of_the_Boar"
    } else if same_text(&name, "偏折机器人") {
        "Deflect-o-Bot"
    } else if same_text(&name, "吵吵模组") {
        "Annoy-o-Module"
    } else if same_text(&name, "拜戈尔格国王") {
        "King_Bagurgle"
    } else if same_text(&name, "邪能元素") {
        "Felemental"
    } else if same_text(&name, "刺豚野猪") {
        "Pufferquil"
    } else if same_text(&name, "琥珀卫士") {
        "Amber_Guardian"
    } else if same_text(&name, "香蕉猛击者") {
        "Banana_Slamma"
    } else if same_text(&name, "舞者达瑞尔") {
        "Malchezaar_Prince_of_Dance"
    } else if same_text(&name, "隧道爆破者") {
        "Tunnel_Blaster"
    } else if same_text(&name, "布莱恩·铜须") {
        "Brann_Bronzebeard"
    } else if same_text(&name, "瑞文戴尔男爵") {
        "Titus_Rivendare"
    } else if same_text(&name, "玛里苟斯") {
        "Kalecgos_Arcane_Aspect"
    } else if same_text(&name, "大方的地卜师") {
        "Bazaar_Dealer"
    } else if same_text(&name, "死神4000型") {
        "Scrap_Scraper"
    } else if same_text(&name, "戈德林大狼") {
        "Goldrinn_the_Great_Wolf"
    } else if same_text(&name, "饥饿的魔蝠") {
        "Famished_Felbat"
    } else if same_text(&name, "狂风之翼") {
        "Nightbane_Ignited"
    } else if same_text(&name, "缝合怪") {
        "One-Amalgam_Tour_Group"
    } else if same_text(&name, "机械加拉克隆") {
        "Moonsteel_Juggernaut"
    } else {
        ""
    }
}

} // verus!
