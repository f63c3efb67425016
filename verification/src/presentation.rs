use vstd::prelude::*;

use crate::text::{
    append_decimal, chars_of, decimal_text, has_prefix, parse_bounded, parse_decimal, starts_with,
    str_eq, string_from_chars,
};

verus! {

/// Display name of a service product.
pub open spec fn product_name_of(id: Seq<char>) -> Option<Seq<char>> {
    if id == "product:0"@ {
        Some("Small Room"@)
    } else if id == "product:1"@ {
        Some("Standard Room"@)
    } else if id == "product:2"@ {
        Some("Superior Room"@)
    } else if id == "product:3"@ {
        Some("Deluxe Room"@)
    } else if id == "product:4"@ {
        Some("Suite Room"@)
    } else if id == "product:5"@ {
        Some("Linen Bandage"@)
    } else if id == "product:6"@ {
        Some("Wool Bandage"@)
    } else if id == "product:7"@ {
        Some("Silk Bandage"@)
    } else if id == "product:8"@ {
        Some("Magic Bandage"@)
    } else if id == "product:9"@ {
        Some("Hell Bandage"@)
    } else if id == "product:10"@ {
        Some("Cake"@)
    } else if id == "product:11"@ {
        Some("Parfait"@)
    } else if id == "product:12"@ {
        Some("Handmade Burger"@)
    } else if id == "product:13"@ {
        Some("Tomato Pasta"@)
    } else if id == "product:14"@ {
        Some("Tenderloin Steak"@)
    } else if id == "product:15"@ {
        Some("Orange Juice"@)
    } else if id == "product:16"@ {
        Some("Beer"@)
    } else if id == "product:17"@ {
        Some("Red Wine"@)
    } else if id == "product:18"@ {
        Some("Cocktail"@)
    } else if id == "product:19"@ {
        Some("Whiskey"@)
    } else if id == "product:29"@ {
        Some("Luxury Room"@)
    } else if id == "product:30"@ {
        Some("Shiny Bandage"@)
    } else if id == "product:31"@ {
        Some("Three Course Meal"@)
    } else if id == "product:32"@ {
        Some("Vodka"@)
    } else if id == "product:48"@ {
        Some("Special Room"@)
    } else if id == "product:49"@ {
        Some("Pink Silk Bandage"@)
    } else if id == "product:50"@ {
        Some("Afternoon Meal"@)
    } else if id == "product:51"@ {
        Some("Tequila"@)
    } else {
        None
    }
}

/// Icon of a service product.
pub open spec fn product_icon_of(id: Seq<char>) -> Option<Seq<char>> {
    if id == "product:0"@ {
        Some("/content/releases/original-flow-v1/sprites/product_00__3523.png"@)
    } else if id == "product:1"@ {
        Some("/content/releases/original-flow-v1/sprites/product_01__4988.png"@)
    } else if id == "product:2"@ {
        Some("/content/releases/original-flow-v1/sprites/product_02__4912.png"@)
    } else if id == "product:3"@ {
        Some("/content/releases/original-flow-v1/sprites/product_03__2634.png"@)
    } else if id == "product:4"@ {
        Some("/content/releases/original-flow-v1/sprites/product_04__7168.png"@)
    } else if id == "product:5"@ {
        Some("/content/releases/original-flow-v1/sprites/product_05__2957.png"@)
    } else if id == "product:6"@ {
        Some("/content/releases/original-flow-v1/sprites/product_06__3994.png"@)
    } else if id == "product:7"@ {
        Some("/content/releases/original-flow-v1/sprites/product_07__2037.png"@)
    } else if id == "product:8"@ {
        Some("/content/releases/original-flow-v1/sprites/product_08__6490.png"@)
    } else if id == "product:9"@ {
        Some("/content/releases/original-flow-v1/sprites/product_09__1935.png"@)
    } else if id == "product:10"@ {
        Some("/content/releases/original-flow-v1/sprites/product_10__6271.png"@)
    } else if id == "product:11"@ {
        Some("/content/releases/original-flow-v1/sprites/product_11__2026.png"@)
    } else if id == "product:12"@ {
        Some("/content/releases/original-flow-v1/sprites/product_12__1368.png"@)
    } else if id == "product:13"@ {
        Some("/content/releases/original-flow-v1/sprites/product_13__3637.png"@)
    } else if id == "product:14"@ {
        Some("/content/releases/original-flow-v1/sprites/product_14__1604.png"@)
    } else if id == "product:15"@ {
        Some("/content/releases/original-flow-v1/sprites/product_15__6488.png"@)
    } else if id == "product:16"@ {
        Some("/content/releases/original-flow-v1/sprites/product_16__3707.png"@)
    } else if id == "product:17"@ {
        Some("/content/releases/original-flow-v1/sprites/product_17__6592.png"@)
    } else if id == "product:18"@ {
        Some("/content/releases/original-flow-v1/sprites/product_18__6216.png"@)
    } else if id == "product:19"@ {
        Some("/content/releases/original-flow-v1/sprites/product_19__5193.png"@)
    } else if id == "product:29"@ {
        Some("/content/releases/original-flow-v1/sprites/product_29__6396.png"@)
    } else if id == "product:30"@ {
        Some("/content/releases/original-flow-v1/sprites/product_30__3026.png"@)
    } else if id == "product:31"@ {
        Some("/content/releases/original-flow-v1/sprites/product_31__1771.png"@)
    } else if id == "product:32"@ {
        Some("/content/releases/original-flow-v1/sprites/product_32__7065.png"@)
    } else if id == "product:48"@ {
        Some("/content/releases/original-flow-v1/sprites/product_48__4411.png"@)
    } else if id == "product:49"@ {
        Some("/content/releases/original-flow-v1/sprites/product_49__4142.png"@)
    } else if id == "product:50"@ {
        Some("/content/releases/original-flow-v1/sprites/product_50__4905.png"@)
    } else if id == "product:51"@ {
        Some("/content/releases/original-flow-v1/sprites/product_51__6664.png"@)
    } else {
        None
    }
}

/// Display name of a service product.
pub fn product_display_name(product_id: &str) -> (value: Option<&'static str>)
    ensures
        value matches Some(v) ==> product_name_of(product_id@) == Some(v@),
        value is None ==> product_name_of(product_id@) is None,
{
    if str_eq(product_id, "product:0") {
        Some("Small Room")
    } else if str_eq(product_id, "product:1") {
        Some("Standard Room")
    } else if str_eq(product_id, "product:2") {
        Some("Superior Room")
    } else if str_eq(product_id, "product:3") {
        Some("Deluxe Room")
    } else if str_eq(product_id, "product:4") {
        Some("Suite Room")
    } else if str_eq(product_id, "product:5") {
        Some("Linen Bandage")
    } else if str_eq(product_id, "product:6") {
        Some("Wool Bandage")
    } else if str_eq(product_id, "product:7") {
        Some("Silk Bandage")
    } else if str_eq(product_id, "product:8") {
        Some("Magic Bandage")
    } else if str_eq(product_id, "product:9") {
        Some("Hell Bandage")
    } else if str_eq(product_id, "product:10") {
        Some("Cake")
    } else if str_eq(product_id, "product:11") {
        Some("Parfait")
    } else if str_eq(product_id, "product:12") {
        Some("Handmade Burger")
    } else if str_eq(product_id, "product:13") {
        Some("Tomato Pasta")
    } else if str_eq(product_id, "product:14") {
        Some("Tenderloin Steak")
    } else if str_eq(product_id, "product:15") {
        Some("Orange Juice")
    } else if str_eq(product_id, "product:16") {
        Some("Beer")
    } else if str_eq(product_id, "product:17") {
        Some("Red Wine")
    } else if str_eq(product_id, "product:18") {
        Some("Cocktail")
    } else if str_eq(product_id, "product:19") {
        Some("Whiskey")
    } else if str_eq(product_id, "product:29") {
        Some("Luxury Room")
    } else if str_eq(product_id, "product:30") {
        Some("Shiny Bandage")
    } else if str_eq(product_id, "product:31") {
        Some("Three Course Meal")
    } else if str_eq(product_id, "product:32") {
        Some("Vodka")
    } else if str_eq(product_id, "product:48") {
        Some("Special Room")
    } else if str_eq(product_id, "product:49") {
        Some("Pink Silk Bandage")
    } else if str_eq(product_id, "product:50") {
        Some("Afternoon Meal")
    } else if str_eq(product_id, "product:51") {
        Some("Tequila")
    } else {
        None
    }
}

/// Icon of a service product.
pub fn product_icon_path(product_id: &str) -> (value: Option<&'static str>)
    ensures
        value matches Some(v) ==> product_icon_of(product_id@) == Some(v@),
        value is None ==> product_icon_of(product_id@) is None,
{
    if str_eq(product_id, "product:0") {
        Some("/content/releases/original-flow-v1/sprites/product_00__3523.png")
    } else if str_eq(product_id, "product:1") {
        Some("/content/releases/original-flow-v1/sprites/product_01__4988.png")
    } else if str_eq(product_id, "product:2") {
        Some("/content/releases/original-flow-v1/sprites/product_02__4912.png")
    } else if str_eq(product_id, "product:3") {
        Some("/content/releases/original-flow-v1/sprites/product_03__2634.png")
    } else if str_eq(product_id, "product:4") {
        Some("/content/releases/original-flow-v1/sprites/product_04__7168.png")
    } else if str_eq(product_id, "product:5") {
        Some("/content/releases/original-flow-v1/sprites/product_05__2957.png")
    } else if str_eq(product_id, "product:6") {
        Some("/content/releases/original-flow-v1/sprites/product_06__3994.png")
    } else if str_eq(product_id, "product:7") {
        Some("/content/releases/original-flow-v1/sprites/product_07__2037.png")
    } else if str_eq(product_id, "product:8") {
        Some("/content/releases/original-flow-v1/sprites/product_08__6490.png")
    } else if str_eq(product_id, "product:9") {
        Some("/content/releases/original-flow-v1/sprites/product_09__1935.png")
    } else if str_eq(product_id, "product:10") {
        Some("/content/releases/original-flow-v1/sprites/product_10__6271.png")
    } else if str_eq(product_id, "product:11") {
        Some("/content/releases/original-flow-v1/sprites/product_11__2026.png")
    } else if str_eq(product_id, "product:12") {
        Some("/content/releases/original-flow-v1/sprites/product_12__1368.png")
    } else if str_eq(product_id, "product:13") {
        Some("/content/releases/original-flow-v1/sprites/product_13__3637.png")
    } else if str_eq(product_id, "product:14") {
        Some("/content/releases/original-flow-v1/sprites/product_14__1604.png")
    } else if str_eq(product_id, "product:15") {
        Some("/content/releases/original-flow-v1/sprites/product_15__6488.png")
    } else if str_eq(product_id, "product:16") {
        Some("/content/releases/original-flow-v1/sprites/product_16__3707.png")
    } else if str_eq(product_id, "product:17") {
        Some("/content/releases/original-flow-v1/sprites/product_17__6592.png")
    } else if str_eq(product_id, "product:18") {
        Some("/content/releases/original-flow-v1/sprites/product_18__6216.png")
    } else if str_eq(product_id, "product:19") {
        Some("/content/releases/original-flow-v1/sprites/product_19__5193.png")
    } else if str_eq(product_id, "product:29") {
        Some("/content/releases/original-flow-v1/sprites/product_29__6396.png")
    } else if str_eq(product_id, "product:30") {
        Some("/content/releases/original-flow-v1/sprites/product_30__3026.png")
    } else if str_eq(product_id, "product:31") {
        Some("/content/releases/original-flow-v1/sprites/product_31__1771.png")
    } else if str_eq(product_id, "product:32") {
        Some("/content/releases/original-flow-v1/sprites/product_32__7065.png")
    } else if str_eq(product_id, "product:48") {
        Some("/content/releases/original-flow-v1/sprites/product_48__4411.png")
    } else if str_eq(product_id, "product:49") {
        Some("/content/releases/original-flow-v1/sprites/product_49__4142.png")
    } else if str_eq(product_id, "product:50") {
        Some("/content/releases/original-flow-v1/sprites/product_50__4905.png")
    } else if str_eq(product_id, "product:51") {
        Some("/content/releases/original-flow-v1/sprites/product_51__6664.png")
    } else {
        None
    }
}

/// Icon of a material (`material:<n>` for n below 369) or of the gem and
/// elemental currencies.
pub open spec fn material_icon_of(id: Seq<char>) -> Option<Seq<char>> {
    let prefix = "material:"@;
    let index = parse_bounded(id.subrange(prefix.len() as int, id.len() as int), u32::MAX as nat);
    if has_prefix(id, prefix) && index is Some && index->0 < 369 {
        Some("/content/releases/evil-hunter-1.411/material-icons/material-"@ + decimal_text(index->0) + ".png"@)
    } else if id == "currency:gem"@ {
        Some("/content/releases/original-flow-v1/sprites/top_ic_02_gem__6963.png"@)
    } else if id == "currency:elemental"@ {
        Some("/content/releases/original-flow-v1/sprites/top_ic_03_element__4250.png"@)
    } else {
        None
    }
}

/// Icon of a material or currency.
pub fn material_icon_path(material_id: &str) -> (icon: Option<String>)
    ensures
        icon matches Some(i) ==> material_icon_of(material_id@) == Some(i@),
        icon is None ==> material_icon_of(material_id@) is None,
{
    let chars = chars_of(material_id);
    let prefix = chars_of("material:");
    if starts_with(&chars, &prefix) {
        let parsed = parse_decimal(&chars, prefix.len(), chars.len(), 0xffff_ffffu64);
        if let Some(n) = parsed {
            if n < 369 {
                let mut text = chars_of("/content/releases/evil-hunter-1.411/material-icons/material-");
                append_decimal(&mut text, n);
                let tail = chars_of(".png");
                crate::text::append_chars(&mut text, &tail);
                return Some(string_from_chars(&text));
            }
        }
    }
    if str_eq(material_id, "currency:gem") {
        Some(string_from_chars(&chars_of("/content/releases/original-flow-v1/sprites/top_ic_02_gem__6963.png")))
    } else if str_eq(material_id, "currency:elemental") {
        Some(string_from_chars(&chars_of("/content/releases/original-flow-v1/sprites/top_ic_03_element__4250.png")))
    } else {
        None
    }
}

/// Icon of a ground drop: the gold icon for `gold`, else the material icon,
/// else empty.
pub open spec fn drop_icon_of(item_id: Seq<char>) -> Seq<char> {
    if item_id == "gold"@ {
        "/content/releases/original-flow-v1/sprites/top_ic_01_gold_24__4677.png"@
    } else {
        match material_icon_of(item_id) {
            Some(icon) => icon,
            None => Seq::empty(),
        }
    }
}

/// Icon of a ground drop.
pub fn drop_icon_path(item_id: &str) -> (icon: String)
    ensures
        icon@ == drop_icon_of(item_id@),
{
    if str_eq(item_id, "gold") {
        return string_from_chars(&chars_of("/content/releases/original-flow-v1/sprites/top_ic_01_gold_24__4677.png"));
    }
    match material_icon_path(item_id) {
        Some(icon) => icon,
        None => string_from_chars(&Vec::new()),
    }
}

/// Label of the gauge a service building restores.
pub open spec fn service_label_of(building_id: Seq<char>) -> Seq<char> {
    if building_id == "build_9"@ {
        "stamina"@
    } else if building_id == "build_12"@ {
        "HP"@
    } else if building_id == "build_13"@ {
        "satiety"@
    } else if building_id == "build_19"@ {
        "mood"@
    } else {
        "service"@
    }
}

/// Label of the gauge a service building restores.
pub fn service_effect_kind(building_id: &str) -> (label: &'static str)
    ensures
        label@ == service_label_of(building_id@),
{
    if str_eq(building_id, "build_9") {
        "stamina"
    } else if str_eq(building_id, "build_12") {
        "HP"
    } else if str_eq(building_id, "build_13") {
        "satiety"
    } else if str_eq(building_id, "build_19") {
        "mood"
    } else {
        "service"
    }
}

/// A gauge below a tenth of a positive maximum.
pub open spec fn gauge_is_critical(current: u64, maximum: u64) -> bool {
    maximum > 0 && current * 100 < maximum * 10
}

/// What a Hunter waiting for a service says: its most urgent critical
/// gauge (health, then stamina, satiety, mood) picks the line, and a Hunter
/// in no critical need asks for a short stop. Hunters doing anything else
/// say nothing.
pub open spec fn service_speech_of(
    action_state: Seq<char>,
    hp: u64,
    max_hp: u64,
    stamina: u64,
    max_stamina: u64,
    satiety: u64,
    max_satiety: u64,
    mood: u64,
    max_mood: u64,
) -> Option<Seq<char>> {
    if action_state != "waiting_for_service"@ {
        None
    } else if gauge_is_critical(hp, max_hp) {
        Some("Bệnh xá hết thuốc rồi… mình chịu thêm được bao lâu đây?"@)
    } else if gauge_is_critical(stamina, max_stamina) {
        Some("Chỉ cần một chiếc giường thôi mà…"@)
    } else if gauge_is_critical(satiety, max_satiety) {
        Some("Bụng đói thế này thì săn kiểu gì đây?"@)
    } else if gauge_is_critical(mood, max_mood) {
        Some("Quán rượu còn gì uống không vậy?"@)
    } else {
        Some("Mình cần ghé dịch vụ một lát…"@)
    }
}

/// Whether a gauge is below a tenth of its positive maximum.
fn critical_gauge(current: u64, maximum: u64) -> (critical: bool)
    ensures
        critical == gauge_is_critical(current, maximum),
{
    maximum > 0 && (current as u128) * 100 < (maximum as u128) * 10
}

/// The speech bubble of a Hunter (see [`service_speech_of`]).
pub fn service_speech(
    action_state: &str,
    hp: u64,
    max_hp: u64,
    stamina: u64,
    max_stamina: u64,
    satiety: u64,
    max_satiety: u64,
    mood: u64,
    max_mood: u64,
) -> (speech: Option<String>)
    ensures
        speech matches Some(s) ==> service_speech_of(
            action_state@,
            hp,
            max_hp,
            stamina,
            max_stamina,
            satiety,
            max_satiety,
            mood,
            max_mood,
        ) == Some(s@),
        speech is None <==> service_speech_of(
            action_state@,
            hp,
            max_hp,
            stamina,
            max_stamina,
            satiety,
            max_satiety,
            mood,
            max_mood,
        ) is None,
{
    if !str_eq(action_state, "waiting_for_service") {
        None
    } else if critical_gauge(hp, max_hp) {
        Some("Bệnh xá hết thuốc rồi… mình chịu thêm được bao lâu đây?".to_owned())
    } else if critical_gauge(stamina, max_stamina) {
        Some("Chỉ cần một chiếc giường thôi mà…".to_owned())
    } else if critical_gauge(satiety, max_satiety) {
        Some("Bụng đói thế này thì săn kiểu gì đây?".to_owned())
    } else if critical_gauge(mood, max_mood) {
        Some("Quán rượu còn gì uống không vậy?".to_owned())
    } else {
        Some("Mình cần ghé dịch vụ một lát…".to_owned())
    }
}

} // verus!
