//! Interface languages and the translated texts of the interface.
use vstd::prelude::*;
use crate::text::str_eq;

verus! {

broadcast use vstd::string::group_string_axioms;

/// An interface language.
#[derive(Clone, Copy, Debug, PartialEq, Eq, Structural)]
pub enum Lang {
    Zh,
    Ja,
    En,
}

/// The language code that a configuration starts with.
pub fn default_language() -> (r: String)
    ensures
        r@ == "zh"@,
{
    String::from_str("zh")
}

/// The language a code selects: `"ja"` and `"en"` name themselves, any other code Chinese.
pub open spec fn lang_of_code(code: Seq<char>) -> Lang {
    if code == "ja"@ {
        Lang::Ja
    } else if code == "en"@ {
        Lang::En
    } else {
        Lang::Zh
    }
}

pub fn lang_from_code(code: &str) -> (r: Lang)
    ensures
        r == lang_of_code(code@),
{
    if str_eq(code, "ja") {
        Lang::Ja
    } else if str_eq(code, "en") {
        Lang::En
    } else {
        Lang::Zh
    }
}

/// The language codes offered in the settings, in order.
pub open spec fn language_codes() -> Seq<Seq<char>> {
    seq!["zh"@, "ja"@, "en"@]
}

/// The label of a language code: the name of the first offered language with that code,
/// or `"中文"` when no offered language has it.
pub open spec fn language_label_spec(code: Seq<char>) -> Seq<char> {
    if code == "zh"@ {
        "中文"@
    } else if code == "ja"@ {
        "日本語"@
    } else if code == "en"@ {
        "English"@
    } else {
        "中文"@
    }
}

pub fn language_label(code: &str) -> (r: &'static str)
    ensures
        r@ == language_label_spec(code@),
{
    if str_eq(code, "zh") {
        "中文"
    } else if str_eq(code, "ja") {
        "日本語"
    } else if str_eq(code, "en") {
        "English"
    } else {
        "中文"
    }
}

/// The position of a known interface text key.
pub open spec fn text_key_index(key: Seq<char>) -> Option<nat> {
    if key == "menu_start"@ {
        Some(0)
    } else if key == "menu_add"@ {
        Some(1)
    } else if key == "menu_settings"@ {
        Some(2)
    } else if key == "menu_config"@ {
        Some(3)
    } else if key == "menu_quit"@ {
        Some(4)
    } else if key == "menu_help"@ {
        Some(5)
    } else if key == "config"@ {
        Some(6)
    } else if key == "home_tz"@ {
        Some(7)
    } else if key == "precision"@ {
        Some(8)
    } else if key == "no_timers"@ {
        Some(9)
    } else if key == "timer_list"@ {
        Some(10)
    } else if key == "finished"@ {
        Some(11)
    } else if key == "invalid_time"@ {
        Some(12)
    } else if key == "distance"@ {
        Some(13)
    } else if key == "target"@ {
        Some(14)
    } else if key == "timer_footer"@ {
        Some(15)
    } else if key == "add_title"@ {
        Some(16)
    } else if key == "add_target"@ {
        Some(17)
    } else if key == "timezone"@ {
        Some(18)
    } else if key == "note"@ {
        Some(19)
    } else if key == "save"@ {
        Some(20)
    } else if key == "add_hint_time"@ {
        Some(21)
    } else if key == "add_hint_tz"@ {
        Some(22)
    } else if key == "add_footer"@ {
        Some(23)
    } else if key == "added"@ {
        Some(24)
    } else if key == "settings_hint"@ {
        Some(25)
    } else if key == "default_add_tz"@ {
        Some(26)
    } else if key == "language"@ {
        Some(27)
    } else if key == "settings_footer"@ {
        Some(28)
    } else if key == "config_title"@ {
        Some(29)
    } else {
        None
    }
}

fn text_key_position(key: &str) -> (r: Option<usize>)
    ensures
        r matches Some(i) ==> text_key_index(key@) == Some(i as nat),
        r is None ==> text_key_index(key@) is None,
{
    if str_eq(key, "menu_start") {
        Some(0)
    } else if str_eq(key, "menu_add") {
        Some(1)
    } else if str_eq(key, "menu_settings") {
        Some(2)
    } else if str_eq(key, "menu_config") {
        Some(3)
    } else if str_eq(key, "menu_quit") {
        Some(4)
    } else if str_eq(key, "menu_help") {
        Some(5)
    } else if str_eq(key, "config") {
        Some(6)
    } else if str_eq(key, "home_tz") {
        Some(7)
    } else if str_eq(key, "precision") {
        Some(8)
    } else if str_eq(key, "no_timers") {
        Some(9)
    } else if str_eq(key, "timer_list") {
        Some(10)
    } else if str_eq(key, "finished") {
        Some(11)
    } else if str_eq(key, "invalid_time") {
        Some(12)
    } else if str_eq(key, "distance") {
        Some(13)
    } else if str_eq(key, "target") {
        Some(14)
    } else if str_eq(key, "timer_footer") {
        Some(15)
    } else if str_eq(key, "add_title") {
        Some(16)
    } else if str_eq(key, "add_target") {
        Some(17)
    } else if str_eq(key, "timezone") {
        Some(18)
    } else if str_eq(key, "note") {
        Some(19)
    } else if str_eq(key, "save") {
        Some(20)
    } else if str_eq(key, "add_hint_time") {
        Some(21)
    } else if str_eq(key, "add_hint_tz") {
        Some(22)
    } else if str_eq(key, "add_footer") {
        Some(23)
    } else if str_eq(key, "added") {
        Some(24)
    } else if str_eq(key, "settings_hint") {
        Some(25)
    } else if str_eq(key, "default_add_tz") {
        Some(26)
    } else if str_eq(key, "language") {
        Some(27)
    } else if str_eq(key, "settings_footer") {
        Some(28)
    } else if str_eq(key, "config_title") {
        Some(29)
    } else {
        None
    }
}

/// The Zh interface text with the given key position.
pub open spec fn zh_text(i: nat) -> Seq<char> {
    if i == 0 {
        "开始计时"@
    } else if i == 1 {
        "添加计时"@
    } else if i == 2 {
        "设置"@
    } else if i == 3 {
        "查看配置"@
    } else if i == 4 {
        "退出"@
    } else if i == 5 {
        "↑/↓ 选择 · Enter 确认 · q 退出"@
    } else if i == 6 {
        "配置"@
    } else if i == 7 {
        "主时区"@
    } else if i == 8 {
        "精度"@
    } else if i == 9 {
        "还没有计时。\n\n返回主菜单选择“添加计时”。\n\nq 返回"@
    } else if i == 10 {
        "计时列表"@
    } else if i == 11 {
        "已结束"@
    } else if i == 12 {
        "时间无效"@
    } else if i == 13 {
        "距离目标"@
    } else if i == 14 {
        "目标"@
    } else if i == 15 {
        "q 返回 · r 重新读取配置 · ←/→ 字体: {font} · ↑/↓ 计时"@
    } else if i == 16 {
        "标题"@
    } else if i == 17 {
        "目标时间"@
    } else if i == 18 {
        "时区"@
    } else if i == 19 {
        "备注"@
    } else if i == 20 {
        "保存"@
    } else if i == 21 {
        "时间格式: YYYY-MM-DD HH:MM，例如 2026-05-05 23:59"@
    } else if i == 22 {
        "在时区行用 ←/→ 选择 AOE、UTC、中国、美东、美西等预设。"@
    } else if i == 23 {
        "Tab/↑/↓ 切换 · Enter 下一项/保存 · Esc 返回"@
    } else if i == 24 {
        "已添加计时"@
    } else if i == 25 {
        "用 ←/→ 修改；保存会立即写入 ~/.config/toptimer/config.json。"@
    } else if i == 26 {
        "默认添加时区"@
    } else if i == 27 {
        "语言"@
    } else if i == 28 {
        "q/Esc 返回"@
    } else {
        "配置"@
    }
}

fn zh_text_exec(i: usize) -> (r: &'static str)
    ensures
        r@ == zh_text(i as nat),
{
    if i == 0 {
        "开始计时"
    } else if i == 1 {
        "添加计时"
    } else if i == 2 {
        "设置"
    } else if i == 3 {
        "查看配置"
    } else if i == 4 {
        "退出"
    } else if i == 5 {
        "↑/↓ 选择 · Enter 确认 · q 退出"
    } else if i == 6 {
        "配置"
    } else if i == 7 {
        "主时区"
    } else if i == 8 {
        "精度"
    } else if i == 9 {
        "还没有计时。\n\n返回主菜单选择“添加计时”。\n\nq 返回"
    } else if i == 10 {
        "计时列表"
    } else if i == 11 {
        "已结束"
    } else if i == 12 {
        "时间无效"
    } else if i == 13 {
        "距离目标"
    } else if i == 14 {
        "目标"
    } else if i == 15 {
        "q 返回 · r 重新读取配置 · ←/→ 字体: {font} · ↑/↓ 计时"
    } else if i == 16 {
        "标题"
    } else if i == 17 {
        "目标时间"
    } else if i == 18 {
        "时区"
    } else if i == 19 {
        "备注"
    } else if i == 20 {
        "保存"
    } else if i == 21 {
        "时间格式: YYYY-MM-DD HH:MM，例如 2026-05-05 23:59"
    } else if i == 22 {
        "在时区行用 ←/→ 选择 AOE、UTC、中国、美东、美西等预设。"
    } else if i == 23 {
        "Tab/↑/↓ 切换 · Enter 下一项/保存 · Esc 返回"
    } else if i == 24 {
        "已添加计时"
    } else if i == 25 {
        "用 ←/→ 修改；保存会立即写入 ~/.config/toptimer/config.json。"
    } else if i == 26 {
        "默认添加时区"
    } else if i == 27 {
        "语言"
    } else if i == 28 {
        "q/Esc 返回"
    } else {
        "配置"
    }
}

/// The Ja interface text with the given key position.
pub open spec fn ja_text(i: nat) -> Seq<char> {
    if i == 0 {
        "タイマー開始"@
    } else if i == 1 {
        "タイマー追加"@
    } else if i == 2 {
        "設定"@
    } else if i == 3 {
        "設定ファイル表示"@
    } else if i == 4 {
        "終了"@
    } else if i == 5 {
        "↑/↓ 選択 · Enter 決定 · q 終了"@
    } else if i == 6 {
        "設定"@
    } else if i == 7 {
        "メインタイムゾーン"@
    } else if i == 8 {
        "表示精度"@
    } else if i == 9 {
        "タイマーがありません。\n\nメインメニューから「タイマー追加」を選んでください。\n\nq 戻る"@
    } else if i == 10 {
        "タイマー一覧"@
    } else if i == 11 {
        "終了"@
    } else if i == 12 {
        "時刻が無効"@
    } else if i == 13 {
        "目標まで"@
    } else if i == 14 {
        "目標"@
    } else if i == 15 {
        "q 戻る · r 再読み込み · ←/→ フォント: {font} · ↑/↓ タイマー"@
    } else if i == 16 {
        "タイトル"@
    } else if i == 17 {
        "目標時刻"@
    } else if i == 18 {
        "タイムゾーン"@
    } else if i == 19 {
        "メモ"@
    } else if i == 20 {
        "保存"@
    } else if i == 21 {
        "形式: YYYY-MM-DD HH:MM、例 2026-05-05 23:59"@
    } else if i == 22 {
        "タイムゾーン行で ←/→ を使って AOE、UTC、中国、米国タイムゾーンなどを選択。"@
    } else if i == 23 {
        "Tab/↑/↓ 移動 · Enter 次/保存 · Esc 戻る"@
    } else if i == 24 {
        "タイマーを追加しました"@
    } else if i == 25 {
        "←/→ で変更。~/.config/toptimer/config.json に保存されます。"@
    } else if i == 26 {
        "追加時の既定タイムゾーン"@
    } else if i == 27 {
        "言語"@
    } else if i == 28 {
        "q/Esc 戻る"@
    } else {
        "設定"@
    }
}

fn ja_text_exec(i: usize) -> (r: &'static str)
    ensures
        r@ == ja_text(i as nat),
{
    if i == 0 {
        "タイマー開始"
    } else if i == 1 {
        "タイマー追加"
    } else if i == 2 {
        "設定"
    } else if i == 3 {
        "設定ファイル表示"
    } else if i == 4 {
        "終了"
    } else if i == 5 {
        "↑/↓ 選択 · Enter 決定 · q 終了"
    } else if i == 6 {
        "設定"
    } else if i == 7 {
        "メインタイムゾーン"
    } else if i == 8 {
        "表示精度"
    } else if i == 9 {
        "タイマーがありません。\n\nメインメニューから「タイマー追加」を選んでください。\n\nq 戻る"
    } else if i == 10 {
        "タイマー一覧"
    } else if i == 11 {
        "終了"
    } else if i == 12 {
        "時刻が無効"
    } else if i == 13 {
        "目標まで"
    } else if i == 14 {
        "目標"
    } else if i == 15 {
        "q 戻る · r 再読み込み · ←/→ フォント: {font} · ↑/↓ タイマー"
    } else if i == 16 {
        "タイトル"
    } else if i == 17 {
        "目標時刻"
    } else if i == 18 {
        "タイムゾーン"
    } else if i == 19 {
        "メモ"
    } else if i == 20 {
        "保存"
    } else if i == 21 {
        "形式: YYYY-MM-DD HH:MM、例 2026-05-05 23:59"
    } else if i == 22 {
        "タイムゾーン行で ←/→ を使って AOE、UTC、中国、米国タイムゾーンなどを選択。"
    } else if i == 23 {
        "Tab/↑/↓ 移動 · Enter 次/保存 · Esc 戻る"
    } else if i == 24 {
        "タイマーを追加しました"
    } else if i == 25 {
        "←/→ で変更。~/.config/toptimer/config.json に保存されます。"
    } else if i == 26 {
        "追加時の既定タイムゾーン"
    } else if i == 27 {
        "言語"
    } else if i == 28 {
        "q/Esc 戻る"
    } else {
        "設定"
    }
}

/// The En interface text with the given key position.
pub open spec fn en_text(i: nat) -> Seq<char> {
    if i == 0 {
        "Start timer"@
    } else if i == 1 {
        "Add timer"@
    } else if i == 2 {
        "Settings"@
    } else if i == 3 {
        "View config"@
    } else if i == 4 {
        "Quit"@
    } else if i == 5 {
        "↑/↓ select · Enter confirm · q quit"@
    } else if i == 6 {
        "Config"@
    } else if i == 7 {
        "Home timezone"@
    } else if i == 8 {
        "Precision"@
    } else if i == 9 {
        "No timers yet.\n\nChoose Add timer from the main menu.\n\nq back"@
    } else if i == 10 {
        "Timers"@
    } else if i == 11 {
        "Finished"@
    } else if i == 12 {
        "Invalid time"@
    } else if i == 13 {
        "Distance to target"@
    } else if i == 14 {
        "Target"@
    } else if i == 15 {
        "q back · r reload config · ←/→ font: {font} · ↑/↓ timer"@
    } else if i == 16 {
        "Title"@
    } else if i == 17 {
        "Target time"@
    } else if i == 18 {
        "Timezone"@
    } else if i == 19 {
        "Note"@
    } else if i == 20 {
        "Save"@
    } else if i == 21 {
        "Time format: YYYY-MM-DD HH:MM, e.g. 2026-05-05 23:59"@
    } else if i == 22 {
        "Use ←/→ on the timezone row to choose AOE, UTC, China, US timezones, and more."@
    } else if i == 23 {
        "Tab/↑/↓ move · Enter next/save · Esc back"@
    } else if i == 24 {
        "Timer added"@
    } else if i == 25 {
        "Use ←/→ to change; saved to ~/.config/toptimer/config.json immediately."@
    } else if i == 26 {
        "Default add timezone"@
    } else if i == 27 {
        "Language"@
    } else if i == 28 {
        "q/Esc back"@
    } else {
        "Config"@
    }
}

fn en_text_exec(i: usize) -> (r: &'static str)
    ensures
        r@ == en_text(i as nat),
{
    if i == 0 {
        "Start timer"
    } else if i == 1 {
        "Add timer"
    } else if i == 2 {
        "Settings"
    } else if i == 3 {
        "View config"
    } else if i == 4 {
        "Quit"
    } else if i == 5 {
        "↑/↓ select · Enter confirm · q quit"
    } else if i == 6 {
        "Config"
    } else if i == 7 {
        "Home timezone"
    } else if i == 8 {
        "Precision"
    } else if i == 9 {
        "No timers yet.\n\nChoose Add timer from the main menu.\n\nq back"
    } else if i == 10 {
        "Timers"
    } else if i == 11 {
        "Finished"
    } else if i == 12 {
        "Invalid time"
    } else if i == 13 {
        "Distance to target"
    } else if i == 14 {
        "Target"
    } else if i == 15 {
        "q back · r reload config · ←/→ font: {font} · ↑/↓ timer"
    } else if i == 16 {
        "Title"
    } else if i == 17 {
        "Target time"
    } else if i == 18 {
        "Timezone"
    } else if i == 19 {
        "Note"
    } else if i == 20 {
        "Save"
    } else if i == 21 {
        "Time format: YYYY-MM-DD HH:MM, e.g. 2026-05-05 23:59"
    } else if i == 22 {
        "Use ←/→ on the timezone row to choose AOE, UTC, China, US timezones, and more."
    } else if i == 23 {
        "Tab/↑/↓ move · Enter next/save · Esc back"
    } else if i == 24 {
        "Timer added"
    } else if i == 25 {
        "Use ←/→ to change; saved to ~/.config/toptimer/config.json immediately."
    } else if i == 26 {
        "Default add timezone"
    } else if i == 27 {
        "Language"
    } else if i == 28 {
        "q/Esc back"
    } else {
        "Config"
    }
}

/// The interface text for a key in a language; an unknown key is shown as itself.
pub open spec fn tr_spec(lang: Lang, key: Seq<char>) -> Seq<char> {
    match text_key_index(key) {
        Some(i) => match lang {
            Lang::Zh => zh_text(i),
            Lang::Ja => ja_text(i),
            Lang::En => en_text(i),
        },
        None => key,
    }
}

/// Translates an interface text key.
pub fn tr<'a>(lang: Lang, key: &'a str) -> (r: &'a str)
    ensures
        r@ == tr_spec(lang, key@),
{
    match text_key_position(key) {
        Some(i) => match lang {
            Lang::Zh => zh_text_exec(i),
            Lang::Ja => ja_text_exec(i),
            Lang::En => en_text_exec(i),
        },
        None => key,
    }
}

/// The display precisions, in the order the settings cycle through them.
pub open spec fn precision_keys() -> Seq<Seq<char>> {
    seq!["minutes"@, "seconds"@, "tenths"@, "hundredths"@, "milliseconds"@]
}

/// The label of a display precision in a language; an unknown precision is labelled as
/// seconds, in English.
pub open spec fn precision_label_spec(key: Seq<char>, lang: Lang) -> Seq<char> {
    match lang {
        Lang::Zh => {
            if key == "minutes"@ {
                "分钟 HH:MM"@
            } else if key == "seconds"@ {
                "秒 HH:MM:SS"@
            } else if key == "tenths"@ {
                "十分之一秒 HH:MM:SS.d"@
            } else if key == "hundredths"@ {
                "百分之一秒 HH:MM:SS.dd"@
            } else if key == "milliseconds"@ {
                "毫秒 HH:MM:SS.ddd"@
            } else {
                "seconds HH:MM:SS"@
            }
        },
        Lang::Ja => {
            if key == "minutes"@ {
                "分 HH:MM"@
            } else if key == "seconds"@ {
                "秒 HH:MM:SS"@
            } else if key == "tenths"@ {
                "1/10秒 HH:MM:SS.d"@
            } else if key == "hundredths"@ {
                "1/100秒 HH:MM:SS.dd"@
            } else if key == "milliseconds"@ {
                "ミリ秒 HH:MM:SS.ddd"@
            } else {
                "seconds HH:MM:SS"@
            }
        },
        Lang::En => {
            if key == "minutes"@ {
                "minutes HH:MM"@
            } else if key == "seconds"@ {
                "seconds HH:MM:SS"@
            } else if key == "tenths"@ {
                "tenths HH:MM:SS.d"@
            } else if key == "hundredths"@ {
                "hundredths HH:MM:SS.dd"@
            } else if key == "milliseconds"@ {
                "milliseconds HH:MM:SS.ddd"@
            } else {
                "seconds HH:MM:SS"@
            }
        },
    }
}

pub fn precision_label_lang(key: &str, lang: Lang) -> (r: &'static str)
    ensures
        r@ == precision_label_spec(key@, lang),
{
    match lang {
        Lang::Zh => {
            if str_eq(key, "minutes") {
                "分钟 HH:MM"
            } else if str_eq(key, "seconds") {
                "秒 HH:MM:SS"
            } else if str_eq(key, "tenths") {
                "十分之一秒 HH:MM:SS.d"
            } else if str_eq(key, "hundredths") {
                "百分之一秒 HH:MM:SS.dd"
            } else if str_eq(key, "milliseconds") {
                "毫秒 HH:MM:SS.ddd"
            } else {
                "seconds HH:MM:SS"
            }
        },
        Lang::Ja => {
            if str_eq(key, "minutes") {
                "分 HH:MM"
            } else if str_eq(key, "seconds") {
                "秒 HH:MM:SS"
            } else if str_eq(key, "tenths") {
                "1/10秒 HH:MM:SS.d"
            } else if str_eq(key, "hundredths") {
                "1/100秒 HH:MM:SS.dd"
            } else if str_eq(key, "milliseconds") {
                "ミリ秒 HH:MM:SS.ddd"
            } else {
                "seconds HH:MM:SS"
            }
        },
        Lang::En => {
            if str_eq(key, "minutes") {
                "minutes HH:MM"
            } else if str_eq(key, "seconds") {
                "seconds HH:MM:SS"
            } else if str_eq(key, "tenths") {
                "tenths HH:MM:SS.d"
            } else if str_eq(key, "hundredths") {
                "hundredths HH:MM:SS.dd"
            } else if str_eq(key, "milliseconds") {
                "milliseconds HH:MM:SS.ddd"
            } else {
                "seconds HH:MM:SS"
            }
        },
    }
}

} // verus!
