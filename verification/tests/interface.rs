use toptimer::app::{
    cycle_index, handle_key, handle_key_checked, preset_index_app, App, Effect, Key, Screen,
};
use toptimer::config::{default_config, preset_index_config, refresh_interval, TimerConfig};
use toptimer::glyphs::DigitFont;

fn app() -> App {
    App::new(default_config())
}

fn press(app: &mut App, key: Key) -> Effect {
    handle_key_checked(app, key).expect("the key is handled")
}

fn type_text(app: &mut App, text: &str) {
    for c in text.chars() {
        press(app, Key::Char(c));
    }
}

fn timer(title: &str, target: &str) -> TimerConfig {
    TimerConfig {
        id: "abc".to_string(),
        title: title.to_string(),
        target: target.to_string(),
        timezone: "UTC".to_string(),
        note: String::new(),
        created_at: String::new(),
    }
}

#[test]
fn default_configuration() {
    let c = default_config();
    assert_eq!(c.version, 2);
    assert_eq!(c.settings.home_timezone, "Asia/Shanghai");
    assert_eq!(c.settings.display_precision, "seconds");
    assert_eq!(c.settings.language, "zh");
    assert_eq!(c.timezone_presets.len(), 10);
    assert_eq!(c.timezone_presets[0].zone, "Etc/GMT+12");
    assert_eq!(c.timezone_presets[0].label, "AOE / Anywhere on Earth");
    assert_eq!(c.timezone_presets[9].zone, "Europe/Paris");
    assert!(c.timers.is_empty());
}

#[test]
fn preset_positions_and_refresh() {
    let mut c = default_config();
    assert_eq!(preset_index_config(&c, "Asia/Tokyo"), 3);
    assert_eq!(preset_index_config(&c, "Moon/Base"), 0);
    let a = app();
    assert_eq!(preset_index_app(&a, "Europe/London"), preset_index_config(&a.config, "Europe/London"));
    assert_eq!(preset_index_app(&a, "Asia/Tokyo"), 3);
    assert_eq!(preset_index_app(&a, ""), 0);
    assert_eq!(refresh_interval(&c), 250);
    c.settings.display_precision = "milliseconds".to_string();
    assert_eq!(refresh_interval(&c), 30);
    c.settings.display_precision = "hundredths".to_string();
    assert_eq!(refresh_interval(&c), 40);
    c.settings.display_precision = "tenths".to_string();
    assert_eq!(refresh_interval(&c), 80);
}

#[test]
fn new_app_starts_on_the_menu() {
    let a = app();
    assert_eq!(a.screen, Screen::Menu);
    assert_eq!(a.add_tz_index, 2);
    assert_eq!(a.digit_font(), DigitFont::Tube);
    assert_eq!(a.digit_font_name(), "tube");
    assert!(a.selected_timer().is_none());
}

#[test]
fn cycles_wrap_both_ways() {
    assert_eq!(cycle_index(2, 3, true), 0);
    assert_eq!(cycle_index(0, 3, false), 2);
    assert_eq!(cycle_index(1, 3, false), 0);
    assert_eq!(cycle_index(5, 0, true), 0);
    for c in 0..7 {
        assert_eq!(cycle_index(cycle_index(c, 7, true), 7, false), c);
    }
}

#[test]
fn menu_navigation() {
    let mut a = app();
    for _ in 0..10 {
        press(&mut a, Key::Down);
    }
    assert_eq!(a.menu_index, 4);
    press(&mut a, Key::Char('k'));
    assert_eq!(a.menu_index, 3);
    press(&mut a, Key::Enter);
    assert_eq!(a.screen, Screen::ConfigView);
    press(&mut a, Key::Char('q'));
    assert_eq!(a.screen, Screen::Menu);
    press(&mut a, Key::Up);
    press(&mut a, Key::Up);
    press(&mut a, Key::Enter);
    assert_eq!(a.screen, Screen::Add);
    assert!(!a.should_quit);
    let mut b = app();
    press(&mut b, Key::Esc);
    assert!(b.should_quit);
}

#[test]
fn empty_timer_list_stays() {
    let mut a = app();
    press(&mut a, Key::Enter);
    assert_eq!(a.screen, Screen::TimerList);
    press(&mut a, Key::Enter);
    assert_eq!(a.screen, Screen::TimerList);
    assert_eq!(press(&mut a, Key::Char('r')), Effect::ReloadConfig);
    press(&mut a, Key::Esc);
    assert_eq!(a.screen, Screen::Menu);
}

#[test]
fn timer_run_cycles_timers_and_fonts() {
    let mut a = app();
    a.config.timers.push(timer("A", "2026-01-01T00:00:00+00:00"));
    a.config.timers.push(timer("B", "2026-01-01T00:00:00+00:00"));
    a.config.timers.push(timer("C", "2026-01-01T00:00:00+00:00"));
    a.screen = Screen::TimerList;
    press(&mut a, Key::Down);
    press(&mut a, Key::Down);
    press(&mut a, Key::Down);
    assert_eq!(a.timer_index, 2);
    press(&mut a, Key::Enter);
    assert_eq!(a.screen, Screen::TimerRun);
    press(&mut a, Key::Down);
    assert_eq!(a.timer_index, 0);
    press(&mut a, Key::Up);
    assert_eq!(a.timer_index, 2);
    assert_eq!(a.selected_timer().unwrap().title, "C");
    press(&mut a, Key::Left);
    assert_eq!(a.digit_font(), DigitFont::Compact);
    assert_eq!(a.digit_font_name(), "compact");
    press(&mut a, Key::Right);
    press(&mut a, Key::Right);
    assert_eq!(a.digit_font(), DigitFont::Block);
    press(&mut a, Key::Char('s'));
    assert_eq!(a.screen, Screen::TimerList);
}

#[test]
fn adds_a_timer() {
    let mut a = app();
    a.screen = Screen::Add;
    type_text(&mut a, "  CVPR deadline ");
    press(&mut a, Key::Tab);
    type_text(&mut a, "2026-05-05 23:59");
    press(&mut a, Key::Tab);
    assert_eq!(a.add_field, 2);
    press(&mut a, Key::Char('x'));
    press(&mut a, Key::Left);
    assert_eq!(a.add_tz_index, 1);
    press(&mut a, Key::Enter);
    type_text(&mut a, "  remote ");
    press(&mut a, Key::Down);
    assert_eq!(a.add_field, 4);
    assert_eq!(press(&mut a, Key::Enter), Effect::SaveConfig);
    assert_eq!(a.screen, Screen::TimerList);
    assert_eq!(a.config.timers.len(), 1);
    let t = &a.config.timers[0];
    assert_eq!(t.title, "CVPR deadline");
    assert_eq!(t.target, "2026-05-05T23:59:00+00:00");
    assert_eq!(t.timezone, "UTC");
    assert_eq!(t.note, "remote");
    assert!(t.id.chars().all(|c| c.is_ascii_hexdigit()) && !t.id.is_empty());
    assert!(t.created_at.ends_with("+00:00"));
    assert_eq!(a.config.settings.default_add_timezone, "UTC");
    assert_eq!(a.message, "已添加计时");
    assert!(a.add_title.is_empty() && a.add_target.is_empty() && a.add_note.is_empty());
}

#[test]
fn add_untitled_and_bad_target() {
    let mut a = app();
    a.screen = Screen::Add;
    a.add_field = 1;
    type_text(&mut a, "soon");
    a.add_field = 4;
    assert_eq!(press(&mut a, Key::Enter), Effect::Nothing);
    assert_eq!(a.message, "时间格式用 YYYY-MM-DD HH:MM");
    assert!(a.config.timers.is_empty());
    a.add_target = "2027-01-01 00:00".to_string();
    assert_eq!(press(&mut a, Key::Enter), Effect::SaveConfig);
    assert_eq!(a.config.timers[0].title, "Untitled Timer");
    assert_eq!(a.config.timers[0].target, "2027-01-01T00:00:00+08:00");
}

#[test]
fn add_without_preset_reports_it() {
    let mut a = app();
    a.screen = Screen::Add;
    a.add_tz_index = 40;
    a.add_field = 4;
    assert_eq!(press(&mut a, Key::Enter), Effect::Nothing);
    assert_eq!(a.message, "无效时区选择");
}

#[test]
fn backspace_edits_the_active_field() {
    let mut a = app();
    a.screen = Screen::Add;
    type_text(&mut a, "ab");
    press(&mut a, Key::Backspace);
    assert_eq!(a.add_title, "a");
    a.add_field = 2;
    a.message = "oops".to_string();
    press(&mut a, Key::Backspace);
    assert_eq!(a.message, "oop");
    press(&mut a, Key::Char('z'));
    assert_eq!(a.message, "oop");
}

#[test]
fn settings_cycle_and_save() {
    let mut a = app();
    a.screen = Screen::Settings;
    assert_eq!(press(&mut a, Key::Right), Effect::SaveConfig);
    assert_eq!(a.config.settings.home_timezone, "Asia/Tokyo");
    press(&mut a, Key::Down);
    assert_eq!(press(&mut a, Key::Enter), Effect::SaveConfig);
    assert_eq!(a.config.settings.display_precision, "tenths");
    press(&mut a, Key::Left);
    assert_eq!(a.config.settings.display_precision, "seconds");
    press(&mut a, Key::Down);
    press(&mut a, Key::Left);
    assert_eq!(a.config.settings.default_add_timezone, "UTC");
    assert_eq!(a.add_tz_index, 1);
    press(&mut a, Key::Down);
    press(&mut a, Key::Right);
    assert_eq!(a.config.settings.language, "ja");
    press(&mut a, Key::Right);
    press(&mut a, Key::Right);
    assert_eq!(a.config.settings.language, "zh");
    press(&mut a, Key::Left);
    assert_eq!(a.config.settings.language, "en");
    assert_eq!(press(&mut a, Key::Char('q')), Effect::SaveConfig);
    assert_eq!(a.screen, Screen::Menu);
}

#[test]
fn zone_settings_round_trip() {
    let mut a = app();
    a.screen = Screen::Settings;
    let before = a.config.settings.home_timezone.clone();
    press(&mut a, Key::Right);
    press(&mut a, Key::Left);
    assert_eq!(a.config.settings.home_timezone, before);
    press(&mut a, Key::Left);
    assert_eq!(a.config.settings.home_timezone, "UTC");
    press(&mut a, Key::Right);
    assert_eq!(a.config.settings.home_timezone, before);
    a.settings_index = 2;
    let zone = a.config.settings.default_add_timezone.clone();
    let cursor = a.add_tz_index;
    press(&mut a, Key::Right);
    assert_eq!(a.config.settings.default_add_timezone, "Asia/Tokyo");
    press(&mut a, Key::Left);
    assert_eq!(a.config.settings.default_add_timezone, zone);
    assert_eq!(a.add_tz_index, cursor);
}

#[test]
fn panicking_keys_are_refused() {
    let mut a = app();
    a.config.timezone_presets.clear();
    a.screen = Screen::Add;
    a.add_field = 2;
    assert_eq!(handle_key_checked(&mut a, Key::Right), None);
    assert_eq!(a.add_field, 2);
    a.screen = Screen::Settings;
    assert_eq!(handle_key_checked(&mut a, Key::Enter), None);
    a.settings_index = 1;
    assert_eq!(handle_key_checked(&mut a, Key::Enter), Some(Effect::SaveConfig));
    let mut b = app();
    b.screen = Screen::Add;
    b.add_tz_index = 0;
    b.add_target = "+262142-12-31 23:59".to_string();
    b.add_field = 4;
    assert_eq!(handle_key_checked(&mut b, Key::Enter), None);
    assert_eq!(handle_key(&mut app(), Key::Other), Effect::Nothing);
}
