use toptimer::i18n::{
    default_language, lang_from_code, language_label, precision_label_lang, tr, Lang,
};
use toptimer::text::{push_padded, replace_char, replace_str, str_eq, trim};
use toptimer::time::{
    format_duration, localize, local_target_resolvable, parse_local_target, short_id,
    short_id_from_nanos, try_parse_local_target, LocalOffsets, NaiveLocal, ZonedDateTime,
};

#[test]
fn trims_unicode_whitespace() {
    assert_eq!(trim("  \t2026-05-05 23:59\u{3000}\n"), "2026-05-05 23:59");
    assert_eq!(trim("   "), "");
    assert_eq!(trim("a b"), "a b");
}

#[test]
fn replaces_characters_and_patterns() {
    assert_eq!(replace_char("2026-05-05T23:59", 'T', ' '), "2026-05-05 23:59");
    assert_eq!(replace_str("a {font} b {font}", "{font}", "tube"), "a tube b tube");
    assert_eq!(replace_str("{fon}", "{font}", "x"), "{fon}");
    assert_eq!(replace_str("aaa", "aa", "b"), "ba");
}

#[test]
fn compares_and_pads() {
    assert!(str_eq("日本", "日本"));
    assert!(!str_eq("ja", "jb"));
    let mut s = String::new();
    push_padded(&mut s, 7, 3);
    push_padded(&mut s, 1234, 2);
    assert_eq!(s, "0071234");
}

#[test]
fn languages() {
    assert_eq!(default_language(), "zh");
    assert_eq!(lang_from_code("ja"), Lang::Ja);
    assert_eq!(lang_from_code("en"), Lang::En);
    assert_eq!(lang_from_code("fr"), Lang::Zh);
    assert_eq!(language_label("ja"), "日本語");
    assert_eq!(language_label("en"), "English");
    assert_eq!(language_label("xx"), "中文");
}

#[test]
fn translations() {
    assert_eq!(tr(Lang::En, "menu_start"), "Start timer");
    assert_eq!(tr(Lang::Zh, "added"), "已添加计时");
    assert_eq!(tr(Lang::Ja, "finished"), "終了");
    assert_eq!(tr(Lang::En, "no_timers"), "No timers yet.\n\nChoose Add timer from the main menu.\n\nq back");
    assert_eq!(tr(Lang::Ja, "not_a_key"), "not_a_key");
    assert_eq!(precision_label_lang("tenths", Lang::Ja), "1/10秒 HH:MM:SS.d");
    assert_eq!(precision_label_lang("minutes", Lang::Zh), "分钟 HH:MM");
    assert_eq!(precision_label_lang("weeks", Lang::Zh), "seconds HH:MM:SS");
}

#[test]
fn formats_durations_at_each_precision() {
    let ms = 3_723_456; // 1 h 2 min 3.456 s
    assert_eq!(format_duration(ms, "minutes"), "01:02");
    assert_eq!(format_duration(ms, "seconds"), "01:02:03");
    assert_eq!(format_duration(ms, "tenths"), "01:02:03.4");
    assert_eq!(format_duration(ms, "hundredths"), "01:02:03.45");
    assert_eq!(format_duration(ms, "milliseconds"), "01:02:03.456");
    assert_eq!(format_duration(ms, "fortnights"), "01:02:03");
}

#[test]
fn formats_negative_and_long_durations() {
    assert_eq!(format_duration(-5_000, "seconds"), "00:00:00");
    assert_eq!(format_duration(0, "milliseconds"), "00:00:00.000");
    assert_eq!(format_duration(360_000_000, "seconds"), "100:00:00");
    assert_eq!(format_duration(5, "hundredths"), "00:00:00.00");
}

#[test]
fn countdown_width_is_steady_under_100_hours() {
    for precision in ["minutes", "seconds", "tenths", "hundredths", "milliseconds"] {
        let a = format_duration(1, precision).chars().count();
        let b = format_duration(99 * 3_600_000 + 59 * 60_000 + 59_999, precision).chars().count();
        assert_eq!(a, b);
    }
    assert_eq!(format_duration(1, "milliseconds").chars().count(), 12);
}

#[test]
fn short_ids_are_reversed_hex() {
    assert_eq!(short_id_from_nanos(0), "0");
    assert_eq!(short_id_from_nanos(0x1234), "4321");
    assert_eq!(short_id_from_nanos(0x1234_5678_9abc_def0), "0fedcba987");
    assert_eq!(short_id_from_nanos(-1), "ffffffffff");
    let id = short_id();
    assert!(!id.is_empty() && id.len() <= 10);
    assert!(id.chars().all(|c| c.is_ascii_hexdigit()));
}

#[test]
fn parses_targets_in_fixed_zones() {
    assert_eq!(
        parse_local_target("2026-05-05 23:59", "UTC"),
        Ok("2026-05-05T23:59:00+00:00".to_string())
    );
    assert_eq!(
        parse_local_target("  2026-05-05T23:59 ", "Etc/GMT+12"),
        Ok("2026-05-05T23:59:00-12:00".to_string())
    );
}

#[test]
fn parses_targets_in_named_zones() {
    assert_eq!(
        parse_local_target("2026-05-05 23:59:30", "Asia/Shanghai"),
        Ok("2026-05-05T23:59:30+08:00".to_string())
    );
    // A repeated hour takes the earlier offset.
    assert_eq!(
        parse_local_target("2026-11-01 01:30", "America/New_York"),
        Ok("2026-11-01T01:30:00-04:00".to_string())
    );
}

#[test]
fn rejects_bad_targets() {
    assert_eq!(
        parse_local_target("tomorrow", "UTC"),
        Err("时间格式用 YYYY-MM-DD HH:MM".to_string())
    );
    assert_eq!(
        parse_local_target("2026-05-05 23:59", "Mars/Olympus"),
        Err("未知时区: Mars/Olympus".to_string())
    );
    assert_eq!(
        parse_local_target("2026-03-08 02:30", "America/New_York"),
        Err("这个本地时间在所选时区不存在，通常是夏令时跳变导致".to_string())
    );
}

#[test]
fn out_of_range_fixed_targets_are_not_resolvable() {
    assert!(local_target_resolvable("2026-05-05 23:59", "Etc/GMT+12"));
    assert!(!local_target_resolvable("+262142-12-31 23:59", "Etc/GMT+12"));
    assert_eq!(try_parse_local_target("+262142-12-31 23:59", "Etc/GMT+12"), None);
    assert_eq!(
        try_parse_local_target("2026-05-05 00:00", "UTC"),
        Some(Ok("2026-05-05T00:00:00+00:00".to_string()))
    );
}

#[test]
fn localizes_naive_times() {
    let naive = NaiveLocal { year: 2026, month: 5, day: 5, hour: 23, minute: 59, second: 0, nanosecond: 0 };
    assert_eq!(
        localize(naive, "Asia/Tokyo"),
        Ok(ZonedDateTime { local: naive, offset_seconds: 9 * 3600 })
    );
    assert_eq!(
        localize(naive, "Etc/GMT+12"),
        Ok(ZonedDateTime { local: naive, offset_seconds: -12 * 3600 })
    );
    assert_eq!(localize(naive, "Nowhere/Land"), Err("未知时区: Nowhere/Land".to_string()));
    let _ = LocalOffsets::Nonexistent;
}
