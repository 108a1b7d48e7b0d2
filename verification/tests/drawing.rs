use toptimer::app::App;
use toptimer::config::{default_config, TimerConfig};
use toptimer::glyphs::{
    block_glyph, compact_glyph, digit_glyph, scale_digit_lines, stitch_glyphs, tube_glyph, DigitFont,
};
use toptimer::i18n::Lang;
use toptimer::layout::{
    centered_rect, countdown_pixel_size, countdown_render_plan, digit_countdown_layout,
    should_use_plain_countdown, text_height_for_pixel_size, text_width_for_pixel_size,
    CountdownRender, PixelSize, Rect,
};
use toptimer::screens::{
    add_form_labels, countdown_text, countdown_text_at, menu_labels, menu_summary, remaining_millis, settings_rows,
    target_utc, timer_footer, timer_list_line, timer_list_lines, timer_list_lines_at, timer_meta_lines, timer_status,
    InvalidTime,
};
use toptimer::time::UtcInstant;

fn rect(x: u16, y: u16, width: u16, height: u16) -> Rect {
    Rect { x, y, width, height }
}

fn timer(target: &str, note: &str) -> TimerConfig {
    TimerConfig {
        id: "1".to_string(),
        title: "ICML".to_string(),
        target: target.to_string(),
        timezone: "Etc/GMT+12".to_string(),
        note: note.to_string(),
        created_at: String::new(),
    }
}

#[test]
fn centres_panels() {
    assert_eq!(centered_rect(rect(0, 0, 15, 40), 64, 22), rect(0, 0, 15, 40));
    assert_eq!(centered_rect(rect(0, 0, 100, 40), 64, 22), rect(18, 9, 64, 22));
    assert_eq!(centered_rect(rect(2, 1, 50, 12), 78, 24), rect(4, 2, 46, 10));
    assert_eq!(centered_rect(rect(0, 0, 30, 20), 5, 5), rect(5, 5, 20, 10));
}

#[test]
fn big_text_sizes() {
    assert_eq!(text_width_for_pixel_size("12:34:56", PixelSize::Full), 71);
    assert_eq!(text_width_for_pixel_size("12:34:56", PixelSize::Quadrant), 39);
    assert_eq!(text_width_for_pixel_size("12:34:56", PixelSize::Sextant), 31);
    assert_eq!(text_width_for_pixel_size("", PixelSize::Full), 0);
    assert_eq!(text_height_for_pixel_size(PixelSize::Full), 8);
    assert_eq!(text_height_for_pixel_size(PixelSize::Quadrant), 4);
    assert_eq!(text_height_for_pixel_size(PixelSize::Octant), 2);
    assert!(should_use_plain_countdown(rect(0, 0, 200, 7), "12:34:56"));
    assert!(should_use_plain_countdown(rect(0, 0, 40, 20), "12:34:56"));
    assert!(!should_use_plain_countdown(rect(0, 0, 41, 20), "12:34:56"));
    assert_eq!(countdown_pixel_size(rect(0, 0, 73, 8), "12:34:56"), PixelSize::Full);
    assert_eq!(countdown_pixel_size(rect(0, 0, 73, 7), "12:34:56"), PixelSize::HalfHeight);
    assert_eq!(countdown_pixel_size(rect(0, 0, 41, 8), "12:34:56"), PixelSize::HalfWidth);
    assert_eq!(countdown_pixel_size(rect(0, 0, 33, 3), "12:34:56"), PixelSize::Sextant);
    assert_eq!(countdown_pixel_size(rect(0, 0, 10, 2), "12:34:56"), PixelSize::Quadrant);
}

#[test]
fn glyph_tables() {
    assert_eq!(tube_glyph('0').unwrap().len(), 7);
    assert_eq!(tube_glyph('1').unwrap()[6], "█████");
    assert_eq!(block_glyph('.').unwrap()[5], " ██  ");
    assert_eq!(compact_glyph(':').unwrap(), &["   ", " █ ", "   ", " █ ", "   "]);
    assert!(tube_glyph('a').is_none());
    assert!(digit_glyph(DigitFont::Compact, '-').is_none());
    for font in [DigitFont::Tube, DigitFont::Block, DigitFont::Compact] {
        for c in "0123456789:.".chars() {
            let g = digit_glyph(font, c).unwrap();
            let w = g[0].chars().count();
            assert!(g.iter().all(|row| row.chars().count() == w));
        }
    }
}

#[test]
fn stitches_and_scales() {
    let one = compact_glyph('1').unwrap();
    let seven = compact_glyph('7').unwrap();
    let lines = stitch_glyphs(&[one, seven]);
    assert_eq!(lines.len(), 5);
    assert_eq!(lines[0], " █  ███");
    assert_eq!(lines[4], "███ █  ");
    assert!(stitch_glyphs(&[]).is_empty());
    let scaled = scale_digit_lines(vec!["ab".to_string(), "c".to_string()], 2);
    assert_eq!(scaled, vec!["aabb", "aabb", "cc", "cc"]);
    assert!(scale_digit_lines(vec!["ab".to_string()], 0).is_empty());
}

#[test]
fn lays_out_digit_countdowns() {
    let (lines, target) = digit_countdown_layout(rect(0, 1, 80, 20), "12:34", DigitFont::Tube).unwrap();
    assert_eq!(lines.len(), 14);
    assert!(lines.iter().all(|l| l.chars().count() == 58));
    assert_eq!(target, rect(0, 4, 80, 14));
    assert!(digit_countdown_layout(rect(0, 0, 80, 7), "12:34", DigitFont::Tube).is_none());
    assert!(digit_countdown_layout(rect(0, 0, 80, 20), "12-34", DigitFont::Tube).is_none());
    assert!(digit_countdown_layout(rect(0, 0, 80, 20), "", DigitFont::Tube).is_none());
    assert!(digit_countdown_layout(rect(0, 0, 20, 20), "12:34", DigitFont::Tube).is_none());
    let (small, _) = digit_countdown_layout(rect(0, 0, 20, 8), "1:2", DigitFont::Compact).unwrap();
    assert_eq!(small.len(), 5);
}

#[test]
fn digit_countdowns_fit_their_area() {
    for (w, h) in [(29u16, 8u16), (40, 10), (80, 20), (120, 40), (200, 9)] {
        for font in [DigitFont::Tube, DigitFont::Block, DigitFont::Compact] {
            for text in ["00:00", "12:34:56.789", "7"] {
                if let Some((lines, _)) = digit_countdown_layout(rect(0, 0, w, h), text, font) {
                    assert!(lines.len() <= h as usize);
                    assert!(lines.iter().all(|l| l.chars().count() <= w as usize));
                }
            }
        }
    }
}

#[test]
fn plans_countdown_rendering() {
    match countdown_render_plan(rect(0, 0, 80, 20), "12:34", DigitFont::Block) {
        CountdownRender::Digits(lines, _) => assert_eq!(lines.len(), 14),
        _ => panic!("expected digits"),
    }
    assert!(matches!(countdown_render_plan(rect(0, 0, 80, 5), "12:34", DigitFont::Tube), CountdownRender::Plain));
    assert!(matches!(
        countdown_render_plan(rect(0, 0, 80, 20), "--", DigitFont::Tube),
        CountdownRender::Big(PixelSize::Full)
    ));
}

#[test]
fn timer_targets_and_remaining_time() {
    let t = timer("2026-05-05T23:59:00-12:00", "");
    let target = target_utc(&t).unwrap();
    assert_eq!(target, UtcInstant { secs: 1_778_068_740, nanos: 0 });
    assert_eq!(target_utc(&timer("whenever", "")), Err(InvalidTime));
    let before = UtcInstant { secs: target.secs - 90, nanos: 500_000_000 };
    assert_eq!(remaining_millis(&t, before), Some(89_500));
    assert_eq!(remaining_millis(&timer("nope", ""), before), None);
}

#[test]
fn timer_list_texts() {
    assert_eq!(timer_status(None, Lang::En), "Invalid time");
    assert_eq!(timer_status(Some(0), Lang::Zh), "已结束");
    assert_eq!(timer_status(Some(61_500), Lang::Ja), "00:01:01");
    let t = timer("2000-01-01T00:00:00+00:00", "");
    assert_eq!(timer_list_line(&t, "Finished"), "ICML  Finished  [Etc/GMT+12]");
    let mut a = App::new(default_config());
    a.config.timers.push(t);
    a.config.timers.push(timer("bad", ""));
    a.config.settings.language = "en".to_string();
    let lines = timer_list_lines(&a);
    assert_eq!(lines, vec!["ICML  Finished  [Etc/GMT+12]", "ICML  Invalid time  [Etc/GMT+12]"]);
    let soon = timer("2026-05-05T23:59:00-12:00", "");
    a.config.timers.push(soon);
    let now = UtcInstant { secs: 1_778_068_740 - 3_725, nanos: 250_000_000 };
    let lines = timer_list_lines_at(&a, now);
    assert_eq!(lines[0], "ICML  Finished  [Etc/GMT+12]");
    assert_eq!(lines[1], "ICML  Invalid time  [Etc/GMT+12]");
    assert_eq!(lines[2], "ICML  01:02:04  [Etc/GMT+12]");
}

#[test]
fn countdown_at_an_instant() {
    let t = timer("2026-05-05T23:59:00-12:00", "");
    let now = UtcInstant { secs: 1_778_068_740 - 3_725, nanos: 250_000_000 };
    assert_eq!(countdown_text_at(&t, "seconds", now), "01:02:04");
    assert_eq!(countdown_text_at(&t, "tenths", now), "01:02:04.7");
    assert_eq!(countdown_text_at(&t, "minutes", now), "01:02");
    let after = UtcInstant { secs: 1_778_068_741, nanos: 0 };
    assert_eq!(countdown_text_at(&t, "seconds", after), "00:00:00");
    assert_eq!(countdown_text_at(&timer("bad", ""), "hundredths", now), "00:00:00.00");
}

#[test]
fn countdown_and_meta_texts() {
    let past = timer("2000-01-01T00:00:00+00:00", "  ");
    assert_eq!(countdown_text(&past, "tenths"), "00:00:00.0");
    assert_eq!(countdown_text(&timer("bad", ""), "minutes"), "00:00");
    let far = timer("2999-01-01T00:00:00+00:00", "");
    assert!(countdown_text(&far, "seconds").len() > 8);
    assert_eq!(
        timer_meta_lines(Lang::En, &past),
        vec!["Target: 2000-01-01T00:00:00+00:00 [Etc/GMT+12]"]
    );
    assert_eq!(
        timer_meta_lines(Lang::Zh, &timer("x", "bring coffee")),
        vec!["目标: x [Etc/GMT+12]", "bring coffee"]
    );
    assert_eq!(timer_footer(Lang::En, "tube"), "q back · r reload config · ←/→ font: tube · ↑/↓ timer");
    assert_eq!(timer_footer(Lang::Ja, "block"), "q 戻る · r 再読み込み · ←/→ フォント: block · ↑/↓ タイマー");
}

#[test]
fn menu_add_and_settings_texts() {
    assert_eq!(menu_labels(Lang::En), vec!["Start timer", "Add timer", "Settings", "View config", "Quit"]);
    let c = default_config();
    assert_eq!(
        menu_summary(Lang::En, "/home/u/.config/toptimer/config.json", &c.settings),
        "Config: /home/u/.config/toptimer/config.json\nHome timezone: Asia/Shanghai\nPrecision: seconds HH:MM:SS"
    );
    let mut a = App::new(c);
    a.add_title = "NeurIPS".to_string();
    assert_eq!(
        add_form_labels(&a),
        vec!["标题: NeurIPS", "目标时间: ", "时区: 中国 / Beijing (Asia/Shanghai)", "备注: ", "保存"]
    );
    a.add_tz_index = 99;
    assert_eq!(add_form_labels(&a)[2], "时区: -");
    a.config.settings.language = "ja".to_string();
    assert_eq!(
        settings_rows(&a),
        vec![
            "メインタイムゾーン: Asia/Shanghai",
            "表示精度: 秒 HH:MM:SS",
            "追加時の既定タイムゾーン: Asia/Shanghai",
            "言語: 日本語",
        ]
    );
}
