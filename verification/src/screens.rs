//! The texts each screen shows, computed from the interface state.
use vstd::prelude::*;
use crate::app::{handle_key_spec, App, AppView, Key, Screen};
use crate::config::{Settings, SettingsView, TimerConfig, TimerView};
use crate::i18n::{
    language_label, language_label_spec, precision_label_lang, precision_label_spec, tr,
    tr_spec, Lang,
};
use crate::text::{owned, replace_all, replace_str, str_eq, trim, trimmed};
use crate::time::{
    duration_text, format_duration, millis_between, millis_from_to, parse_rfc3339_utc,
    rfc3339_instant, utc_instant_ok, utc_now, UtcInstant,
};

verus! {

broadcast use vstd::string::group_string_axioms;

/// A timer's target that is no RFC 3339 date-time.
#[derive(Clone, Copy, Debug, PartialEq, Eq, Structural)]
pub struct InvalidTime;

/// The instant a timer counts down to.
pub fn target_utc(timer: &TimerConfig) -> (r: Result<UtcInstant, InvalidTime>)
    ensures
        match rfc3339_instant(timer@.target) {
            Some(i) => r == Ok::<UtcInstant, InvalidTime>(i),
            None => r == Err::<UtcInstant, InvalidTime>(InvalidTime),
        },
        r matches Ok(i) ==> utc_instant_ok(i),
{
    match parse_rfc3339_utc(timer.target.as_str()) {
        Ok(i) => Ok(i),
        Err(_) => Err(InvalidTime),
    }
}

/// The milliseconds from `now` to a timer's target, or `None` when its target is invalid.
pub open spec fn remaining_spec(timer: TimerView, now: UtcInstant) -> Option<i64> {
    match rfc3339_instant(timer.target) {
        Some(t) => Some(millis_from_to(t, now)),
        None => None,
    }
}

/// The milliseconds from `now` to a timer's target, or `None` when its target is invalid.
pub fn remaining_millis(timer: &TimerConfig, now: UtcInstant) -> (r: Option<i64>)
    requires
        utc_instant_ok(now),
    ensures
        r == remaining_spec(timer@, now),
{
    match target_utc(timer) {
        Ok(t) => Some(millis_between(t, now)),
        Err(_) => None,
    }
}

/// The status of a timer in the list: its remaining time at second precision, "finished"
/// once the target is reached, or "invalid time".
pub open spec fn timer_status_spec(remaining: Option<i64>, lang: Lang) -> Seq<char> {
    match remaining {
        None => tr_spec(lang, "invalid_time"@),
        Some(ms) => if ms <= 0 {
            tr_spec(lang, "finished"@)
        } else {
            duration_text(ms as int, "seconds"@)
        },
    }
}

pub fn timer_status(remaining: Option<i64>, lang: Lang) -> (r: String)
    ensures
        r@ == timer_status_spec(remaining, lang),
{
    match remaining {
        None => owned(tr(lang, "invalid_time")),
        Some(ms) => if ms <= 0 {
            owned(tr(lang, "finished"))
        } else {
            format_duration(ms, "seconds")
        },
    }
}

/// A line of the timer list: `title  status  [zone]`.
pub open spec fn timer_list_line_spec(timer: TimerView, status: Seq<char>) -> Seq<char> {
    timer.title + "  "@ + status + "  ["@ + timer.timezone + "]"@
}

pub fn timer_list_line(timer: &TimerConfig, status: &str) -> (r: String)
    ensures
        r@ == timer_list_line_spec(timer@, status@),
{
    let mut s = timer.title.clone();
    s.append("  ");
    s.append(status);
    s.append("  [");
    s.append(timer.timezone.as_str());
    s.append("]");
    s
}

/// The lines of the timer list at an instant.
pub open spec fn timer_list_spec(timers: Seq<TimerView>, lang: Lang, now: UtcInstant) -> Seq<Seq<char>> {
    Seq::new(
        timers.len(),
        |i: int| timer_list_line_spec(timers[i], timer_status_spec(remaining_spec(timers[i], now), lang)),
    )
}

/// The lines of the timer list at the instant `now`.
pub fn timer_list_lines_at(app: &App, now: UtcInstant) -> (r: Vec<String>)
    requires
        utc_instant_ok(now),
    ensures
        r@.map_values(|l: String| l@) == timer_list_spec(app@.config.timers, app@.lang(), now),
{
    let lang = app.lang();
    let timers = &app.config.timers;
    let ghost tv = app@.config.timers;
    let mut out: Vec<String> = Vec::new();
    let mut i: usize = 0;
    while i < timers.len()
        invariant
            tv == timers@.map_values(|t: TimerConfig| t@),
            utc_instant_ok(now),
            i <= timers@.len(),
            out@.len() == i,
            forall|k: int| 0 <= k < i ==> (#[trigger] out@[k])@ == timer_list_line_spec(
                tv[k],
                timer_status_spec(remaining_spec(tv[k], now), lang),
            ),
        decreases timers@.len() - i,
    {
        let remaining = remaining_millis(&timers[i], now);
        let status = timer_status(remaining, lang);
        out.push(timer_list_line(&timers[i], status.as_str()));
        i = i + 1;
    }
    assert(out@.map_values(|l: String| l@) =~= timer_list_spec(tv, lang, now));
    out
}

/// The lines of the timer list, at the current time.
pub fn timer_list_lines(app: &App) -> (r: Vec<String>)
    ensures
        exists|now: UtcInstant| utc_instant_ok(now) && r@.map_values(|l: String| l@)
            == timer_list_spec(app@.config.timers, app@.lang(), now),
{
    let now = utc_now();
    timer_list_lines_at(app, now)
}

/// The countdown of a timer at an instant: the remaining time at the precision, zero once
/// reached or when the target is invalid.
pub open spec fn countdown_spec(timer: TimerView, precision: Seq<char>, now: UtcInstant) -> Seq<char> {
    match remaining_spec(timer, now) {
        Some(ms) => duration_text(ms as int, precision),
        None => duration_text(0, precision),
    }
}

/// The countdown of a timer at the instant `now`.
pub fn countdown_text_at(timer: &TimerConfig, precision: &str, now: UtcInstant) -> (r: String)
    requires
        utc_instant_ok(now),
    ensures
        r@ == countdown_spec(timer@, precision@, now),
{
    let remaining: i64 = match remaining_millis(timer, now) {
        Some(ms) => ms,
        None => 0,
    };
    if remaining <= 0 {
        format_duration(0, precision)
    } else {
        format_duration(remaining, precision)
    }
}

/// The countdown of a timer at the current time.
pub fn countdown_text(timer: &TimerConfig, precision: &str) -> (r: String)
    ensures
        exists|now: UtcInstant| utc_instant_ok(now) && r@ == countdown_spec(timer@, precision@, now),
{
    let now = utc_now();
    countdown_text_at(timer, precision, now)
}

/// `label: value`.
pub open spec fn labelled(label: Seq<char>, value: Seq<char>) -> Seq<char> {
    label + ": "@ + value
}

fn labelled_exec(label: &str, value: &str) -> (r: String)
    ensures
        r@ == labelled(label@, value@),
{
    let mut s = owned(label);
    s.append(": ");
    s.append(value);
    s
}

/// The lines under a running countdown: the target and its zone, and the note when it is
/// not blank.
pub open spec fn timer_meta_spec(lang: Lang, timer: TimerView) -> Seq<Seq<char>> {
    let target = labelled(tr_spec(lang, "target"@), timer.target + " ["@ + timer.timezone + "]"@);
    if trimmed(timer.note).len() == 0 {
        seq![target]
    } else {
        seq![target, timer.note]
    }
}

pub fn timer_meta_lines(lang: Lang, timer: &TimerConfig) -> (r: Vec<String>)
    ensures
        r@.map_values(|l: String| l@) == timer_meta_spec(lang, timer@),
{
    let mut value = timer.target.clone();
    value.append(" [");
    value.append(timer.timezone.as_str());
    value.append("]");
    let mut out: Vec<String> = Vec::new();
    out.push(labelled_exec(tr(lang, "target"), value.as_str()));
    if !trim(timer.note.as_str()).is_empty() {
        out.push(timer.note.clone());
    }
    assert(out@.map_values(|l: String| l@) =~= timer_meta_spec(lang, timer@));
    out
}

/// The footer of the running countdown, naming the font.
pub open spec fn timer_footer_spec(lang: Lang, font_name: Seq<char>) -> Seq<char> {
    replace_all(tr_spec(lang, "timer_footer"@), "{font}"@, font_name)
}

pub fn timer_footer(lang: Lang, font_name: &str) -> (r: String)
    ensures
        r@ == timer_footer_spec(lang, font_name@),
{
    proof {
        reveal_strlit("{font}");
    }
    replace_str(tr(lang, "timer_footer"), "{font}", font_name)
}

/// The menu entries: start, add, settings, configuration, quit.
pub open spec fn menu_labels_spec(lang: Lang) -> Seq<Seq<char>> {
    seq![
        tr_spec(lang, "menu_start"@),
        tr_spec(lang, "menu_add"@),
        tr_spec(lang, "menu_settings"@),
        tr_spec(lang, "menu_config"@),
        tr_spec(lang, "menu_quit"@),
    ]
}

pub fn menu_labels(lang: Lang) -> (r: Vec<&'static str>)
    ensures
        r@.map_values(|l: &str| l@) == menu_labels_spec(lang),
{
    let mut v: Vec<&'static str> = Vec::new();
    v.push(tr(lang, "menu_start"));
    v.push(tr(lang, "menu_add"));
    v.push(tr(lang, "menu_settings"));
    v.push(tr(lang, "menu_config"));
    v.push(tr(lang, "menu_quit"));
    assert(v@.map_values(|l: &str| l@) =~= menu_labels_spec(lang));
    v
}

/// The summary on the menu: where the configuration is, the home zone and the precision.
pub open spec fn menu_summary_spec(lang: Lang, config_path: Seq<char>, settings: SettingsView) -> Seq<char> {
    labelled(tr_spec(lang, "config"@), config_path) + "\n"@ + labelled(
        tr_spec(lang, "home_tz"@),
        settings.home_timezone,
    ) + "\n"@ + labelled(
        tr_spec(lang, "precision"@),
        precision_label_spec(settings.display_precision, lang),
    )
}

pub fn menu_summary(lang: Lang, config_path: &str, settings: &Settings) -> (r: String)
    ensures
        r@ == menu_summary_spec(lang, config_path@, settings@),
{
    let mut s = labelled_exec(tr(lang, "config"), config_path);
    s.append("\n");
    let home = labelled_exec(tr(lang, "home_tz"), settings.home_timezone.as_str());
    s.append(home.as_str());
    s.append("\n");
    let precision = labelled_exec(
        tr(lang, "precision"),
        precision_label_lang(settings.display_precision.as_str(), lang),
    );
    s.append(precision.as_str());
    s
}

/// The zone row of the add form: `label (zone)` of the preset under the cursor, or `-`.
pub open spec fn add_zone_text_spec(presets: Seq<crate::config::PresetView>, index: usize) -> Seq<char> {
    if index < presets.len() {
        presets[index as int].label + " ("@ + presets[index as int].zone + ")"@
    } else {
        "-"@
    }
}

/// The five rows of the add form: title, target, zone, note, and the save button.
pub open spec fn add_form_spec(a: crate::app::AppView) -> Seq<Seq<char>> {
    let lang = a.lang();
    seq![
        labelled(tr_spec(lang, "add_title"@), a.add_title),
        labelled(tr_spec(lang, "add_target"@), a.add_target),
        labelled(tr_spec(lang, "timezone"@), add_zone_text_spec(a.config.presets, a.add_tz_index)),
        labelled(tr_spec(lang, "note"@), a.add_note),
        tr_spec(lang, "save"@),
    ]
}

pub fn add_form_labels(app: &App) -> (r: Vec<String>)
    ensures
        r@.map_values(|l: String| l@) == add_form_spec(app@),
{
    let lang = app.lang();
    let zone_text = if app.add_tz_index < app.config.timezone_presets.len() {
        let p = &app.config.timezone_presets[app.add_tz_index];
        let mut t = p.label.clone();
        t.append(" (");
        t.append(p.zone.as_str());
        t.append(")");
        t
    } else {
        owned("-")
    };
    let mut v: Vec<String> = Vec::new();
    v.push(labelled_exec(tr(lang, "add_title"), app.add_title.as_str()));
    v.push(labelled_exec(tr(lang, "add_target"), app.add_target.as_str()));
    v.push(labelled_exec(tr(lang, "timezone"), zone_text.as_str()));
    v.push(labelled_exec(tr(lang, "note"), app.add_note.as_str()));
    v.push(owned(tr(lang, "save")));
    assert(v@.map_values(|l: String| l@) =~= add_form_spec(app@));
    v
}

/// The four rows of the settings: home zone, precision, default zone for new timers, and
/// language.
pub open spec fn settings_rows_spec(lang: Lang, st: SettingsView) -> Seq<Seq<char>> {
    seq![
        labelled(tr_spec(lang, "home_tz"@), st.home_timezone),
        labelled(tr_spec(lang, "precision"@), precision_label_spec(st.display_precision, lang)),
        labelled(tr_spec(lang, "default_add_tz"@), st.default_add_timezone),
        labelled(tr_spec(lang, "language"@), language_label_spec(st.language)),
    ]
}

pub fn settings_rows(app: &App) -> (r: Vec<String>)
    ensures
        r@.map_values(|l: String| l@) == settings_rows_spec(app@.lang(), app@.config.settings),
{
    let lang = app.lang();
    let st = &app.config.settings;
    let mut v: Vec<String> = Vec::new();
    v.push(labelled_exec(tr(lang, "home_tz"), st.home_timezone.as_str()));
    v.push(labelled_exec(tr(lang, "precision"), precision_label_lang(st.display_precision.as_str(), lang)));
    v.push(labelled_exec(tr(lang, "default_add_tz"), st.default_add_timezone.as_str()));
    v.push(labelled_exec(tr(lang, "language"), language_label(st.language.as_str())));
    assert(v@.map_values(|l: String| l@) =~= settings_rows_spec(lang, app@.config.settings));
    v
}

/// The key of the menu label that names where the interface is: the screen shown, or
/// quitting.
pub open spec fn menu_outcome_key(b: AppView) -> Seq<char> {
    if b.should_quit {
        "menu_quit"@
    } else {
        match b.screen {
            Screen::TimerList => "menu_start"@,
            Screen::Add => "menu_add"@,
            Screen::Settings => "menu_settings"@,
            Screen::ConfigView => "menu_config"@,
            _ => Seq::empty(),
        }
    }
}

/// Enter on the menu does what the selected entry's label says: it opens the screen, or
/// quits, that the label at the cursor names, and changes nothing else.
pub proof fn lemma_menu_enter_follows_labels(a: AppView, id: Seq<char>, created: Seq<char>)
    requires
        a.screen == Screen::Menu,
        !a.should_quit,
        a.menu_index <= 4,
    ensures
        ({
            let b = handle_key_spec(a, Key::Enter, id, created).0;
            &&& tr_spec(a.lang(), menu_outcome_key(b)) == menu_labels_spec(a.lang())[a.menu_index as int]
            &&& b.should_quit <==> a.menu_index == 4
            &&& b.should_quit ==> b.screen == Screen::Menu
            &&& b == AppView { screen: b.screen, should_quit: b.should_quit, ..a }
        }),
{
}

/// The five menu entries lead to five different outcomes.
pub proof fn lemma_menu_entries_distinct(a: AppView, i: usize, j: usize, id: Seq<char>, created: Seq<char>)
    requires
        a.screen == Screen::Menu,
        !a.should_quit,
        i <= 4,
        j <= 4,
        i != j,
    ensures
        ({
            let bi = handle_key_spec(AppView { menu_index: i, ..a }, Key::Enter, id, created).0;
            let bj = handle_key_spec(AppView { menu_index: j, ..a }, Key::Enter, id, created).0;
            (bi.screen, bi.should_quit) != (bj.screen, bj.should_quit)
        }),
{
}

} // verus!
