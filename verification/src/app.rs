//! The interface state and what each key does to it.
//!
//! Reading keys, drawing and file access stay outside: a key handler changes the state
//! and answers with an `Effect` that tells the caller whether the configuration is to be
//! saved or read again.
use vstd::prelude::*;
use crate::config::{
    preset_index, preset_index_config, preset_position, Config, ConfigView, TimerConfig,
    TimerView,
};
use crate::glyphs::DigitFont;
use crate::i18n::{language_codes, lang_from_code, lang_of_code, precision_keys, tr, tr_spec, Lang};
use crate::text::str_eq;
use crate::config::{SettingsView};
use crate::text::{owned, pop_char, push_char, trim, trimmed};
use crate::time::{
    local_target_defined, local_target_resolvable, local_target_spec, now_rfc3339,
    parse_local_target, short_id,
    short_id_text, utc_instant_ok, utc_rfc3339_text, UtcInstant,
};

verus! {

broadcast use vstd::string::group_string_axioms;

/// The screen shown.
#[derive(Clone, Copy, Debug, PartialEq, Eq, Structural)]
pub enum Screen {
    Menu,
    TimerList,
    TimerRun,
    Add,
    Settings,
    ConfigView,
}

/// A key press, as far as the interface tells keys apart.
#[derive(Clone, Copy, Debug, PartialEq, Eq, Structural)]
pub enum Key {
    Char(char),
    Up,
    Down,
    Left,
    Right,
    Enter,
    Esc,
    Tab,
    BackTab,
    Backspace,
    Other,
}

/// What the caller does after a key: nothing, write the configuration, or read it again
/// and put it in place of the current one.
#[derive(Clone, Copy, Debug, PartialEq, Eq, Structural)]
pub enum Effect {
    Nothing,
    SaveConfig,
    ReloadConfig,
}

/// The names of the digit fonts, in the order the timer screen cycles through them.
pub fn font_names() -> (r: Vec<&'static str>)
    ensures
        r@.map_values(|n: &str| n@) == digit_font_names(),
{
    let mut v: Vec<&'static str> = Vec::new();
    v.push("tube");
    v.push("block");
    v.push("compact");
    assert(v@.map_values(|n: &str| n@) =~= digit_font_names());
    v
}

/// The interface state.
pub struct App {
    pub config: Config,
    pub screen: Screen,
    pub menu_index: usize,
    pub timer_index: usize,
    pub settings_index: usize,
    pub add_field: usize,
    pub add_title: String,
    pub add_target: String,
    pub add_note: String,
    pub add_tz_index: usize,
    pub digit_font_index: usize,
    pub message: String,
    pub should_quit: bool,
}

pub struct AppView {
    pub config: ConfigView,
    pub screen: Screen,
    pub menu_index: usize,
    pub timer_index: usize,
    pub settings_index: usize,
    pub add_field: usize,
    pub add_title: Seq<char>,
    pub add_target: Seq<char>,
    pub add_note: Seq<char>,
    pub add_tz_index: usize,
    pub digit_font_index: usize,
    pub message: Seq<char>,
    pub should_quit: bool,
}

impl View for App {
    type V = AppView;

    open spec fn view(&self) -> AppView {
        AppView {
            config: self.config@,
            screen: self.screen,
            menu_index: self.menu_index,
            timer_index: self.timer_index,
            settings_index: self.settings_index,
            add_field: self.add_field,
            add_title: self.add_title@,
            add_target: self.add_target@,
            add_note: self.add_note@,
            add_tz_index: self.add_tz_index,
            digit_font_index: self.digit_font_index,
            message: self.message@,
            should_quit: self.should_quit,
        }
    }
}

/// The names of the digit fonts, in the order the timer screen cycles through them.
pub open spec fn digit_font_names() -> Seq<Seq<char>> {
    seq!["tube"@, "block"@, "compact"@]
}

impl AppView {
    /// The bounds the cursors keep: the menu has five entries, the settings four rows, the
    /// add form five fields, there are three fonts, and the indexes can still be
    /// incremented.
    pub open spec fn wf(self) -> bool {
        &&& self.menu_index <= 4
        &&& self.settings_index <= 3
        &&& self.add_field <= 4
        &&& self.digit_font_index < 3
        &&& self.timer_index < usize::MAX
        &&& self.add_tz_index < usize::MAX
    }

    /// The language the interface is shown in.
    pub open spec fn lang(self) -> Lang {
        lang_of_code(self.config.settings.language)
    }

    /// The font the countdown is drawn in.
    pub open spec fn digit_font(self) -> DigitFont {
        let i = self.digit_font_index % 3;
        if i == 0 {
            DigitFont::Tube
        } else if i == 1 {
            DigitFont::Block
        } else {
            DigitFont::Compact
        }
    }
}

/// The state of a fresh interface: on the menu, every cursor at the start, the add form
/// empty with the zone preset of the configured default.
pub open spec fn new_app_view(config: ConfigView) -> AppView {
    AppView {
        config,
        screen: Screen::Menu,
        menu_index: 0,
        timer_index: 0,
        settings_index: 0,
        add_field: 0,
        add_title: Seq::empty(),
        add_target: Seq::empty(),
        add_note: Seq::empty(),
        add_tz_index: preset_position(config.presets, config.settings.default_add_timezone) as usize,
        digit_font_index: 0,
        message: Seq::empty(),
        should_quit: false,
    }
}

impl App {
    pub fn new(config: Config) -> (r: Self)
        ensures
            r@ == new_app_view(config@),
            r@.wf(),
    {
        let add_tz_index = preset_index_config(&config, config.settings.default_add_timezone.as_str());
        App {
            config,
            screen: Screen::Menu,
            menu_index: 0,
            timer_index: 0,
            settings_index: 0,
            add_field: 0,
            add_title: String::new(),
            add_target: String::new(),
            add_note: String::new(),
            add_tz_index,
            digit_font_index: 0,
            message: String::new(),
            should_quit: false,
        }
    }

    /// The timer the cursor is on, if it is on one.
    pub fn selected_timer(&self) -> (r: Option<&TimerConfig>)
        ensures
            self.timer_index < self.config.timers@.len() ==> r == Some(
                &self.config.timers@[self.timer_index as int],
            ),
            self.timer_index >= self.config.timers@.len() ==> r is None,
    {
        if self.timer_index < self.config.timers.len() {
            Some(&self.config.timers[self.timer_index])
        } else {
            None
        }
    }

    pub fn digit_font(&self) -> (r: DigitFont)
        ensures
            r == self@.digit_font(),
    {
        let i = self.digit_font_index % 3;
        if i == 0 {
            DigitFont::Tube
        } else if i == 1 {
            DigitFont::Block
        } else {
            DigitFont::Compact
        }
    }

    pub fn digit_font_name(&self) -> (r: &'static str)
        ensures
            r@ == digit_font_names()[(self.digit_font_index % 3) as int],
    {
        let i = self.digit_font_index % 3;
        if i == 0 {
            "tube"
        } else if i == 1 {
            "block"
        } else {
            "compact"
        }
    }

    pub fn lang(&self) -> (r: Lang)
        ensures
            r == self@.lang(),
    {
        lang_from_code(self.config.settings.language.as_str())
    }
}

/// The position of the preset for a zone in the app's configuration (first match, or 0).
pub fn preset_index_app(app: &App, zone: &str) -> (r: usize)
    ensures
        r == preset_position(app@.config.presets, zone@),
        r == 0 || r < app@.config.presets.len(),
        r < usize::MAX,
{
    preset_index(&app.config.timezone_presets, zone)
}

/// A position found among presets is one of theirs, or 0.
pub proof fn lemma_preset_position_bound(presets: Seq<crate::config::PresetView>, zone: Seq<char>)
    ensures
        preset_position(presets, zone) == 0 || preset_position(presets, zone) < presets.len(),
{
    if exists|i: int| 0 <= i < presets.len() && (#[trigger] presets[i]).zone == zone {
        let i = choose|i: int| 0 <= i < presets.len() && (#[trigger] presets[i]).zone == zone;
        lemma_first_match(presets, zone, i);
    }
}

proof fn lemma_first_match(presets: Seq<crate::config::PresetView>, zone: Seq<char>, i: int)
    requires
        0 <= i < presets.len(),
        presets[i].zone == zone,
    ensures
        exists|k: int|
            0 <= k < presets.len() && (#[trigger] presets[k]).zone == zone && forall|j: int|
                0 <= j < k ==> (#[trigger] presets[j]).zone != zone,
    decreases i,
{
    if exists|j: int| 0 <= j < i && (#[trigger] presets[j]).zone == zone {
        let j = choose|j: int| 0 <= j < i && (#[trigger] presets[j]).zone == zone;
        lemma_first_match(presets, zone, j);
    } else {
        assert(forall|j: int| 0 <= j < i ==> (#[trigger] presets[j]).zone != zone);
    }
}

/// The next or previous position among `len`, wrapping around; 0 when there is none.
pub open spec fn cycle_index_spec(current: int, len: int, forward: bool) -> int {
    if len == 0 {
        0
    } else if forward {
        (current + 1) % len
    } else if current == 0 {
        len - 1
    } else {
        current - 1
    }
}

pub fn cycle_index(current: usize, len: usize, forward: bool) -> (r: usize)
    requires
        forward ==> current < usize::MAX,
    ensures
        r == cycle_index_spec(current as int, len as int, forward),
{
    if len == 0 {
        return 0;
    }
    if forward {
        (current + 1) % len
    } else if current == 0 {
        len - 1
    } else {
        current - 1
    }
}

/// Cycling stays among the positions, and a step forward is undone by a step back and a
/// step back by a step forward.
pub proof fn lemma_cycle_index_inverse(current: int, len: int)
    requires
        0 <= current < len,
    ensures
        0 <= cycle_index_spec(current, len, true) < len,
        0 <= cycle_index_spec(current, len, false) < len,
        cycle_index_spec(cycle_index_spec(current, len, true), len, false) == current,
        cycle_index_spec(cycle_index_spec(current, len, false), len, true) == current,
{
    if current + 1 < len {
        vstd::arithmetic::div_mod::lemma_small_mod((current + 1) as nat, len as nat);
    } else {
        vstd::arithmetic::div_mod::lemma_mod_self_0(len);
    }
    if current == 0 {
        vstd::arithmetic::div_mod::lemma_mod_self_0(len);
    } else {
        vstd::arithmetic::div_mod::lemma_small_mod(current as nat, len as nat);
    }
}

pub open spec fn sat_dec(i: usize) -> usize {
    if i == 0 { 0 } else { (i - 1) as usize }
}

pub open spec fn inc_upto(i: usize, bound: int) -> usize {
    if i + 1 <= bound { (i + 1) as usize } else { bound as usize }
}

/// The menu: `q`/Esc quits, Up/`k` and Down/`j` move among the five entries, Enter opens
/// the timers, the add form, the settings, the configuration, or quits.
pub open spec fn menu_key_spec(a: AppView, key: Key) -> AppView {
    match key {
        Key::Char('q') | Key::Esc => AppView { should_quit: true, ..a },
        Key::Up | Key::Char('k') => AppView { menu_index: sat_dec(a.menu_index), ..a },
        Key::Down | Key::Char('j') => AppView { menu_index: inc_upto(a.menu_index, 4), ..a },
        Key::Enter => {
            if a.menu_index == 0 {
                AppView { screen: Screen::TimerList, ..a }
            } else if a.menu_index == 1 {
                AppView { screen: Screen::Add, ..a }
            } else if a.menu_index == 2 {
                AppView { screen: Screen::Settings, ..a }
            } else if a.menu_index == 3 {
                AppView { screen: Screen::ConfigView, ..a }
            } else if a.menu_index == 4 {
                AppView { should_quit: true, ..a }
            } else {
                a
            }
        },
        _ => a,
    }
}

pub fn handle_menu_key(app: &mut App, key: Key) -> (r: Effect)
    requires
        old(app)@.wf(),
    ensures
        final(app)@ == menu_key_spec(old(app)@, key),
        r == Effect::Nothing,
{
    match key {
        Key::Char('q') | Key::Esc => app.should_quit = true,
        Key::Up | Key::Char('k') => app.menu_index = app.menu_index.saturating_sub(1),
        Key::Down | Key::Char('j') => app.menu_index = (app.menu_index + 1).min(4),
        Key::Enter => {
            if app.menu_index == 0 {
                app.screen = Screen::TimerList;
            } else if app.menu_index == 1 {
                app.screen = Screen::Add;
            } else if app.menu_index == 2 {
                app.screen = Screen::Settings;
            } else if app.menu_index == 3 {
                app.screen = Screen::ConfigView;
            } else if app.menu_index == 4 {
                app.should_quit = true;
            }
        },
        _ => {},
    }
    Effect::Nothing
}

/// The timer list: `q`/Esc goes back, `r` reads the configuration again, Up/`k` and
/// Down/`j` move among the timers, Enter runs the selected one (when there is one).
pub open spec fn timer_list_key_spec(a: AppView, key: Key) -> (AppView, Effect) {
    let n = a.config.timers.len();
    match key {
        Key::Esc | Key::Char('q') => (AppView { screen: Screen::Menu, ..a }, Effect::Nothing),
        Key::Char('r') => (a, Effect::ReloadConfig),
        Key::Up | Key::Char('k') => (AppView { timer_index: sat_dec(a.timer_index), ..a }, Effect::Nothing),
        Key::Down | Key::Char('j') => if n > 0 {
            (AppView { timer_index: inc_upto(a.timer_index, n - 1), ..a }, Effect::Nothing)
        } else {
            (a, Effect::Nothing)
        },
        Key::Enter => if n > 0 {
            (AppView { screen: Screen::TimerRun, ..a }, Effect::Nothing)
        } else {
            (a, Effect::Nothing)
        },
        _ => (a, Effect::Nothing),
    }
}

pub fn handle_timer_list_key(app: &mut App, key: Key) -> (r: Effect)
    requires
        old(app)@.wf(),
    ensures
        (final(app)@, r) == timer_list_key_spec(old(app)@, key),
{
    let n = app.config.timers.len();
    match key {
        Key::Esc | Key::Char('q') => app.screen = Screen::Menu,
        Key::Char('r') => return Effect::ReloadConfig,
        Key::Up | Key::Char('k') => app.timer_index = app.timer_index.saturating_sub(1),
        Key::Down | Key::Char('j') => {
            if n > 0 {
                app.timer_index = (app.timer_index + 1).min(n - 1);
            }
        },
        Key::Enter => {
            if n > 0 {
                app.screen = Screen::TimerRun;
            }
        },
        _ => {},
    }
    Effect::Nothing
}

/// The running countdown: `q`/Esc/`s` goes back to the list, `r` reads the configuration
/// again, Left and Right cycle the font, Up/`k` and Down/`j` cycle the timers.
pub open spec fn timer_run_key_spec(a: AppView, key: Key) -> (AppView, Effect) {
    let n = a.config.timers.len();
    match key {
        Key::Esc | Key::Char('q') | Key::Char('s') => (AppView { screen: Screen::TimerList, ..a }, Effect::Nothing),
        Key::Char('r') => (a, Effect::ReloadConfig),
        Key::Left => (AppView {
            digit_font_index: cycle_index_spec(a.digit_font_index as int, 3, false) as usize,
            ..a
        }, Effect::Nothing),
        Key::Right => (AppView {
            digit_font_index: cycle_index_spec(a.digit_font_index as int, 3, true) as usize,
            ..a
        }, Effect::Nothing),
        Key::Up | Key::Char('k') => if n > 0 {
            (AppView { timer_index: cycle_index_spec(a.timer_index as int, n as int, false) as usize, ..a }, Effect::Nothing)
        } else {
            (a, Effect::Nothing)
        },
        Key::Down | Key::Char('j') => if n > 0 {
            (AppView { timer_index: cycle_index_spec(a.timer_index as int, n as int, true) as usize, ..a }, Effect::Nothing)
        } else {
            (a, Effect::Nothing)
        },
        _ => (a, Effect::Nothing),
    }
}

pub fn handle_timer_run_key(app: &mut App, key: Key) -> (r: Effect)
    requires
        old(app)@.wf(),
    ensures
        (final(app)@, r) == timer_run_key_spec(old(app)@, key),
{
    let n = app.config.timers.len();
    match key {
        Key::Esc | Key::Char('q') | Key::Char('s') => app.screen = Screen::TimerList,
        Key::Char('r') => return Effect::ReloadConfig,
        Key::Left => {
            app.digit_font_index = if app.digit_font_index == 0 {
                2
            } else {
                app.digit_font_index - 1
            };
        },
        Key::Right => {
            app.digit_font_index = (app.digit_font_index + 1) % 3;
        },
        Key::Up | Key::Char('k') => {
            if n > 0 {
                app.timer_index = if app.timer_index == 0 {
                    n - 1
                } else {
                    app.timer_index - 1
                };
            }
        },
        Key::Down | Key::Char('j') => {
            if n > 0 {
                app.timer_index = (app.timer_index + 1) % n;
            }
        },
        _ => {},
    }
    Effect::Nothing
}

/// The configuration view: Esc, `q` or Enter goes back to the menu.
pub open spec fn config_view_key_spec(a: AppView, key: Key) -> AppView {
    match key {
        Key::Esc | Key::Char('q') | Key::Enter => AppView { screen: Screen::Menu, ..a },
        _ => a,
    }
}

/// The text the add form's cursor edits: the title, the target or the note; on the zone
/// row and on the save button it is the message line.
pub open spec fn active_field(a: AppView) -> Seq<char> {
    if a.add_field == 0 {
        a.add_title
    } else if a.add_field == 1 {
        a.add_target
    } else if a.add_field == 3 {
        a.add_note
    } else {
        a.message
    }
}

/// The state with the text under the add form's cursor replaced.
pub open spec fn with_active_field(a: AppView, t: Seq<char>) -> AppView {
    if a.add_field == 0 {
        AppView { add_title: t, ..a }
    } else if a.add_field == 1 {
        AppView { add_target: t, ..a }
    } else if a.add_field == 3 {
        AppView { add_note: t, ..a }
    } else {
        AppView { message: t, ..a }
    }
}

/// The text the add form's cursor edits, for changing in place.
pub fn active_add_field_mut(app: &mut App) -> (r: &mut String)
    ensures
        r@ == active_field(old(app)@),
        final(app)@ == with_active_field(old(app)@, final(r)@),
{
    if app.add_field == 0 {
        &mut app.add_title
    } else if app.add_field == 1 {
        &mut app.add_target
    } else if app.add_field == 3 {
        &mut app.add_note
    } else {
        &mut app.message
    }
}

/// `s` without its last character (unchanged when empty).
pub open spec fn drop_last_char(s: Seq<char>) -> Seq<char> {
    if s.len() == 0 { s } else { s.drop_last() }
}

/// A timer id as `short_id` makes them.
pub open spec fn is_timer_id(id: Seq<char>) -> bool {
    exists|nanos: i64| id == short_id_text(nanos)
}

/// A creation stamp as a timer gets it: some instant of the clock in RFC 3339.
pub open spec fn is_clock_stamp(created: Seq<char>) -> bool {
    exists|i: UtcInstant| utc_instant_ok(i) && created == utc_rfc3339_text(i)
}

/// The title a new timer gets: the typed title without surrounding whitespace, or
/// `"Untitled Timer"` when that is empty.
pub open spec fn new_timer_title(typed: Seq<char>) -> Seq<char> {
    if trimmed(typed).len() == 0 {
        "Untitled Timer"@
    } else {
        trimmed(typed)
    }
}

/// Whether saving the add form gives a result: a fixed-offset target beyond chrono's
/// range of years has none (resolving it would panic).
pub open spec fn save_defined(a: AppView) -> bool {
    a.add_tz_index < a.config.presets.len() ==> local_target_defined(
        a.add_target,
        a.config.presets[a.add_tz_index as int].zone,
    )
}

/// Saving the add form. With no preset at the cursor the message says so. When the
/// target reads as a date-time in the preset's zone, a timer with the given id and
/// creation stamp is appended, the zone becomes the default for new timers, the form is
/// emptied, the message says the timer was added, the timer list is shown, and the
/// configuration is to be saved. Otherwise the message is the error.
pub open spec fn save_new_timer_spec(a: AppView, id: Seq<char>, created: Seq<char>) -> (AppView, Effect) {
    if a.add_tz_index >= a.config.presets.len() {
        (AppView { message: "无效时区选择"@, ..a }, Effect::Nothing)
    } else {
        let zone = a.config.presets[a.add_tz_index as int].zone;
        match local_target_spec(a.add_target, zone) {
            Ok(target) => {
                let timer = TimerView {
                    id,
                    title: new_timer_title(a.add_title),
                    target,
                    timezone: zone,
                    note: trimmed(a.add_note),
                    created_at: created,
                };
                let config = ConfigView {
                    settings: SettingsView { default_add_timezone: zone, ..a.config.settings },
                    timers: a.config.timers.push(timer),
                    ..a.config
                };
                (AppView {
                    config,
                    add_title: Seq::empty(),
                    add_target: Seq::empty(),
                    add_note: Seq::empty(),
                    message: tr_spec(a.lang(), "added"@),
                    screen: Screen::TimerList,
                    ..a
                }, Effect::SaveConfig)
            },
            Err(e) => (AppView { message: e, ..a }, Effect::Nothing),
        }
    }
}

/// Whether saving the add form appends a timer.
pub open spec fn adds_timer(a: AppView) -> bool {
    a.add_tz_index < a.config.presets.len() && local_target_spec(
        a.add_target,
        a.config.presets[a.add_tz_index as int].zone,
    ) is Ok
}

/// Saves the add form as a new timer (see `save_new_timer_spec`); the id and creation
/// stamp come from the clock.
pub fn save_new_timer(app: &mut App) -> (r: Effect)
    requires
        save_defined(old(app)@),
    ensures
        adds_timer(old(app)@) ==> exists|id: Seq<char>, created: Seq<char>|
            is_timer_id(id) && is_clock_stamp(created) && (final(app)@, r) == save_new_timer_spec(
                old(app)@,
                id,
                created,
            ),
        !adds_timer(old(app)@) ==> (final(app)@, r) == save_new_timer_spec(
            old(app)@,
            Seq::empty(),
            Seq::empty(),
        ),
{
    let trimmed_title = trim(app.add_title.as_str());
    let title = if trimmed_title.is_empty() {
        String::from_str("Untitled Timer")
    } else {
        owned(trimmed_title)
    };
    if app.add_tz_index >= app.config.timezone_presets.len() {
        app.message = String::from_str("无效时区选择");
        return Effect::Nothing;
    }
    let zone_name = app.config.timezone_presets[app.add_tz_index].zone.clone();
    assert(zone_name@ == old(app)@.config.presets[old(app).add_tz_index as int].zone);
    match parse_local_target(app.add_target.as_str(), zone_name.as_str()) {
        Ok(target) => {
            let id = short_id();
            let note = owned(trim(app.add_note.as_str()));
            let created_at = now_rfc3339();
            let ghost idv = id@;
            let ghost cv = created_at@;
            let timer = TimerConfig {
                id,
                title,
                target,
                timezone: zone_name.clone(),
                note,
                created_at,
            };
            let ghost tv = timer@;
            app.config.timers.push(timer);
            app.config.settings.default_add_timezone = zone_name;
            app.add_title = String::new();
            app.add_target = String::new();
            app.add_note = String::new();
            let lang = app.lang();
            app.message = owned(tr(lang, "added"));
            app.screen = Screen::TimerList;
            assert(app.config@.timers =~= old(app)@.config.timers.push(tv));
            proof {
                let spec = save_new_timer_spec(old(app)@, idv, cv);
                assert(tv == spec.0.config.timers.last());
                assert(app.config@.settings == spec.0.config.settings);
                assert(app.config@ == spec.0.config);
                assert(app@ == spec.0);
                assert(is_timer_id(idv));
                assert(is_clock_stamp(cv));
            }
            Effect::SaveConfig
        },
        Err(err) => {
            app.message = err;
            Effect::Nothing
        },
    }
}

/// The add form: Esc goes back, Tab/Down and BackTab/Up move among the five fields,
/// Left and Right choose the zone preset on the zone row, Enter moves on or saves on the
/// last field, Backspace deletes the last character of the edited text, and a character
/// is typed into the title, target or note.
pub open spec fn add_key_spec(a: AppView, key: Key, id: Seq<char>, created: Seq<char>) -> (AppView, Effect) {
    match key {
        Key::Esc => (AppView { screen: Screen::Menu, ..a }, Effect::Nothing),
        Key::Tab | Key::Down => (AppView { add_field: inc_upto(a.add_field, 4), ..a }, Effect::Nothing),
        Key::BackTab | Key::Up => (AppView { add_field: sat_dec(a.add_field), ..a }, Effect::Nothing),
        Key::Left => if a.add_field == 2 {
            (AppView { add_tz_index: sat_dec(a.add_tz_index), ..a }, Effect::Nothing)
        } else {
            (a, Effect::Nothing)
        },
        Key::Right => if a.add_field == 2 {
            (AppView { add_tz_index: inc_upto(a.add_tz_index, a.config.presets.len() - 1), ..a }, Effect::Nothing)
        } else {
            (a, Effect::Nothing)
        },
        Key::Enter => if a.add_field == 4 {
            save_new_timer_spec(a, id, created)
        } else {
            (AppView { add_field: inc_upto(a.add_field, 4), ..a }, Effect::Nothing)
        },
        Key::Backspace => (with_active_field(a, drop_last_char(active_field(a))), Effect::Nothing),
        Key::Char(c) => if a.add_field != 2 && a.add_field != 4 {
            (with_active_field(a, active_field(a).push(c)), Effect::Nothing)
        } else {
            (a, Effect::Nothing)
        },
        _ => (a, Effect::Nothing),
    }
}

/// Whether a key on the add form appends a timer.
pub open spec fn add_key_adds_timer(a: AppView, key: Key) -> bool {
    key == Key::Enter && a.add_field == 4 && adds_timer(a)
}

/// Whether the add form can handle a key: Right on the zone row needs a preset, and
/// saving needs `save_defined`.
pub open spec fn add_key_defined(a: AppView, key: Key) -> bool {
    &&& (key == Key::Right && a.add_field == 2) ==> a.config.presets.len() > 0
    &&& (key == Key::Enter && a.add_field == 4) ==> save_defined(a)
}

pub fn handle_add_key(app: &mut App, key: Key) -> (r: Effect)
    requires
        old(app)@.wf(),
        add_key_defined(old(app)@, key),
    ensures
        add_key_adds_timer(old(app)@, key) ==> exists|id: Seq<char>, created: Seq<char>|
            is_timer_id(id) && is_clock_stamp(created) && (final(app)@, r) == add_key_spec(
                old(app)@,
                key,
                id,
                created,
            ),
        !add_key_adds_timer(old(app)@, key) ==> (final(app)@, r) == add_key_spec(
            old(app)@,
            key,
            Seq::empty(),
            Seq::empty(),
        ),
{
    match key {
        Key::Esc => app.screen = Screen::Menu,
        Key::Tab | Key::Down => app.add_field = (app.add_field + 1).min(4),
        Key::BackTab | Key::Up => app.add_field = app.add_field.saturating_sub(1),
        Key::Left => {
            if app.add_field == 2 {
                app.add_tz_index = app.add_tz_index.saturating_sub(1);
            }
        },
        Key::Right => {
            if app.add_field == 2 {
                app.add_tz_index = (app.add_tz_index + 1).min(app.config.timezone_presets.len() - 1);
            }
        },
        Key::Enter => {
            if app.add_field == 4 {
                let r = save_new_timer(app);
                proof {
                    if add_key_adds_timer(old(app)@, key) {
                        let (id, c) = choose|id: Seq<char>, c: Seq<char>|
                            is_timer_id(id) && is_clock_stamp(c) && (app@, r) == save_new_timer_spec(
                                old(app)@,
                                id,
                                c,
                            );
                        assert(add_key_spec(old(app)@, key, id, c) == save_new_timer_spec(old(app)@, id, c));
                    }
                }
                return r;
            } else {
                app.add_field = (app.add_field + 1).min(4);
            }
        },
        Key::Backspace => {
            let field = active_add_field_mut(app);
            let _ = pop_char(field);
        },
        Key::Char(c) => {
            if app.add_field != 2 && app.add_field != 4 {
                let field = active_add_field_mut(app);
                push_char(field, c);
            }
        },
        _ => {},
    }
    Effect::Nothing
}

/// The position of a display precision among `precision_keys`, or 1 (seconds) for an
/// unknown one.
pub open spec fn precision_position(p: Seq<char>) -> int {
    if p == "minutes"@ {
        0
    } else if p == "seconds"@ {
        1
    } else if p == "tenths"@ {
        2
    } else if p == "hundredths"@ {
        3
    } else if p == "milliseconds"@ {
        4
    } else {
        1
    }
}

/// The position of a language code among `language_codes`, or 0 (Chinese) for an
/// unknown one.
pub open spec fn language_position(code: Seq<char>) -> int {
    if code == "zh"@ {
        0
    } else if code == "ja"@ {
        1
    } else if code == "en"@ {
        2
    } else {
        0
    }
}

/// Changing the setting under the cursor to the next (or previous) choice: the home zone
/// and the default zone among the presets (the default also moves the add form's zone
/// cursor), the precision among the five precisions, the language among the three.
pub open spec fn cycle_setting_spec(a: AppView, forward: bool) -> AppView {
    let ps = a.config.presets;
    let st = a.config.settings;
    if a.settings_index == 0 {
        let next = cycle_index_spec(preset_position(ps, st.home_timezone) as int, ps.len() as int, forward);
        AppView {
            config: ConfigView {
                settings: SettingsView { home_timezone: ps[next].zone, ..st },
                ..a.config
            },
            ..a
        }
    } else if a.settings_index == 1 {
        let next = cycle_index_spec(precision_position(st.display_precision), 5, forward);
        AppView {
            config: ConfigView {
                settings: SettingsView { display_precision: precision_keys()[next], ..st },
                ..a.config
            },
            ..a
        }
    } else if a.settings_index == 2 {
        let next = cycle_index_spec(preset_position(ps, st.default_add_timezone) as int, ps.len() as int, forward);
        AppView {
            config: ConfigView {
                settings: SettingsView { default_add_timezone: ps[next].zone, ..st },
                ..a.config
            },
            add_tz_index: next as usize,
            ..a
        }
    } else if a.settings_index == 3 {
        let next = cycle_index_spec(language_position(st.language), 3, forward);
        AppView {
            config: ConfigView {
                settings: SettingsView { language: language_codes()[next], ..st },
                ..a.config
            },
            ..a
        }
    } else {
        a
    }
}

/// Whether a setting can be cycled: the zone rows need a preset.
pub open spec fn cycle_setting_defined(a: AppView) -> bool {
    (a.settings_index == 0 || a.settings_index == 2) ==> a.config.presets.len() > 0
}

fn precision_index(p: &str) -> (r: usize)
    ensures
        r == precision_position(p@),
{
    if str_eq(p, "minutes") {
        0
    } else if str_eq(p, "seconds") {
        1
    } else if str_eq(p, "tenths") {
        2
    } else if str_eq(p, "hundredths") {
        3
    } else if str_eq(p, "milliseconds") {
        4
    } else {
        1
    }
}

fn precision_key(i: usize) -> (r: &'static str)
    requires
        i < 5,
    ensures
        r@ == precision_keys()[i as int],
{
    if i == 0 {
        "minutes"
    } else if i == 1 {
        "seconds"
    } else if i == 2 {
        "tenths"
    } else if i == 3 {
        "hundredths"
    } else {
        "milliseconds"
    }
}

fn language_index(code: &str) -> (r: usize)
    ensures
        r == language_position(code@),
{
    if str_eq(code, "zh") {
        0
    } else if str_eq(code, "ja") {
        1
    } else if str_eq(code, "en") {
        2
    } else {
        0
    }
}

fn language_code(i: usize) -> (r: &'static str)
    requires
        i < 3,
    ensures
        r@ == language_codes()[i as int],
{
    if i == 0 {
        "zh"
    } else if i == 1 {
        "ja"
    } else {
        "en"
    }
}

/// Changes the setting under the cursor (see `cycle_setting_spec`); the configuration is
/// then to be saved.
pub fn cycle_setting(app: &mut App, forward: bool) -> (r: Effect)
    requires
        old(app)@.wf(),
        cycle_setting_defined(old(app)@),
    ensures
        final(app)@ == cycle_setting_spec(old(app)@, forward),
        r == Effect::SaveConfig,
{
    let len = app.config.timezone_presets.len();
    if app.settings_index == 0 {
        let current = preset_index_app(app, app.config.settings.home_timezone.as_str());
        let next = cycle_index(current, len, forward);
        proof {
            if current < len {
                lemma_cycle_index_inverse(current as int, len as int);
            }
        }
        let zone = app.config.timezone_presets[next].zone.clone();
        app.config.settings.home_timezone = zone;
    } else if app.settings_index == 1 {
        let current = precision_index(app.config.settings.display_precision.as_str());
        let next = cycle_index(current, 5, forward);
        proof {
            lemma_cycle_index_inverse(current as int, 5);
        }
        app.config.settings.display_precision = owned(precision_key(next));
    } else if app.settings_index == 2 {
        let current = preset_index_app(app, app.config.settings.default_add_timezone.as_str());
        let next = cycle_index(current, len, forward);
        proof {
            if current < len {
                lemma_cycle_index_inverse(current as int, len as int);
            }
        }
        let zone = app.config.timezone_presets[next].zone.clone();
        app.config.settings.default_add_timezone = zone;
        app.add_tz_index = next;
    } else if app.settings_index == 3 {
        let current = language_index(app.config.settings.language.as_str());
        let next = cycle_index(current, 3, forward);
        proof {
            lemma_cycle_index_inverse(current as int, 3);
        }
        app.config.settings.language = owned(language_code(next));
    }
    Effect::SaveConfig
}

/// The settings: `q`/Esc goes back (saving), Up/`k` and Down/`j` move among the four
/// rows, Left changes the row's setting backwards and Right/Enter forwards (saving).
pub open spec fn settings_key_spec(a: AppView, key: Key) -> (AppView, Effect) {
    match key {
        Key::Esc | Key::Char('q') => (AppView { screen: Screen::Menu, ..a }, Effect::SaveConfig),
        Key::Up | Key::Char('k') => (AppView { settings_index: sat_dec(a.settings_index), ..a }, Effect::Nothing),
        Key::Down | Key::Char('j') => (AppView { settings_index: inc_upto(a.settings_index, 3), ..a }, Effect::Nothing),
        Key::Left => (cycle_setting_spec(a, false), Effect::SaveConfig),
        Key::Right | Key::Enter => (cycle_setting_spec(a, true), Effect::SaveConfig),
        _ => (a, Effect::Nothing),
    }
}

pub fn handle_settings_key(app: &mut App, key: Key) -> (r: Effect)
    requires
        old(app)@.wf(),
        (key == Key::Left || key == Key::Right || key == Key::Enter) ==> cycle_setting_defined(old(app)@),
    ensures
        (final(app)@, r) == settings_key_spec(old(app)@, key),
{
    match key {
        Key::Esc | Key::Char('q') => {
            app.screen = Screen::Menu;
            Effect::SaveConfig
        },
        Key::Up | Key::Char('k') => {
            app.settings_index = app.settings_index.saturating_sub(1);
            Effect::Nothing
        },
        Key::Down | Key::Char('j') => {
            app.settings_index = (app.settings_index + 1).min(3);
            Effect::Nothing
        },
        Key::Left => cycle_setting(app, false),
        Key::Right | Key::Enter => cycle_setting(app, true),
        _ => Effect::Nothing,
    }
}

/// What a key does on the current screen (the id and creation stamp are those a new
/// timer gets, when the key adds one).
pub open spec fn handle_key_spec(a: AppView, key: Key, id: Seq<char>, created: Seq<char>) -> (AppView, Effect) {
    match a.screen {
        Screen::Menu => (menu_key_spec(a, key), Effect::Nothing),
        Screen::TimerList => timer_list_key_spec(a, key),
        Screen::TimerRun => timer_run_key_spec(a, key),
        Screen::Add => add_key_spec(a, key, id, created),
        Screen::Settings => settings_key_spec(a, key),
        Screen::ConfigView => (config_view_key_spec(a, key), Effect::Nothing),
    }
}

/// Whether a key appends a timer.
pub open spec fn key_adds_timer(a: AppView, key: Key) -> bool {
    a.screen == Screen::Add && add_key_adds_timer(a, key)
}

/// Whether a key can be handled: with no zone presets, Right on the
/// add form's zone row and changing a zone setting index past the presets, and saving a
/// fixed-offset target beyond chrono's range, have no defined outcome.
pub open spec fn key_defined(a: AppView, key: Key) -> bool {
    &&& a.screen == Screen::Add ==> add_key_defined(a, key)
    &&& (a.screen == Screen::Settings && (key == Key::Left || key == Key::Right || key
        == Key::Enter)) ==> cycle_setting_defined(a)
}

/// Handles a key on the current screen.
pub fn handle_key(app: &mut App, key: Key) -> (r: Effect)
    requires
        old(app)@.wf(),
        key_defined(old(app)@, key),
    ensures
        key_adds_timer(old(app)@, key) ==> exists|id: Seq<char>, created: Seq<char>|
            is_timer_id(id) && is_clock_stamp(created) && (final(app)@, r) == handle_key_spec(
                old(app)@,
                key,
                id,
                created,
            ),
        !key_adds_timer(old(app)@, key) ==> (final(app)@, r) == handle_key_spec(
            old(app)@,
            key,
            Seq::empty(),
            Seq::empty(),
        ),
{
    match app.screen {
        Screen::Menu => handle_menu_key(app, key),
        Screen::TimerList => handle_timer_list_key(app, key),
        Screen::TimerRun => handle_timer_run_key(app, key),
        Screen::Add => {
            let r = handle_add_key(app, key);
            proof {
                if key_adds_timer(old(app)@, key) {
                    let (id, c) = choose|id: Seq<char>, c: Seq<char>|
                        is_timer_id(id) && is_clock_stamp(c) && (app@, r) == add_key_spec(
                            old(app)@,
                            key,
                            id,
                            c,
                        );
                    assert(handle_key_spec(old(app)@, key, id, c) == add_key_spec(old(app)@, key, id, c));
                }
            }
            r
        },
        Screen::Settings => handle_settings_key(app, key),
        Screen::ConfigView => {
            match key {
                Key::Esc | Key::Char('q') | Key::Enter => app.screen = Screen::Menu,
                _ => {},
            }
            Effect::Nothing
        },
    }
}

/// Whether a key has no defined outcome in this state (see `key_defined`).
pub fn key_would_panic(app: &App, key: Key) -> (r: bool)
    ensures
        r == !key_defined(app@, key),
{
    let n = app.config.timezone_presets.len();
    match app.screen {
        Screen::Add => {
            if key == Key::Right && app.add_field == 2 {
                n == 0
            } else if key == Key::Enter && app.add_field == 4 && app.add_tz_index < n {
                let zone = app.config.timezone_presets[app.add_tz_index].zone.as_str();
                !local_target_resolvable(app.add_target.as_str(), zone)
            } else {
                false
            }
        },
        Screen::Settings => {
            (key == Key::Left || key == Key::Right || key == Key::Enter) && (app.settings_index == 0
                || app.settings_index == 2) && n == 0
        },
        _ => false,
    }
}

/// Handles a key where its outcome is defined (`Some` of the effect); `None`, with the
/// state unchanged, where it is not (see `key_defined`).
pub fn handle_key_checked(app: &mut App, key: Key) -> (r: Option<Effect>)
    requires
        old(app)@.wf(),
    ensures
        r is None <==> !key_defined(old(app)@, key),
        r is None ==> final(app)@ == old(app)@,
        key_adds_timer(old(app)@, key) ==> (r matches Some(e) ==> exists|id: Seq<char>, created: Seq<char>|
            is_timer_id(id) && is_clock_stamp(created) && (final(app)@, e) == handle_key_spec(
                old(app)@,
                key,
                id,
                created,
            )),
        !key_adds_timer(old(app)@, key) ==> (r matches Some(e) ==> (final(app)@, e) == handle_key_spec(
            old(app)@,
            key,
            Seq::empty(),
            Seq::empty(),
        )),
{
    if key_would_panic(app, key) {
        None
    } else {
        Some(handle_key(app, key))
    }
}

impl AppView {
    /// The lengths a real state's vectors can have.
    pub open spec fn valid_lengths(self) -> bool {
        self.config.presets.len() <= usize::MAX && self.config.timers.len() <= usize::MAX
    }
}

/// Every key keeps the cursors within their bounds.
pub proof fn lemma_handle_key_keeps_wf(a: AppView, key: Key, id: Seq<char>, created: Seq<char>)
    requires
        a.wf(),
        a.valid_lengths(),
        key_defined(a, key),
    ensures
        handle_key_spec(a, key, id, created).0.wf(),
{
    let ps = a.config.presets;
    if a.screen == Screen::Settings && a.settings_index == 2 && ps.len() > 0 {
        let cur = preset_position(ps, a.config.settings.default_add_timezone) as int;
        crate::app::lemma_preset_position_bound(ps, a.config.settings.default_add_timezone);
        lemma_cycle_index_inverse(cur, ps.len() as int);
    }
    if a.screen == Screen::TimerRun && a.config.timers.len() > 0 {
        let n = a.config.timers.len() as int;
        if a.timer_index < n {
            lemma_cycle_index_inverse(a.timer_index as int, n);
        } else {
            vstd::arithmetic::div_mod::lemma_mod_bound((a.timer_index + 1) as int, n);
        }
    }
    if a.screen == Screen::TimerRun {
        lemma_cycle_index_inverse(a.digit_font_index as int, 3);
    }
}

/// Keys on the menu, the timer list, the running countdown and the configuration view
/// never change the configuration (a reload replaces it only through the caller).
pub proof fn lemma_navigation_keeps_config(a: AppView, key: Key, id: Seq<char>, created: Seq<char>)
    requires
        a.screen != Screen::Add && a.screen != Screen::Settings,
    ensures
        handle_key_spec(a, key, id, created).0.config == a.config,
{
}

/// On the running countdown, Down then Up (and Up then Down) comes back to the same
/// timer, and Right then Left (and Left then Right) to the same font.
pub proof fn lemma_timer_run_keys_undo(a: AppView, id: Seq<char>, created: Seq<char>)
    requires
        a.screen == Screen::TimerRun,
        a.valid_lengths(),
        a.timer_index < a.config.timers.len(),
        a.digit_font_index < 3,
    ensures
        handle_key_spec(handle_key_spec(a, Key::Down, id, created).0, Key::Up, id, created).0 == a,
        handle_key_spec(handle_key_spec(a, Key::Up, id, created).0, Key::Down, id, created).0 == a,
        handle_key_spec(handle_key_spec(a, Key::Right, id, created).0, Key::Left, id, created).0 == a,
        handle_key_spec(handle_key_spec(a, Key::Left, id, created).0, Key::Right, id, created).0 == a,
{
    lemma_cycle_index_inverse(a.timer_index as int, a.config.timers.len() as int);
    lemma_cycle_index_inverse(a.digit_font_index as int, 3);
}

/// With presets of distinct zones, a zone found at position `k` is found there first.
proof fn lemma_distinct_position(presets: Seq<crate::config::PresetView>, k: int)
    requires
        0 <= k < presets.len(),
        forall|i: int, j: int|
            0 <= i < j < presets.len() ==> (#[trigger] presets[i]).zone != (#[trigger] presets[j]).zone,
    ensures
        preset_position(presets, presets[k].zone) == k,
{
    let z = presets[k].zone;
    lemma_first_match(presets, z, k);
    let p = choose|i: int|
        0 <= i < presets.len() && (#[trigger] presets[i]).zone == z && forall|j: int|
            0 <= j < i ==> (#[trigger] presets[j]).zone != z;
    if p < k {
        assert(presets[p].zone != presets[k].zone);
    } else if p > k {
        assert(presets[k].zone != z);
    }
}

/// In the settings, changing the home or default zone forwards and then backwards (or
/// backwards and then forwards) restores it, when the presets' zones are distinct and the
/// zone is among them (for the default zone, with the add form's cursor on it).
pub proof fn lemma_cycle_zone_undo(a: AppView)
    requires
        a.settings_index == 0 || a.settings_index == 2,
        forall|i: int, j: int|
            0 <= i < j < a.config.presets.len() ==> (#[trigger] a.config.presets[i]).zone
                != (#[trigger] a.config.presets[j]).zone,
        a.settings_index == 0 ==> exists|i: int|
            0 <= i < a.config.presets.len() && (#[trigger] a.config.presets[i]).zone
                == a.config.settings.home_timezone,
        a.settings_index == 2 ==> exists|i: int|
            0 <= i < a.config.presets.len() && (#[trigger] a.config.presets[i]).zone
                == a.config.settings.default_add_timezone,
        a.settings_index == 2 ==> a.add_tz_index == preset_position(
            a.config.presets,
            a.config.settings.default_add_timezone,
        ),
    ensures
        cycle_setting_spec(cycle_setting_spec(a, true), false) == a,
        cycle_setting_spec(cycle_setting_spec(a, false), true) == a,
{
    let ps = a.config.presets;
    let st = a.config.settings;
    let z = if a.settings_index == 0 { st.home_timezone } else { st.default_add_timezone };
    let k = choose|i: int| 0 <= i < ps.len() && (#[trigger] ps[i]).zone == z;
    lemma_distinct_position(ps, k);
    lemma_cycle_index_inverse(k, ps.len() as int);
    let f = cycle_index_spec(k, ps.len() as int, true);
    let b = cycle_index_spec(k, ps.len() as int, false);
    lemma_distinct_position(ps, f);
    lemma_distinct_position(ps, b);
    assert(cycle_setting_spec(cycle_setting_spec(a, true), false).config.settings =~= st);
    assert(cycle_setting_spec(cycle_setting_spec(a, false), true).config.settings =~= st);
}

/// In the settings, changing the precision or the language forwards and then backwards
/// (or backwards and then forwards) restores it, when it was one of the offered choices.
pub proof fn lemma_cycle_setting_undo(a: AppView)
    requires
        a.settings_index == 1 ==> precision_keys().contains(a.config.settings.display_precision),
        a.settings_index == 3 ==> language_codes().contains(a.config.settings.language),
        a.settings_index == 1 || a.settings_index == 3,
    ensures
        cycle_setting_spec(cycle_setting_spec(a, true), false) == a,
        cycle_setting_spec(cycle_setting_spec(a, false), true) == a,
{
    reveal_strlit("minutes");
    reveal_strlit("seconds");
    reveal_strlit("tenths");
    reveal_strlit("hundredths");
    reveal_strlit("milliseconds");
    reveal_strlit("zh");
    reveal_strlit("ja");
    reveal_strlit("en");
    assert("minutes"@.len() == 7 && "seconds"@.len() == 7 && "tenths"@.len() == 6);
    assert("hundredths"@.len() == 10 && "milliseconds"@.len() == 12);
    assert("minutes"@[0] == 'm' && "seconds"@[0] == 's');
    assert("zh"@[0] == 'z' && "ja"@[0] == 'j' && "en"@[0] == 'e');
    let st = a.config.settings;
    if a.settings_index == 1 {
        let k = choose|k: int| 0 <= k < 5 && precision_keys()[k] == st.display_precision;
        assert(precision_position(st.display_precision) == k);
        lemma_cycle_index_inverse(k, 5);
        let f = cycle_index_spec(k, 5, true);
        let b = cycle_index_spec(k, 5, false);
        assert(precision_position(precision_keys()[f]) == f);
        assert(precision_position(precision_keys()[b]) == b);
        assert(cycle_setting_spec(cycle_setting_spec(a, true), false).config.settings =~= st);
        assert(cycle_setting_spec(cycle_setting_spec(a, false), true).config.settings =~= st);
    } else {
        let k = choose|k: int| 0 <= k < 3 && language_codes()[k] == st.language;
        assert(language_position(st.language) == k);
        lemma_cycle_index_inverse(k, 3);
        let f = cycle_index_spec(k, 3, true);
        let b = cycle_index_spec(k, 3, false);
        assert(language_position(language_codes()[f]) == f);
        assert(language_position(language_codes()[b]) == b);
    }
}

/// In the timer list, Up and `k` move the cursor one timer up (staying on the first), and
/// Down and `j` one down (staying on the last): Down then Up comes back to the same timer
/// when it is not the last, Up then Down when it is not the first. Enter runs the timer
/// under the cursor, Esc goes back to the menu, `r` asks for the configuration again.
pub proof fn lemma_timer_list_moves(a: AppView, id: Seq<char>, created: Seq<char>)
    requires
        a.screen == Screen::TimerList,
        a.timer_index < a.config.timers.len(),
        a.config.timers.len() <= usize::MAX,
    ensures
        a.timer_index > 0 ==> handle_key_spec(a, Key::Up, id, created).0.timer_index == a.timer_index - 1,
        a.timer_index > 0 ==> handle_key_spec(a, Key::Char('k'), id, created).0.timer_index == a.timer_index - 1,
        a.timer_index == 0 ==> handle_key_spec(a, Key::Up, id, created).0.timer_index == 0,
        a.timer_index + 1 < a.config.timers.len() ==> handle_key_spec(a, Key::Down, id, created).0.timer_index
            == a.timer_index + 1,
        a.timer_index + 1 < a.config.timers.len() ==> handle_key_spec(a, Key::Char('j'), id, created).0.timer_index
            == a.timer_index + 1,
        a.timer_index + 1 == a.config.timers.len() ==> handle_key_spec(a, Key::Down, id, created).0.timer_index
            == a.timer_index,
        a.timer_index + 1 < a.config.timers.len() ==> handle_key_spec(
            handle_key_spec(a, Key::Down, id, created).0,
            Key::Up,
            id,
            created,
        ).0 == a,
        a.timer_index > 0 ==> handle_key_spec(
            handle_key_spec(a, Key::Up, id, created).0,
            Key::Down,
            id,
            created,
        ).0 == a,
        handle_key_spec(a, Key::Enter, id, created).0 == (AppView { screen: Screen::TimerRun, ..a }),
        handle_key_spec(a, Key::Esc, id, created).0 == (AppView { screen: Screen::Menu, ..a }),
        handle_key_spec(a, Key::Char('r'), id, created) == (a, Effect::ReloadConfig),
{
}

/// On the menu, Up and `k` move to the entry above (staying on the first), Down and `j`
/// to the entry below (staying on the last of the five): Down then Up comes back to the
/// same entry when it is not the last, Up then Down when it is not the first.
pub proof fn lemma_menu_moves(a: AppView, id: Seq<char>, created: Seq<char>)
    requires
        a.screen == Screen::Menu,
        a.menu_index <= 4,
    ensures
        a.menu_index > 0 ==> handle_key_spec(a, Key::Up, id, created).0.menu_index == a.menu_index - 1,
        a.menu_index > 0 ==> handle_key_spec(a, Key::Char('k'), id, created).0.menu_index == a.menu_index - 1,
        a.menu_index < 4 ==> handle_key_spec(a, Key::Down, id, created).0.menu_index == a.menu_index + 1,
        a.menu_index < 4 ==> handle_key_spec(a, Key::Char('j'), id, created).0.menu_index == a.menu_index + 1,
        a.menu_index == 0 ==> handle_key_spec(a, Key::Up, id, created).0.menu_index == 0,
        a.menu_index == 4 ==> handle_key_spec(a, Key::Down, id, created).0.menu_index == 4,
        a.menu_index < 4 ==> handle_key_spec(
            handle_key_spec(a, Key::Down, id, created).0,
            Key::Up,
            id,
            created,
        ).0 == a,
        a.menu_index > 0 ==> handle_key_spec(
            handle_key_spec(a, Key::Up, id, created).0,
            Key::Down,
            id,
            created,
        ).0 == a,
{
}

/// Saving the add form keeps every timer there was: when it adds one, the new list is the
/// old one with exactly one timer after it, carrying the given id, the preset's zone and
/// the form's title and note, the form is emptied, the timer list shown and the
/// configuration to be saved; when it does not, only the message changes.
pub proof fn lemma_save_appends_timer(a: AppView, id: Seq<char>, created: Seq<char>)
    ensures
        adds_timer(a) ==> ({
            let after = save_new_timer_spec(a, id, created).0.config.timers;
            let t = after[after.len() - 1];
            &&& after.len() == a.config.timers.len() + 1
            &&& after.take(a.config.timers.len() as int) == a.config.timers
            &&& t.id == id
            &&& t.created_at == created
            &&& t.timezone == a.config.presets[a.add_tz_index as int].zone
            &&& t.title == new_timer_title(a.add_title)
            &&& t.note == trimmed(a.add_note)
        }),
        adds_timer(a) ==> ({
            let (b, e) = save_new_timer_spec(a, id, created);
            &&& e == Effect::SaveConfig
            &&& b.screen == Screen::TimerList
            &&& b.add_title.len() == 0 && b.add_target.len() == 0 && b.add_note.len() == 0
            &&& b.config.settings.default_add_timezone == a.config.presets[a.add_tz_index as int].zone
            &&& b.config.presets == a.config.presets
        }),
        !adds_timer(a) ==> save_new_timer_spec(a, id, created).0.config == a.config,
        !adds_timer(a) ==> save_new_timer_spec(a, id, created).1 == Effect::Nothing,
        !adds_timer(a) ==> save_new_timer_spec(a, id, created).0 == (AppView {
            message: save_new_timer_spec(a, id, created).0.message,
            ..a
        }),
{
    if adds_timer(a) {
        let after = save_new_timer_spec(a, id, created).0.config.timers;
        assert(after.take(a.config.timers.len() as int) =~= a.config.timers);
    }
}

} // verus!
