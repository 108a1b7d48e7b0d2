//! The configuration: settings, time-zone presets and timers.
use vstd::prelude::*;
use crate::i18n::default_language;
use crate::text::str_eq;

verus! {

broadcast use vstd::string::group_string_axioms;

/// The user's settings.
pub struct Settings {
    pub home_timezone: String,
    pub display_precision: String,
    pub default_add_timezone: String,
    pub language: String,
}

/// A named time zone offered when adding a timer.
pub struct TimezonePreset {
    pub label: String,
    pub zone: String,
}

/// A countdown target.
pub struct TimerConfig {
    pub id: String,
    pub title: String,
    /// The target instant in RFC 3339.
    pub target: String,
    pub timezone: String,
    pub note: String,
    pub created_at: String,
}

/// The whole configuration file.
pub struct Config {
    pub version: u8,
    pub settings: Settings,
    pub timezone_presets: Vec<TimezonePreset>,
    pub timers: Vec<TimerConfig>,
}

pub struct SettingsView {
    pub home_timezone: Seq<char>,
    pub display_precision: Seq<char>,
    pub default_add_timezone: Seq<char>,
    pub language: Seq<char>,
}

pub struct PresetView {
    pub label: Seq<char>,
    pub zone: Seq<char>,
}

pub struct TimerView {
    pub id: Seq<char>,
    pub title: Seq<char>,
    pub target: Seq<char>,
    pub timezone: Seq<char>,
    pub note: Seq<char>,
    pub created_at: Seq<char>,
}

pub struct ConfigView {
    pub version: u8,
    pub settings: SettingsView,
    pub presets: Seq<PresetView>,
    pub timers: Seq<TimerView>,
}

impl View for Settings {
    type V = SettingsView;

    open spec fn view(&self) -> SettingsView {
        SettingsView {
            home_timezone: self.home_timezone@,
            display_precision: self.display_precision@,
            default_add_timezone: self.default_add_timezone@,
            language: self.language@,
        }
    }
}

impl View for TimezonePreset {
    type V = PresetView;

    open spec fn view(&self) -> PresetView {
        PresetView { label: self.label@, zone: self.zone@ }
    }
}

impl View for TimerConfig {
    type V = TimerView;

    open spec fn view(&self) -> TimerView {
        TimerView {
            id: self.id@,
            title: self.title@,
            target: self.target@,
            timezone: self.timezone@,
            note: self.note@,
            created_at: self.created_at@,
        }
    }
}

impl View for Config {
    type V = ConfigView;

    open spec fn view(&self) -> ConfigView {
        ConfigView {
            version: self.version,
            settings: self.settings@,
            presets: self.timezone_presets@.map_values(|p: TimezonePreset| p@),
            timers: self.timers@.map_values(|t: TimerConfig| t@),
        }
    }
}

/// The time zones a new configuration offers, as (label, zone name).
pub open spec fn common_timezones() -> Seq<(Seq<char>, Seq<char>)> {
    seq![
        ("AOE / Anywhere on Earth"@, "Etc/GMT+12"@),
        ("UTC"@, "UTC"@),
        ("中国 / Beijing"@, "Asia/Shanghai"@),
        ("日本 / Tokyo"@, "Asia/Tokyo"@),
        ("美国东部 / US Eastern"@, "America/New_York"@),
        ("美国中部 / US Central"@, "America/Chicago"@),
        ("美国山区 / US Mountain"@, "America/Denver"@),
        ("美国西部 / US Pacific"@, "America/Los_Angeles"@),
        ("英国 / London"@, "Europe/London"@),
        ("欧洲中部 / Central Europe"@, "Europe/Paris"@),
    ]
}

fn preset(label: &str, zone: &str) -> (r: TimezonePreset)
    ensures
        r@ == (PresetView { label: label@, zone: zone@ }),
{
    TimezonePreset { label: String::from_str(label), zone: String::from_str(zone) }
}

/// The configuration written on first start: Shanghai time, second precision, Chinese,
/// the common time-zone presets, and no timers.
pub open spec fn default_config_view() -> ConfigView {
    ConfigView {
        version: 2,
        settings: SettingsView {
            home_timezone: "Asia/Shanghai"@,
            display_precision: "seconds"@,
            default_add_timezone: "Asia/Shanghai"@,
            language: "zh"@,
        },
        presets: common_timezones().map_values(
            |p: (Seq<char>, Seq<char>)| PresetView { label: p.0, zone: p.1 },
        ),
        timers: Seq::empty(),
    }
}

pub fn default_config() -> (r: Config)
    ensures
        r@ == default_config_view(),
{
    let mut presets: Vec<TimezonePreset> = Vec::new();
    presets.push(preset("AOE / Anywhere on Earth", "Etc/GMT+12"));
    presets.push(preset("UTC", "UTC"));
    presets.push(preset("中国 / Beijing", "Asia/Shanghai"));
    presets.push(preset("日本 / Tokyo", "Asia/Tokyo"));
    presets.push(preset("美国东部 / US Eastern", "America/New_York"));
    presets.push(preset("美国中部 / US Central", "America/Chicago"));
    presets.push(preset("美国山区 / US Mountain", "America/Denver"));
    presets.push(preset("美国西部 / US Pacific", "America/Los_Angeles"));
    presets.push(preset("英国 / London", "Europe/London"));
    presets.push(preset("欧洲中部 / Central Europe", "Europe/Paris"));
    let r = Config {
        version: 2,
        settings: Settings {
            home_timezone: String::from_str("Asia/Shanghai"),
            display_precision: String::from_str("seconds"),
            default_add_timezone: String::from_str("Asia/Shanghai"),
            language: default_language(),
        },
        timezone_presets: presets,
        timers: Vec::new(),
    };
    assert(r@.presets =~= default_config_view().presets);
    assert(r@.timers =~= Seq::<TimerView>::empty());
    r
}

/// The position of the first preset with the zone, or 0 when none has it.
pub open spec fn preset_position(presets: Seq<PresetView>, zone: Seq<char>) -> nat {
    if exists|i: int| 0 <= i < presets.len() && (#[trigger] presets[i]).zone == zone {
        (choose|i: int|
            0 <= i < presets.len() && (#[trigger] presets[i]).zone == zone && forall|j: int|
                0 <= j < i ==> (#[trigger] presets[j]).zone != zone) as nat
    } else {
        0
    }
}

/// The position of the first preset whose zone is `zone`, or 0.
pub fn preset_index(presets: &Vec<TimezonePreset>, zone: &str) -> (r: usize)
    ensures
        r == preset_position(presets@.map_values(|p: TimezonePreset| p@), zone@),
        r == 0 || r < presets@.len(),
        r < usize::MAX,
{
    let ghost ps = presets@.map_values(|p: TimezonePreset| p@);
    let mut i: usize = 0;
    while i < presets.len()
        invariant
            ps == presets@.map_values(|p: TimezonePreset| p@),
            i <= presets@.len(),
            forall|j: int| 0 <= j < i ==> (#[trigger] ps[j]).zone != zone@,
        decreases presets@.len() - i,
    {
        if str_eq(presets[i].zone.as_str(), zone) {
            assert(ps[i as int].zone == zone@);
            return i;
        }
        i = i + 1;
    }
    proof {
        assert(!exists|k: int| 0 <= k < ps.len() && (#[trigger] ps[k]).zone == zone@);
    }
    0
}

/// The position of the preset for a zone in a configuration (first match, or 0).
pub fn preset_index_config(config: &Config, zone: &str) -> (r: usize)
    ensures
        r == preset_position(config@.presets, zone@),
        r == 0 || r < config@.presets.len(),
        r < usize::MAX,
{
    preset_index(&config.timezone_presets, zone)
}

/// How often the screen is redrawn, in milliseconds: faster for finer precisions.
pub open spec fn refresh_millis(precision: Seq<char>) -> u64 {
    if precision == "milliseconds"@ {
        30
    } else if precision == "hundredths"@ {
        40
    } else if precision == "tenths"@ {
        80
    } else {
        250
    }
}

pub fn refresh_interval(config: &Config) -> (r: u64)
    ensures
        r == refresh_millis(config@.settings.display_precision),
{
    let p = config.settings.display_precision.as_str();
    if str_eq(p, "milliseconds") {
        30
    } else if str_eq(p, "hundredths") {
        40
    } else if str_eq(p, "tenths") {
        80
    } else {
        250
    }
}

} // verus!
