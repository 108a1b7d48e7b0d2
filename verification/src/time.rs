//! Dates, time zones and countdown arithmetic.
//!
//! Calendar parsing, time-zone resolution and RFC 3339 output come from `chrono` and
//! `chrono_tz`; the decisions made around those calls (which formats are tried, which
//! zones are fixed offsets, which of two ambiguous offsets is taken, which message an
//! error carries) are verified here.
use vstd::prelude::*;
use crate::glyphs::is_glyph_char;
use crate::text::{
    decimal, lemma_padded_digits, owned, push_char, push_padded, replace_char, replace_char_spec, str_eq, trim,
    trimmed, zero_pad, digits_value, is_digits, lemma_padded_reads_back, lemma_decimal_no_leading_zero,
};
use chrono::{Datelike, Offset, TimeZone, Timelike};

verus! {

broadcast use vstd::string::group_string_axioms;

/// A calendar date and wall-clock time without a zone, as `chrono::NaiveDateTime` holds it.
#[derive(Clone, Copy, Debug, PartialEq, Eq, Structural)]
pub struct NaiveLocal {
    pub year: i32,
    pub month: u32,
    pub day: u32,
    pub hour: u32,
    pub minute: u32,
    pub second: u32,
    /// Nanoseconds; `1_000_000_000` and above mark a leap second (only with `second == 59`).
    pub nanosecond: u32,
}

pub open spec fn is_leap_year(y: int) -> bool {
    y % 4 == 0 && (y % 100 != 0 || y % 400 == 0)
}

pub open spec fn days_in_month(y: int, m: int) -> int {
    if m == 2 {
        if is_leap_year(y) { 29 } else { 28 }
    } else if m == 4 || m == 6 || m == 9 || m == 11 {
        30
    } else {
        31
    }
}

impl NaiveLocal {
    /// The values that `chrono::NaiveDateTime` can represent.
    pub open spec fn is_valid(self) -> bool {
        &&& -262143 <= self.year <= 262142
        &&& 1 <= self.month <= 12
        &&& 1 <= self.day <= days_in_month(self.year as int, self.month as int)
        &&& self.hour < 24
        &&& self.minute < 60
        &&& self.second < 60
        &&& (self.nanosecond < 1_000_000_000 || (self.second == 59 && self.nanosecond
            < 2_000_000_000))
    }
}

/// The offsets (seconds east of UTC) a zone gives a local date-time: none when the
/// local time falls into a gap, two when it falls into an overlap (earlier first).
#[derive(Clone, Copy, Debug, PartialEq, Eq, Structural)]
pub enum LocalOffsets {
    Nonexistent,
    Single(i32),
    Ambiguous(i32, i32),
}

/// A local date-time together with its fixed offset from UTC, in seconds east.
#[derive(Clone, Copy, Debug, PartialEq, Eq, Structural)]
pub struct ZonedDateTime {
    pub local: NaiveLocal,
    pub offset_seconds: i32,
}

/// What `chrono::NaiveDateTime::parse_from_str(s, fmt)` yields.
pub uninterp spec fn naive_datetime_from_str(s: Seq<char>, fmt: Seq<char>) -> Option<NaiveLocal>;

/// What `FixedOffset::east_opt(offset).from_local_datetime(local)` yields, as offsets.
pub uninterp spec fn fixed_local_offsets(local: NaiveLocal, offset: i32) -> LocalOffsets;

/// What `Tz::from_str(zone)` followed by `from_local_datetime(local)` yields, as offsets;
/// `None` when `chrono_tz` knows no zone of that name.
pub uninterp spec fn zone_local_offsets(zone: Seq<char>, local: NaiveLocal) -> Option<LocalOffsets>;

/// The text of `DateTime::<FixedOffset>::to_rfc3339` for a local date-time and offset.
pub uninterp spec fn rfc3339_text(local: NaiveLocal, offset: i32) -> Seq<char>;

/// Calls `chrono::NaiveDateTime::parse_from_str`; the result is named by
/// `naive_datetime_from_str`. A parsed value is a valid `NaiveDateTime`, as chrono's
/// documentation promises of every `NaiveDateTime`.
#[verifier::external_body]
fn naive_parse(s: &str, fmt: &str) -> (r: Option<NaiveLocal>)
    ensures
        r == naive_datetime_from_str(s@, fmt@),
        r matches Some(d) ==> d.is_valid(),
{
    match chrono::NaiveDateTime::parse_from_str(s, fmt) {
        Ok(n) => Some(NaiveLocal {
            year: n.year(),
            month: n.month(),
            day: n.day(),
            hour: n.hour(),
            minute: n.minute(),
            second: n.second(),
            nanosecond: n.nanosecond(),
        }),
        Err(_) => None,
    }
}

/// Calls `FixedOffset::east_opt(offset)` and `TimeZone::from_local_datetime` on it. A
/// fixed offset gives every local time that single offset, unless the UTC instant falls
/// outside chrono's range, in which case there is none (chrono's `impl TimeZone for
/// FixedOffset` and `TimeZone::from_local_datetime`).
#[verifier::external_body]
fn fixed_offset_resolve(local: NaiveLocal, offset: i32) -> (r: LocalOffsets)
    requires
        local.is_valid(),
        -86400 < offset < 86400,
    ensures
        r == fixed_local_offsets(local, offset),
        r == LocalOffsets::Nonexistent || r == LocalOffsets::Single(offset),
{
    let n = chrono::NaiveDate::from_ymd_opt(local.year, local.month, local.day).unwrap()
        .and_hms_nano_opt(local.hour, local.minute, local.second, local.nanosecond).unwrap();
    match chrono::FixedOffset::east_opt(offset).unwrap().from_local_datetime(&n) {
        chrono::LocalResult::None => LocalOffsets::Nonexistent,
        chrono::LocalResult::Single(a) => LocalOffsets::Single(a.offset().local_minus_utc()),
        chrono::LocalResult::Ambiguous(a, b) => LocalOffsets::Ambiguous(
            a.offset().local_minus_utc(), b.offset().local_minus_utc()),
    }
}

/// Calls `Tz::from_str(zone)` (the zone name turned into a `chrono_tz::Tz`) and then
/// `TimeZone::from_local_datetime` on the zone. Every offset a zone yields is an offset
/// that chrono's `FixedOffset` accepts, and the local time exists under that fixed offset
/// too, since chrono builds each result by `checked_sub_offset` of that very offset.
#[verifier::external_body]
fn zone_resolve(zone: &str, local: NaiveLocal) -> (r: Option<LocalOffsets>)
    requires
        local.is_valid(),
    ensures
        r == zone_local_offsets(zone@, local),
        r matches Some(LocalOffsets::Single(o)) ==> -86400 < o < 86400
            && fixed_local_offsets(local, o) == LocalOffsets::Single(o),
        r matches Some(LocalOffsets::Ambiguous(o, p)) ==> -86400 < o < 86400 && -86400 < p < 86400
            && fixed_local_offsets(local, o) == LocalOffsets::Single(o),
{
    let n = chrono::NaiveDate::from_ymd_opt(local.year, local.month, local.day).unwrap()
        .and_hms_nano_opt(local.hour, local.minute, local.second, local.nanosecond).unwrap();
    match zone.parse::<chrono_tz::Tz>() {
        Err(_) => None,
        Ok(tz) => Some(match tz.from_local_datetime(&n) {
            chrono::LocalResult::None => LocalOffsets::Nonexistent,
            chrono::LocalResult::Single(a) => LocalOffsets::Single(a.offset().fix().local_minus_utc()),
            chrono::LocalResult::Ambiguous(a, b) => LocalOffsets::Ambiguous(
                a.offset().fix().local_minus_utc(), b.offset().fix().local_minus_utc()),
        }),
    }
}

/// Calls `DateTime::<FixedOffset>::to_rfc3339` on the date-time that the local time and
/// offset make; the text is named by `rfc3339_text`.
#[verifier::external_body]
fn rfc3339_of(local: NaiveLocal, offset: i32) -> (r: String)
    requires
        local.is_valid(),
        -86400 < offset < 86400,
        fixed_local_offsets(local, offset) == LocalOffsets::Single(offset),
    ensures
        r@ == rfc3339_text(local, offset),
{
    let n = chrono::NaiveDate::from_ymd_opt(local.year, local.month, local.day).unwrap()
        .and_hms_nano_opt(local.hour, local.minute, local.second, local.nanosecond).unwrap();
    chrono::FixedOffset::east_opt(offset).unwrap().from_local_datetime(&n).unwrap().to_rfc3339()
}

/// The input with surrounding whitespace removed and each `'T'` turned into a space, so
/// that `2026-05-05T23:59` reads like `2026-05-05 23:59`.
pub open spec fn normalized_input(input: Seq<char>) -> Seq<char> {
    replace_char_spec(trimmed(input), 'T', ' ')
}

/// The local date-time an input denotes: read with seconds first, then without.
pub open spec fn parsed_local(input: Seq<char>) -> Option<NaiveLocal> {
    let n = normalized_input(input);
    match naive_datetime_from_str(n, "%Y-%m-%d %H:%M:%S"@) {
        Some(d) => Some(d),
        None => naive_datetime_from_str(n, "%Y-%m-%d %H:%M"@),
    }
}

/// The zone name that stands for Anywhere on Earth, twelve hours west of UTC.
pub open spec fn aoe_zone() -> Seq<char> {
    "Etc/GMT+12"@
}

/// The error for input that is no date-time.
pub open spec fn bad_format_message() -> Seq<char> {
    "时间格式用 YYYY-MM-DD HH:MM"@
}

/// The error for a zone name that `chrono_tz` does not know.
pub open spec fn unknown_zone_message(zone: Seq<char>) -> Seq<char> {
    "未知时区: "@ + zone
}

/// The error for a local time that a zone skips.
pub open spec fn skipped_time_message() -> Seq<char> {
    "这个本地时间在所选时区不存在，通常是夏令时跳变导致"@
}

/// Whether `localize` gives a result: the two fixed-offset zones (Anywhere on Earth and
/// UTC) must map the local time into chrono's range.
pub open spec fn localize_defined(naive: NaiveLocal, zone: Seq<char>) -> bool {
    &&& zone == aoe_zone() ==> fixed_local_offsets(naive, -43200i32) == LocalOffsets::Single(-43200i32)
    &&& zone == "UTC"@ ==> fixed_local_offsets(naive, 0i32) == LocalOffsets::Single(0i32)
}

/// A local time in a zone: Anywhere on Earth is UTC-12, `"UTC"` is UTC, any other name
/// is looked up in the time-zone database, where the earlier of two offsets is taken
/// when the local time repeats.
pub open spec fn localize_spec(naive: NaiveLocal, zone: Seq<char>) -> Result<ZonedDateTime, Seq<char>> {
    if zone == aoe_zone() {
        Ok(ZonedDateTime { local: naive, offset_seconds: -43200i32 })
    } else if zone == "UTC"@ {
        Ok(ZonedDateTime { local: naive, offset_seconds: 0i32 })
    } else {
        match zone_local_offsets(zone, naive) {
            None => Err(unknown_zone_message(zone)),
            Some(LocalOffsets::Nonexistent) => Err(skipped_time_message()),
            Some(LocalOffsets::Single(o)) => Ok(ZonedDateTime { local: naive, offset_seconds: o }),
            Some(LocalOffsets::Ambiguous(o, _)) => Ok(ZonedDateTime { local: naive, offset_seconds: o }),
        }
    }
}

/// Pins a local time to a zone.
pub fn localize(naive: NaiveLocal, zone_name: &str) -> (r: Result<ZonedDateTime, String>)
    requires
        naive.is_valid(),
        localize_defined(naive, zone_name@),
    ensures
        match localize_spec(naive, zone_name@) {
            Ok(z) => r == Ok::<ZonedDateTime, String>(z),
            Err(e) => r matches Err(m) && m@ == e,
        },
        r matches Ok(z) ==> -86400 < z.offset_seconds < 86400 && fixed_local_offsets(
            naive,
            z.offset_seconds,
        ) == LocalOffsets::Single(z.offset_seconds),
{
    if str_eq(zone_name, "Etc/GMT+12") {
        let _ = fixed_offset_resolve(naive, -43200i32);
        return Ok(ZonedDateTime { local: naive, offset_seconds: -43200i32 });
    }
    if str_eq(zone_name, "UTC") {
        let _ = fixed_offset_resolve(naive, 0);
        return Ok(ZonedDateTime { local: naive, offset_seconds: 0i32 });
    }
    match zone_resolve(zone_name, naive) {
        None => {
            let mut m = String::from_str("未知时区: ");
            m.append(zone_name);
            Err(m)
        },
        Some(LocalOffsets::Nonexistent) => Err(
            String::from_str("这个本地时间在所选时区不存在，通常是夏令时跳变导致"),
        ),
        Some(LocalOffsets::Single(o)) => Ok(ZonedDateTime { local: naive, offset_seconds: o }),
        Some(LocalOffsets::Ambiguous(o, _)) => Ok(ZonedDateTime { local: naive, offset_seconds: o }),
    }
}

/// Whether `parse_local_target` gives a result for an input and zone (see `localize_defined`).
pub open spec fn local_target_defined(input: Seq<char>, zone: Seq<char>) -> bool {
    parsed_local(input) matches Some(n) ==> localize_defined(n, zone)
}

/// The RFC 3339 text of a target typed as a local time in a zone, or the error shown.
pub open spec fn local_target_spec(input: Seq<char>, zone: Seq<char>) -> Result<Seq<char>, Seq<char>> {
    match parsed_local(input) {
        None => Err(bad_format_message()),
        Some(n) => match localize_spec(n, zone) {
            Err(e) => Err(e),
            Ok(z) => Ok(rfc3339_text(z.local, z.offset_seconds)),
        },
    }
}

/// Reads the local date-time an input denotes.
fn parse_local_input(input: &str) -> (r: Option<NaiveLocal>)
    ensures
        r == parsed_local(input@),
        r matches Some(d) ==> d.is_valid(),
{
    let normalized = replace_char(trim(input), 'T', ' ');
    match naive_parse(normalized.as_str(), "%Y-%m-%d %H:%M:%S") {
        Some(d) => Some(d),
        None => naive_parse(normalized.as_str(), "%Y-%m-%d %H:%M"),
    }
}

/// Reads a target typed as `YYYY-MM-DD HH:MM[:SS]` in a zone and gives it as RFC 3339 text.
pub fn parse_local_target(input: &str, zone_name: &str) -> (r: Result<String, String>)
    requires
        local_target_defined(input@, zone_name@),
    ensures
        match local_target_spec(input@, zone_name@) {
            Ok(t) => r matches Ok(s) && s@ == t,
            Err(e) => r matches Err(m) && m@ == e,
        },
{
    let naive = match parse_local_input(input) {
        Some(d) => d,
        None => return Err(String::from_str("时间格式用 YYYY-MM-DD HH:MM")),
    };
    let dt = match localize(naive, zone_name) {
        Ok(z) => z,
        Err(e) => return Err(e),
    };
    Ok(rfc3339_of(dt.local, dt.offset_seconds))
}

/// Whether `parse_local_target` gives a result; it has none for a fixed-offset target
/// beyond chrono's range of years, where resolving it would panic.
pub fn local_target_resolvable(input: &str, zone_name: &str) -> (r: bool)
    ensures
        r == local_target_defined(input@, zone_name@),
{
    proof {
        reveal_strlit("Etc/GMT+12");
        reveal_strlit("UTC");
        assert("Etc/GMT+12"@.len() == 10);
        assert("UTC"@.len() == 3);
    }
    match parse_local_input(input) {
        None => true,
        Some(n) => {
            if str_eq(zone_name, "Etc/GMT+12") {
                let b = fixed_offset_resolve(n, -43200i32) == LocalOffsets::Single(-43200i32);
                assert(b == (fixed_local_offsets(n, -43200i32) == LocalOffsets::Single(-43200i32)));
                b
            } else if str_eq(zone_name, "UTC") {
                let b = fixed_offset_resolve(n, 0) == LocalOffsets::Single(0i32);
                assert(b == (fixed_local_offsets(n, 0i32) == LocalOffsets::Single(0i32)));
                b
            } else {
                true
            }
        },
    }
}

/// `parse_local_target` where it gives a result; `None` where it does not.
pub fn try_parse_local_target(input: &str, zone_name: &str) -> (r: Option<Result<String, String>>)
    ensures
        r is None <==> !local_target_defined(input@, zone_name@),
        r matches Some(res) ==> match local_target_spec(input@, zone_name@) {
            Ok(t) => res matches Ok(s) && s@ == t,
            Err(e) => res matches Err(m) && m@ == e,
        },
{
    if local_target_resolvable(input, zone_name) {
        Some(parse_local_target(input, zone_name))
    } else {
        None
    }
}

/// The text of a remaining time: `HH:MM` for `"minutes"`, `HH:MM:SS.d`, `HH:MM:SS.dd`
/// and `HH:MM:SS.ddd` for `"tenths"`, `"hundredths"` and `"milliseconds"`, and
/// `HH:MM:SS` for any other precision. Negative times count as zero; the hours are not
/// wrapped into days.
pub open spec fn duration_text(millis: int, precision: Seq<char>) -> Seq<char> {
    let ms = if millis > 0 { millis } else { 0 };
    let total = ms / 1000;
    let h = total / 3600;
    let m = (total % 3600) / 60;
    let sec = total % 60;
    let hm = zero_pad(decimal(h as nat), 2) + seq![':'] + zero_pad(decimal(m as nat), 2);
    let hms = hm + seq![':'] + zero_pad(decimal(sec as nat), 2);
    if precision == "minutes"@ {
        hm
    } else if precision == "tenths"@ {
        hms + seq!['.'] + decimal(((ms % 1000) / 100) as nat)
    } else if precision == "hundredths"@ {
        hms + seq!['.'] + zero_pad(decimal(((ms % 1000) / 10) as nat), 2)
    } else if precision == "milliseconds"@ {
        hms + seq!['.'] + zero_pad(decimal((ms % 1000) as nat), 3)
    } else {
        hms
    }
}

/// Formats a remaining time, given in milliseconds, at a display precision.
pub fn format_duration(millis: i64, precision: &str) -> (r: String)
    ensures
        r@ == duration_text(millis as int, precision@),
{
    let ms: u64 = if millis > 0 { millis as u64 } else { 0 };
    let total = ms / 1000;
    let hours = total / 3600;
    let minutes = (total % 3600) / 60;
    let seconds = total % 60;
    let mut out = String::new();
    push_padded(&mut out, hours, 2);
    push_char(&mut out, ':');
    push_padded(&mut out, minutes, 2);
    let ghost hm = out@;
    if str_eq(precision, "minutes") {
        return out;
    }
    push_char(&mut out, ':');
    push_padded(&mut out, seconds, 2);
    if str_eq(precision, "tenths") {
        push_char(&mut out, '.');
        push_padded(&mut out, (ms % 1000) / 100, 1);
        proof {
            lemma_decimal_nonempty(((ms % 1000) / 100) as nat);
        }
    } else if str_eq(precision, "hundredths") {
        push_char(&mut out, '.');
        push_padded(&mut out, (ms % 1000) / 10, 2);
    } else if str_eq(precision, "milliseconds") {
        push_char(&mut out, '.');
        push_padded(&mut out, ms % 1000, 3);
    }
    out
}

proof fn lemma_decimal_nonempty(n: nat)
    ensures
        decimal(n).len() >= 1,
        zero_pad(decimal(n), 1) == decimal(n),
    decreases n,
{
    if n >= 10 {
        lemma_decimal_nonempty(n / 10);
    }
}

/// The number of characters of a countdown at a precision (while under 100 hours).
pub open spec fn precision_width(precision: Seq<char>) -> nat {
    if precision == "minutes"@ {
        5
    } else if precision == "tenths"@ {
        10
    } else if precision == "hundredths"@ {
        11
    } else if precision == "milliseconds"@ {
        12
    } else {
        8
    }
}

/// Countdown text does not jitter: under 100 hours its length depends on the precision
/// alone, and it is made only of digits, `':'` and `'.'`, which every digit font draws.
pub proof fn lemma_duration_text_fixed_width(millis: int, precision: Seq<char>)
    requires
        millis < 100 * 3600 * 1000,
    ensures
        duration_text(millis, precision).len() == precision_width(precision),
        forall|i: int| 0 <= i < duration_text(millis, precision).len() ==> is_glyph_char(
            #[trigger] duration_text(millis, precision)[i],
        ),
{
    let ms = if millis > 0 { millis } else { 0 };
    let total = ms / 1000;
    let h = total / 3600;
    let m = (total % 3600) / 60;
    let sec = total % 60;
    assert(h < 100);
    reveal_with_fuel(crate::text::pow10, 4);
    lemma_padded_digits(h as nat, 2);
    lemma_padded_digits(m as nat, 2);
    lemma_padded_digits(sec as nat, 2);
    lemma_padded_digits(((ms % 1000) / 100) as nat, 1);
    lemma_padded_digits(((ms % 1000) / 10) as nat, 2);
    lemma_padded_digits((ms % 1000) as nat, 3);
    lemma_decimal_nonempty(((ms % 1000) / 100) as nat);
}

/// Whether `t[a..b]` is a run of decimal digits that reads as `v`.
pub open spec fn reads_as(t: Seq<char>, a: int, b: int, v: int) -> bool {
    &&& 0 <= a <= b <= t.len()
    &&& is_digits(t.subrange(a, b))
    &&& digits_value(t.subrange(a, b)) == v
}

/// Whether a countdown text, whose first `':'` is at `i`, reads as `ms` milliseconds at
/// the precision: the hours, however many, before `i`; then the minutes and, below minute
/// precision, the seconds in two digits each, after a `':'`; then `'.'` and the tenths,
/// hundredths or milliseconds of the second.
pub open spec fn reads_as_time(t: Seq<char>, i: int, ms: int, precision: Seq<char>) -> bool {
    &&& 2 <= i < t.len()
    &&& (i == 2 || t[0] != '0')
    &&& reads_as(t, 0, i, ms / 3_600_000)
    &&& t[i] == ':'
    &&& reads_as(t, i + 1, i + 3, ms / 60_000 % 60)
    &&& precision == "minutes"@ ==> t.len() == i + 3
    &&& precision != "minutes"@ ==> {
        &&& i + 3 < t.len()
        &&& t[i + 3] == ':'
        &&& reads_as(t, i + 4, i + 6, ms / 1000 % 60)
    }
    &&& precision == "tenths"@ ==> t.len() == i + 8 && t[i + 6] == '.' && reads_as(t, i + 7, i + 8, ms % 1000 / 100)
    &&& precision == "hundredths"@ ==> t.len() == i + 9 && t[i + 6] == '.' && reads_as(t, i + 7, i + 9, ms % 1000 / 10)
    &&& precision == "milliseconds"@ ==> t.len() == i + 10 && t[i + 6] == '.' && reads_as(t, i + 7, i + 10, ms % 1000)
    &&& (precision != "minutes"@ && precision != "tenths"@ && precision != "hundredths"@
        && precision != "milliseconds"@) ==> t.len() == i + 6
}

/// A countdown text reads back as the time left (zero when it is past): its hour field is
/// the whole number of hours left, however many, in two digits or more without a
/// leading zero, followed by the minutes, seconds and
/// fraction of the current hour, minute and second that the precision shows.
#[verifier::rlimit(50)]
pub proof fn lemma_duration_text_reads_back(millis: int, precision: Seq<char>)
    ensures
        millis >= 0 ==> exists|i: int| #[trigger] reads_as_time(duration_text(millis, precision), i, millis, precision),
        millis < 0 ==> exists|i: int| #[trigger] reads_as_time(duration_text(millis, precision), i, 0, precision),
{
    let ms = if millis > 0 { millis } else { 0 };
    let t = duration_text(millis, precision);
    let total = ms / 1000;
    let h = total / 3600;
    let m = (total % 3600) / 60;
    let sec = total % 60;
    vstd::arithmetic::div_mod::lemma_div_denominator(ms, 1000, 3600);
    vstd::arithmetic::div_mod::lemma_div_denominator(ms, 1000, 60);
    vstd::arithmetic::div_mod::lemma_mod_breakdown(total, 60, 60);
    assert(m == (total / 60) % 60);
    reveal_with_fuel(crate::text::pow10, 4);
    let hp = zero_pad(decimal(h as nat), 2);
    let mp = zero_pad(decimal(m as nat), 2);
    let sp = zero_pad(decimal(sec as nat), 2);
    lemma_padded_reads_back(h as nat, 2);
    lemma_padded_reads_back(m as nat, 2);
    lemma_padded_reads_back(sec as nat, 2);
    lemma_padded_digits(m as nat, 2);
    lemma_padded_digits(sec as nat, 2);
    let i = hp.len() as int;
    let hm = hp + seq![':'] + mp;
    let hms = hm + seq![':'] + sp;
    let f1 = zero_pad(decimal((ms % 1000 / 100) as nat), 1);
    let f2 = zero_pad(decimal((ms % 1000 / 10) as nat), 2);
    let f3 = zero_pad(decimal((ms % 1000) as nat), 3);
    lemma_padded_reads_back((ms % 1000 / 100) as nat, 1);
    lemma_padded_reads_back((ms % 1000 / 10) as nat, 2);
    lemma_padded_reads_back((ms % 1000) as nat, 3);
    lemma_padded_digits((ms % 1000 / 100) as nat, 1);
    lemma_padded_digits((ms % 1000 / 10) as nat, 2);
    lemma_padded_digits((ms % 1000) as nat, 3);
    assert(hm.subrange(0, i) =~= hp);
    assert(hm.subrange(i + 1, i + 3) =~= mp);
    assert(hms.subrange(0, i) =~= hp);
    assert(hms.subrange(i + 1, i + 3) =~= mp);
    assert(hms.subrange(i + 4, i + 6) =~= sp);
    if precision == "minutes"@ {
        assert(t == hm);
    } else if precision == "tenths"@ {
        assert(t == hms + seq!['.'] + f1);
        assert(t.subrange(0, i + 6) =~= hms);
        assert(t.subrange(i + 7, i + 8) =~= f1);
    } else if precision == "hundredths"@ {
        assert(t == hms + seq!['.'] + f2);
        assert(t.subrange(0, i + 6) =~= hms);
        assert(t.subrange(i + 7, i + 9) =~= f2);
    } else if precision == "milliseconds"@ {
        assert(t == hms + seq!['.'] + f3);
        assert(t.subrange(0, i + 6) =~= hms);
        assert(t.subrange(i + 7, i + 10) =~= f3);
    } else {
        assert(t == hms);
    }
    assert(t.subrange(0, i) =~= hp);
    assert(t.subrange(i + 1, i + 3) =~= mp);
    if precision != "minutes"@ {
        assert(t.subrange(i + 4, i + 6) =~= sp);
    }
    assert(h == ms / 3_600_000);
    assert(m == ms / 60_000 % 60);
    assert(sec == ms / 1000 % 60);
    assert(reads_as(t, 0, i, ms / 3_600_000));
    assert(t[i] == ':');
    assert(reads_as(t, i + 1, i + 3, ms / 60_000 % 60));
    if precision != "minutes"@ {
        assert(t[i + 3] == ':');
        assert(reads_as(t, i + 4, i + 6, ms / 1000 % 60));
    }
    assert(2 <= i < t.len());
    lemma_decimal_no_leading_zero(h as nat);
    assert(i == 2 || t[0] != '0') by {
        if i != 2 {
            assert(hp == decimal(h as nat));
            assert(t[0] == t.subrange(0, i)[0]);
        }
    }
    reveal_strlit("minutes");
    reveal_strlit("tenths");
    reveal_strlit("hundredths");
    reveal_strlit("milliseconds");
    assert("minutes"@.len() == 7 && "tenths"@.len() == 6);
    assert("hundredths"@.len() == 10 && "milliseconds"@.len() == 12);
    if precision == "minutes"@ {
        assert(t.len() == i + 3);
    } else if precision == "tenths"@ {
        assert(t.len() == i + 8 && t[i + 6] == '.');
        assert(reads_as(t, i + 7, i + 8, ms % 1000 / 100));
    } else if precision == "hundredths"@ {
        assert(t.len() == i + 9 && t[i + 6] == '.');
        assert(reads_as(t, i + 7, i + 9, ms % 1000 / 10));
    } else if precision == "milliseconds"@ {
        assert(t.len() == i + 10 && t[i + 6] == '.');
        assert(reads_as(t, i + 7, i + 10, ms % 1000));
    } else {
        assert(t.len() == i + 6);
    }
    assert(reads_as_time(t, i, ms, precision));
}

/// An instant in UTC, as `chrono::DateTime<Utc>` holds it: seconds since the Unix epoch
/// and the nanoseconds past that second (`1_000_000_000` and above during a leap second).
#[derive(Clone, Copy, Debug, PartialEq, Eq, Structural)]
pub struct UtcInstant {
    pub secs: i64,
    pub nanos: u32,
}

#[verifier::external_type_specification]
#[verifier::external_body]
pub struct ExParseError(chrono::ParseError);

/// Whether `DateTime::<Utc>::from_timestamp(secs, nanos)` gives an instant.
pub uninterp spec fn utc_instant_ok(i: UtcInstant) -> bool;

/// What `DateTime::parse_from_rfc3339` yields for a text, as a UTC instant.
pub uninterp spec fn rfc3339_instant(s: Seq<char>) -> Option<UtcInstant>;

/// What `DateTime::to_rfc3339` writes for a UTC instant.
pub uninterp spec fn utc_rfc3339_text(i: UtcInstant) -> Seq<char>;

/// What `(later - earlier).num_milliseconds()` yields for two UTC instants.
pub uninterp spec fn millis_from_to(later: UtcInstant, earlier: UtcInstant) -> i64;

/// Calls `DateTime::parse_from_rfc3339`; the instant (what `with_timezone(&Utc)` keeps of
/// it: its timestamp and sub-second nanoseconds) is named by `rfc3339_instant`. An
/// instant read from a `DateTime` converts back with `from_timestamp`.
#[verifier::external_body]
pub(crate) fn parse_rfc3339_utc(s: &str) -> (r: Result<UtcInstant, chrono::ParseError>)
    ensures
        match r {
            Ok(i) => rfc3339_instant(s@) == Some(i) && utc_instant_ok(i),
            Err(_) => rfc3339_instant(s@) is None,
        },
{
    match chrono::DateTime::parse_from_rfc3339(s) {
        Ok(dt) => Ok(UtcInstant { secs: dt.timestamp(), nanos: dt.timestamp_subsec_nanos() }),
        Err(e) => Err(e),
    }
}

/// Calls `Utc::now`. Of the instant nothing is promised but that it converts back with
/// `from_timestamp`: it is the clock's.
#[verifier::external_body]
pub(crate) fn utc_now() -> (r: UtcInstant)
    ensures
        utc_instant_ok(r),
{
    let now = chrono::Utc::now();
    UtcInstant { secs: now.timestamp(), nanos: now.timestamp_subsec_nanos() }
}

/// Calls `DateTime::to_rfc3339` on the instant that `from_timestamp` rebuilds; the text
/// is named by `utc_rfc3339_text`.
#[verifier::external_body]
fn utc_to_rfc3339(i: UtcInstant) -> (r: String)
    requires
        utc_instant_ok(i),
    ensures
        r@ == utc_rfc3339_text(i),
{
    chrono::DateTime::from_timestamp(i.secs, i.nanos).unwrap().to_rfc3339()
}

/// Calls `DateTime::timestamp_nanos_opt` on the instant that `from_timestamp` rebuilds:
/// when it gives a number, that is the instant in nanoseconds since the epoch. When it
/// gives none (an instant too far from 1970 for an `i64`) is left unstated.
#[verifier::external_body]
fn utc_timestamp_nanos(i: UtcInstant) -> (r: Option<i64>)
    requires
        utc_instant_ok(i),
    ensures
        r matches Some(n) ==> n == i.secs * 1_000_000_000 + i.nanos,
{
    chrono::DateTime::from_timestamp(i.secs, i.nanos).unwrap().timestamp_nanos_opt()
}

/// Calls `DateTime - DateTime` and `TimeDelta::num_milliseconds` on the instants that
/// `from_timestamp` rebuilds; the number is named by `millis_from_to`.
#[verifier::external_body]
pub(crate) fn millis_between(later: UtcInstant, earlier: UtcInstant) -> (r: i64)
    requires
        utc_instant_ok(later),
        utc_instant_ok(earlier),
    ensures
        r == millis_from_to(later, earlier),
{
    let a = chrono::DateTime::from_timestamp(later.secs, later.nanos).unwrap();
    let b = chrono::DateTime::from_timestamp(earlier.secs, earlier.nanos).unwrap();
    (a - b).num_milliseconds()
}

/// The creation stamp of a timer made now: the clock's instant in RFC 3339.
pub fn now_rfc3339() -> (r: String)
    ensures
        exists|i: UtcInstant| utc_instant_ok(i) && r@ == utc_rfc3339_text(i),
{
    let now = utc_now();
    utc_to_rfc3339(now)
}

/// The lowercase hexadecimal digit of `d < 16`.
pub open spec fn hex_char(d: nat) -> char {
    if d < 10 {
        crate::text::digit_char(d)
    } else if d == 10 { 'a' } else if d == 11 { 'b' } else if d == 12 { 'c' } else if d == 13 {
        'd'
    } else if d == 14 { 'e' } else { 'f' }
}

/// The lowercase hexadecimal notation of `v`, most significant digit first (`{:x}`).
pub open spec fn lower_hex(v: nat) -> Seq<char>
    decreases v,
{
    if v < 16 {
        seq![hex_char(v)]
    } else {
        lower_hex(v / 16).push(hex_char(v % 16))
    }
}

/// A timer id from a nanosecond timestamp: the last ten hexadecimal digits of the
/// timestamp (a negative one read as its two's complement), least significant first.
pub open spec fn short_id_text(nanos: i64) -> Seq<char> {
    let h = lower_hex((nanos as u64) as nat).reverse();
    if h.len() <= 10 { h } else { h.take(10) }
}

fn hex_exec(d: u64) -> (c: char)
    requires
        d < 16,
    ensures
        c == hex_char(d as nat),
{
    if d < 10 {
        if d == 0 { '0' } else if d == 1 { '1' } else if d == 2 { '2' } else if d == 3 { '3' }
        else if d == 4 { '4' } else if d == 5 { '5' } else if d == 6 { '6' } else if d == 7 { '7' }
        else if d == 8 { '8' } else { '9' }
    } else if d == 10 { 'a' } else if d == 11 { 'b' } else if d == 12 { 'c' } else if d == 13 {
        'd'
    } else if d == 14 { 'e' } else { 'f' }
}

/// The digits of `lower_hex(v)` from the least significant: the last digit, then the
/// notation of `v / 16` reversed.
proof fn lemma_lower_hex_reverse(v: nat)
    ensures
        v >= 16 ==> lower_hex(v).reverse() == seq![hex_char(v % 16)] + lower_hex(v / 16).reverse(),
        v < 16 ==> lower_hex(v).reverse() == seq![hex_char(v)],
{
    if v >= 16 {
        let a = lower_hex(v / 16);
        assert(a.push(hex_char(v % 16)).reverse() =~= seq![hex_char(v % 16)] + a.reverse());
    } else {
        assert(seq![hex_char(v)].reverse() =~= seq![hex_char(v)]);
    }
}

/// The id a timer gets from a nanosecond timestamp.
pub fn short_id_from_nanos(nanos: i64) -> (r: String)
    ensures
        r@ == short_id_text(nanos),
{
    let mut v: u64 = nanos as u64;
    let mut out = String::new();
    let ghost full = lower_hex(v as nat).reverse();
    proof {
        lemma_lower_hex_reverse(v as nat);
    }
    push_char(&mut out, hex_exec(v % 16));
    let mut count: usize = 1;
    while v >= 16 && count < 10
        invariant
            full == lower_hex((nanos as u64) as nat).reverse(),
            1 <= count <= 10,
            out@.len() == count,
            out@ + lower_hex(v as nat).reverse().skip(1) == full,
            lower_hex(v as nat).reverse()[0] == hex_char((v % 16) as nat),
            count + lower_hex(v as nat).reverse().len() - 1 == full.len(),
        decreases v,
    {
        proof {
            lemma_lower_hex_reverse(v as nat);
            lemma_lower_hex_reverse((v / 16) as nat);
            let r = lower_hex(v as nat).reverse();
            assert(r.skip(1) =~= lower_hex((v / 16) as nat).reverse());
        }
        v = v / 16;
        push_char(&mut out, hex_exec(v % 16));
        count = count + 1;
        proof {
            let r = lower_hex(v as nat).reverse();
            assert(out@ + r.skip(1) =~= full);
        }
    }
    proof {
        lemma_lower_hex_reverse(v as nat);
        if count < 10 {
            assert(v < 16);
            assert(out@ =~= full);
        } else {
            assert(out@ =~= full.take(10));
        }
    }
    out
}

/// A fresh timer id, from the current time; the same digits as `short_id_from_nanos` of
/// the clock's nanosecond timestamp (0 when the clock is beyond what that can hold).
pub fn short_id() -> (r: String)
    ensures
        exists|nanos: i64| r@ == short_id_text(nanos),
{
    let now = utc_now();
    let nanos = match utc_timestamp_nanos(now) {
        Some(n) => n,
        None => 0,
    };
    let r = short_id_from_nanos(nanos);
    r
}

} // verus!
