# toptimer

A terminal countdown for conference deadlines: timers with a target date-time in a
time-zone preset, shown as large fixed-width digits that scale to the terminal, in
Chinese, Japanese or English, at a precision from minutes down to milliseconds.

The logic is a Verus library under `src/`, each function with a contract proved by Verus:

- `text` — trimming, character replacement and zero-padded number formatting.
- `time` — reading a local target in a zone (through `chrono` and `chrono_tz`), duration
  formatting at each precision, timer ids.
- `i18n` — languages and the interface texts.
- `glyphs` — the three digit fonts, stitching glyphs into lines and scaling them.
- `layout` — centring panels and planning how a countdown is drawn in an area.
- `config` — the configuration, its defaults and the time-zone presets.
- `app` — the interface state and what every key does to it.
- `screens` — the texts each screen shows.

Proof functions named `lemma_*` state what holds across calls: fonts are fixed-size, a
countdown keeps its size while its digits change and fits its area, a formatted duration
has a fixed width, moving a cursor or cycling a setting one way and back restores the
state, and every key keeps the state's bounds.

`app/` is the terminal program around the library: the event loop, drawing with
`ratatui` and `tui-big-text`, and reading and writing `~/.config/toptimer/config.json`
with `serde_json`.
