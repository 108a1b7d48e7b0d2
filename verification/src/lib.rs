//! Toptimer: a countdown timer for conference deadlines.
pub mod text;
pub mod time;
pub mod i18n;
pub mod glyphs;
pub mod layout;
pub mod config;
pub mod app;
pub mod screens;
