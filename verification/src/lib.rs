//! Verified core of the jolt battery and energy monitor.

pub mod text;
pub mod text_parse;
pub mod app;
pub mod battery_parse;
pub mod builtin_themes;
pub mod config;
pub mod daemon;
pub mod data;
pub mod input;
pub mod iterm2;
pub mod platform;
pub mod pmset_parse;
pub mod processes;
pub mod protocol;
pub mod smc;
pub mod sorting;
pub mod sysfs;
pub mod theme;
pub mod ui_format;
pub mod ui_panels;
pub mod ui_utils;
pub mod ui_widgets;
