//! Decision logic of the fesTerm terminal application.
pub mod about;
pub mod app;
pub mod chips;
pub mod chrome;
pub mod clipboard;
pub mod commands;
pub mod configuration;
pub mod confirmations;
pub mod credentials;
pub mod diagnostics;
pub mod dialogs;
pub mod effects;
pub mod file_drop;
pub mod forwards;
pub mod frame;
pub mod host_keys;
pub mod input;
pub mod menu;
pub mod overlays;
pub mod palette;
pub mod paste;
pub mod profiles;
pub mod rendering;
pub mod routing;
pub mod saves;
pub mod search;
pub mod sequence;
pub mod settle;
pub mod shortcuts;
pub mod state;
pub mod status;
pub mod text;
pub mod windows;
pub mod workspace;
