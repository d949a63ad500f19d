//! A terminal typing-speed game: the verified core of word generation,
//! keystroke handling, scoring rules, menu/settings navigation and layout.

pub mod app;
pub mod config;
pub mod game;
pub mod help;
pub mod history;
pub mod input;
pub mod laws;
pub mod layout;
pub mod generate;
pub mod menu;
pub mod menu_view;
pub mod modes;
pub mod overlays;
pub mod play;
pub mod rng;
pub mod settings_screen;
pub mod sound;
pub mod text;
pub mod theme;
pub mod view;
pub mod words;
pub mod words_text;
