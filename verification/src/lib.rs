//! Panel logic of an ASCII battery and brightness applet: the settings model,
//! the message-driven state machine and the text that the panel and the popup show.

pub mod types;
pub mod text;
pub mod config;
pub mod applet;
pub mod panel;
pub mod deck;
pub mod host;
pub mod popup;
pub mod laws;
pub mod ui_laws;
