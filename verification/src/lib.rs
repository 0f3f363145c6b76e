//! Core of a terminal pager: deciding whether input fits on the screen,
//! parsing ANSI-styled bytes into lines, a scroll-position state machine,
//! event classification, and windowed rendering of the visible slice.

pub mod event;
pub mod render;
pub mod size;
pub mod state;
pub mod styled;
