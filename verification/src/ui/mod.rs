//! The browser: its state, its keys and what it shows.

pub mod app;
pub mod screen;
