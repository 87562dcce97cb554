//! A browser for a conference schedule: the talks of each day, the state of
//! the screen that shows them, and what the screen draws.

pub mod devoxx;
pub mod text;
pub mod ui;
