//! The logic of a terminal front end for the Music app: themes, player
//! state, fuzzy search, AppleScript text, parsing of script replies and the
//! key-driven browsing state machine.

pub mod theme;
pub mod text;
pub mod fuzzy;
pub mod script;
pub mod player;
pub mod reply;
pub mod rank;
pub mod model;
pub mod keys;
pub mod state;
pub mod events;
pub mod display;
pub mod panels;
pub mod laws;
