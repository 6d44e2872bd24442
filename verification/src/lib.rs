//! Verified client-side logic of the ffchess browser client: UI flow state,
//! the game-state reducer that merges server snapshots with local premoves,
//! and the small parsing and decision helpers around it.

pub mod browser;
pub mod chat;
pub mod clock;
pub mod color;
pub mod cooldown;
pub mod flow;
pub mod ghosts;
pub mod input;
pub mod laws;
pub mod model;
pub mod modes;
pub mod net;
pub mod premoves;
pub mod reducer;
pub mod scoreboard;
pub mod update;
pub mod storage;
pub mod text;
pub mod ui_state;
