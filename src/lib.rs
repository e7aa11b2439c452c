//! Deterministic input synchronisation for a fixed-rate arcade match:
//! edge-tracked buttons, per-team input collection, a bit-packed wire form,
//! fixed-step and networked session runners, LAN matchmaking, and the menu
//! state machines that lead into a match.

pub mod press;
pub mod slot;
pub mod play_input;
pub mod dense;
pub mod events;
pub mod collection;
pub mod session;
pub mod matchmaking;
pub mod local_input;
pub mod menus;
pub mod scene;
pub mod team_select;
pub mod menu_flow;
pub mod play_flow;
