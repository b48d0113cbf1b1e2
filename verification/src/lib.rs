//! Core logic of a desktop system-tray controller: the tray mode state
//! machine, the tray menu description, and the routing of menu and icon
//! events to window, tray and process commands.
//!
//! The host windowing layer (tray, windows, UI event channel, process exit)
//! performs the commands this library computes; it lives outside the library.

pub mod commands;
pub mod menu;
pub mod payload;
pub mod router;
pub mod state_cell;
pub mod tray_state;
