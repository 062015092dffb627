//! Decision core of a desktop-assistant shell.
//!
//! The shell wires a webview UI to OS facilities: a system tray, global
//! keyboard shortcuts, and two named windows ("overlay" and "main").  This
//! crate holds everything the shell decides or computes — window-anchor
//! geometry, the visibility state machine, the static menu and shortcut
//! tables, and the dispatch of tray/menu/hotkey events — verified against
//! contracts.  The OS calls themselves (showing a window, emitting a bus
//! event, opening a browser) are performed by a thin unverified layer that
//! feeds observed window state in and carries the decided effects out.

pub mod dispatch;
pub mod shortcuts;
pub mod state;
pub mod tray;
pub mod window;
