//! Desktop shell logic for the Nova Hub tray icon: the window-visibility
//! state machine behind the tray menu (Show / Hide / Quit), the tray-icon
//! click handling, and the interception of the main window's close request.
//!
//! The GUI framework owns the event loop, the windows and the tray icon
//! itself; this crate owns every decision those event handlers make. A thin
//! unverified shell feeds events in and carries the returned actions out.

pub mod events;
pub mod ids;
pub mod laws;
pub mod state;
