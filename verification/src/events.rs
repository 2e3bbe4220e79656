//! The events the shell delivers to the state machine and the actions it
//! carries back out to the GUI framework.

use vstd::prelude::*;

verus! {

/// Identifier of a tray-menu entry. Menu identifiers are the sole mechanism
/// that routes a menu click to an action; anything that is not one of the
/// three known entries is `Other` and is handled as a silent no-op.
#[derive(Clone, Copy, Debug, PartialEq, Eq, Structural)]
pub enum MenuId {
    Show,
    Hide,
    Quit,
    Other,
}

/// Mouse button reported with a tray-icon click.
#[derive(Clone, Copy, Debug, PartialEq, Eq, Structural)]
pub enum MouseBtn {
    LeftBtn,
    RightBtn,
    MiddleBtn,
}

/// Phase of a tray-icon click: the press or the release. Only the release
/// of the left button counts as a completed click.
#[derive(Clone, Copy, Debug, PartialEq, Eq, Structural)]
pub enum BtnPhase {
    PressDown,
    ReleaseUp,
}

/// An interaction with the tray icon. Clicks carry their button and phase;
/// every other kind of tray interaction (hover, movement, double click) is
/// `NonClick` and never changes window state.
#[derive(Clone, Copy, Debug, PartialEq, Eq, Structural)]
pub enum TrayEvent {
    Click { button: MouseBtn, phase: BtnPhase },
    NonClick,
}

/// An event dispatched to the shell by the framework's event loop.
#[derive(Clone, Copy, Debug, PartialEq, Eq, Structural)]
pub enum UiEvent {
    /// A click on a tray-menu entry.
    MenuClick(MenuId),
    /// An interaction with the tray icon itself.
    TrayInteraction(TrayEvent),
    /// The user asked to close the main window by its native close affordance.
    CloseRequested,
}

/// The side effect a handler asks the shell to perform on the framework.
#[derive(Clone, Copy, Debug, PartialEq, Eq, Structural)]
pub enum UiAction {
    /// Make the main window visible and give it input focus.
    ShowFocus,
    /// Hide the main window.
    HideWin,
    /// Suppress the native close of the main window, then hide it.
    PreventCloseHide,
    /// Suppress the native close; the window lookup failed, so nothing to hide.
    PreventCloseOnly,
    /// Terminate the process immediately with exit code 0.
    ExitProc,
    /// Do nothing.
    NoOp,
}

/// What tray setup reports: either the menu and its handlers were attached,
/// or the tray icon was absent and setup degraded to a diagnostic. Setup
/// never fails.
#[derive(Clone, Copy, Debug, PartialEq, Eq, Structural)]
pub enum SetupOutcome {
    MenuAttached,
    TrayMissing,
}

/// One step of the one-time bootstrap sequence, in the order the shell must
/// perform them.
#[derive(Clone, Copy, Debug, PartialEq, Eq, Structural)]
pub enum StartupStep {
    /// Install the logging plugin at level Info (debug builds only).
    InstallLogPlugin,
    /// Create the tray icon with its fixed identifier, tooltip and the
    /// application's default icon.
    CreateTrayIcon,
    /// Attach the menu and the tray event handlers.
    ConfigureTray,
    /// Register the close-request interception on the main window.
    RegisterCloseHandler,
}

} // verus!
