//! The shell's state machine: window visibility, focus and process liveness,
//! and the handlers that the event loop drives.

use vstd::prelude::*;

use crate::events::{BtnPhase, MenuId, MouseBtn, SetupOutcome, StartupStep, TrayEvent, UiAction,
    UiEvent};
use crate::ids::{menu_id_from_str, spec_menu_id_of};

verus! {

/// The whole state the shell's decisions depend on.
///
/// `window_present` and `tray_present` describe the environment: whether the
/// lookup of the main window, respectively of the tray icon, by its fixed
/// identifier succeeds. `menu_attached` records whether tray setup attached
/// the menu and its handlers. `visible` and `focused` are the main window's
/// state, and `running` is false once Quit has terminated the process.
#[derive(Clone, Copy, Debug, PartialEq, Eq, Structural)]
pub struct TrayApp {
    pub window_present: bool,
    pub tray_present: bool,
    pub menu_attached: bool,
    pub visible: bool,
    pub focused: bool,
    pub running: bool,
}

impl TrayApp {
    /// Well-formedness: a window only holds input focus while it is visible,
    /// and a menu is only attached to a tray icon that exists.
    pub open spec fn wf(self) -> bool {
        (self.focused ==> self.visible) && (self.menu_attached ==> self.tray_present)
    }

    /// The state right after bootstrap created the tray icon and before tray
    /// setup ran: the main window exists (bootstrap aborts otherwise), is
    /// visible and focused, and the process is running. Whether the tray
    /// icon lookup will succeed is the environment's `tray_present`.
    pub fn boot_state(tray_present: bool) -> (r: TrayApp)
        ensures
            r == (TrayApp {
                window_present: true,
                tray_present: tray_present,
                menu_attached: false,
                visible: true,
                focused: true,
                running: true,
            }),
            r.wf(),
    {
        TrayApp {
            window_present: true,
            tray_present,
            menu_attached: false,
            visible: true,
            focused: true,
            running: true,
        }
    }
}

/// State after a menu click is dispatched on its identifier. Show makes the
/// window visible and focused, Hide hides it (and with it the focus), Quit
/// ends the process, and an unrecognized identifier changes nothing. Show
/// and Hide are silent no-ops when the window lookup fails, and nothing at
/// all runs once the process has exited.
pub open spec fn spec_menu_state(s: TrayApp, id: MenuId) -> TrayApp {
    if !s.running {
        s
    } else {
        match id {
            MenuId::Show => if s.window_present {
                TrayApp { visible: true, focused: true, ..s }
            } else {
                s
            },
            MenuId::Hide => if s.window_present {
                TrayApp { visible: false, focused: false, ..s }
            } else {
                s
            },
            MenuId::Quit => TrayApp { running: false, ..s },
            MenuId::Other => s,
        }
    }
}

/// The side effect a menu click asks of the framework.
pub open spec fn spec_menu_action(s: TrayApp, id: MenuId) -> UiAction {
    if !s.running {
        UiAction::NoOp
    } else {
        match id {
            MenuId::Show => if s.window_present {
                UiAction::ShowFocus
            } else {
                UiAction::NoOp
            },
            MenuId::Hide => if s.window_present {
                UiAction::HideWin
            } else {
                UiAction::NoOp
            },
            MenuId::Quit => UiAction::ExitProc,
            MenuId::Other => UiAction::NoOp,
        }
    }
}

/// Whether a tray interaction is the completed click that shows the window:
/// the release of the left mouse button.
pub open spec fn spec_is_left_release(ev: TrayEvent) -> bool {
    ev == (TrayEvent::Click { button: MouseBtn::LeftBtn, phase: BtnPhase::ReleaseUp })
}

/// State after an interaction with the tray icon: only a left-button release
/// does anything, and then it shows and focuses the window whatever its
/// prior visibility.
pub open spec fn spec_tray_state(s: TrayApp, ev: TrayEvent) -> TrayApp {
    if s.running && spec_is_left_release(ev) && s.window_present {
        TrayApp { visible: true, focused: true, ..s }
    } else {
        s
    }
}

/// The side effect a tray interaction asks of the framework.
pub open spec fn spec_tray_action(s: TrayApp, ev: TrayEvent) -> UiAction {
    if s.running && spec_is_left_release(ev) && s.window_present {
        UiAction::ShowFocus
    } else {
        UiAction::NoOp
    }
}

/// State after the user asks to close the main window: the close is
/// suppressed and the window is hidden instead, so the process stays alive.
pub open spec fn spec_close_state(s: TrayApp) -> TrayApp {
    if s.running && s.window_present {
        TrayApp { visible: false, focused: false, ..s }
    } else {
        s
    }
}

/// The side effect of a close request: always suppress the native close;
/// hide the window too when its lookup succeeds.
pub open spec fn spec_close_action(s: TrayApp) -> UiAction {
    if !s.running {
        UiAction::NoOp
    } else if s.window_present {
        UiAction::PreventCloseHide
    } else {
        UiAction::PreventCloseOnly
    }
}

/// State after one event, whichever handler it reaches.
pub open spec fn spec_step(s: TrayApp, ev: UiEvent) -> TrayApp {
    match ev {
        UiEvent::MenuClick(id) => spec_menu_state(s, id),
        UiEvent::TrayInteraction(t) => spec_tray_state(s, t),
        UiEvent::CloseRequested => spec_close_state(s),
    }
}

/// The side effect of one event, whichever handler it reaches.
pub open spec fn spec_action(s: TrayApp, ev: UiEvent) -> UiAction {
    match ev {
        UiEvent::MenuClick(id) => spec_menu_action(s, id),
        UiEvent::TrayInteraction(t) => spec_tray_action(s, t),
        UiEvent::CloseRequested => spec_close_action(s),
    }
}

/// State after tray setup: the menu and its handlers are attached exactly
/// when the tray icon's lookup succeeded; nothing else changes.
pub open spec fn spec_setup_state(s: TrayApp) -> TrayApp {
    if s.tray_present {
        TrayApp { menu_attached: true, ..s }
    } else {
        s
    }
}

/// What tray setup reports. It never fails: a missing tray icon only
/// degrades to a diagnostic.
pub open spec fn spec_setup_outcome(s: TrayApp) -> SetupOutcome {
    if s.tray_present {
        SetupOutcome::MenuAttached
    } else {
        SetupOutcome::TrayMissing
    }
}

impl TrayApp {
    /// Attach the tray menu and its handlers. When the tray icon's lookup
    /// fails this degrades to a diagnostic and succeeds anyway: the tray is
    /// optional at this layer, unlike the main window at bootstrap.
    pub fn setup_tray(&mut self) -> (r: SetupOutcome)
        ensures
            *final(self) == spec_setup_state(*old(self)),
            r == spec_setup_outcome(*old(self)),
            old(self).wf() ==> final(self).wf(),
    {
        if self.tray_present {
            self.menu_attached = true;
            SetupOutcome::MenuAttached
        } else {
            SetupOutcome::TrayMissing
        }
    }

    /// Dispatch a tray-menu click on its identifier.
    pub fn handle_menu_event(&mut self, id: MenuId) -> (r: UiAction)
        ensures
            *final(self) == spec_menu_state(*old(self), id),
            r == spec_menu_action(*old(self), id),
            old(self).wf() ==> final(self).wf(),
    {
        if !self.running {
            return UiAction::NoOp;
        }
        match id {
            MenuId::Show => {
                if self.window_present {
                    self.visible = true;
                    self.focused = true;
                    UiAction::ShowFocus
                } else {
                    UiAction::NoOp
                }
            },
            MenuId::Hide => {
                if self.window_present {
                    self.visible = false;
                    self.focused = false;
                    UiAction::HideWin
                } else {
                    UiAction::NoOp
                }
            },
            MenuId::Quit => {
                self.running = false;
                UiAction::ExitProc
            },
            MenuId::Other => UiAction::NoOp,
        }
    }

    /// Dispatch a menu click straight from the identifier string the
    /// framework reports, routed by a case-sensitive exact match.
    pub fn handle_menu_click_ident(&mut self, ident: &str) -> (r: UiAction)
        ensures
            *final(self) == spec_menu_state(*old(self), spec_menu_id_of(ident@)),
            r == spec_menu_action(*old(self), spec_menu_id_of(ident@)),
            old(self).wf() ==> final(self).wf(),
    {
        let id = menu_id_from_str(ident);
        self.handle_menu_event(id)
    }

    /// Handle an interaction with the tray icon itself.
    pub fn handle_tray_event(&mut self, ev: TrayEvent) -> (r: UiAction)
        ensures
            *final(self) == spec_tray_state(*old(self), ev),
            r == spec_tray_action(*old(self), ev),
            old(self).wf() ==> final(self).wf(),
    {
        if !self.running {
            return UiAction::NoOp;
        }
        match ev {
            TrayEvent::Click { button: MouseBtn::LeftBtn, phase: BtnPhase::ReleaseUp } => {
                if self.window_present {
                    self.visible = true;
                    self.focused = true;
                    UiAction::ShowFocus
                } else {
                    UiAction::NoOp
                }
            },
            _ => UiAction::NoOp,
        }
    }

    /// Handle the user's request to close the main window: the close is
    /// suppressed — the window is never destroyed — and the window is hidden
    /// instead, leaving the process reachable through the tray icon.
    pub fn handle_close_requested(&mut self) -> (r: UiAction)
        ensures
            *final(self) == spec_close_state(*old(self)),
            r == spec_close_action(*old(self)),
            old(self).wf() ==> final(self).wf(),
    {
        if !self.running {
            return UiAction::NoOp;
        }
        if self.window_present {
            self.visible = false;
            self.focused = false;
            UiAction::PreventCloseHide
        } else {
            UiAction::PreventCloseOnly
        }
    }

    /// Dispatch one event to its handler.
    pub fn handle_event(&mut self, ev: UiEvent) -> (r: UiAction)
        ensures
            *final(self) == spec_step(*old(self), ev),
            r == spec_action(*old(self), ev),
            old(self).wf() ==> final(self).wf(),
    {
        match ev {
            UiEvent::MenuClick(id) => self.handle_menu_event(id),
            UiEvent::TrayInteraction(t) => self.handle_tray_event(t),
            UiEvent::CloseRequested => self.handle_close_requested(),
        }
    }

    /// Minimize the application to the tray by hiding the main window; a
    /// failed window lookup succeeds as a no-op. A reusable utility, not
    /// wired to any event here.
    pub fn minimize_to_tray(&mut self) -> (r: UiAction)
        ensures
            *final(self) == spec_close_state(*old(self)),
            r == (if old(self).running && old(self).window_present {
                UiAction::HideWin
            } else {
                UiAction::NoOp
            }),
            old(self).wf() ==> final(self).wf(),
    {
        if self.running && self.window_present {
            self.visible = false;
            self.focused = false;
            UiAction::HideWin
        } else {
            UiAction::NoOp
        }
    }
}

/// The one-time bootstrap sequence: install the logging plugin in debug
/// builds only, then create the tray icon, attach its menu and handlers, and
/// register the close-request interception on the main window. The close
/// handler is registered whether or not tray setup found its icon.
pub fn startup_steps(debug_build: bool) -> (r: Vec<StartupStep>)
    ensures
        r@ == (if debug_build {
            seq![StartupStep::InstallLogPlugin, StartupStep::CreateTrayIcon,
                StartupStep::ConfigureTray, StartupStep::RegisterCloseHandler]
        } else {
            seq![StartupStep::CreateTrayIcon, StartupStep::ConfigureTray,
                StartupStep::RegisterCloseHandler]
        }),
{
    let mut steps: Vec<StartupStep> = Vec::new();
    if debug_build {
        steps.push(StartupStep::InstallLogPlugin);
    }
    steps.push(StartupStep::CreateTrayIcon);
    steps.push(StartupStep::ConfigureTray);
    steps.push(StartupStep::RegisterCloseHandler);
    proof {
        if debug_build {
            assert(steps@ =~= seq![StartupStep::InstallLogPlugin, StartupStep::CreateTrayIcon,
                StartupStep::ConfigureTray, StartupStep::RegisterCloseHandler]);
        } else {
            assert(steps@ =~= seq![StartupStep::CreateTrayIcon, StartupStep::ConfigureTray,
                StartupStep::RegisterCloseHandler]);
        }
    }
    steps
}

} // verus!
