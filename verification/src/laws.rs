//! The behavioural laws of the shell, each proved from the step functions
//! that the handlers' contracts are stated over.

use vstd::prelude::*;

use crate::events::{BtnPhase, MenuId, MouseBtn, SetupOutcome, TrayEvent, UiAction, UiEvent};
use crate::ids::spec_menu_id_of;
use crate::state::{spec_action, spec_close_action, spec_close_state, spec_menu_action,
    spec_menu_state, spec_is_left_release, spec_setup_outcome, spec_setup_state, spec_step,
    spec_tray_action, spec_tray_state, TrayApp};

verus! {

/// The state after a whole sequence of events, first event first.
pub open spec fn run_steps(s: TrayApp, evs: Seq<UiEvent>) -> TrayApp
    decreases evs.len(),
{
    if evs.len() == 0 {
        s
    } else {
        run_steps(spec_step(s, evs[0]), evs.drop_first())
    }
}

/// Whether an event is a click on the Show or the Hide menu entry.
pub open spec fn is_show_or_hide(ev: UiEvent) -> bool {
    ev == UiEvent::MenuClick(MenuId::Show) || ev == UiEvent::MenuClick(MenuId::Hide)
}

/// Law: well-formedness of the state is preserved by every step.
pub proof fn lemma_step_preserves_wf(s: TrayApp, ev: UiEvent)
    requires
        s.wf(),
    ensures
        spec_step(s, ev).wf(),
{
}

/// Law: over any non-empty run of Show and Hide menu clicks, the window's
/// final visibility is decided by the last click alone — visible exactly
/// when that click was Show.
pub proof fn lemma_visibility_tracks_last_show_hide(s: TrayApp, evs: Seq<UiEvent>)
    requires
        s.running,
        s.window_present,
        evs.len() > 0,
        forall|i: int| 0 <= i < evs.len() ==> is_show_or_hide(#[trigger] evs[i]),
    ensures
        run_steps(s, evs).visible == (evs.last() == UiEvent::MenuClick(MenuId::Show)),
        run_steps(s, evs).running,
        run_steps(s, evs).window_present,
    decreases evs.len(),
{
    let s1 = spec_step(s, evs[0]);
    let rest = evs.drop_first();
    if evs.len() == 1 {
        assert(run_steps(s1, rest) == s1);
    } else {
        assert forall|i: int| 0 <= i < rest.len() implies is_show_or_hide(
            #[trigger] rest[i],
        ) by {
            assert(rest[i] == evs[i + 1]);
        }
        lemma_visibility_tracks_last_show_hide(s1, rest);
        assert(rest.last() == evs.last());
    }
}

/// Law: a repeated menu click settles in one step — dispatching the same
/// identifier twice in a row leaves the same state as dispatching it once.
pub proof fn lemma_menu_clicks_idempotent(s: TrayApp, id: MenuId)
    ensures
        spec_menu_state(spec_menu_state(s, id), id) == spec_menu_state(s, id),
{
}

/// Law: a close request never terminates the process. The window is hidden
/// instead, and a left-button release on the tray icon afterwards still
/// shows and focuses it.
pub proof fn lemma_close_keeps_process_alive(s: TrayApp)
    ensures
        spec_close_action(s) != UiAction::ExitProc,
        spec_close_state(s).running == s.running,
        s.running && s.window_present ==> !spec_close_state(s).visible,
        s.running && s.window_present ==> spec_tray_state(
            spec_close_state(s),
            (TrayEvent::Click { button: MouseBtn::LeftBtn, phase: BtnPhase::ReleaseUp }),
        ).visible,
        s.running && s.window_present ==> spec_tray_state(
            spec_close_state(s),
            (TrayEvent::Click { button: MouseBtn::LeftBtn, phase: BtnPhase::ReleaseUp }),
        ).focused,
{
}

/// Law: a left-button release on the tray icon shows and focuses the
/// window whatever its prior visibility, including when already visible.
pub proof fn lemma_tray_left_release_always_shows(s: TrayApp)
    requires
        s.running,
        s.window_present,
    ensures
        spec_tray_state(
            s,
            (TrayEvent::Click { button: MouseBtn::LeftBtn, phase: BtnPhase::ReleaseUp }),
        ).visible,
        spec_tray_state(
            s,
            (TrayEvent::Click { button: MouseBtn::LeftBtn, phase: BtnPhase::ReleaseUp }),
        ).focused,
        spec_tray_action(
            s,
            (TrayEvent::Click { button: MouseBtn::LeftBtn, phase: BtnPhase::ReleaseUp }),
        ) == UiAction::ShowFocus,
{
}

/// Law: every tray interaction other than a left-button release — any other
/// button, a press, or a non-click interaction — changes nothing and asks
/// for nothing.
pub proof fn lemma_tray_other_interactions_change_nothing(s: TrayApp, ev: TrayEvent)
    requires
        !spec_is_left_release(ev),
    ensures
        spec_tray_state(s, ev) == s,
        spec_tray_action(s, ev) == UiAction::NoOp,
{
}

/// Law: once a state is no longer running, no event changes it and no event
/// produces an action.
pub proof fn lemma_halted_state_is_inert(s: TrayApp, evs: Seq<UiEvent>)
    requires
        !s.running,
    ensures
        run_steps(s, evs) == s,
        forall|ev: UiEvent| #[trigger] spec_step(s, ev) == s,
        forall|ev: UiEvent| #[trigger] spec_action(s, ev) == UiAction::NoOp,
    decreases evs.len(),
{
    if evs.len() > 0 {
        lemma_halted_state_is_inert(s, evs.drop_first());
    }
}

/// Law: selecting Quit asks for immediate process termination, and after it
/// no handler does anything — no later event, Show and Hide included, is
/// processed into a state change or an action.
pub proof fn lemma_quit_ends_all_handling(s: TrayApp, evs: Seq<UiEvent>)
    requires
        s.running,
    ensures
        spec_menu_action(s, MenuId::Quit) == UiAction::ExitProc,
        !spec_menu_state(s, MenuId::Quit).running,
        run_steps(spec_menu_state(s, MenuId::Quit), evs) == spec_menu_state(s, MenuId::Quit),
        forall|ev: UiEvent|
            #[trigger] spec_action(spec_menu_state(s, MenuId::Quit), ev) == UiAction::NoOp,
{
    lemma_halted_state_is_inert(spec_menu_state(s, MenuId::Quit), evs);
}

/// Law: when the tray icon is absent, setup completes without error as a
/// pure diagnostic no-op, and the close-request interception registered at
/// bootstrap still hides the window and keeps the process alive.
pub proof fn lemma_setup_without_tray_degrades(s: TrayApp)
    requires
        !s.tray_present,
    ensures
        spec_setup_outcome(s) == SetupOutcome::TrayMissing,
        spec_setup_state(s) == s,
        spec_close_state(spec_setup_state(s)).running == s.running,
        s.running && s.window_present ==> !spec_close_state(spec_setup_state(s)).visible,
        s.running && s.window_present ==> spec_close_action(spec_setup_state(s))
            == UiAction::PreventCloseHide,
{
}

/// Law: the three menu identifiers route to their own entries.
pub proof fn lemma_menu_idents_route_to_their_entries()
    ensures
        spec_menu_id_of("show"@) == MenuId::Show,
        spec_menu_id_of("hide"@) == MenuId::Hide,
        spec_menu_id_of("quit"@) == MenuId::Quit,
{
    reveal_strlit("show");
    reveal_strlit("hide");
    reveal_strlit("quit");
    assert("hide"@[0] != "show"@[0]);
    assert("quit"@[0] != "show"@[0]);
    assert("quit"@[0] != "hide"@[0]);
}

/// Law: a menu identifier that is none of the three known ones routes to
/// `Other`, which changes no state and produces no action and no error.
pub proof fn lemma_unrecognized_ident_is_silent(s: TrayApp, ident: Seq<char>)
    requires
        ident != "show"@,
        ident != "hide"@,
        ident != "quit"@,
    ensures
        spec_menu_id_of(ident) == MenuId::Other,
        spec_menu_state(s, spec_menu_id_of(ident)) == s,
        spec_menu_action(s, spec_menu_id_of(ident)) == UiAction::NoOp,
{
}

} // verus!
