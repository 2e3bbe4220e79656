use nova_hub::events::{MenuId, StartupStep};
use nova_hub::ids::{create_tray_menu, main_window_id, menu_id_from_str, str_eq, tray_icon_id,
    tray_tooltip};
use nova_hub::state::startup_steps;

#[test]
fn fixed_identifiers_match_the_configuration() {
    assert_eq!(main_window_id(), "main");
    assert_eq!(tray_icon_id(), "main-tray");
    assert_eq!(tray_tooltip(), "Nova Hub - Elite PC Optimizer");
}

#[test]
fn menu_has_exactly_show_hide_quit_in_order() {
    let menu = create_tray_menu();
    assert_eq!(menu.len(), 3);
    assert_eq!(menu[0].id, MenuId::Show);
    assert_eq!(menu[0].ident, "show");
    assert_eq!(menu[0].label, "Show Window");
    assert_eq!(menu[1].id, MenuId::Hide);
    assert_eq!(menu[1].ident, "hide");
    assert_eq!(menu[1].label, "Hide Window");
    assert_eq!(menu[2].id, MenuId::Quit);
    assert_eq!(menu[2].ident, "quit");
    assert_eq!(menu[2].label, "Quit");
}

#[test]
fn menu_idents_route_back_to_their_entries() {
    let menu = create_tray_menu();
    for entry in &menu {
        assert_eq!(menu_id_from_str(&entry.ident), entry.id);
    }
}

#[test]
fn routing_is_a_case_sensitive_exact_match() {
    assert_eq!(menu_id_from_str("show"), MenuId::Show);
    assert_eq!(menu_id_from_str("hide"), MenuId::Hide);
    assert_eq!(menu_id_from_str("quit"), MenuId::Quit);
    assert_eq!(menu_id_from_str("Show"), MenuId::Other);
    assert_eq!(menu_id_from_str("QUIT"), MenuId::Other);
    assert_eq!(menu_id_from_str("show "), MenuId::Other);
    assert_eq!(menu_id_from_str(""), MenuId::Other);
    assert_eq!(menu_id_from_str("restart"), MenuId::Other);
}

#[test]
fn str_eq_compares_characters() {
    assert!(str_eq("main", "main"));
    assert!(!str_eq("main", "main-tray"));
    assert!(!str_eq("", "a"));
    assert!(str_eq("", ""));
}

#[test]
fn startup_installs_logging_only_in_debug_builds() {
    let debug = startup_steps(true);
    assert_eq!(
        debug,
        vec![
            StartupStep::InstallLogPlugin,
            StartupStep::CreateTrayIcon,
            StartupStep::ConfigureTray,
            StartupStep::RegisterCloseHandler,
        ]
    );
    let release = startup_steps(false);
    assert_eq!(
        release,
        vec![
            StartupStep::CreateTrayIcon,
            StartupStep::ConfigureTray,
            StartupStep::RegisterCloseHandler,
        ]
    );
}
