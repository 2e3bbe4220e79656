//! The fixed string identifiers shared with the framework's configuration,
//! the tray menu's entries, and the routing of a menu identifier to its
//! `MenuId`.

use vstd::prelude::*;
use vstd::string::StringExecFns;

use crate::events::MenuId;

verus! {

/// Identifier under which the framework registers the main window.
pub fn main_window_id() -> (r: &'static str)
    ensures
        r@ == "main"@,
{
    "main"
}

/// Identifier under which bootstrap creates the tray icon.
pub fn tray_icon_id() -> (r: &'static str)
    ensures
        r@ == "main-tray"@,
{
    "main-tray"
}

/// Tooltip shown on the tray icon.
pub fn tray_tooltip() -> (r: &'static str)
    ensures
        r@ == "Nova Hub - Elite PC Optimizer"@,
{
    "Nova Hub - Elite PC Optimizer"
}

/// String equality on the characters of two string slices.
pub fn str_eq(a: &str, b: &str) -> (r: bool)
    ensures
        r == (a@ == b@),
{
    let sa: String = String::from_str(a);
    let sb: String = String::from_str(b);
    sa == sb
}

/// Where a menu identifier routes: a case-sensitive exact match against the
/// three known identifiers; everything else is `Other`.
pub open spec fn spec_menu_id_of(s: Seq<char>) -> MenuId {
    if s == "show"@ {
        MenuId::Show
    } else if s == "hide"@ {
        MenuId::Hide
    } else if s == "quit"@ {
        MenuId::Quit
    } else {
        MenuId::Other
    }
}

/// Route a menu-click identifier to the entry it names.
pub fn menu_id_from_str(s: &str) -> (r: MenuId)
    ensures
        r == spec_menu_id_of(s@),
{
    if str_eq(s, "show") {
        MenuId::Show
    } else if str_eq(s, "hide") {
        MenuId::Hide
    } else if str_eq(s, "quit") {
        MenuId::Quit
    } else {
        MenuId::Other
    }
}

/// One entry of the tray menu: where it routes, the identifier the
/// framework reports when it is clicked, and its display label.
#[derive(Debug, PartialEq, Eq)]
pub struct MenuEntry {
    pub id: MenuId,
    pub ident: String,
    pub label: String,
}

/// The tray menu: exactly Show Window, Hide Window and Quit, in that order,
/// immutable after construction.
pub fn create_tray_menu() -> (r: Vec<MenuEntry>)
    ensures
        r@.len() == 3,
        r@[0].id == MenuId::Show,
        r@[0].ident@ == "show"@,
        r@[0].label@ == "Show Window"@,
        r@[1].id == MenuId::Hide,
        r@[1].ident@ == "hide"@,
        r@[1].label@ == "Hide Window"@,
        r@[2].id == MenuId::Quit,
        r@[2].ident@ == "quit"@,
        r@[2].label@ == "Quit"@,
{
    let mut entries: Vec<MenuEntry> = Vec::new();
    entries.push(MenuEntry {
        id: MenuId::Show,
        ident: String::from_str("show"),
        label: String::from_str("Show Window"),
    });
    entries.push(MenuEntry {
        id: MenuId::Hide,
        ident: String::from_str("hide"),
        label: String::from_str("Hide Window"),
    });
    entries.push(MenuEntry {
        id: MenuId::Quit,
        ident: String::from_str("quit"),
        label: String::from_str("Quit"),
    });
    entries
}

} // verus!
