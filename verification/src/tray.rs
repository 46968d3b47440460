//! What the tray menu's entries and the main window's close button mean.

use crate::decimal::str_eq;
use vstd::prelude::*;

verus! {

/// Id of the entry that brings the main window back.
pub const SHOW_DASHBOARD_ID: &'static str = "show_dashboard";

/// Id of the entry that switches start at login on or off.
pub const AUTOSTART_ID: &'static str = "autostart";

/// Id of the entry that checks for updates now.
pub const CHECK_FOR_UPDATES_ID: &'static str = "check_for_updates";

/// Id of the entry that opens the about window.
pub const ABOUT_ID: &'static str = "about";

/// Id of the entry that ends the shell.
pub const QUIT_ID: &'static str = "quit";

/// Label of the main window, which hides where others close.
pub const MAIN_WINDOW_LABEL: &'static str = "main";

/// What a click in the tray menu asks for.
#[derive(Clone, Copy, Debug, PartialEq, Eq, Structural)]
pub enum TrayCommand {
    /// Show and focus the main window.
    ShowDashboard,
    /// Switch start at login.
    ToggleAutostart,
    /// Check for updates on the user's behalf.
    CheckForUpdates,
    /// Show the about window.
    ShowAbout,
    /// Exit the shell with code 0.
    Quit,
    /// The id is none of the menu's; the click is only logged.
    Unhandled,
}

/// The command behind the menu entry `id`.
pub open spec fn tray_command_of(id: Seq<char>) -> TrayCommand {
    if id == SHOW_DASHBOARD_ID@ {
        TrayCommand::ShowDashboard
    } else if id == AUTOSTART_ID@ {
        TrayCommand::ToggleAutostart
    } else if id == CHECK_FOR_UPDATES_ID@ {
        TrayCommand::CheckForUpdates
    } else if id == ABOUT_ID@ {
        TrayCommand::ShowAbout
    } else if id == QUIT_ID@ {
        TrayCommand::Quit
    } else {
        TrayCommand::Unhandled
    }
}

/// Reads a click on the menu entry `id`.
pub fn tray_command(id: &str) -> (command: TrayCommand)
    ensures
        command == tray_command_of(id@),
{
    if str_eq(id, SHOW_DASHBOARD_ID) {
        TrayCommand::ShowDashboard
    } else if str_eq(id, AUTOSTART_ID) {
        TrayCommand::ToggleAutostart
    } else if str_eq(id, CHECK_FOR_UPDATES_ID) {
        TrayCommand::CheckForUpdates
    } else if str_eq(id, ABOUT_ID) {
        TrayCommand::ShowAbout
    } else if str_eq(id, QUIT_ID) {
        TrayCommand::Quit
    } else {
        TrayCommand::Unhandled
    }
}

/// Each of the menu's own ids reaches its own command.
pub proof fn lemma_menu_ids_reach_their_commands()
    ensures
        tray_command_of(SHOW_DASHBOARD_ID@) == TrayCommand::ShowDashboard,
        tray_command_of(AUTOSTART_ID@) == TrayCommand::ToggleAutostart,
        tray_command_of(CHECK_FOR_UPDATES_ID@) == TrayCommand::CheckForUpdates,
        tray_command_of(ABOUT_ID@) == TrayCommand::ShowAbout,
        tray_command_of(QUIT_ID@) == TrayCommand::Quit,
{
    reveal_strlit("show_dashboard");
    reveal_strlit("autostart");
    reveal_strlit("check_for_updates");
    reveal_strlit("about");
    reveal_strlit("quit");
    assert(AUTOSTART_ID@.len() != SHOW_DASHBOARD_ID@.len());
    assert(CHECK_FOR_UPDATES_ID@.len() != SHOW_DASHBOARD_ID@.len());
    assert(CHECK_FOR_UPDATES_ID@.len() != AUTOSTART_ID@.len());
    assert(ABOUT_ID@.len() != SHOW_DASHBOARD_ID@.len());
    assert(ABOUT_ID@.len() != AUTOSTART_ID@.len());
    assert(ABOUT_ID@.len() != CHECK_FOR_UPDATES_ID@.len());
    assert(QUIT_ID@.len() != SHOW_DASHBOARD_ID@.len());
    assert(QUIT_ID@.len() != AUTOSTART_ID@.len());
    assert(QUIT_ID@.len() != CHECK_FOR_UPDATES_ID@.len());
    assert(QUIT_ID@.len() != ABOUT_ID@.len());
}

/// Whether start at login is to be switched on: it is, unless it is known
/// to be on already.
pub fn autostart_turns_on(enabled: Option<bool>) -> (turn_on: bool)
    ensures
        turn_on == !(enabled == Some(true)),
{
    match enabled {
        Some(true) => false,
        _ => true,
    }
}

/// Whether a window hides, and stays alive, when the user closes it. Only
/// the main window does: the shell lives on in the tray.
pub fn hides_on_close(window_label: &str) -> (hides: bool)
    ensures
        hides == (window_label@ == MAIN_WINDOW_LABEL@),
{
    str_eq(window_label, MAIN_WINDOW_LABEL)
}

} // verus!
