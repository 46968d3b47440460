use shell_supervisor::tray::{autostart_turns_on, hides_on_close, tray_command, TrayCommand};

#[test]
fn menu_entries_reach_their_commands() {
    assert_eq!(tray_command("show_dashboard"), TrayCommand::ShowDashboard);
    assert_eq!(tray_command("autostart"), TrayCommand::ToggleAutostart);
    assert_eq!(tray_command("check_for_updates"), TrayCommand::CheckForUpdates);
    assert_eq!(tray_command("about"), TrayCommand::ShowAbout);
    assert_eq!(tray_command("quit"), TrayCommand::Quit);
}

#[test]
fn unknown_menu_entries_are_unhandled() {
    for id in ["", "Quit", "quit ", "about_", "updates", "show-dashboard"] {
        assert_eq!(tray_command(id), TrayCommand::Unhandled);
    }
}

#[test]
fn autostart_toggles() {
    assert!(!autostart_turns_on(Some(true)));
    assert!(autostart_turns_on(Some(false)));
    assert!(autostart_turns_on(None));
}

#[test]
fn only_the_main_window_hides_on_close() {
    assert!(hides_on_close("main"));
    assert!(!hides_on_close("about"));
    assert!(!hides_on_close("updates"));
    assert!(!hides_on_close(""));
}
