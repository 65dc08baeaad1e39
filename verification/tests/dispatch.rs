//! Dispatch of menu and tray click identifiers.

use dirlist::actions::{
    dispatch_menu_click, dispatch_tray_click, menu_action_of, str_eq, MenuAction, MenuDispatch,
    TrayDispatch,
};

#[test]
fn quit_terminates_the_shell() {
    assert_eq!(dispatch_menu_click("quit"), MenuDispatch::Terminate);
}

#[test]
fn known_menu_actions_are_recognised() {
    assert_eq!(menu_action_of("new"), Some(MenuAction::New));
    assert_eq!(menu_action_of("open"), Some(MenuAction::Open));
    assert_eq!(menu_action_of("save"), Some(MenuAction::Save));
    assert_eq!(menu_action_of("quit"), Some(MenuAction::Quit));
    assert_eq!(menu_action_of("cut"), Some(MenuAction::Cut));
    assert_eq!(menu_action_of("copy"), Some(MenuAction::CopyItem));
    assert_eq!(menu_action_of("paste"), Some(MenuAction::PasteItem));
    assert_eq!(menu_action_of("toggle_hidden"), Some(MenuAction::ToggleHidden));
    assert_eq!(menu_action_of("refresh"), Some(MenuAction::Refresh));
    assert_eq!(menu_action_of("preferences"), Some(MenuAction::Preferences));
}

#[test]
fn unimplemented_menu_actions_say_so() {
    assert_eq!(
        dispatch_menu_click("save"),
        MenuDispatch::Unimplemented(MenuAction::Save)
    );
    assert_eq!(
        dispatch_menu_click("toggle_hidden"),
        MenuDispatch::Unimplemented(MenuAction::ToggleHidden)
    );
}

#[test]
fn unknown_menu_identifiers_are_unrecognised() {
    assert_eq!(menu_action_of(""), None);
    assert_eq!(menu_action_of("Quit"), None);
    assert_eq!(menu_action_of("delete"), None);
    assert_eq!(dispatch_menu_click("delete"), MenuDispatch::Unrecognized);
}

#[test]
fn tray_settings_asks_for_the_settings_view() {
    assert_eq!(dispatch_tray_click("settings"), TrayDispatch::EmitSettings);
}

#[test]
fn tray_quit_terminates_the_shell() {
    assert_eq!(dispatch_tray_click("quit"), TrayDispatch::Terminate);
}

#[test]
fn tray_ignores_unknown_identifiers() {
    assert_eq!(dispatch_tray_click("restart"), TrayDispatch::Unrecognized);
    assert_eq!(dispatch_tray_click(""), TrayDispatch::Unrecognized);
}

#[test]
fn string_comparison_is_exact() {
    assert!(str_eq("", ""));
    assert!(str_eq("caf\u{e9}", "caf\u{e9}"));
    assert!(!str_eq("caf\u{e9}", "cafe"));
    assert!(!str_eq("quit", "quits"));
    assert!(!str_eq("quit", "quiT"));
}
