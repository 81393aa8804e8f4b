use mup_supervisor::tray::{handle_menu_event, TrayAction};

#[test]
fn menu_entries_by_identifier() {
    assert_eq!(handle_menu_event("New Chat"), TrayAction::NewChat);
    assert_eq!(handle_menu_event("Settings"), TrayAction::OpenSettings);
    assert_eq!(handle_menu_event("Quit"), TrayAction::Quit);
    assert_eq!(handle_menu_event("menu/New Chat/1"), TrayAction::NewChat);
    assert_eq!(handle_menu_event("1001-Settings"), TrayAction::OpenSettings);
}

#[test]
fn other_identifiers_ask_for_nothing() {
    assert_eq!(handle_menu_event(""), TrayAction::Nothing);
    assert_eq!(handle_menu_event("1001"), TrayAction::Nothing);
    assert_eq!(handle_menu_event("new chat"), TrayAction::Nothing);
    assert_eq!(handle_menu_event("NewChat"), TrayAction::Nothing);
    assert_eq!(handle_menu_event("quit"), TrayAction::Nothing);
}

#[test]
fn first_named_entry_wins() {
    assert_eq!(handle_menu_event("Quit New Chat"), TrayAction::NewChat);
    assert_eq!(handle_menu_event("Quit Settings"), TrayAction::OpenSettings);
    assert_eq!(handle_menu_event("Settings New Chat"), TrayAction::NewChat);
}
