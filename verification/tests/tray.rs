use hotkey_translate::tray::{menu_command, MenuCommand};

#[test]
fn menu_entries() {
    assert_eq!(menu_command("quit"), MenuCommand::Quit);
    assert_eq!(menu_command("settings"), MenuCommand::OpenSettings);
    assert_eq!(menu_command(""), MenuCommand::Nothing);
    assert_eq!(menu_command("Quit"), MenuCommand::Nothing);
    assert_eq!(menu_command("quit "), MenuCommand::Nothing);
}
