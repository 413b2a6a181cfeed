use tabbed_web_app::menu::{
    menu_command, menu_item, page_script, settings_window_action, MenuCommand, SettingsWindowAction,
};

const COMMANDS: [MenuCommand; 7] = [
    MenuCommand::NewTab,
    MenuCommand::Back,
    MenuCommand::Forward,
    MenuCommand::Reload,
    MenuCommand::ToggleInspector,
    MenuCommand::CopyUrl,
    MenuCommand::OpenSettings,
];

#[test]
fn menu_ids_dispatch() {
    assert_eq!(menu_command("new_tab"), MenuCommand::NewTab);
    assert_eq!(menu_command("back"), MenuCommand::Back);
    assert_eq!(menu_command("forward"), MenuCommand::Forward);
    assert_eq!(menu_command("reload"), MenuCommand::Reload);
    assert_eq!(menu_command("inspector"), MenuCommand::ToggleInspector);
    assert_eq!(menu_command("copy_url"), MenuCommand::CopyUrl);
    assert_eq!(menu_command("settings"), MenuCommand::OpenSettings);
    assert_eq!(menu_command("quit"), MenuCommand::Ignore);
    assert_eq!(menu_command(""), MenuCommand::Ignore);
    assert_eq!(menu_command("Back"), MenuCommand::Ignore);
}

#[test]
fn page_scripts() {
    assert_eq!(page_script(MenuCommand::Back), Some("history.back()"));
    assert_eq!(page_script(MenuCommand::Forward), Some("history.forward()"));
    assert_eq!(page_script(MenuCommand::Reload), Some("location.reload()"));
    assert_eq!(page_script(MenuCommand::NewTab), None);
    assert_eq!(page_script(MenuCommand::Ignore), None);
}

#[test]
fn custom_items_dispatch_to_their_command() {
    for c in COMMANDS {
        assert_eq!(menu_command(menu_item(c).id), c);
    }
}

#[test]
fn custom_items_have_distinct_accelerators() {
    for a in COMMANDS {
        for b in COMMANDS {
            if a != b {
                assert_ne!(menu_item(a).accelerator, menu_item(b).accelerator);
            }
        }
    }
}

#[test]
fn custom_item_texts() {
    let s = menu_item(MenuCommand::OpenSettings);
    assert_eq!((s.id, s.label, s.accelerator), ("settings", "Settings\u{2026}", "CmdOrCtrl+,"));
    let i = menu_item(MenuCommand::ToggleInspector);
    assert_eq!((i.id, i.label, i.accelerator), ("inspector", "Toggle Web Inspector", "Alt+CmdOrCtrl+I"));
    let t = menu_item(MenuCommand::NewTab);
    assert_eq!((t.id, t.label, t.accelerator), ("new_tab", "New Tab", "CmdOrCtrl+T"));
}

#[test]
fn settings_window_is_focused_or_built() {
    assert_eq!(settings_window_action(true), SettingsWindowAction::Focus);
    assert_eq!(settings_window_action(false), SettingsWindowAction::Create);
}
