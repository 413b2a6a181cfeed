use global_hotkey::hotkey::{Code, HotKey, Modifiers};
use tabbed_web_app::settings::ShortcutValues;
use tabbed_web_app::shortcuts::{
    accept_parsed_shortcut, parse_shortcut, prepare_shortcuts, startup_shortcuts, GlobalShortcuts,
    HotkeyAction, Shortcut,
};

fn shortcut(mods: Modifiers, key: Code) -> Shortcut {
    let h = HotKey::new(Some(mods), key);
    Shortcut { mods: h.mods.bits(), key: h.key as u32, id: h.id() }
}

fn values(focus: Option<&str>, focus_new_tab: Option<&str>) -> ShortcutValues {
    ShortcutValues {
        focus: focus.map(|s| s.to_string()),
        focus_new_tab: focus_new_tab.map(|s| s.to_string()),
    }
}

#[test]
fn unset_and_blank_values_are_unset() {
    assert_eq!(parse_shortcut(None), Ok(None));
    assert_eq!(parse_shortcut(Some(String::new())), Ok(None));
    assert_eq!(parse_shortcut(Some(" \t\n ".to_string())), Ok(None));
    assert_eq!(parse_shortcut(Some("\u{3000}\u{a0}".to_string())), Ok(None));
}

#[test]
fn values_are_trimmed_and_parsed() {
    let r = parse_shortcut(Some("  Shift+Alt+KeyQ \n".to_string()));
    assert_eq!(
        r,
        Ok(Some(("Shift+Alt+KeyQ".to_string(), shortcut(Modifiers::SHIFT | Modifiers::ALT, Code::KeyQ))))
    );
    let r = parse_shortcut(Some("\u{2003}ctrl+g\u{3000}".to_string()));
    assert_eq!(r, Ok(Some(("ctrl+g".to_string(), shortcut(Modifiers::CONTROL, Code::KeyG)))));
}

#[test]
fn cmd_or_ctrl_parses() {
    let r = parse_shortcut(Some("CmdOrCtrl+Shift+G".to_string())).unwrap().unwrap();
    let expected: HotKey = "CmdOrCtrl+Shift+G".parse().unwrap();
    assert_eq!(r.0, "CmdOrCtrl+Shift+G");
    assert_eq!(r.1, Shortcut { mods: expected.mods.bits(), key: expected.key as u32, id: expected.id() });
}

#[test]
fn bad_values_are_reported() {
    assert_eq!(
        parse_shortcut(Some(" Ctrl+Nope ".to_string())),
        Err("\"Ctrl+Nope\" is not a valid shortcut".to_string())
    );
    assert_eq!(
        parse_shortcut(Some("CmdOrCtrl+".to_string())),
        Err("\"CmdOrCtrl+\" is not a valid shortcut".to_string())
    );
    assert_eq!(
        parse_shortcut(Some("Ctrl+KeyA+Shift".to_string())),
        Err("\"Ctrl+KeyA+Shift\" is not a valid shortcut".to_string())
    );
}

#[test]
fn accepted_parse_keeps_text_and_hotkey() {
    let k = shortcut(Modifiers::ALT, Code::KeyK);
    assert_eq!(accept_parsed_shortcut("Alt+K".to_string(), Some(k)), Ok(("Alt+K".to_string(), k)));
    assert_eq!(
        accept_parsed_shortcut("Alt+?".to_string(), None),
        Err("\"Alt+?\" is not a valid shortcut".to_string())
    );
}

#[test]
fn prepare_accepts_two_different_hotkeys() {
    let s = prepare_shortcuts(values(Some(" Ctrl+Shift+G "), Some("Ctrl+Shift+T"))).unwrap();
    let v = s.get_shortcuts();
    assert_eq!(v.focus.as_deref(), Some("Ctrl+Shift+G"));
    assert_eq!(v.focus_new_tab.as_deref(), Some("Ctrl+Shift+T"));
    assert_eq!(s.registrations(), vec!["Ctrl+Shift+G".to_string(), "Ctrl+Shift+T".to_string()]);
}

#[test]
fn prepare_rejects_the_same_hotkey_twice() {
    let r = prepare_shortcuts(values(Some("Ctrl+K"), Some("control+KeyK")));
    assert_eq!(r.err(), Some("Both actions are set to the same shortcut".to_string()));
}

#[test]
fn prepare_reports_the_first_bad_value() {
    let r = prepare_shortcuts(values(Some("Ctrl+Bogus"), Some("Ctrl+Worse")));
    assert_eq!(r.err(), Some("\"Ctrl+Bogus\" is not a valid shortcut".to_string()));
    let r = prepare_shortcuts(values(Some("Ctrl+K"), Some("Ctrl+Worse")));
    assert_eq!(r.err(), Some("\"Ctrl+Worse\" is not a valid shortcut".to_string()));
}

#[test]
fn prepare_with_blanks_clears_hotkeys() {
    let s = prepare_shortcuts(values(Some("   "), None)).unwrap();
    let v = s.get_shortcuts();
    assert_eq!(v.focus, None);
    assert_eq!(v.focus_new_tab, None);
    assert!(s.registrations().is_empty());
    let s = prepare_shortcuts(values(None, Some("Alt+N"))).unwrap();
    assert_eq!(s.registrations(), vec!["Alt+N".to_string()]);
}

#[test]
fn reapplying_shown_values_gives_the_same_set() {
    let s = prepare_shortcuts(values(Some("\tAlt+Shift+F "), Some("Alt+Shift+N"))).unwrap();
    let again = prepare_shortcuts(s.get_shortcuts()).unwrap();
    assert_eq!(again.get_shortcuts().focus, s.get_shortcuts().focus);
    assert_eq!(again.get_shortcuts().focus_new_tab, s.get_shortcuts().focus_new_tab);
    assert_eq!(again.registrations(), s.registrations());
}

#[test]
fn pressed_hotkeys_dispatch_to_their_action() {
    let s = prepare_shortcuts(values(Some("Alt+F"), Some("Alt+N"))).unwrap();
    let f = shortcut(Modifiers::ALT, Code::KeyF);
    let n = shortcut(Modifiers::ALT, Code::KeyN);
    let other = shortcut(Modifiers::ALT, Code::KeyX);
    assert_eq!(s.hotkey_action(f, true), HotkeyAction::BringForward);
    assert_eq!(s.hotkey_action(n, true), HotkeyAction::BringForwardAndNewTab);
    assert_eq!(s.hotkey_action(other, true), HotkeyAction::Ignore);
    assert_eq!(s.hotkey_action(f, false), HotkeyAction::Ignore);
    assert_eq!(s.hotkey_action(n, false), HotkeyAction::Ignore);
}

#[test]
fn empty_set_ignores_everything() {
    let s = GlobalShortcuts::new();
    assert_eq!(s.hotkey_action(shortcut(Modifiers::ALT, Code::KeyF), true), HotkeyAction::Ignore);
    assert_eq!(s.get_shortcuts().focus, None);
    assert!(s.registrations().is_empty());
}

#[test]
fn apply_replaces_on_success_and_keeps_on_error() {
    let mut live = GlobalShortcuts::new();
    let next = prepare_shortcuts(values(Some("Alt+F"), None));
    assert_eq!(live.apply(next), Ok(()));
    assert_eq!(live.get_shortcuts().focus.as_deref(), Some("Alt+F"));

    let bad = prepare_shortcuts(values(Some("Alt+F"), Some("alt+KeyF")));
    assert_eq!(live.apply(bad), Err("Both actions are set to the same shortcut".to_string()));
    assert_eq!(live.get_shortcuts().focus.as_deref(), Some("Alt+F"));
    assert_eq!(live.get_shortcuts().focus_new_tab, None);

    assert_eq!(live.apply(Err("registration failed".to_string())), Err("registration failed".to_string()));
    assert_eq!(live.registrations(), vec!["Alt+F".to_string()]);
}

#[test]
fn startup_keeps_good_values_and_drops_bad_ones() {
    let s = startup_shortcuts(values(Some("Ctrl+Bogus"), Some(" Alt+N ")));
    assert_eq!(s.get_shortcuts().focus, None);
    assert_eq!(s.get_shortcuts().focus_new_tab.as_deref(), Some("Alt+N"));
    assert_eq!(s.registrations(), vec!["Alt+N".to_string()]);

    let s = startup_shortcuts(values(Some("Alt+F"), Some("Alt+Worse")));
    assert_eq!(s.registrations(), vec!["Alt+F".to_string()]);
    assert_eq!(s.hotkey_action(shortcut(Modifiers::ALT, Code::KeyF), true), HotkeyAction::BringForward);
}

#[test]
fn startup_leaves_both_unset_when_they_share_a_hotkey() {
    let s = startup_shortcuts(values(Some("Ctrl+K"), Some("control+KeyK")));
    assert_eq!(s.get_shortcuts().focus, None);
    assert_eq!(s.get_shortcuts().focus_new_tab, None);
    assert!(s.registrations().is_empty());
}

#[test]
fn failed_registrations_are_left_unset() {
    let both = || startup_shortcuts(values(Some("Alt+F"), Some("Alt+N")));
    let s = both().retain_registered(&vec![true, true]);
    assert_eq!(s.registrations(), vec!["Alt+F".to_string(), "Alt+N".to_string()]);
    let s = both().retain_registered(&vec![false, true]);
    assert_eq!(s.registrations(), vec!["Alt+N".to_string()]);
    let s = both().retain_registered(&vec![true, false]);
    assert_eq!(s.registrations(), vec!["Alt+F".to_string()]);
    let s = both().retain_registered(&vec![true]);
    assert_eq!(s.registrations(), vec!["Alt+F".to_string()]);
    let only_new_tab = startup_shortcuts(values(None, Some("Alt+N")));
    let s = only_new_tab.retain_registered(&vec![true]);
    assert_eq!(s.get_shortcuts().focus_new_tab.as_deref(), Some("Alt+N"));
    let s = startup_shortcuts(values(None, Some("Alt+N"))).retain_registered(&vec![]);
    assert!(s.registrations().is_empty());
}

#[test]
fn startup_matches_the_check_on_good_values() {
    let v = || values(Some(" Alt+Shift+F"), Some("Alt+Shift+N "));
    let a = startup_shortcuts(v());
    let b = prepare_shortcuts(v()).unwrap();
    assert_eq!(a.registrations(), b.registrations());
    let blank = startup_shortcuts(values(Some("  "), None));
    assert!(blank.registrations().is_empty());
}
