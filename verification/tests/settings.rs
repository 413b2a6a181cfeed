use tabbed_web_app::settings::{Settings, ShortcutSettings, ShortcutValues};

#[test]
fn default_settings_have_no_hotkeys() {
    let s = Settings::default();
    assert_eq!(s.shortcuts.focus, None);
    assert_eq!(s.shortcuts.focus_new_tab, None);
    let d = ShortcutSettings::default();
    assert_eq!(d.focus, None);
}

#[test]
fn settings_record_values() {
    let v = ShortcutValues { focus: Some("Alt+F".to_string()), focus_new_tab: None };
    let s = Settings::from_values(v);
    assert_eq!(s.shortcuts.focus.as_deref(), Some("Alt+F"));
    assert_eq!(s.shortcuts.focus_new_tab, None);
    let back = s.values();
    assert_eq!(back.focus.as_deref(), Some("Alt+F"));
    assert_eq!(back.focus_new_tab, None);
}

#[test]
fn unreadable_settings_fall_back_to_defaults() {
    let s = Settings::or_default(None);
    assert_eq!(s.shortcuts.focus, None);
    let read = Settings::from_values(ShortcutValues { focus: None, focus_new_tab: Some("Alt+N".to_string()) });
    let s = Settings::or_default(Some(read));
    assert_eq!(s.shortcuts.focus_new_tab.as_deref(), Some("Alt+N"));
}
