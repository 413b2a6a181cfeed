//! The user's settings: the accelerator strings of the two global hotkeys, as
//! exchanged with the settings window and kept in the settings file.

use vstd::prelude::*;

verus! {

/// The hotkey accelerator strings by their characters.
pub struct ValuesView {
    pub focus: Option<Seq<char>>,
    pub focus_new_tab: Option<Seq<char>>,
}

/// The shortcut values exchanged with the settings window. `None` means the
/// hotkey is unset.
#[derive(Debug)]
pub struct ShortcutValues {
    /// Bring the app forward (show and focus the frontmost tab).
    pub focus: Option<String>,
    /// Bring the app forward and open a new tab.
    pub focus_new_tab: Option<String>,
}

/// An optional string by its characters.
pub open spec fn opt_chars(value: Option<String>) -> Option<Seq<char>> {
    match value {
        Some(s) => Some(s@),
        None => None,
    }
}

impl View for ShortcutValues {
    type V = ValuesView;

    open spec fn view(&self) -> ValuesView {
        ValuesView { focus: opt_chars(self.focus), focus_new_tab: opt_chars(self.focus_new_tab) }
    }
}

/// Accelerator strings (e.g. `"CmdOrCtrl+Shift+G"`) for the global hotkeys, as
/// kept in the settings file. An absent value leaves that hotkey unset.
#[derive(Debug)]
pub struct ShortcutSettings {
    pub focus: Option<String>,
    pub focus_new_tab: Option<String>,
}

impl View for ShortcutSettings {
    type V = ValuesView;

    open spec fn view(&self) -> ValuesView {
        ValuesView { focus: opt_chars(self.focus), focus_new_tab: opt_chars(self.focus_new_tab) }
    }
}

impl Default for ShortcutSettings {
    fn default() -> (r: ShortcutSettings)
        ensures
            r.focus is None,
            r.focus_new_tab is None,
    {
        ShortcutSettings { focus: None, focus_new_tab: None }
    }
}

/// User settings, persisted as `settings.json` in the app config directory.
/// Every field is optional; a missing file or field just leaves the default.
#[derive(Debug)]
pub struct Settings {
    pub shortcuts: ShortcutSettings,
}

impl Default for Settings {
    fn default() -> (r: Settings)
        ensures
            r.shortcuts.focus is None,
            r.shortcuts.focus_new_tab is None,
    {
        Settings { shortcuts: ShortcutSettings::default() }
    }
}

impl Settings {
    /// The settings that record the given shortcut values.
    pub fn from_values(values: ShortcutValues) -> (r: Settings)
        ensures
            r.shortcuts@ == values@,
    {
        Settings {
            shortcuts: ShortcutSettings {
                focus: values.focus,
                focus_new_tab: values.focus_new_tab,
            },
        }
    }

    /// The shortcut values these settings record.
    pub fn values(&self) -> (r: ShortcutValues)
        ensures
            r@ == self.shortcuts@,
    {
        ShortcutValues {
            focus: self.shortcuts.focus.clone(),
            focus_new_tab: self.shortcuts.focus_new_tab.clone(),
        }
    }

    /// The settings that a read of the settings file gives: what was read where
    /// the file could be read and parsed, the defaults otherwise.
    pub fn or_default(read: Option<Settings>) -> (r: Settings)
        ensures
            match read {
                Some(s) => r.shortcuts@ == s.shortcuts@,
                None => r.shortcuts.focus is None && r.shortcuts.focus_new_tab is None,
            },
    {
        match read {
            Some(s) => s,
            None => Settings::default(),
        }
    }
}

} // verus!
