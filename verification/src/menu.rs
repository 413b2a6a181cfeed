//! The application menu's custom items and the dispatch of menu events.

use vstd::prelude::*;
use crate::text::str_equal;

verus! {

/// A command of the application menu.
#[derive(Clone, Copy, Debug, PartialEq, Eq, Structural)]
pub enum MenuCommand {
    NewTab,
    Back,
    Forward,
    Reload,
    ToggleInspector,
    CopyUrl,
    OpenSettings,
    /// An event of an item that is not ours (predefined items handle themselves).
    Ignore,
}

/// The command a menu event with item id `id` asks for.
pub open spec fn spec_menu_command(id: Seq<char>) -> MenuCommand {
    if id == "new_tab"@ {
        MenuCommand::NewTab
    } else if id == "back"@ {
        MenuCommand::Back
    } else if id == "forward"@ {
        MenuCommand::Forward
    } else if id == "reload"@ {
        MenuCommand::Reload
    } else if id == "inspector"@ {
        MenuCommand::ToggleInspector
    } else if id == "copy_url"@ {
        MenuCommand::CopyUrl
    } else if id == "settings"@ {
        MenuCommand::OpenSettings
    } else {
        MenuCommand::Ignore
    }
}

/// Dispatches a menu event by the id of the item that fired it.
pub fn menu_command(id: &str) -> (r: MenuCommand)
    ensures
        r == spec_menu_command(id@),
{
    if str_equal(id, "new_tab") {
        MenuCommand::NewTab
    } else if str_equal(id, "back") {
        MenuCommand::Back
    } else if str_equal(id, "forward") {
        MenuCommand::Forward
    } else if str_equal(id, "reload") {
        MenuCommand::Reload
    } else if str_equal(id, "inspector") {
        MenuCommand::ToggleInspector
    } else if str_equal(id, "copy_url") {
        MenuCommand::CopyUrl
    } else if str_equal(id, "settings") {
        MenuCommand::OpenSettings
    } else {
        MenuCommand::Ignore
    }
}

/// The script a command runs on the focused tab, for the commands that run one.
pub open spec fn spec_page_script(cmd: MenuCommand) -> Option<Seq<char>> {
    match cmd {
        MenuCommand::Back => Some("history.back()"@),
        MenuCommand::Forward => Some("history.forward()"@),
        MenuCommand::Reload => Some("location.reload()"@),
        _ => None,
    }
}

/// The script a command runs on the focused tab: back, forward and reload
/// are done by the page's own history and location.
pub fn page_script(cmd: MenuCommand) -> (r: Option<&'static str>)
    ensures
        match r {
            Some(s) => spec_page_script(cmd) == Some(s@),
            None => spec_page_script(cmd) is None,
        },
{
    match cmd {
        MenuCommand::Back => Some("history.back()"),
        MenuCommand::Forward => Some("history.forward()"),
        MenuCommand::Reload => Some("location.reload()"),
        _ => None,
    }
}

/// What opening the settings window does.
#[derive(Clone, Copy, Debug, PartialEq, Eq, Structural)]
pub enum SettingsWindowAction {
    /// Bring the existing settings window forward.
    Focus,
    /// Build the settings window.
    Create,
}

/// Open (or focus) the settings window: an existing one is brought forward,
/// otherwise a new one is built.
pub fn settings_window_action(exists: bool) -> (r: SettingsWindowAction)
    ensures
        r == (if exists {
            SettingsWindowAction::Focus
        } else {
            SettingsWindowAction::Create
        }),
{
    if exists {
        SettingsWindowAction::Focus
    } else {
        SettingsWindowAction::Create
    }
}

/// The id of the custom menu item of a command.
pub open spec fn item_id(cmd: MenuCommand) -> Seq<char> {
    match cmd {
        MenuCommand::NewTab => "new_tab"@,
        MenuCommand::Back => "back"@,
        MenuCommand::Forward => "forward"@,
        MenuCommand::Reload => "reload"@,
        MenuCommand::ToggleInspector => "inspector"@,
        MenuCommand::CopyUrl => "copy_url"@,
        MenuCommand::OpenSettings => "settings"@,
        MenuCommand::Ignore => Seq::empty(),
    }
}

/// The label of the custom menu item of a command.
pub open spec fn item_label(cmd: MenuCommand) -> Seq<char> {
    match cmd {
        MenuCommand::NewTab => "New Tab"@,
        MenuCommand::Back => "Back"@,
        MenuCommand::Forward => "Forward"@,
        MenuCommand::Reload => "Reload"@,
        MenuCommand::ToggleInspector => "Toggle Web Inspector"@,
        MenuCommand::CopyUrl => "Copy URL"@,
        MenuCommand::OpenSettings => "Settings\u{2026}"@,
        MenuCommand::Ignore => Seq::empty(),
    }
}

/// The keyboard accelerator of the custom menu item of a command.
pub open spec fn item_accelerator(cmd: MenuCommand) -> Seq<char> {
    match cmd {
        MenuCommand::NewTab => "CmdOrCtrl+T"@,
        MenuCommand::Back => "CmdOrCtrl+["@,
        MenuCommand::Forward => "CmdOrCtrl+]"@,
        MenuCommand::Reload => "CmdOrCtrl+R"@,
        MenuCommand::ToggleInspector => "Alt+CmdOrCtrl+I"@,
        MenuCommand::CopyUrl => "CmdOrCtrl+L"@,
        MenuCommand::OpenSettings => "CmdOrCtrl+,"@,
        MenuCommand::Ignore => Seq::empty(),
    }
}

/// A custom menu item: its id (which menu events carry), label and accelerator.
#[derive(Clone, Copy, Debug)]
pub struct MenuItemSpec {
    pub id: &'static str,
    pub label: &'static str,
    pub accelerator: &'static str,
}

/// The custom menu item that issues a command.
pub fn menu_item(cmd: MenuCommand) -> (r: MenuItemSpec)
    requires
        cmd != MenuCommand::Ignore,
    ensures
        r.id@ == item_id(cmd),
        r.label@ == item_label(cmd),
        r.accelerator@ == item_accelerator(cmd),
{
    match cmd {
        MenuCommand::NewTab => MenuItemSpec {
            id: "new_tab",
            label: "New Tab",
            accelerator: "CmdOrCtrl+T",
        },
        MenuCommand::Back => MenuItemSpec { id: "back", label: "Back", accelerator: "CmdOrCtrl+[" },
        MenuCommand::Forward => MenuItemSpec {
            id: "forward",
            label: "Forward",
            accelerator: "CmdOrCtrl+]",
        },
        MenuCommand::Reload => MenuItemSpec {
            id: "reload",
            label: "Reload",
            accelerator: "CmdOrCtrl+R",
        },
        MenuCommand::ToggleInspector => MenuItemSpec {
            id: "inspector",
            label: "Toggle Web Inspector",
            accelerator: "Alt+CmdOrCtrl+I",
        },
        MenuCommand::CopyUrl => MenuItemSpec {
            id: "copy_url",
            label: "Copy URL",
            accelerator: "CmdOrCtrl+L",
        },
        _ => MenuItemSpec { id: "settings", label: "Settings\u{2026}", accelerator: "CmdOrCtrl+," },
    }
}

/// Every custom menu item is dispatched to the command it was made for.
pub proof fn lemma_menu_items_dispatch(cmd: MenuCommand)
    requires
        cmd != MenuCommand::Ignore,
    ensures
        spec_menu_command(item_id(cmd)) == cmd,
{
    reveal_strlit("new_tab");
    reveal_strlit("back");
    reveal_strlit("forward");
    reveal_strlit("reload");
    reveal_strlit("inspector");
    reveal_strlit("copy_url");
    reveal_strlit("settings");
    assert("new_tab"@[0] == 'n');
    assert("back"@[0] == 'b');
    assert("forward"@[0] == 'f');
    assert("reload"@[0] == 'r');
    assert("inspector"@[0] == 'i');
    assert("copy_url"@[0] == 'c');
    assert("settings"@[0] == 's');
}

/// No two custom menu items share an accelerator.
pub proof fn lemma_menu_accelerators_distinct(a: MenuCommand, b: MenuCommand)
    requires
        a != MenuCommand::Ignore,
        b != MenuCommand::Ignore,
        a != b,
    ensures
        item_accelerator(a) != item_accelerator(b),
{
    reveal_strlit("CmdOrCtrl+T");
    reveal_strlit("CmdOrCtrl+[");
    reveal_strlit("CmdOrCtrl+]");
    reveal_strlit("CmdOrCtrl+R");
    reveal_strlit("Alt+CmdOrCtrl+I");
    reveal_strlit("CmdOrCtrl+L");
    reveal_strlit("CmdOrCtrl+,");
    assert("CmdOrCtrl+T"@[10] == 'T');
    assert("CmdOrCtrl+["@[10] == '[');
    assert("CmdOrCtrl+]"@[10] == ']');
    assert("CmdOrCtrl+R"@[10] == 'R');
    assert("Alt+CmdOrCtrl+I"@[10] == 't');
    assert("CmdOrCtrl+L"@[10] == 'L');
    assert("CmdOrCtrl+,"@[10] == ',');
}

/// The custom menu items are exactly these: New Tab (`new_tab`, Cmd+T),
/// Back (`back`, Cmd+[), Forward (`forward`, Cmd+]), Reload (`reload`,
/// Cmd+R), Toggle Web Inspector (`inspector`, Alt+Cmd+I), Copy URL
/// (`copy_url`, Cmd+L) and Settings (`settings`, Cmd+,), where Cmd stands
/// for Ctrl outside macOS.
pub proof fn lemma_menu_items_exactly()
    ensures
        item_id(MenuCommand::NewTab) == "new_tab"@ && item_label(MenuCommand::NewTab)
            == "New Tab"@ && item_accelerator(MenuCommand::NewTab) == "CmdOrCtrl+T"@,
        item_id(MenuCommand::Back) == "back"@ && item_label(MenuCommand::Back) == "Back"@
            && item_accelerator(MenuCommand::Back) == "CmdOrCtrl+["@,
        item_id(MenuCommand::Forward) == "forward"@ && item_label(MenuCommand::Forward)
            == "Forward"@ && item_accelerator(MenuCommand::Forward) == "CmdOrCtrl+]"@,
        item_id(MenuCommand::Reload) == "reload"@ && item_label(MenuCommand::Reload)
            == "Reload"@ && item_accelerator(MenuCommand::Reload) == "CmdOrCtrl+R"@,
        item_id(MenuCommand::ToggleInspector) == "inspector"@ && item_label(
            MenuCommand::ToggleInspector,
        ) == "Toggle Web Inspector"@ && item_accelerator(MenuCommand::ToggleInspector)
            == "Alt+CmdOrCtrl+I"@,
        item_id(MenuCommand::CopyUrl) == "copy_url"@ && item_label(MenuCommand::CopyUrl)
            == "Copy URL"@ && item_accelerator(MenuCommand::CopyUrl) == "CmdOrCtrl+L"@,
        item_id(MenuCommand::OpenSettings) == "settings"@ && item_label(
            MenuCommand::OpenSettings,
        ) == "Settings\u{2026}"@ && item_accelerator(MenuCommand::OpenSettings)
            == "CmdOrCtrl+,"@,
{
}

/// Back, Forward and Reload run the page's own `history.back()`,
/// `history.forward()` and `location.reload()`; no other command runs a script.
pub proof fn lemma_page_scripts_exactly(cmd: MenuCommand)
    ensures
        cmd == MenuCommand::Back ==> spec_page_script(cmd) == Some("history.back()"@),
        cmd == MenuCommand::Forward ==> spec_page_script(cmd) == Some("history.forward()"@),
        cmd == MenuCommand::Reload ==> spec_page_script(cmd) == Some("location.reload()"@),
        cmd != MenuCommand::Back && cmd != MenuCommand::Forward && cmd != MenuCommand::Reload
            ==> spec_page_script(cmd) is None,
{
}

/// A menu event dispatches to a command exactly when its id is one of the
/// custom items' ids, and then to that item's command.
pub proof fn lemma_menu_dispatch_exactly(id: Seq<char>)
    ensures
        id == "new_tab"@ ==> spec_menu_command(id) == MenuCommand::NewTab,
        id == "back"@ ==> spec_menu_command(id) == MenuCommand::Back,
        id == "forward"@ ==> spec_menu_command(id) == MenuCommand::Forward,
        id == "reload"@ ==> spec_menu_command(id) == MenuCommand::Reload,
        id == "inspector"@ ==> spec_menu_command(id) == MenuCommand::ToggleInspector,
        id == "copy_url"@ ==> spec_menu_command(id) == MenuCommand::CopyUrl,
        id == "settings"@ ==> spec_menu_command(id) == MenuCommand::OpenSettings,
        id != "new_tab"@ && id != "back"@ && id != "forward"@ && id != "reload"@ && id
            != "inspector"@ && id != "copy_url"@ && id != "settings"@ ==> spec_menu_command(id)
            == MenuCommand::Ignore,
{
    lemma_menu_items_dispatch(MenuCommand::NewTab);
    lemma_menu_items_dispatch(MenuCommand::Back);
    lemma_menu_items_dispatch(MenuCommand::Forward);
    lemma_menu_items_dispatch(MenuCommand::Reload);
    lemma_menu_items_dispatch(MenuCommand::ToggleInspector);
    lemma_menu_items_dispatch(MenuCommand::CopyUrl);
    lemma_menu_items_dispatch(MenuCommand::OpenSettings);
}

} // verus!
