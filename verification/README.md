# tabbed_web_app

The decision logic of a desktop app that wraps a web site in native tabs,
written in Verus and proved against its contracts.

- `src/routing.rs`: which links stay in the app, which open a new in-app tab,
  which go to the default browser.
- `src/shortcuts.rs`: parsing and checking the two global hotkeys, the live
  set of hotkeys, and matching a fired hotkey to its action.
- `src/tabs.rs`: unique tab-window labels and the choice of the tab an
  action applies to.
- `src/menu.rs`: the custom menu items and the dispatch of menu events.
- `src/settings.rs`: the settings kept in the settings file.
- `src/text.rs`: whitespace trimming, suffix tests, decimal rendering.
- `app/`: the Tauri shell (windows, plugins, files, macOS tab plumbing) that
  performs what the library decides.
