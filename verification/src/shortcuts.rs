//! Global hotkeys: parsing the accelerator strings the user enters, checking a
//! requested pair of hotkeys, and matching a fired hotkey to its action.

use vstd::prelude::*;
use global_hotkey::hotkey::{HotKey, HotKeyParseError};
use crate::settings::{opt_chars, ShortcutValues, ValuesView};
use crate::text::{trim, trim_str, lemma_trim_idempotent};

verus! {

#[verifier::external_type_specification]
#[verifier::external_body]
pub struct ExHotKeyParseError(HotKeyParseError);

/// A keyboard shortcut as global-hotkey's `HotKey` holds it: the modifier
/// bits, the key code (the discriminant of `Code`) and the hotkey id.
#[derive(Clone, Copy, Debug, PartialEq, Eq, Structural)]
pub struct Shortcut {
    pub mods: u32,
    pub key: u32,
    pub id: u32,
}

/// What `HotKey::from_str` of global-hotkey, as built for the target platform
/// (`CmdOrCtrl` is Super on macOS and Control elsewhere), gives for an
/// accelerator string: the shortcut it denotes, or `None` where it reports a
/// parse error.
pub uninterp spec fn hotkey_from_str(text: Seq<char>) -> Option<Shortcut>;

/// Calls `HotKey::from_str` (global-hotkey) and hands back the parsed hotkey's
/// modifier bits, key code and id. Trusted: the outcome is `hotkey_from_str`
/// of the text, an error exactly where that is `None`.
#[verifier::external_body]
fn parse_hotkey(text: &str) -> (r: Result<Shortcut, HotKeyParseError>)
    ensures
        match r {
            Ok(k) => hotkey_from_str(text@) == Some(k),
            Err(_) => hotkey_from_str(text@) is None,
        },
{
    match text.parse::<HotKey>() {
        Ok(h) => Ok(Shortcut { mods: h.mods.bits(), key: h.key as u32, id: h.id() }),
        Err(e) => Err(e),
    }
}

/// The message shown for an accelerator string that does not parse.
pub open spec fn invalid_shortcut_message(text: Seq<char>) -> Seq<char> {
    "\""@ + text + "\" is not a valid shortcut"@
}

/// The message shown when both actions are bound to the same hotkey.
pub open spec fn same_shortcut_message() -> Seq<char> {
    "Both actions are set to the same shortcut"@
}

/// A parsed hotkey entry, its text taken by its characters.
pub open spec fn entry_view(e: Option<(String, Shortcut)>) -> Option<(Seq<char>, Shortcut)> {
    match e {
        Some((t, k)) => Some((t@, k)),
        None => None,
    }
}

/// A setting with blanks treated as unset: the trimmed text, or `None` where
/// nothing but whitespace (or nothing at all) was entered.
pub open spec fn normalized(value: Option<Seq<char>>) -> Option<Seq<char>> {
    match value {
        Some(s) => if trim(s).len() > 0 {
            Some(trim(s))
        } else {
            None
        },
        None => None,
    }
}

/// What parsing one optional accelerator string yields: unset, the trimmed
/// string with its hotkey, or the error message for an unparsable string.
pub open spec fn spec_parse_shortcut(value: Option<Seq<char>>) -> Result<
    Option<(Seq<char>, Shortcut)>,
    Seq<char>,
> {
    match normalized(value) {
        None => Ok(None),
        Some(t) => match hotkey_from_str(t) {
            Some(k) => Ok(Some((t, k))),
            None => Err(invalid_shortcut_message(t)),
        },
    }
}

/// A parse outcome, its strings taken by their characters.
pub open spec fn parse_result_view(r: Result<Option<(String, Shortcut)>, String>) -> Result<
    Option<(Seq<char>, Shortcut)>,
    Seq<char>,
> {
    match r {
        Ok(e) => Ok(entry_view(e)),
        Err(m) => Err(m@),
    }
}

/// Turns the outcome of parsing the (trimmed, non-blank) accelerator string
/// `text` into an entry: the string with its hotkey, or the error message.
pub fn accept_parsed_shortcut(text: String, parsed: Option<Shortcut>) -> (r: Result<
    (String, Shortcut),
    String,
>)
    ensures
        match parsed {
            Some(k) => r matches Ok((t, k2)) && t@ == text@ && k2 == k,
            None => r matches Err(m) && m@ == invalid_shortcut_message(text@),
        },
{
    match parsed {
        Some(k) => Ok((text, k)),
        None => {
            let mut m = String::from_str("\"");
            m.append(text.as_str());
            m.append("\" is not a valid shortcut");
            Err(m)
        },
    }
}

/// Parses one optional accelerator string, treating blank as unset. Returns
/// the trimmed string paired with its hotkey, or a message on a bad value.
pub fn parse_shortcut(value: Option<String>) -> (r: Result<Option<(String, Shortcut)>, String>)
    ensures
        parse_result_view(r) == spec_parse_shortcut(opt_chars(value)),
{
    match value {
        None => Ok(None),
        Some(s) => {
            let t = trim_str(s.as_str());
            if t.as_str().unicode_len() == 0 {
                return Ok(None);
            }
            let parsed = match parse_hotkey(t.as_str()) {
                Ok(k) => Some(k),
                Err(_) => None,
            };
            match accept_parsed_shortcut(t, parsed) {
                Ok(e) => Ok(Some(e)),
                Err(m) => Err(m),
            }
        },
    }
}

/// The live hotkeys by their characters: for each action, the accelerator
/// string as the user entered it (trimmed) with the hotkey it denotes.
pub struct SetView {
    pub focus: Option<(Seq<char>, Shortcut)>,
    pub focus_new_tab: Option<(Seq<char>, Shortcut)>,
}

/// An entry of the live set is a trimmed, non-blank string and the hotkey
/// that string parses to.
pub open spec fn entry_valid(e: Option<(Seq<char>, Shortcut)>) -> bool {
    match e {
        Some((t, k)) => trim(t) == t && t.len() > 0 && hotkey_from_str(t) == Some(k),
        None => true,
    }
}

/// A live set of hotkeys is valid: each entry is valid and the two actions
/// are not bound to the same hotkey.
pub open spec fn set_valid(s: SetView) -> bool {
    &&& entry_valid(s.focus)
    &&& entry_valid(s.focus_new_tab)
    &&& match (s.focus, s.focus_new_tab) {
        (Some((_, a)), Some((_, b))) => a != b,
        _ => true,
    }
}

/// The accelerator string of an entry.
pub open spec fn entry_text(e: Option<(Seq<char>, Shortcut)>) -> Option<Seq<char>> {
    match e {
        Some((t, _)) => Some(t),
        None => None,
    }
}

/// The hotkey of an entry.
pub open spec fn entry_key(e: Option<(Seq<char>, Shortcut)>) -> Option<Shortcut> {
    match e {
        Some((_, k)) => Some(k),
        None => None,
    }
}

/// The values a live set shows in the settings window and writes to the settings file.
pub open spec fn shown_values(s: SetView) -> ValuesView {
    ValuesView { focus: entry_text(s.focus), focus_new_tab: entry_text(s.focus_new_tab) }
}

/// Requested values with blanks treated as unset and the rest trimmed.
pub open spec fn normalized_values(v: ValuesView) -> ValuesView {
    ValuesView { focus: normalized(v.focus), focus_new_tab: normalized(v.focus_new_tab) }
}

/// The outcome of checking requested hotkey values: the new live set, the
/// message for the first unparsable value, or the message for both actions
/// bound to the same hotkey.
pub open spec fn spec_prepare(v: ValuesView) -> Result<SetView, Seq<char>> {
    match spec_parse_shortcut(v.focus) {
        Err(m) => Err(m),
        Ok(f) => match spec_parse_shortcut(v.focus_new_tab) {
            Err(m) => Err(m),
            Ok(g) => match (f, g) {
                (Some((_, a)), Some((_, b))) if a == b => Err(same_shortcut_message()),
                _ => Ok(SetView { focus: f, focus_new_tab: g }),
            },
        },
    }
}

/// What firing a hotkey asks of the app.
#[derive(Clone, Copy, Debug, PartialEq, Eq, Structural)]
pub enum HotkeyAction {
    /// Nothing: the hotkey was released, or is not one of ours.
    Ignore,
    /// Bring the app forward.
    BringForward,
    /// Bring the app forward and open a new tab.
    BringForwardAndNewTab,
}

/// The action for a hotkey event: only a press counts, the focus hotkey
/// first, then the new-tab hotkey.
pub open spec fn spec_hotkey_action(s: SetView, fired: Shortcut, pressed: bool) -> HotkeyAction {
    if !pressed {
        HotkeyAction::Ignore
    } else if s.focus matches Some((_, k)) && k == fired {
        HotkeyAction::BringForward
    } else if s.focus_new_tab matches Some((_, k)) && k == fired {
        HotkeyAction::BringForwardAndNewTab
    } else {
        HotkeyAction::Ignore
    }
}

/// The live global shortcuts: for each action, the accelerator string as the
/// user entered it (shown in the settings window and persisted) alongside its
/// parsed hotkey (used to match a fired hotkey).
#[derive(Debug)]
pub struct GlobalShortcuts {
    focus: Option<(String, Shortcut)>,
    focus_new_tab: Option<(String, Shortcut)>,
}

impl View for GlobalShortcuts {
    type V = SetView;

    closed spec fn view(&self) -> SetView {
        SetView { focus: entry_view(self.focus), focus_new_tab: entry_view(self.focus_new_tab) }
    }
}

impl GlobalShortcuts {
    #[verifier::type_invariant]
    spec fn inv(self) -> bool {
        set_valid(self@)
    }

    /// No hotkey set.
    pub fn new() -> (r: GlobalShortcuts)
        ensures
            r@.focus is None,
            r@.focus_new_tab is None,
    {
        GlobalShortcuts { focus: None, focus_new_tab: None }
    }

    /// The current hotkey accelerator strings, for populating the settings window.
    pub fn get_shortcuts(&self) -> (r: ShortcutValues)
        ensures
            r@ == shown_values(self@),
    {
        let focus = match &self.focus {
            Some((t, _)) => Some(t.clone()),
            None => None,
        };
        let focus_new_tab = match &self.focus_new_tab {
            Some((t, _)) => Some(t.clone()),
            None => None,
        };
        ShortcutValues { focus, focus_new_tab }
    }

    /// The accelerator strings to register, the focus hotkey first.
    pub fn registrations(&self) -> (r: Vec<String>)
        ensures
            r@.map_values(|t: String| t@) == match (entry_text(self@.focus), entry_text(
                self@.focus_new_tab,
            )) {
                (Some(a), Some(b)) => seq![a, b],
                (Some(a), None) => seq![a],
                (None, Some(b)) => seq![b],
                (None, None) => Seq::<Seq<char>>::empty(),
            },
    {
        let mut r: Vec<String> = Vec::new();
        match &self.focus {
            Some((t, _)) => r.push(t.clone()),
            None => {},
        }
        match &self.focus_new_tab {
            Some((t, _)) => r.push(t.clone()),
            None => {},
        }
        proof {
            assert(r@.map_values(|t: String| t@) =~= match (entry_text(self@.focus), entry_text(
                self@.focus_new_tab,
            )) {
                (Some(a), Some(b)) => seq![a, b],
                (Some(a), None) => seq![a],
                (None, Some(b)) => seq![b],
                (None, None) => Seq::<Seq<char>>::empty(),
            });
        }
        r
    }

    /// Settles a request to change the live set: where it was accepted (and
    /// its hotkeys registered) the new set replaces the live one; on any error
    /// the live set is left as it was and the message is handed on.
    pub fn apply(&mut self, outcome: Result<GlobalShortcuts, String>) -> (r: Result<(), String>)
        ensures
            match outcome {
                Ok(next) => r is Ok && final(self)@ == next@,
                Err(m) => r == Err::<(), String>(m) && final(self)@ == old(self)@,
            },
    {
        match outcome {
            Ok(next) => {
                *self = next;
                Ok(())
            },
            Err(m) => Err(m),
        }
    }

    /// The action a hotkey event asks for: a press of the focus hotkey brings
    /// the app forward, a press of the new-tab hotkey also opens a tab.
    pub fn hotkey_action(&self, fired: Shortcut, pressed: bool) -> (r: HotkeyAction)
        ensures
            r == spec_hotkey_action(self@, fired, pressed),
    {
        if !pressed {
            return HotkeyAction::Ignore;
        }
        let is_focus = match &self.focus {
            Some((_, k)) => *k == fired,
            None => false,
        };
        let is_focus_new_tab = match &self.focus_new_tab {
            Some((_, k)) => *k == fired,
            None => false,
        };
        if is_focus {
            HotkeyAction::BringForward
        } else if is_focus_new_tab {
            HotkeyAction::BringForwardAndNewTab
        } else {
            HotkeyAction::Ignore
        }
    }
}

proof fn lemma_parse_entry_valid(v: Option<Seq<char>>)
    ensures
        spec_parse_shortcut(v) matches Ok(e) ==> entry_valid(e),
{
    if let Some(s) = v {
        lemma_trim_idempotent(s);
    }
}

/// Parses and checks requested hotkey values. On success the result is the
/// new live set, to be installed once its hotkeys are registered; on a bad
/// value, or both actions bound to the same hotkey, the message to show.
pub fn prepare_shortcuts(values: ShortcutValues) -> (r: Result<GlobalShortcuts, String>)
    ensures
        match r {
            Ok(s) => spec_prepare(values@) == Ok::<SetView, Seq<char>>(s@),
            Err(m) => spec_prepare(values@) == Err::<SetView, Seq<char>>(m@),
        },
{
    proof {
        lemma_parse_entry_valid(values@.focus);
        lemma_parse_entry_valid(values@.focus_new_tab);
    }
    let focus = match parse_shortcut(values.focus) {
        Ok(e) => e,
        Err(m) => return Err(m),
    };
    let focus_new_tab = match parse_shortcut(values.focus_new_tab) {
        Ok(e) => e,
        Err(m) => return Err(m),
    };
    let same = match (&focus, &focus_new_tab) {
        (Some((_, a)), Some((_, b))) => *a == *b,
        _ => false,
    };
    if same {
        return Err(String::from_str("Both actions are set to the same shortcut"));
    }
    Ok(GlobalShortcuts { focus, focus_new_tab })
}

/// The live set that saved values give at startup: each value that parses is
/// kept and only a bad one is dropped (left unset); where both parse to the
/// same hotkey, the request is refused as a whole and both are left unset.
pub open spec fn spec_startup(v: ValuesView) -> SetView {
    let f = match spec_parse_shortcut(v.focus) {
        Ok(e) => e,
        Err(_) => None,
    };
    let g = match spec_parse_shortcut(v.focus_new_tab) {
        Ok(e) => e,
        Err(_) => None,
    };
    match (f, g) {
        (Some((_, a)), Some((_, b))) if a == b => SetView { focus: None, focus_new_tab: None },
        _ => SetView { focus: f, focus_new_tab: g },
    }
}

/// The hotkeys to install from the saved settings at startup: a bad saved
/// value leaves that hotkey unset rather than preventing the others.
pub fn startup_shortcuts(values: ShortcutValues) -> (r: GlobalShortcuts)
    ensures
        r@ == spec_startup(values@),
{
    proof {
        lemma_parse_entry_valid(values@.focus);
        lemma_parse_entry_valid(values@.focus_new_tab);
    }
    let focus = match parse_shortcut(values.focus) {
        Ok(e) => e,
        Err(_) => None,
    };
    let focus_new_tab = match parse_shortcut(values.focus_new_tab) {
        Ok(e) => e,
        Err(_) => None,
    };
    let same = match (&focus, &focus_new_tab) {
        (Some((_, a)), Some((_, b))) => *a == *b,
        _ => false,
    };
    if same {
        GlobalShortcuts { focus: None, focus_new_tab: None }
    } else {
        GlobalShortcuts { focus, focus_new_tab }
    }
}

/// The entries of a set whose registration succeeded: `registered` holds the
/// outcomes in the order of `registrations` (focus first); an entry without
/// an outcome counts as not registered.
pub open spec fn spec_retain_registered(s: SetView, registered: Seq<bool>) -> SetView {
    let focus_at: int = 0;
    let new_tab_at: int = if s.focus is Some {
        1
    } else {
        0
    };
    SetView {
        focus: if s.focus is Some && focus_at < registered.len() && registered[focus_at] {
            s.focus
        } else {
            None
        },
        focus_new_tab: if s.focus_new_tab is Some && new_tab_at < registered.len()
            && registered[new_tab_at] {
            s.focus_new_tab
        } else {
            None
        },
    }
}

impl GlobalShortcuts {
    /// The live set after registering this set's hotkeys one by one at
    /// startup: a hotkey whose registration failed is left unset, the others
    /// stay.
    pub fn retain_registered(self, registered: &Vec<bool>) -> (r: GlobalShortcuts)
        ensures
            r@ == spec_retain_registered(self@, registered@),
    {
        proof {
            use_type_invariant(&self);
        }
        let new_tab_at: usize = if self.focus.is_some() {
            1
        } else {
            0
        };
        let keep_focus = self.focus.is_some() && 0 < registered.len() && registered[0];
        let keep_new_tab = self.focus_new_tab.is_some() && new_tab_at < registered.len()
            && registered[new_tab_at];
        let GlobalShortcuts { focus, focus_new_tab } = self;
        GlobalShortcuts {
            focus: if keep_focus {
                focus
            } else {
                None
            },
            focus_new_tab: if keep_new_tab {
                focus_new_tab
            } else {
                None
            },
        }
    }
}

/// Where the saved values pass the check of the settings window, loading them
/// at startup gives the same live set as submitting them.
pub proof fn lemma_startup_agrees_with_check(v: ValuesView, s: SetView)
    requires
        spec_prepare(v) == Ok::<SetView, Seq<char>>(s),
    ensures
        spec_startup(v) == s,
{
}

/// Whatever a successful check accepts is a valid live set, and the values it
/// then shows and saves are exactly the requested ones, trimmed, with blanks
/// as unset: the settings file mirrors what was registered.
pub proof fn lemma_prepared_values_mirror_request(v: ValuesView, s: SetView)
    requires
        spec_prepare(v) == Ok::<SetView, Seq<char>>(s),
    ensures
        set_valid(s),
        shown_values(s) == normalized_values(v),
{
    lemma_parse_entry_valid(v.focus);
    lemma_parse_entry_valid(v.focus_new_tab);
}

/// Submitting the values that a live set shows gives back the same live set:
/// saving the settings window unchanged changes nothing.
pub proof fn lemma_reapply_is_identity(s: SetView)
    requires
        set_valid(s),
    ensures
        spec_prepare(shown_values(s)) == Ok::<SetView, Seq<char>>(s),
{
    assert(spec_parse_shortcut(entry_text(s.focus)) == Ok::<
        Option<(Seq<char>, Shortcut)>,
        Seq<char>,
    >(s.focus));
    assert(spec_parse_shortcut(entry_text(s.focus_new_tab)) == Ok::<
        Option<(Seq<char>, Shortcut)>,
        Seq<char>,
    >(s.focus_new_tab));
}

/// In a valid live set, pressing the focus hotkey brings the app forward,
/// pressing the new-tab hotkey brings it forward and opens a tab, and any
/// other hotkey, or any release, does nothing.
pub proof fn lemma_hotkey_dispatch(s: SetView, fired: Shortcut)
    requires
        set_valid(s),
    ensures
        spec_hotkey_action(s, fired, false) == HotkeyAction::Ignore,
        match s.focus {
            Some((_, k)) => k == fired ==> spec_hotkey_action(s, fired, true)
                == HotkeyAction::BringForward,
            None => true,
        },
        match s.focus_new_tab {
            Some((_, k)) => k == fired ==> spec_hotkey_action(s, fired, true)
                == HotkeyAction::BringForwardAndNewTab,
            None => true,
        },
        (match s.focus {
            Some((_, k)) => k != fired,
            None => true,
        }) && (match s.focus_new_tab {
            Some((_, k)) => k != fired,
            None => true,
        }) ==> spec_hotkey_action(s, fired, true) == HotkeyAction::Ignore,
{
}

/// Parsing one setting: nothing, or nothing but whitespace, is unset; other
/// text is trimmed and, where global-hotkey parses it, kept with its hotkey;
/// text it cannot parse is refused with the message
/// `"<trimmed text>" is not a valid shortcut`.
pub proof fn lemma_parse_shortcut_outcome(x: Option<Seq<char>>)
    ensures
        x is None ==> spec_parse_shortcut(x) == Ok::<Option<(Seq<char>, Shortcut)>, Seq<char>>(
            None,
        ),
        forall|s: Seq<char>|
            x == Some(s) && trim(s).len() == 0 ==> spec_parse_shortcut(x) == Ok::<
                Option<(Seq<char>, Shortcut)>,
                Seq<char>,
            >(None),
        forall|s: Seq<char>, k: Shortcut|
            x == Some(s) && trim(s).len() > 0 && hotkey_from_str(trim(s)) == Some(k)
                ==> spec_parse_shortcut(x) == Ok::<Option<(Seq<char>, Shortcut)>, Seq<char>>(
                Some((trim(s), k)),
            ),
        forall|s: Seq<char>|
            x == Some(s) && trim(s).len() > 0 && hotkey_from_str(trim(s)) is None
                ==> spec_parse_shortcut(x) == Err::<Option<(Seq<char>, Shortcut)>, Seq<char>>(
                "\""@ + trim(s) + "\" is not a valid shortcut"@,
            ),
{
}

/// Blanking a field clears it: a request whose focus (or new-tab) value is
/// empty or only whitespace is checked exactly like one where it is unset.
pub proof fn lemma_blank_is_unset(v: ValuesView, s: Seq<char>)
    requires
        trim(s).len() == 0,
    ensures
        v.focus == Some(s) ==> spec_prepare(v) == spec_prepare(
            ValuesView { focus: None, focus_new_tab: v.focus_new_tab },
        ),
        v.focus_new_tab == Some(s) ==> spec_prepare(v) == spec_prepare(
            ValuesView { focus: v.focus, focus_new_tab: None },
        ),
        v.focus == Some(s) ==> spec_startup(v) == spec_startup(
            ValuesView { focus: None, focus_new_tab: v.focus_new_tab },
        ),
        v.focus_new_tab == Some(s) ==> spec_startup(v) == spec_startup(
            ValuesView { focus: v.focus, focus_new_tab: None },
        ),
{
}

/// Only the trimmed text of a value counts: values that trim to the same
/// text are checked alike.
pub proof fn lemma_only_trimmed_text_counts(v: ValuesView, a: Seq<char>, b: Seq<char>)
    requires
        trim(a) == trim(b),
    ensures
        v.focus == Some(a) ==> spec_prepare(v) == spec_prepare(
            ValuesView { focus: Some(b), focus_new_tab: v.focus_new_tab },
        ),
        v.focus_new_tab == Some(a) ==> spec_prepare(v) == spec_prepare(
            ValuesView { focus: v.focus, focus_new_tab: Some(b) },
        ),
{
}

/// The check of a request: a bad focus value is reported first, then a bad
/// new-tab value, then two values for the same hotkey (with the message
/// `Both actions are set to the same shortcut`); otherwise the new live set
/// holds exactly the two parsed values.
pub proof fn lemma_prepare_outcome(v: ValuesView)
    ensures
        spec_parse_shortcut(v.focus) is Err ==> spec_prepare(v) is Err
            && spec_prepare(v)->Err_0 == spec_parse_shortcut(v.focus)->Err_0,
        spec_parse_shortcut(v.focus) is Ok && spec_parse_shortcut(v.focus_new_tab) is Err
            ==> spec_prepare(v) is Err && spec_prepare(v)->Err_0 == spec_parse_shortcut(
            v.focus_new_tab,
        )->Err_0,
        forall|ta: Seq<char>, tb: Seq<char>, k: Shortcut|
            spec_parse_shortcut(v.focus) == Ok::<Option<(Seq<char>, Shortcut)>, Seq<char>>(
                Some((ta, k)),
            ) && spec_parse_shortcut(v.focus_new_tab) == Ok::<
                Option<(Seq<char>, Shortcut)>,
                Seq<char>,
            >(Some((tb, k))) ==> spec_prepare(v) == Err::<SetView, Seq<char>>(
                "Both actions are set to the same shortcut"@,
            ),
        spec_prepare(v) is Ok ==> Ok::<Option<(Seq<char>, Shortcut)>, Seq<char>>(
            spec_prepare(v)->Ok_0.focus,
        ) == spec_parse_shortcut(v.focus) && Ok::<Option<(Seq<char>, Shortcut)>, Seq<char>>(
            spec_prepare(v)->Ok_0.focus_new_tab,
        ) == spec_parse_shortcut(v.focus_new_tab),
        spec_parse_shortcut(v.focus) is Ok && spec_parse_shortcut(v.focus_new_tab) is Ok && (
        match (spec_parse_shortcut(v.focus)->Ok_0, spec_parse_shortcut(v.focus_new_tab)->Ok_0) {
            (Some((_, a)), Some((_, b))) => a != b,
            _ => true,
        }) ==> spec_prepare(v) is Ok,
{
}

/// Startup drops only what is bad: a saved value that does not parse is
/// treated as unset and the other value is loaded as if it were alone, and
/// two saved values for the same hotkey leave both unset.
pub proof fn lemma_startup_outcome(v: ValuesView)
    ensures
        spec_parse_shortcut(v.focus) is Err ==> spec_startup(v) == spec_startup(
            ValuesView { focus: None, focus_new_tab: v.focus_new_tab },
        ),
        spec_parse_shortcut(v.focus_new_tab) is Err ==> spec_startup(v) == spec_startup(
            ValuesView { focus: v.focus, focus_new_tab: None },
        ),
        forall|ta: Seq<char>, tb: Seq<char>, k: Shortcut|
            spec_parse_shortcut(v.focus) == Ok::<Option<(Seq<char>, Shortcut)>, Seq<char>>(
                Some((ta, k)),
            ) && spec_parse_shortcut(v.focus_new_tab) == Ok::<
                Option<(Seq<char>, Shortcut)>,
                Seq<char>,
            >(Some((tb, k))) ==> spec_startup(v).focus is None && spec_startup(
                v,
            ).focus_new_tab is None,
        spec_startup(v).focus is Some ==> Ok::<Option<(Seq<char>, Shortcut)>, Seq<char>>(
            spec_startup(v).focus,
        ) == spec_parse_shortcut(v.focus),
        spec_startup(v).focus_new_tab is Some ==> Ok::<Option<(Seq<char>, Shortcut)>, Seq<char>>(
            spec_startup(v).focus_new_tab,
        ) == spec_parse_shortcut(v.focus_new_tab),
{
}

/// After registering at startup, an entry survives only where its own
/// registration succeeded: the focus hotkey is registered first (outcome 0),
/// the new-tab hotkey next (outcome 1 after a focus hotkey, 0 without one);
/// a surviving entry is unchanged, and a missing outcome counts as a failure.
pub proof fn lemma_retain_registered(s: SetView, reg: Seq<bool>)
    ensures
        spec_retain_registered(s, reg).focus is Some ==> spec_retain_registered(s, reg).focus
            == s.focus && 0 < reg.len() && reg[0],
        s.focus is Some && 0 < reg.len() && reg[0] ==> spec_retain_registered(s, reg).focus
            == s.focus,
        s.focus is Some ==> (spec_retain_registered(s, reg).focus_new_tab is Some
            <==> s.focus_new_tab is Some && 1 < reg.len() && reg[1]),
        s.focus is None ==> (spec_retain_registered(s, reg).focus_new_tab is Some
            <==> s.focus_new_tab is Some && 0 < reg.len() && reg[0]),
        spec_retain_registered(s, reg).focus_new_tab is Some ==> spec_retain_registered(
            s,
            reg,
        ).focus_new_tab == s.focus_new_tab,
        s.focus is None ==> spec_retain_registered(s, reg).focus is None,
{
}

} // verus!
