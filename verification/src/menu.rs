//! The tray menu: which action an item's identifier stands for, and what a
//! click does.

use crate::hotkeys::{HotkeyState, StateView};
use crate::settings::{
    toggle_autostart, toggle_autostart_spec, AutostartToggle, Startup, StartupView, StoredValue,
    StoredView,
};
use crate::text::same_text;
use vstd::prelude::*;

verus! {

/// Identifier of the information line.
pub const INFO_ID: &'static str = "info";

/// Identifier of the line that shows the binding.
pub const HOTKEY_INFO_ID: &'static str = "hotkey_info";

/// Identifier of the item that starts a change of the binding.
pub const CHANGE_HOTKEY_ID: &'static str = "change_hotkey";

/// Identifier of the autostart item.
pub const TOGGLE_AUTOSTART_ID: &'static str = "toggle_autostart";

/// Identifier of the sound item.
pub const TOGGLE_PLAY_SOUND_ID: &'static str = "toggle_play_sound";

/// The actions that the menu offers besides quitting.
#[derive(Clone, Copy, Debug, PartialEq, Eq, Structural)]
pub enum MenuAction {
    ToggleAutostart,
    ChangeHotkey,
    TogglePlaySound,
}

/// The action that an item's identifier stands for, if it stands for one.
pub open spec fn menu_action_spec(id: Seq<char>) -> Option<MenuAction> {
    if id == TOGGLE_AUTOSTART_ID@ {
        Some(MenuAction::ToggleAutostart)
    } else if id == CHANGE_HOTKEY_ID@ {
        Some(MenuAction::ChangeHotkey)
    } else if id == TOGGLE_PLAY_SOUND_ID@ {
        Some(MenuAction::TogglePlaySound)
    } else {
        None
    }
}

/// The text of the menu's information line for a version of the program.
pub open spec fn info_line_spec(version: Seq<char>) -> Seq<char> {
    "keyclip - Version "@ + version
}

/// What the surrounding application does after a click.
#[derive(Clone, Copy, Debug, PartialEq, Eq, Structural)]
pub enum MenuEffect {
    /// Switch autostart as the toggle says.
    Autostart(AutostartToggle),
    /// Open the window in which the user chooses a combination.
    OpenCapture,
    /// Write the sound setting and check the menu item accordingly.
    PlaySound(bool),
    /// The identifier is not one of the menu's: nothing is done.
    Unknown,
}

/// The state after a click on the item `id`, and what the click asks for.
/// `autostart` is what the store holds under `autostart_enabled`.
pub open spec fn menu_event_spec(state: StateView, id: Seq<char>, autostart: Option<StoredView>)
    -> (StateView, MenuEffect) {
    match menu_action_spec(id) {
        Some(MenuAction::ToggleAutostart) => (
            state,
            MenuEffect::Autostart(toggle_autostart_spec(autostart)),
        ),
        Some(MenuAction::ChangeHotkey) => (state.begin_change(), MenuEffect::OpenCapture),
        Some(MenuAction::TogglePlaySound) => (
            state.toggle_play_sound(),
            MenuEffect::PlaySound(!state.play_sound),
        ),
        None => (state, MenuEffect::Unknown),
    }
}

/// The action that an item's identifier stands for, if it stands for one.
pub fn menu_action(id: &str) -> (r: Option<MenuAction>)
    ensures
        r == menu_action_spec(id@),
{
    if same_text(id, TOGGLE_AUTOSTART_ID) {
        Some(MenuAction::ToggleAutostart)
    } else if same_text(id, CHANGE_HOTKEY_ID) {
        Some(MenuAction::ChangeHotkey)
    } else if same_text(id, TOGGLE_PLAY_SOUND_ID) {
        Some(MenuAction::TogglePlaySound)
    } else {
        None
    }
}

/// The text of the menu's information line.
pub fn info_line(version: &str) -> (r: String)
    ensures
        r@ == info_line_spec(version@),
{
    let mut line = "keyclip - Version ".to_owned();
    line.append(version);
    line
}

/// How a menu entry behaves.
#[derive(Clone, Copy, Debug, PartialEq, Eq, Structural)]
pub enum EntryKind {
    /// A line that shows text and cannot be clicked.
    Label,
    /// An item that can be clicked.
    Action,
    /// An item that can be clicked and shows a check mark or none.
    Check(bool),
    /// A line between two groups of items.
    Separator,
    /// The item that quits the program.
    Quit,
}

/// One entry of the menu. A separator and the quit item have no identifier
/// of their own, and a separator has no text.
#[derive(Debug, PartialEq, Eq)]
pub struct MenuEntry {
    pub id: String,
    pub text: String,
    pub kind: EntryKind,
}

/// What a menu entry is.
pub struct EntryView {
    pub id: Seq<char>,
    pub text: Seq<char>,
    pub kind: EntryKind,
}

impl View for MenuEntry {
    type V = EntryView;

    open spec fn view(&self) -> EntryView {
        EntryView { id: self.id@, text: self.text@, kind: self.kind }
    }
}

impl DeepView for MenuEntry {
    type V = EntryView;

    open spec fn deep_view(&self) -> EntryView {
        self@
    }
}

/// The menu, top to bottom: the information line, the binding, a separator,
/// the change of the binding, the two settings, and quit.
pub open spec fn menu_layout_spec(version: Seq<char>, start: StartupView) -> Seq<EntryView> {
    seq![
        EntryView { id: INFO_ID@, text: info_line_spec(version), kind: EntryKind::Label },
        EntryView { id: HOTKEY_INFO_ID@, text: start.hotkey_label, kind: EntryKind::Label },
        EntryView { id: ""@, text: ""@, kind: EntryKind::Separator },
        EntryView { id: CHANGE_HOTKEY_ID@, text: "Change hotkey..."@, kind: EntryKind::Action },
        EntryView {
            id: TOGGLE_AUTOSTART_ID@,
            text: "Start on Login"@,
            kind: EntryKind::Check(start.autostart_enabled),
        },
        EntryView {
            id: TOGGLE_PLAY_SOUND_ID@,
            text: "Play sound on clip"@,
            kind: EntryKind::Check(start.state.play_sound),
        },
        EntryView { id: ""@, text: "Quit"@, kind: EntryKind::Quit },
    ]
}

fn entry(id: &str, text: String, kind: EntryKind) -> (r: MenuEntry)
    ensures
        r@ == (EntryView { id: id@, text: text@, kind }),
{
    MenuEntry { id: id.to_owned(), text, kind }
}

/// The menu that the program starts with.
pub fn menu_layout(version: &str, start: &Startup) -> (r: Vec<MenuEntry>)
    ensures
        r.deep_view() == menu_layout_spec(version@, start@),
{
    let mut entries: Vec<MenuEntry> = Vec::new();
    entries.push(entry(INFO_ID, info_line(version), EntryKind::Label));
    entries.push(entry(HOTKEY_INFO_ID, start.hotkey_label.clone(), EntryKind::Label));
    entries.push(entry("", "".to_owned(), EntryKind::Separator));
    entries.push(entry(CHANGE_HOTKEY_ID, "Change hotkey...".to_owned(), EntryKind::Action));
    entries.push(
        entry(
            TOGGLE_AUTOSTART_ID,
            "Start on Login".to_owned(),
            EntryKind::Check(start.autostart_enabled),
        ),
    );
    entries.push(
        entry(
            TOGGLE_PLAY_SOUND_ID,
            "Play sound on clip".to_owned(),
            EntryKind::Check(start.state.play_sound()),
        ),
    );
    entries.push(entry("", "Quit".to_owned(), EntryKind::Quit));
    entries
}

/// Handles a click on the item `id`. `autostart` is what the store holds
/// under `autostart_enabled`.
pub fn on_menu_event(state: &mut HotkeyState, id: &str, autostart: &Option<StoredValue>) -> (effect:
    MenuEffect)
    ensures
        (final(state)@, effect) == menu_event_spec(old(state)@, id@, autostart.deep_view()),
{
    match menu_action(id) {
        Some(MenuAction::ToggleAutostart) => MenuEffect::Autostart(toggle_autostart(autostart)),
        Some(MenuAction::ChangeHotkey) => {
            state.begin_change();
            MenuEffect::OpenCapture
        },
        Some(MenuAction::TogglePlaySound) => MenuEffect::PlaySound(state.toggle_play_sound()),
        None => MenuEffect::Unknown,
    }
}

} // verus!
