//! What a hotkey notification does: while dispatch is armed, a press of the
//! active binding clips a fresh identifier; everything else is ignored.

use crate::hotkeys::{HotkeyState, StateView};
use crate::outside::{fresh_uuid, is_uuid_text};
use vstd::prelude::*;

verus! {

/// Whether the key went down or came up.
#[derive(Clone, Copy, Debug, PartialEq, Eq, Structural)]
pub enum KeyPhase {
    Pressed,
    Released,
}

/// A notification of the registrar: the identifier of the shortcut that
/// fired, and the phase.
#[derive(Clone, Copy, Debug, PartialEq, Eq, Structural)]
pub struct HotkeyEvent {
    pub id: u32,
    pub phase: KeyPhase,
}

/// Whether `event` triggers the clip action in `state`: dispatch is armed,
/// the key went down, and the shortcut is the active binding's.
pub open spec fn should_clip(state: StateView, event: HotkeyEvent) -> bool {
    !state.recording && event.phase == KeyPhase::Pressed && event.id == state.binding.id
}

/// What the surrounding application does on a hotkey notification.
#[derive(Debug, PartialEq, Eq)]
pub enum DispatchAction {
    /// Nothing.
    Ignore,
    /// Write `text` to the clipboard and, if `play_sound`, start the
    /// notification sound without waiting for it.
    Clip { text: String, play_sound: bool },
}

/// What an action is.
pub enum ActionView {
    Ignore,
    Clip { text: Seq<char>, play_sound: bool },
}

impl View for DispatchAction {
    type V = ActionView;

    open spec fn view(&self) -> ActionView {
        match self {
            DispatchAction::Ignore => ActionView::Ignore,
            DispatchAction::Clip { text, play_sound } => ActionView::Clip {
                text: text@,
                play_sound: *play_sound,
            },
        }
    }
}

/// The action on `event` in `state`, were `text` the fresh identifier.
pub open spec fn dispatch_spec(state: StateView, event: HotkeyEvent, text: Seq<char>)
    -> ActionView {
    if should_clip(state, event) {
        ActionView::Clip { text, play_sound: state.play_sound }
    } else {
        ActionView::Ignore
    }
}

/// Whether `event` triggers the clip action in `state`.
pub fn clips(state: &HotkeyState, event: HotkeyEvent) -> (r: bool)
    ensures
        r == should_clip(state@, event),
{
    !state.is_recording() && event.phase == KeyPhase::Pressed && event.id == state.binding().id()
}

/// The action on `event` in `state`, with `text` as the identifier to clip.
pub fn dispatch_with(state: &HotkeyState, event: HotkeyEvent, text: String) -> (action:
    DispatchAction)
    ensures
        action@ == dispatch_spec(state@, event, text@),
{
    if clips(state, event) {
        DispatchAction::Clip { text, play_sound: state.play_sound() }
    } else {
        DispatchAction::Ignore
    }
}

/// Decides what a hotkey notification does. A clip carries an identifier
/// drawn for it; no identifier is drawn for an event that is ignored.
pub fn on_hotkey_event(state: &HotkeyState, event: HotkeyEvent) -> (action: DispatchAction)
    ensures
        match action@ {
            ActionView::Ignore => !should_clip(state@, event),
            ActionView::Clip { text, play_sound } => {
                &&& should_clip(state@, event)
                &&& is_uuid_text(text)
                &&& play_sound == state@.play_sound
            },
        },
{
    if clips(state, event) {
        dispatch_with(state, event, fresh_uuid())
    } else {
        DispatchAction::Ignore
    }
}

} // verus!
