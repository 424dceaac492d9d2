//! Hotkey configuration and dispatch for a menu-bar utility that copies a
//! fresh identifier to the clipboard when a global hotkey is pressed.
//!
//! The crate holds the decisions; the surrounding application performs the
//! effects that those decisions ask for: it reads and writes the settings
//! store, claims and releases combinations at the registrar, shows the menu,
//! writes the clipboard and plays the sound.
//!
//! - [`modifiers`], [`keycode`], [`binding`]: the parts of a binding.
//! - [`hotkeys`]: the label of a binding, the state that the handlers share,
//!   and the protocol that replaces the active binding.
//! - [`dispatch`]: what a hotkey notification does.
//! - [`settings`]: the persisted settings and what startup makes of them.
//! - [`menu`]: the tray menu and its clicks.
//! - [`laws`]: what holds over whole runs of events.
//! - [`outside`]: the calls into other crates, with what is believed of them.
//! - [`text`]: the text operations under the labels.

pub mod binding;
pub mod dispatch;
pub mod hotkeys;
pub mod keycode;
pub mod laws;
pub mod menu;
pub mod modifiers;
pub mod outside;
pub mod settings;
pub mod text;
