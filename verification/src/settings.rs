//! The persisted settings: what the store holds under its four keys, how the
//! values are read at startup, and what is written back.
//!
//! | key                 | value                     | default      |
//! |---------------------|---------------------------|--------------|
//! | `autostart_enabled` | boolean                   | `false`      |
//! | `hotkey_modifiers`  | integer bitmask           | Meta + Shift |
//! | `hotkey_code`       | string, a key identifier  | `KeyK`       |
//! | `play_sound`        | boolean                   | `true`       |

use crate::binding::{BindingView, HotkeyBinding};
use crate::hotkeys::{menu_label, menu_label_spec, HotkeyState, StateView};
use crate::keycode::{default_key_name, KeyCode};
use crate::laws::lemma_reload_is_stable;
use crate::modifiers::{ModifierSet, DEFAULT_MODIFIERS};
use crate::outside::canonical_code;
use vstd::prelude::*;

verus! {

/// The key of the autostart setting.
pub const AUTOSTART_KEY: &'static str = "autostart_enabled";

/// The key of the binding's modifier bitmask.
pub const HOTKEY_MODIFIERS_KEY: &'static str = "hotkey_modifiers";

/// The key of the binding's key identifier.
pub const HOTKEY_CODE_KEY: &'static str = "hotkey_code";

/// The key of the sound setting.
pub const PLAY_SOUND_KEY: &'static str = "play_sound";

/// A value as the store holds it.
#[derive(Debug, PartialEq, Eq)]
pub enum StoredValue {
    Bool(bool),
    Integer(i64),
    Text(String),
    /// Anything else: a fraction, a list, a map, null.
    Other,
}

/// What a stored value is.
pub enum StoredView {
    Bool(bool),
    Integer(i64),
    Text(Seq<char>),
    Other,
}

impl View for StoredValue {
    type V = StoredView;

    open spec fn view(&self) -> StoredView {
        match self {
            StoredValue::Bool(b) => StoredView::Bool(*b),
            StoredValue::Integer(i) => StoredView::Integer(*i),
            StoredValue::Text(t) => StoredView::Text(t@),
            StoredValue::Other => StoredView::Other,
        }
    }
}

impl DeepView for StoredValue {
    type V = StoredView;

    open spec fn deep_view(&self) -> StoredView {
        self@
    }
}

/// What the store held under each of the four keys when it was read; `None`
/// where the key was absent.
#[derive(Debug, PartialEq, Eq)]
pub struct SettingsSnapshot {
    pub autostart_enabled: Option<StoredValue>,
    pub hotkey_modifiers: Option<StoredValue>,
    pub hotkey_code: Option<StoredValue>,
    pub play_sound: Option<StoredValue>,
}

/// What a snapshot is.
pub struct SnapshotView {
    pub autostart_enabled: Option<StoredView>,
    pub hotkey_modifiers: Option<StoredView>,
    pub hotkey_code: Option<StoredView>,
    pub play_sound: Option<StoredView>,
}

impl View for SettingsSnapshot {
    type V = SnapshotView;

    open spec fn view(&self) -> SnapshotView {
        SnapshotView {
            autostart_enabled: self.autostart_enabled.deep_view(),
            hotkey_modifiers: self.hotkey_modifiers.deep_view(),
            hotkey_code: self.hotkey_code.deep_view(),
            play_sound: self.play_sound.deep_view(),
        }
    }
}

/// One write to the store: the whole value under one key.
#[derive(Debug, PartialEq, Eq)]
pub enum SettingWrite {
    AutostartEnabled(bool),
    PlaySound(bool),
    HotkeyModifiers(u32),
    HotkeyCode(String),
}

/// What a write is.
pub enum WriteView {
    AutostartEnabled(bool),
    PlaySound(bool),
    HotkeyModifiers(u32),
    HotkeyCode(Seq<char>),
}

impl View for SettingWrite {
    type V = WriteView;

    open spec fn view(&self) -> WriteView {
        match self {
            SettingWrite::AutostartEnabled(b) => WriteView::AutostartEnabled(*b),
            SettingWrite::PlaySound(b) => WriteView::PlaySound(*b),
            SettingWrite::HotkeyModifiers(m) => WriteView::HotkeyModifiers(*m),
            SettingWrite::HotkeyCode(c) => WriteView::HotkeyCode(c@),
        }
    }
}

impl DeepView for SettingWrite {
    type V = WriteView;

    open spec fn deep_view(&self) -> WriteView {
        self@
    }
}

impl WriteView {
    /// The key that the write goes to.
    pub open spec fn key(self) -> Seq<char> {
        match self {
            WriteView::AutostartEnabled(_) => AUTOSTART_KEY@,
            WriteView::PlaySound(_) => PLAY_SOUND_KEY@,
            WriteView::HotkeyModifiers(_) => HOTKEY_MODIFIERS_KEY@,
            WriteView::HotkeyCode(_) => HOTKEY_CODE_KEY@,
        }
    }

    /// The value that the store holds under the key after the write.
    pub open spec fn value(self) -> StoredView {
        match self {
            WriteView::AutostartEnabled(b) => StoredView::Bool(b),
            WriteView::PlaySound(b) => StoredView::Bool(b),
            WriteView::HotkeyModifiers(m) => StoredView::Integer(m as i64),
            WriteView::HotkeyCode(c) => StoredView::Text(c),
        }
    }
}

impl SettingWrite {
    /// The key that the write goes to.
    pub fn key(&self) -> (r: &'static str)
        ensures
            r@ == self@.key(),
    {
        match self {
            SettingWrite::AutostartEnabled(_) => AUTOSTART_KEY,
            SettingWrite::PlaySound(_) => PLAY_SOUND_KEY,
            SettingWrite::HotkeyModifiers(_) => HOTKEY_MODIFIERS_KEY,
            SettingWrite::HotkeyCode(_) => HOTKEY_CODE_KEY,
        }
    }

    /// The value that the store holds under the key after the write.
    pub fn value(&self) -> (r: StoredValue)
        ensures
            r@ == self@.value(),
    {
        match self {
            SettingWrite::AutostartEnabled(b) => StoredValue::Bool(*b),
            SettingWrite::PlaySound(b) => StoredValue::Bool(*b),
            SettingWrite::HotkeyModifiers(m) => StoredValue::Integer(*m as i64),
            SettingWrite::HotkeyCode(c) => StoredValue::Text(c.clone()),
        }
    }
}

/// The boolean that a stored value stands for; `default` where the key is
/// absent or holds no boolean.
pub open spec fn flag_spec(stored: Option<StoredView>, default: bool) -> bool {
    match stored {
        Some(StoredView::Bool(b)) => b,
        _ => default,
    }
}

/// The modifiers that a stored value stands for: those of the low 32 bits of
/// a stored integer, where these hold hotkey modifier bits only.
pub open spec fn decode_modifiers_spec(stored: Option<StoredView>) -> Option<ModifierSet> {
    match stored {
        Some(StoredView::Integer(m)) => ModifierSet::from_bits_spec(m as u32),
        _ => None,
    }
}

/// The canonical identifier of the key that a stored value names, if it
/// names one.
pub open spec fn decode_code_spec(stored: Option<StoredView>) -> Option<Seq<char>> {
    match stored {
        Some(StoredView::Text(t)) => canonical_code(t),
        _ => None,
    }
}

/// The binding that a snapshot gives: the stored one where both parts are
/// there and decode, the compiled-in default otherwise.
pub open spec fn load_spec(snapshot: SnapshotView) -> BindingView {
    BindingView::resolve(
        decode_modifiers_spec(snapshot.hotkey_modifiers),
        decode_code_spec(snapshot.hotkey_code),
    )
}

/// Whether a snapshot gives the default binding for want of a stored one:
/// the bitmask or the key is absent or does not decode.
pub open spec fn falls_back(snapshot: SnapshotView) -> bool {
    decode_modifiers_spec(snapshot.hotkey_modifiers) is None || decode_code_spec(
        snapshot.hotkey_code,
    ) is None
}

/// The write of `default` under a key that is absent; no write otherwise.
pub open spec fn backfill_if_absent(stored: Option<StoredView>, default: WriteView) -> Seq<
    WriteView,
> {
    if stored is None {
        seq![default]
    } else {
        Seq::empty()
    }
}

/// The writes that fill each absent key with its default, in the order of
/// the keys: autostart, sound, modifiers, key.
pub open spec fn backfill_spec(snapshot: SnapshotView) -> Seq<WriteView> {
    backfill_if_absent(snapshot.autostart_enabled, WriteView::AutostartEnabled(false))
        + backfill_if_absent(snapshot.play_sound, WriteView::PlaySound(true)) + backfill_if_absent(
        snapshot.hotkey_modifiers,
        WriteView::HotkeyModifiers(DEFAULT_MODIFIERS),
    ) + backfill_if_absent(snapshot.hotkey_code, WriteView::HotkeyCode(default_key_name()))
}

/// The writes that record a binding: its bitmask, then its key identifier.
pub open spec fn persist_spec(binding: BindingView) -> Seq<WriteView> {
    seq![
        WriteView::HotkeyModifiers(binding.modifiers.bits_spec()),
        WriteView::HotkeyCode(binding.code),
    ]
}

/// The snapshot after a write.
pub open spec fn apply_write(snapshot: SnapshotView, write: WriteView) -> SnapshotView {
    match write {
        WriteView::AutostartEnabled(_) => SnapshotView {
            autostart_enabled: Some(write.value()),
            ..snapshot
        },
        WriteView::PlaySound(_) => SnapshotView { play_sound: Some(write.value()), ..snapshot },
        WriteView::HotkeyModifiers(_) => SnapshotView {
            hotkey_modifiers: Some(write.value()),
            ..snapshot
        },
        WriteView::HotkeyCode(_) => SnapshotView { hotkey_code: Some(write.value()), ..snapshot },
    }
}

/// The snapshot after a run of writes, first to last.
pub open spec fn apply_writes(snapshot: SnapshotView, writes: Seq<WriteView>) -> SnapshotView
    decreases writes.len(),
{
    if writes.len() == 0 {
        snapshot
    } else {
        apply_write(apply_writes(snapshot, writes.drop_last()), writes.last())
    }
}

/// The boolean that a stored value stands for; `default` where the key is
/// absent or holds no boolean.
pub fn flag(stored: &Option<StoredValue>, default: bool) -> (r: bool)
    ensures
        r == flag_spec(stored.deep_view(), default),
{
    match stored {
        Some(StoredValue::Bool(b)) => *b,
        _ => default,
    }
}

/// The modifiers that a stored value stands for, if it decodes.
pub fn decode_modifiers(stored: &Option<StoredValue>) -> (r: Option<ModifierSet>)
    ensures
        r == decode_modifiers_spec(stored.deep_view()),
{
    match stored {
        Some(StoredValue::Integer(m)) => ModifierSet::from_bits(#[verifier::truncate] (*m as u32)),
        _ => None,
    }
}

/// The key that a stored value names, if it names one.
pub fn decode_code(stored: &Option<StoredValue>) -> (r: Option<KeyCode>)
    ensures
        match r {
            Some(code) => decode_code_spec(stored.deep_view()) == Some(code@),
            None => decode_code_spec(stored.deep_view()) is None,
        },
{
    match stored {
        Some(StoredValue::Text(t)) => KeyCode::parse(t.as_str()),
        _ => None,
    }
}

/// Reads the binding from a snapshot. Where the bitmask or the key is
/// absent or does not decode, the result is the compiled-in default binding.
/// The binding that is read, once written back, reads as itself.
pub fn load(snapshot: &SettingsSnapshot) -> (r: HotkeyBinding)
    ensures
        r@ == load_spec(snapshot@),
        r@.wf(),
        load_spec(apply_writes(snapshot@, persist_spec(r@))) == r@,
{
    let binding = HotkeyBinding::resolve(
        decode_modifiers(&snapshot.hotkey_modifiers),
        decode_code(&snapshot.hotkey_code),
    );
    proof {
        lemma_reload_is_stable(snapshot@, binding@);
    }
    binding
}

/// The writes that fill each absent key with its default.
pub fn backfill(snapshot: &SettingsSnapshot) -> (r: Vec<SettingWrite>)
    ensures
        r.deep_view() == backfill_spec(snapshot@),
{
    let mut writes: Vec<SettingWrite> = Vec::new();
    if snapshot.autostart_enabled.is_none() {
        writes.push(SettingWrite::AutostartEnabled(false));
    }
    if snapshot.play_sound.is_none() {
        writes.push(SettingWrite::PlaySound(true));
    }
    if snapshot.hotkey_modifiers.is_none() {
        writes.push(SettingWrite::HotkeyModifiers(DEFAULT_MODIFIERS));
    }
    if snapshot.hotkey_code.is_none() {
        writes.push(SettingWrite::HotkeyCode("KeyK".to_owned()));
    }
    writes
}

/// The writes that record a binding: its bitmask, then its key identifier.
pub fn persist(binding: &HotkeyBinding) -> (r: Vec<SettingWrite>)
    ensures
        r.deep_view() == persist_spec(binding@),
{
    let mut writes: Vec<SettingWrite> = Vec::new();
    writes.push(SettingWrite::HotkeyModifiers(binding.modifiers().bits()));
    writes.push(SettingWrite::HotkeyCode(binding.code().name().to_owned()));
    writes
}

/// What startup yields.
pub struct Startup {
    /// The shared state: the loaded binding active, dispatch armed.
    pub state: HotkeyState,
    /// Whether the application starts at login.
    pub autostart_enabled: bool,
    /// The text of the menu line that shows the binding.
    pub hotkey_label: String,
    /// The writes that fill the absent keys.
    pub backfill: Vec<SettingWrite>,
    /// Whether the binding is the default because the stored one was absent
    /// or malformed: worth a line in the log.
    pub fell_back: bool,
}

/// What a startup result is.
pub struct StartupView {
    pub state: StateView,
    pub autostart_enabled: bool,
    pub hotkey_label: Seq<char>,
    pub backfill: Seq<WriteView>,
    pub fell_back: bool,
}

impl View for Startup {
    type V = StartupView;

    open spec fn view(&self) -> StartupView {
        StartupView {
            state: self.state@,
            autostart_enabled: self.autostart_enabled,
            hotkey_label: self.hotkey_label@,
            backfill: self.backfill.deep_view(),
            fell_back: self.fell_back,
        }
    }
}

/// What startup yields for a snapshot.
pub open spec fn startup_spec(snapshot: SnapshotView) -> StartupView {
    StartupView {
        state: StateView::armed(load_spec(snapshot), flag_spec(snapshot.play_sound, true)),
        autostart_enabled: flag_spec(snapshot.autostart_enabled, false),
        hotkey_label: menu_label_spec(load_spec(snapshot)),
        backfill: backfill_spec(snapshot),
        fell_back: falls_back(snapshot),
    }
}

/// Reads the four settings, with the default for each that is absent or
/// malformed, and prepares what the application starts with.
pub fn startup(snapshot: &SettingsSnapshot) -> (r: Startup)
    ensures
        r@ == startup_spec(snapshot@),
{
    let modifiers = decode_modifiers(&snapshot.hotkey_modifiers);
    let code = decode_code(&snapshot.hotkey_code);
    let fell_back = modifiers.is_none() || code.is_none();
    let binding = HotkeyBinding::resolve(modifiers, code);
    let hotkey_label = menu_label(&binding);
    Startup {
        state: HotkeyState::new(binding, flag(&snapshot.play_sound, true)),
        autostart_enabled: flag(&snapshot.autostart_enabled, false),
        hotkey_label,
        backfill: backfill(snapshot),
        fell_back,
    }
}

/// What a click on the autostart item asks for.
#[derive(Clone, Copy, Debug, PartialEq, Eq, Structural)]
pub struct AutostartToggle {
    /// Whether the key was absent, so that `false` is written first.
    pub backfill: bool,
    /// The new setting: what to ask of the operating system, what to write
    /// under the key, and how to check the menu item.
    pub enable: bool,
}

/// What a click on the autostart item asks for, given the stored setting.
pub open spec fn toggle_autostart_spec(stored: Option<StoredView>) -> AutostartToggle {
    AutostartToggle { backfill: stored is None, enable: !flag_spec(stored, false) }
}

/// Decides what a click on the autostart item does, given what the store
/// holds under `autostart_enabled`.
pub fn toggle_autostart(stored: &Option<StoredValue>) -> (r: AutostartToggle)
    ensures
        r == toggle_autostart_spec(stored.deep_view()),
{
    AutostartToggle { backfill: stored.is_none(), enable: !flag(stored, false) }
}

} // verus!
