use std::collections::{HashMap, HashSet};
use std::str::FromStr;

use global_hotkey::hotkey::{Code, HotKey, Modifiers};
use global_hotkey::{GlobalHotKeyEvent, HotKeyState};
use keyclip::binding::HotkeyBinding;
use keyclip::dispatch::{on_hotkey_event, DispatchAction, HotkeyEvent, KeyPhase};
use keyclip::hotkeys::{hotkey_selected, CommitError, CommitStep, HotkeyState};
use keyclip::menu::{on_menu_event, MenuEffect};
use keyclip::modifiers::ModifierSet;
use keyclip::settings::{
    startup, SettingWrite, SettingsSnapshot, StoredValue, AUTOSTART_KEY, HOTKEY_CODE_KEY,
    HOTKEY_MODIFIERS_KEY, PLAY_SOUND_KEY,
};
use serde_json::Value;

fn stored_value(value: Value) -> StoredValue {
    match value {
        Value::Bool(b) => StoredValue::Bool(b),
        Value::Number(n) => match n.as_i64() {
            Some(i) => StoredValue::Integer(i),
            None => StoredValue::Other,
        },
        Value::String(s) => StoredValue::Text(s),
        _ => StoredValue::Other,
    }
}

fn json_value(value: StoredValue) -> Value {
    match value {
        StoredValue::Bool(b) => Value::Bool(b),
        StoredValue::Integer(i) => Value::from(i),
        StoredValue::Text(s) => Value::String(s),
        StoredValue::Other => Value::Null,
    }
}

fn shortcut_of(binding: &HotkeyBinding) -> HotKey {
    HotKey::new(
        Modifiers::from_bits(binding.modifiers().bits()),
        Code::from_str(binding.code().name()).expect("Invalid key"),
    )
}

fn hotkey_event(event: &GlobalHotKeyEvent) -> HotkeyEvent {
    HotkeyEvent {
        id: event.id(),
        phase: match event.state() {
            HotKeyState::Pressed => KeyPhase::Pressed,
            HotKeyState::Released => KeyPhase::Released,
        },
    }
}

/// A store in memory that can be made to refuse writes.
struct Store {
    values: HashMap<String, Value>,
    writable: bool,
}

impl Store {
    fn get(&self, key: &str) -> Option<StoredValue> {
        self.values.get(key).cloned().map(stored_value)
    }

    fn apply(&mut self, write: &SettingWrite) -> bool {
        if self.writable {
            self.values.insert(write.key().to_string(), json_value(write.value()));
        }
        self.writable
    }

    fn snapshot(&self) -> SettingsSnapshot {
        SettingsSnapshot {
            autostart_enabled: self.get(AUTOSTART_KEY),
            hotkey_modifiers: self.get(HOTKEY_MODIFIERS_KEY),
            hotkey_code: self.get(HOTKEY_CODE_KEY),
            play_sound: self.get(PLAY_SOUND_KEY),
        }
    }
}

/// A registrar in memory: it holds what this program claimed, and refuses
/// what another program holds.
struct Registrar {
    claimed: HashSet<u32>,
    taken_by_others: HashSet<u32>,
}

impl Registrar {
    fn register(&mut self, hotkey: HotKey) -> bool {
        !self.taken_by_others.contains(&hotkey.id()) && self.claimed.insert(hotkey.id())
    }

    fn unregister(&mut self, hotkey: HotKey) -> bool {
        self.claimed.remove(&hotkey.id())
    }
}

/// The program with its collaborators in memory.
struct Program {
    store: Store,
    registrar: Registrar,
    state: HotkeyState,
    label: String,
    autostart_checked: bool,
    sound_checked: bool,
    autostart_at_login: bool,
    clipboard: Vec<String>,
    sounds: usize,
    capture_windows: usize,
}

impl Program {
    fn start(values: HashMap<String, Value>) -> Program {
        let mut store = Store { values, writable: true };
        let start = startup(&store.snapshot());
        for write in &start.backfill {
            store.apply(write);
        }
        let mut registrar = Registrar { claimed: HashSet::new(), taken_by_others: HashSet::new() };
        assert!(registrar.register(shortcut_of(start.state.binding())));
        Program {
            store,
            registrar,
            sound_checked: start.state.play_sound(),
            state: start.state,
            label: start.hotkey_label,
            autostart_checked: start.autostart_enabled,
            autostart_at_login: start.autostart_enabled,
            clipboard: Vec::new(),
            sounds: 0,
            capture_windows: 0,
        }
    }

    fn click(&mut self, id: &str) {
        let autostart = self.store.get(AUTOSTART_KEY);
        match on_menu_event(&mut self.state, id, &autostart) {
            MenuEffect::Autostart(toggle) => {
                if toggle.backfill {
                    self.store.apply(&SettingWrite::AutostartEnabled(false));
                }
                self.autostart_at_login = toggle.enable;
                self.store.apply(&SettingWrite::AutostartEnabled(toggle.enable));
                self.autostart_checked = toggle.enable;
            }
            MenuEffect::OpenCapture => self.capture_windows += 1,
            MenuEffect::PlaySound(enabled) => {
                self.store.apply(&SettingWrite::PlaySound(enabled));
                self.sound_checked = enabled;
            }
            MenuEffect::Unknown => {}
        }
    }

    fn select(&mut self, modifiers: ModifierSet, code: &str) -> Result<bool, CommitError> {
        let mut step = hotkey_selected(&mut self.state, modifiers, code);
        loop {
            step = match step {
                CommitStep::Unregister(binding) => {
                    let ok = self.registrar.unregister(shortcut_of(&binding));
                    self.state.reply(ok)
                }
                CommitStep::Register(binding) => {
                    let ok = self.registrar.register(shortcut_of(&binding));
                    self.state.reply(ok)
                }
                CommitStep::Persist(writes) => {
                    let mut ok = true;
                    for write in &writes {
                        ok = self.store.apply(write) && ok;
                    }
                    self.state.reply(ok)
                }
                CommitStep::Committed { label, durable } => {
                    self.label = label;
                    return Ok(durable);
                }
                CommitStep::Failed(error) => return Err(error),
            };
        }
    }

    /// The operating system sees the keys go down and up: the registrar
    /// reports the shortcut if this program holds it.
    fn keys(&mut self, modifiers: Modifiers, code: Code) {
        let hotkey = HotKey::new(Some(modifiers), code);
        if !self.registrar.claimed.contains(&hotkey.id()) {
            return;
        }
        for state in [HotKeyState::Pressed, HotKeyState::Released] {
            let event = GlobalHotKeyEvent { id: hotkey.id(), state };
            match on_hotkey_event(&self.state, hotkey_event(&event)) {
                DispatchAction::Clip { text, play_sound } => {
                    self.clipboard.push(text);
                    if play_sound {
                        self.sounds += 1;
                    }
                }
                DispatchAction::Ignore => {}
            }
        }
    }
}

fn ctrl_alt() -> ModifierSet {
    ModifierSet { meta: false, shift: false, alt: true, control: true }
}

#[test]
fn scenario_fresh_install() {
    let program = Program::start(HashMap::new());
    assert_eq!(*program.state.binding(), HotkeyBinding::default_binding());
    assert_eq!(program.label, "Hotkey: Cmd+Shift+K");
    assert!(program.sound_checked);
    assert!(!program.autostart_checked);
    assert_eq!(program.store.values.len(), 4);
    assert_eq!(program.store.values["autostart_enabled"], Value::Bool(false));
    assert_eq!(program.store.values["play_sound"], Value::Bool(true));
    assert_eq!(program.store.values["hotkey_modifiers"], Value::from(0x240));
    assert_eq!(program.store.values["hotkey_code"], Value::from("KeyK"));
    assert_eq!(
        program.store.values["hotkey_modifiers"],
        Value::from((Modifiers::META | Modifiers::SHIFT).bits())
    );
}

#[test]
fn scenario_first_press_after_startup_clips() {
    let mut program = Program::start(HashMap::new());
    program.keys(Modifiers::META | Modifiers::SHIFT, Code::KeyK);
    assert_eq!(program.clipboard.len(), 1);
    assert_eq!(program.clipboard[0].len(), 36);
    assert_eq!(program.sounds, 1);
    program.keys(Modifiers::SUPER | Modifiers::SHIFT, Code::KeyK);
    assert_eq!(program.clipboard.len(), 2);
    assert_ne!(program.clipboard[0], program.clipboard[1]);
}

#[test]
fn scenario_sound_switched_off() {
    let mut program = Program::start(HashMap::new());
    program.click("toggle_play_sound");
    assert_eq!(program.store.values["play_sound"], Value::Bool(false));
    assert!(!program.sound_checked);
    program.keys(Modifiers::META | Modifiers::SHIFT, Code::KeyK);
    assert_eq!(program.clipboard.len(), 1);
    assert_eq!(program.sounds, 0);

    let restarted = Program::start(program.store.values.clone());
    assert!(!restarted.state.play_sound());
}

#[test]
fn scenario_hotkey_changed_to_ctrl_alt_u() {
    let mut program = Program::start(HashMap::new());
    program.click("change_hotkey");
    assert_eq!(program.capture_windows, 1);
    program.keys(Modifiers::META | Modifiers::SHIFT, Code::KeyK);
    assert!(program.clipboard.is_empty());

    assert_eq!(program.select(ctrl_alt(), "KeyU"), Ok(true));
    assert_eq!(program.label, "Hotkey: Opt+Ctrl+U");
    assert_eq!(
        program.store.values["hotkey_modifiers"],
        Value::from((Modifiers::CONTROL | Modifiers::ALT).bits())
    );
    assert_eq!(program.store.values["hotkey_code"], Value::from("KeyU"));

    program.keys(Modifiers::META | Modifiers::SHIFT, Code::KeyK);
    assert!(program.clipboard.is_empty());
    program.keys(Modifiers::CONTROL | Modifiers::ALT, Code::KeyU);
    assert_eq!(program.clipboard.len(), 1);

    let restarted = Program::start(program.store.values.clone());
    assert_eq!(restarted.label, "Hotkey: Opt+Ctrl+U");
    assert_eq!(*restarted.state.binding(), *program.state.binding());
}

#[test]
fn scenario_conflict_keeps_the_previous_hotkey() {
    let mut program = Program::start(HashMap::new());
    let wanted = HotKey::new(Some(Modifiers::CONTROL | Modifiers::ALT), Code::KeyU);
    program.registrar.taken_by_others.insert(wanted.id());
    program.click("change_hotkey");

    assert_eq!(program.select(ctrl_alt(), "KeyU"), Err(CommitError::Conflict));
    assert_eq!(program.label, "Hotkey: Cmd+Shift+K");
    assert_eq!(program.store.values["hotkey_code"], Value::from("KeyK"));
    assert!(!program.state.is_recording());
    program.keys(Modifiers::META | Modifiers::SHIFT, Code::KeyK);
    assert_eq!(program.clipboard.len(), 1);
}

#[test]
fn scenario_release_of_an_unclaimed_hotkey_fails() {
    let mut program = Program::start(HashMap::new());
    program.registrar.claimed.clear();
    program.click("change_hotkey");
    assert_eq!(program.select(ctrl_alt(), "KeyU"), Err(CommitError::ReleaseFailed));
    assert_eq!(*program.state.binding(), HotkeyBinding::default_binding());
    assert!(!program.state.is_recording());
    assert_eq!(program.label, "Hotkey: Cmd+Shift+K");
}

#[test]
fn scenario_unwritable_store_still_changes_the_hotkey() {
    let mut program = Program::start(HashMap::new());
    program.store.writable = false;
    program.click("change_hotkey");
    assert_eq!(program.select(ctrl_alt(), "KeyU"), Ok(false));
    program.keys(Modifiers::CONTROL | Modifiers::ALT, Code::KeyU);
    assert_eq!(program.clipboard.len(), 1);

    let restarted = Program::start(program.store.values.clone());
    assert_eq!(*restarted.state.binding(), HotkeyBinding::default_binding());
}

#[test]
fn scenario_autostart_toggled_twice() {
    let mut program = Program::start(HashMap::new());
    program.click("toggle_autostart");
    assert!(program.autostart_at_login);
    assert!(program.autostart_checked);
    assert_eq!(program.store.values["autostart_enabled"], Value::Bool(true));
    program.click("toggle_autostart");
    assert!(!program.autostart_at_login);
    assert!(!program.autostart_checked);
    assert_eq!(program.store.values["autostart_enabled"], Value::Bool(false));
}

#[test]
fn scenario_corrupt_store() {
    let mut values = HashMap::new();
    values.insert("hotkey_modifiers".to_string(), Value::from(9));
    values.insert("hotkey_code".to_string(), Value::from("NotAKey"));
    values.insert("play_sound".to_string(), Value::from("loud"));
    values.insert("autostart_enabled".to_string(), Value::Null);
    let mut program = Program::start(values);
    assert_eq!(*program.state.binding(), HotkeyBinding::default_binding());
    assert_eq!(program.label, "Hotkey: Cmd+Shift+K");
    assert!(program.state.play_sound());
    assert!(!program.autostart_checked);
    assert_eq!(program.store.values["hotkey_code"], Value::from("NotAKey"));
    program.keys(Modifiers::META | Modifiers::SHIFT, Code::KeyK);
    assert_eq!(program.clipboard.len(), 1);
}

#[test]
fn scenario_fractional_bitmask_is_malformed() {
    let mut values = HashMap::new();
    values.insert("hotkey_modifiers".to_string(), Value::from(9.5));
    values.insert("hotkey_code".to_string(), Value::from("KeyU"));
    let program = Program::start(values);
    assert_eq!(*program.state.binding(), HotkeyBinding::default_binding());
}

#[test]
fn scenario_unknown_menu_item() {
    let mut program = Program::start(HashMap::new());
    let before = program.store.values.clone();
    program.click("about");
    assert_eq!(program.store.values, before);
    assert_eq!(program.capture_windows, 0);
    program.keys(Modifiers::META | Modifiers::SHIFT, Code::KeyK);
    assert_eq!(program.clipboard.len(), 1);
}
