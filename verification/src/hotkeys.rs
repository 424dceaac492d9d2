//! The hotkey's label, the state that the menu handler and the hotkey
//! handler share, and the protocol by which the active binding is replaced.
//!
//! Replacing the binding takes work that only the surrounding application
//! can do: releasing and claiming combinations at the registrar, and writing
//! the settings store. The protocol hands out one step at a time and takes
//! back whether it succeeded. Its order is: release the previous binding,
//! claim the new one, write the new one to the store, then swap the binding
//! in memory and lift the suppression in one transition.
//!
//! The states that a failure can leave behind:
//! - the release fails: nothing was changed, the previous binding stays
//!   active;
//! - the claim fails: the previous binding is claimed again; it stays the
//!   active one, and nothing was written;
//! - the claim fails and so does claiming the previous binding again: the
//!   registrar holds neither, the previous binding stays the one in memory;
//! - the write fails: the new binding is active and claimed, and will not
//!   survive a restart.
//! In each of them the suppression is lifted.

use crate::binding::{BindingView, HotkeyBinding};
use crate::keycode::{key_label, KeyCode};
use crate::modifiers::ModifierSet;
use crate::outside::canonical_code;
use crate::settings::{persist, persist_spec, SettingWrite, WriteView};
use crate::text::{join, join_spec, texts};
use vstd::prelude::*;

verus! {

/// One label if the modifier is in the set, none otherwise.
pub open spec fn part_if(present: bool, label: Seq<char>) -> Seq<Seq<char>> {
    if present {
        seq![label]
    } else {
        Seq::empty()
    }
}

/// The parts of a hotkey's label: the modifiers that are in the set, in the
/// fixed order Cmd, Shift, Opt, Ctrl, then the key's label.
pub open spec fn hotkey_parts(modifiers: ModifierSet, code: Seq<char>) -> Seq<Seq<char>> {
    part_if(modifiers.meta, "Cmd"@) + part_if(modifiers.shift, "Shift"@) + part_if(
        modifiers.alt,
        "Opt"@,
    ) + part_if(modifiers.control, "Ctrl"@) + seq![key_label(code)]
}

/// The label of a hotkey: its parts joined by `+`.
pub open spec fn format_spec(modifiers: ModifierSet, code: Seq<char>) -> Seq<char> {
    join_spec(hotkey_parts(modifiers, code), "+"@)
}

/// The text of the menu line that shows the binding.
pub open spec fn menu_label_spec(binding: BindingView) -> Seq<char> {
    "Hotkey: "@ + format_spec(binding.modifiers, binding.code)
}

/// Formats a combination for display, as in `Cmd+Shift+K`.
pub fn format_hotkey(modifiers: ModifierSet, code: &KeyCode) -> (label: String)
    ensures
        label@ == format_spec(modifiers, code@),
{
    let mut parts: Vec<&str> = Vec::new();
    if modifiers.meta {
        parts.push("Cmd");
    }
    if modifiers.shift {
        parts.push("Shift");
    }
    if modifiers.alt {
        parts.push("Opt");
    }
    if modifiers.control {
        parts.push("Ctrl");
    }
    let key = code.label();
    parts.push(key.as_str());
    assert(texts(parts@) =~= hotkey_parts(modifiers, code@));
    join(&parts, "+")
}

/// The text of the menu line that shows `binding`.
pub fn menu_label(binding: &HotkeyBinding) -> (label: String)
    ensures
        label@ == menu_label_spec(binding@),
{
    let mut label = "Hotkey: ".to_owned();
    let shown = format_hotkey(binding.modifiers(), binding.code());
    label.append(shown.as_str());
    label
}

/// Why a change of the binding did not go through.
#[derive(Clone, Copy, Debug, PartialEq, Eq, Structural)]
pub enum CommitError {
    /// The registrar would not release the previous binding.
    ReleaseFailed,
    /// The registrar would not claim the new binding; the previous one was
    /// claimed again.
    Conflict,
    /// The registrar would claim neither the new binding nor, after that,
    /// the previous one.
    RegistrationLost,
    /// A result was reported while no change was under way.
    NotInProgress,
    /// A change was asked for while another was under way.
    InProgress,
}

/// How far a change of the binding has come.
pub enum Stage {
    /// No change is under way.
    Idle,
    /// The release of the previous binding was asked for.
    Releasing(BindingView),
    /// The claim of the new binding was asked for.
    Claiming(BindingView),
    /// The write of the new binding was asked for.
    Saving(BindingView),
    /// After a conflict, the claim of the previous binding was asked for.
    Restoring,
}

/// What a step of the protocol is.
pub enum StepView {
    Unregister(BindingView),
    Register(BindingView),
    Persist(Seq<WriteView>),
    Committed { label: Seq<char>, durable: bool },
    Failed(CommitError),
}

/// What the shared state is.
pub struct StateView {
    pub binding: BindingView,
    pub stage: Stage,
    pub recording: bool,
    pub play_sound: bool,
}

impl StateView {
    /// While a change is under way, dispatch is suppressed.
    pub open spec fn wf(self) -> bool {
        !(self.stage is Idle) ==> self.recording
    }

    /// The state at startup: armed, no change under way.
    pub open spec fn armed(binding: BindingView, play_sound: bool) -> StateView {
        StateView { binding, stage: Stage::Idle, recording: false, play_sound }
    }

    /// The state once the user has asked to choose a new combination.
    pub open spec fn begin_change(self) -> StateView {
        StateView { recording: true, ..self }
    }

    /// The state with the sound setting flipped.
    pub open spec fn toggle_play_sound(self) -> StateView {
        StateView { play_sound: !self.play_sound, ..self }
    }

    /// The state with no change under way and dispatch armed.
    pub open spec fn rearmed(self) -> StateView {
        StateView { stage: Stage::Idle, recording: false, ..self }
    }

    /// The start of a change to `next`: the next state and the first step.
    pub open spec fn start_commit(self, next: BindingView) -> (StateView, StepView) {
        if self.stage is Idle {
            (
                StateView { stage: Stage::Releasing(next), recording: true, ..self },
                StepView::Unregister(self.binding),
            )
        } else {
            (self, StepView::Failed(CommitError::InProgress))
        }
    }

    /// The transition on the result `ok` of the step that was handed out
    /// last: the next state and the next step.
    pub open spec fn reply(self, ok: bool) -> (StateView, StepView) {
        match self.stage {
            Stage::Idle => (self, StepView::Failed(CommitError::NotInProgress)),
            Stage::Releasing(next) => if ok {
                (StateView { stage: Stage::Claiming(next), ..self }, StepView::Register(next))
            } else {
                (self.rearmed(), StepView::Failed(CommitError::ReleaseFailed))
            },
            Stage::Claiming(next) => if ok {
                (
                    StateView { stage: Stage::Saving(next), ..self },
                    StepView::Persist(persist_spec(next)),
                )
            } else {
                (StateView { stage: Stage::Restoring, ..self }, StepView::Register(self.binding))
            },
            Stage::Saving(next) => (
                StateView { binding: next, ..self.rearmed() },
                StepView::Committed { label: menu_label_spec(next), durable: ok },
            ),
            Stage::Restoring => (
                self.rearmed(),
                StepView::Failed(
                    if ok {
                        CommitError::Conflict
                    } else {
                        CommitError::RegistrationLost
                    },
                ),
            ),
        }
    }
}

/// What the surrounding application does next in a change of the binding.
/// After `Unregister`, `Register` and `Persist` it reports the result with
/// `HotkeyState::reply`; `Committed` and `Failed` end the change.
#[derive(Debug, PartialEq, Eq)]
pub enum CommitStep {
    /// Release this binding at the registrar.
    Unregister(HotkeyBinding),
    /// Claim this binding at the registrar.
    Register(HotkeyBinding),
    /// Make these writes to the settings store, in order.
    Persist(Vec<SettingWrite>),
    /// The new binding is active: show `label` in the menu. `durable` says
    /// whether the write to the store succeeded.
    Committed { label: String, durable: bool },
    /// The change failed; the menu stays as it is.
    Failed(CommitError),
}

impl View for CommitStep {
    type V = StepView;

    open spec fn view(&self) -> StepView {
        match self {
            CommitStep::Unregister(binding) => StepView::Unregister(binding@),
            CommitStep::Register(binding) => StepView::Register(binding@),
            CommitStep::Persist(writes) => StepView::Persist(writes.deep_view()),
            CommitStep::Committed { label, durable } => StepView::Committed {
                label: label@,
                durable: *durable,
            },
            CommitStep::Failed(error) => StepView::Failed(*error),
        }
    }
}

#[derive(Debug)]
enum CommitStage {
    Idle,
    Releasing(HotkeyBinding),
    Claiming(HotkeyBinding),
    Saving(HotkeyBinding),
    Restoring,
}

impl View for CommitStage {
    type V = Stage;

    closed spec fn view(&self) -> Stage {
        match self {
            CommitStage::Idle => Stage::Idle,
            CommitStage::Releasing(next) => Stage::Releasing(next@),
            CommitStage::Claiming(next) => Stage::Claiming(next@),
            CommitStage::Saving(next) => Stage::Saving(next@),
            CommitStage::Restoring => Stage::Restoring,
        }
    }
}

/// The state that the menu handler and the hotkey handler share: the active
/// binding, whether dispatch is suppressed, the sound setting, and how far a
/// change of the binding has come. The surrounding application keeps it
/// behind one lock, held over a whole change.
#[derive(Debug)]
pub struct HotkeyState {
    binding: HotkeyBinding,
    stage: CommitStage,
    recording: bool,
    play_sound: bool,
}

impl View for HotkeyState {
    type V = StateView;

    closed spec fn view(&self) -> StateView {
        StateView {
            binding: self.binding@,
            stage: self.stage@,
            recording: self.recording,
            play_sound: self.play_sound,
        }
    }
}

impl HotkeyState {
    #[verifier::type_invariant]
    closed spec fn suppressed_while_changing(self) -> bool {
        self@.wf()
    }

    /// The state at startup: `binding` active, dispatch armed.
    pub fn new(binding: HotkeyBinding, play_sound: bool) -> (r: HotkeyState)
        ensures
            r@ == StateView::armed(binding@, play_sound),
    {
        HotkeyState { binding, stage: CommitStage::Idle, recording: false, play_sound }
    }

    /// The active binding.
    pub fn binding(&self) -> (r: &HotkeyBinding)
        ensures
            r@ == self@.binding,
    {
        &self.binding
    }

    /// Whether dispatch is suppressed.
    pub fn is_recording(&self) -> (r: bool)
        ensures
            r == self@.recording,
            self@.wf(),
    {
        proof {
            use_type_invariant(self);
        }
        self.recording
    }

    /// Whether a clip plays the sound.
    pub fn play_sound(&self) -> (r: bool)
        ensures
            r == self@.play_sound,
    {
        self.play_sound
    }

    /// Whether a change of the binding is under way.
    pub fn is_changing(&self) -> (r: bool)
        ensures
            r == !(self@.stage is Idle),
    {
        match &self.stage {
            CommitStage::Idle => false,
            _ => true,
        }
    }

    /// Suppresses dispatch: the user is about to choose a new combination.
    pub fn begin_change(&mut self)
        ensures
            final(self)@ == old(self)@.begin_change(),
    {
        self.recording = true;
    }

    /// Flips the sound setting and returns the new value.
    pub fn toggle_play_sound(&mut self) -> (enabled: bool)
        ensures
            final(self)@ == old(self)@.toggle_play_sound(),
            enabled == final(self)@.play_sound,
    {
        proof {
            use_type_invariant(&*self);
        }
        self.play_sound = !self.play_sound;
        self.play_sound
    }

    /// Starts a change to `next` and returns the first step. Dispatch is
    /// suppressed from here until the change ends.
    pub fn start_commit(&mut self, next: HotkeyBinding) -> (step: CommitStep)
        ensures
            (final(self)@, step@) == old(self)@.start_commit(next@),
    {
        proof {
            use_type_invariant(&*self);
        }
        match &self.stage {
            CommitStage::Idle => {
                let step = CommitStep::Unregister(self.binding.clone());
                self.recording = true;
                self.stage = CommitStage::Releasing(next);
                step
            },
            _ => CommitStep::Failed(CommitError::InProgress),
        }
    }

    /// Takes the result of the step that was handed out last and returns the
    /// next step.
    pub fn reply(&mut self, ok: bool) -> (step: CommitStep)
        ensures
            (final(self)@, step@) == old(self)@.reply(ok),
    {
        proof {
            use_type_invariant(&*self);
        }
        match &self.stage {
            CommitStage::Idle => CommitStep::Failed(CommitError::NotInProgress),
            CommitStage::Releasing(next) => {
                if ok {
                    let next = next.clone();
                    let step = CommitStep::Register(next.clone());
                    self.stage = CommitStage::Claiming(next);
                    step
                } else {
                    self.stage = CommitStage::Idle;
                    self.recording = false;
                    CommitStep::Failed(CommitError::ReleaseFailed)
                }
            },
            CommitStage::Claiming(next) => {
                if ok {
                    let next = next.clone();
                    let step = CommitStep::Persist(persist(&next));
                    self.stage = CommitStage::Saving(next);
                    step
                } else {
                    let step = CommitStep::Register(self.binding.clone());
                    self.stage = CommitStage::Restoring;
                    step
                }
            },
            CommitStage::Saving(next) => {
                let next = next.clone();
                let step = CommitStep::Committed { label: menu_label(&next), durable: ok };
                self.stage = CommitStage::Idle;
                self.recording = false;
                self.binding = next;
                step
            },
            CommitStage::Restoring => {
                self.stage = CommitStage::Idle;
                self.recording = false;
                CommitStep::Failed(
                    if ok {
                        CommitError::Conflict
                    } else {
                        CommitError::RegistrationLost
                    },
                )
            },
        }
    }
}

/// Starts replacing the active binding by the combination of `modifiers` and
/// `code`, and returns the first step of the change.
pub fn change_hotkey(state: &mut HotkeyState, modifiers: ModifierSet, code: KeyCode) -> (step:
    CommitStep)
    ensures
        (final(state)@, step@) == old(state)@.start_commit(BindingView::of(modifiers, code@)),
{
    state.start_commit(HotkeyBinding::new(modifiers, code))
}

/// Takes the combination that the user chose, as the settings window sends
/// it, and starts the change to it. A key identifier that names no key gives
/// the compiled-in default binding.
pub fn hotkey_selected(state: &mut HotkeyState, modifiers: ModifierSet, code: &str) -> (step:
    CommitStep)
    ensures
        (final(state)@, step@) == old(state)@.start_commit(
            BindingView::resolve(Some(modifiers), canonical_code(code@)),
        ),
{
    match KeyCode::parse(code) {
        Some(key) => change_hotkey(state, modifiers, key),
        None => state.start_commit(HotkeyBinding::default_binding()),
    }
}

} // verus!
