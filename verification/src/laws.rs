//! What holds of the shared state over whole runs of events.

use crate::binding::BindingView;
use crate::dispatch::{dispatch_spec, should_clip, ActionView, HotkeyEvent, KeyPhase};
use crate::hotkeys::{menu_label_spec, CommitError, StateView, StepView};
use crate::keycode::default_key_name;
use crate::modifiers::{lemma_bits_round_trip, DEFAULT_MODIFIERS};
use crate::settings::{
    apply_writes, backfill_if_absent, backfill_spec, decode_code_spec, decode_modifiers_spec,
    falls_back, flag_spec, load_spec, persist_spec, SnapshotView, StoredView, WriteView,
};
use vstd::prelude::*;

verus! {

/// One thing that happens to the shared state.
pub enum Input {
    /// The registrar reports a hotkey.
    Fired(HotkeyEvent),
    /// The user asks to choose a new combination.
    BeginChange,
    /// The user flips the sound setting.
    ToggleSound,
    /// The user has chosen a combination: the change to it starts.
    Selected(BindingView),
    /// The result of the step that was handed out last comes back.
    Replied(bool),
}

/// The state after `input`.
pub open spec fn next_state(state: StateView, input: Input) -> StateView {
    match input {
        Input::Fired(_) => state,
        Input::BeginChange => state.begin_change(),
        Input::ToggleSound => state.toggle_play_sound(),
        Input::Selected(binding) => state.start_commit(binding).0,
        Input::Replied(ok) => state.reply(ok).0,
    }
}

/// Whether `input` ends the change that is under way in `state`.
pub open spec fn completes_change(state: StateView, input: Input) -> bool {
    &&& input matches Input::Replied(ok)
    &&& !(state.stage is Idle)
    &&& state.reply(ok).0.stage is Idle
}

/// No hotkey event in `inputs` clips, up to and including the input that
/// ends a change.
pub open spec fn suppressed_until_complete(state: StateView, inputs: Seq<Input>) -> bool
    decreases inputs.len(),
{
    inputs.len() > 0 ==> {
        let input = inputs.first();
        &&& input matches Input::Fired(event) ==> !should_clip(state, event)
        &&& !completes_change(state, input) ==> suppressed_until_complete(
            next_state(state, input),
            inputs.drop_first(),
        )
    }
}

/// The state after a change to `next` in which every step succeeded, but for
/// the write, which ended as `durable` says.
pub open spec fn after_commit(state: StateView, next: BindingView, durable: bool) -> StateView {
    state.start_commit(next).0.reply(true).0.reply(true).0.reply(durable).0
}

/// Dispatch: while dispatch is suppressed every event is ignored; so is,
/// at any time, the release of a key and the event of another shortcut than
/// the active binding's. What is left, a press of the active binding while
/// armed, clips the identifier with the sound setting of the moment.
pub proof fn lemma_dispatch_cases(state: StateView, event: HotkeyEvent, text: Seq<char>)
    ensures
        state.recording ==> dispatch_spec(state, event, text) == ActionView::Ignore,
        event.phase == KeyPhase::Released ==> dispatch_spec(state, event, text)
            == ActionView::Ignore,
        event.id != state.binding.id ==> dispatch_spec(state, event, text) == ActionView::Ignore,
        !state.recording && event.phase == KeyPhase::Pressed && event.id == state.binding.id
            ==> dispatch_spec(state, event, text) == (ActionView::Clip {
            text,
            play_sound: state.play_sound,
        }),
{
}

/// Only the end of a change lifts the suppression, and only the request to
/// choose a combination or the start of a change raises it.
pub proof fn lemma_suppression_edges(state: StateView, input: Input)
    ensures
        state.recording && !next_state(state, input).recording ==> completes_change(state, input),
        !state.recording && next_state(state, input).recording ==> input is BeginChange
            || input is Selected,
{
}

/// Every transition keeps dispatch suppressed while a change is under way.
pub proof fn lemma_transitions_keep_wf(state: StateView, input: Input)
    requires
        state.wf(),
    ensures
        next_state(state, input).wf(),
{
}

/// Suppression: from the moment the user asks to choose a new combination
/// until the change that follows has ended, no hotkey event triggers the clip
/// action, whichever binding it matches and whatever else happens in between.
pub proof fn lemma_suppressed_while_changing(state: StateView, inputs: Seq<Input>)
    requires
        state.wf(),
        state.recording,
    ensures
        suppressed_until_complete(state, inputs),
    decreases inputs.len(),
{
    if inputs.len() > 0 {
        let input = inputs.first();
        if !completes_change(state, input) {
            lemma_suppressed_while_changing(next_state(state, input), inputs.drop_first());
        }
    }
}

/// Asking to choose a new combination suppresses dispatch at once.
pub proof fn lemma_begin_change_suppresses(state: StateView, inputs: Seq<Input>)
    requires
        state.wf(),
    ensures
        suppressed_until_complete(state.begin_change(), inputs),
{
    lemma_suppressed_while_changing(state.begin_change(), inputs);
}

/// Atomic swap: once a change to `next` has gone through, dispatch is armed
/// with `next` and nothing else. A press of `next` clips; an event of the
/// previous binding does not, unless the two are the same shortcut.
pub proof fn lemma_atomic_swap(
    state: StateView,
    next: BindingView,
    durable: bool,
    event: HotkeyEvent,
)
    requires
        state.stage is Idle,
    ensures
        after_commit(state, next, durable) == StateView::armed(next, state.play_sound),
        should_clip(after_commit(state, next, durable), event) <==> event.phase
            == KeyPhase::Pressed && event.id == next.id,
        event.id == state.binding.id && state.binding.id != next.id ==> !should_clip(
            after_commit(state, next, durable),
            event,
        ),
{
}

/// A change that fails leaves the previous binding active and lifts the
/// suppression: after a failed release, after a conflict, and after a
/// conflict whose repair failed too.
pub proof fn lemma_failed_change_rearms(state: StateView, next: BindingView, restored: bool)
    requires
        state.stage is Idle,
    ensures
        state.start_commit(next).0.reply(false) == (
            StateView::armed(state.binding, state.play_sound),
            StepView::Failed(CommitError::ReleaseFailed),
        ),
        state.start_commit(next).0.reply(true).0.reply(false).1 == StepView::Register(
            state.binding,
        ),
        state.start_commit(next).0.reply(true).0.reply(false).0.reply(restored) == (
            StateView::armed(state.binding, state.play_sound),
            StepView::Failed(
                if restored {
                    CommitError::Conflict
                } else {
                    CommitError::RegistrationLost
                },
            ),
        ),
{
}

/// The steps of a change that goes through, in order: release the previous
/// binding, claim the new one, write the new one, show the new label.
pub proof fn lemma_commit_steps(state: StateView, next: BindingView, durable: bool)
    requires
        state.stage is Idle,
    ensures
        state.start_commit(next).1 == StepView::Unregister(state.binding),
        state.start_commit(next).0.reply(true).1 == StepView::Register(next),
        state.start_commit(next).0.reply(true).0.reply(true).1 == StepView::Persist(
            persist_spec(next),
        ),
        state.start_commit(next).0.reply(true).0.reply(true).0.reply(durable).1
            == (StepView::Committed { label: menu_label_spec(next), durable }),
{
}

/// Default fallback: a snapshot whose key identifier is absent, is no text
/// or names no key loads as the compiled-in default binding; so does one
/// whose bitmask is absent or does not decode.
pub proof fn lemma_malformed_loads_default(snapshot: SnapshotView)
    ensures
        decode_code_spec(snapshot.hotkey_code) is None ==> load_spec(snapshot)
            == BindingView::default_binding(),
        decode_modifiers_spec(snapshot.hotkey_modifiers) is None ==> load_spec(snapshot)
            == BindingView::default_binding(),
        falls_back(snapshot) ==> load_spec(snapshot) == BindingView::default_binding(),
{
}

/// Writes made one run after another are the writes of the two runs joined.
pub proof fn lemma_apply_writes_concat(
    snapshot: SnapshotView,
    first: Seq<WriteView>,
    second: Seq<WriteView>,
)
    ensures
        apply_writes(snapshot, first + second) == apply_writes(
            apply_writes(snapshot, first),
            second,
        ),
    decreases second.len(),
{
    if second.len() > 0 {
        assert((first + second).drop_last() =~= first + second.drop_last());
        lemma_apply_writes_concat(snapshot, first, second.drop_last());
    }
}

/// The value under a key after the back-fill: the default where the key was
/// absent, the value it had otherwise.
pub open spec fn filled(stored: Option<StoredView>, default: StoredView) -> Option<StoredView> {
    if stored is None {
        Some(default)
    } else {
        stored
    }
}

/// Back-fill: after the writes that startup asks for, every key is present;
/// a key that was absent holds its default, and a key that was present holds
/// what it held. The two flags read as they did before.
pub proof fn lemma_backfill_fills_absent_keys(snapshot: SnapshotView)
    ensures
        apply_writes(snapshot, backfill_spec(snapshot)) == (SnapshotView {
            autostart_enabled: filled(snapshot.autostart_enabled, StoredView::Bool(false)),
            hotkey_modifiers: filled(
                snapshot.hotkey_modifiers,
                StoredView::Integer(DEFAULT_MODIFIERS as i64),
            ),
            hotkey_code: filled(snapshot.hotkey_code, StoredView::Text(default_key_name())),
            play_sound: filled(snapshot.play_sound, StoredView::Bool(true)),
        }),
        flag_spec(apply_writes(snapshot, backfill_spec(snapshot)).autostart_enabled, false)
            == flag_spec(snapshot.autostart_enabled, false),
        flag_spec(apply_writes(snapshot, backfill_spec(snapshot)).play_sound, true) == flag_spec(
            snapshot.play_sound,
            true,
        ),
{
    let a = backfill_if_absent(snapshot.autostart_enabled, WriteView::AutostartEnabled(false));
    let b = backfill_if_absent(snapshot.play_sound, WriteView::PlaySound(true));
    let c = backfill_if_absent(
        snapshot.hotkey_modifiers,
        WriteView::HotkeyModifiers(DEFAULT_MODIFIERS),
    );
    let d = backfill_if_absent(snapshot.hotkey_code, WriteView::HotkeyCode(default_key_name()));
    lemma_apply_writes_concat(snapshot, a + b + c, d);
    lemma_apply_writes_concat(snapshot, a + b, c);
    lemma_apply_writes_concat(snapshot, a, b);
    reveal_with_fuel(apply_writes, 2);
}

/// Idempotence of loading: a well-formed binding, once written to the store,
/// loads as itself, whatever the store held before, and so gets the label it
/// had.
pub proof fn lemma_reload_is_stable(store: SnapshotView, binding: BindingView)
    ensures
        binding.wf() ==> load_spec(apply_writes(store, persist_spec(binding))) == binding,
        binding.wf() ==> menu_label_spec(
            load_spec(apply_writes(store, persist_spec(binding))),
        ) == menu_label_spec(binding),
{
    if binding.wf() {
        reveal_with_fuel(apply_writes, 3);
        lemma_bits_round_trip(binding.modifiers);
    }
}

} // verus!
