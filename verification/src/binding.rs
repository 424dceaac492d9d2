//! The binding: the combination of modifiers and key that triggers the clip
//! action, with the identifier under which the registrar reports it.

use crate::keycode::{default_key_name, is_key_name, KeyCode};
use crate::modifiers::ModifierSet;
use crate::outside::{registrar_id, shortcut_id};
use vstd::prelude::*;

verus! {

/// What a binding is: its modifiers, the canonical identifier of its key, and
/// the identifier under which the registrar reports it.
pub struct BindingView {
    pub modifiers: ModifierSet,
    pub code: Seq<char>,
    pub id: u32,
}

impl BindingView {
    /// The binding of these modifiers and this key.
    pub open spec fn of(modifiers: ModifierSet, code: Seq<char>) -> BindingView {
        BindingView { modifiers, code, id: shortcut_id(modifiers.bits_spec(), code).unwrap() }
    }

    /// The compiled-in default binding: Meta+Shift with `KeyK`.
    pub open spec fn default_binding() -> BindingView {
        Self::of(ModifierSet::default_spec(), default_key_name())
    }

    /// The binding made of the two parts where both are there, the
    /// compiled-in default otherwise.
    pub open spec fn resolve(modifiers: Option<ModifierSet>, code: Option<Seq<char>>)
        -> BindingView {
        match (modifiers, code) {
            (Some(m), Some(c)) => Self::of(m, c),
            _ => Self::default_binding(),
        }
    }

    /// Whether the key is a known one and the identifier is the registrar's.
    pub open spec fn wf(self) -> bool {
        &&& is_key_name(self.code)
        &&& shortcut_id(self.modifiers.bits_spec(), self.code) == Some(self.id)
    }
}

/// A fully specified binding. It is built whole and replaced whole.
#[derive(Debug, PartialEq, Eq)]
pub struct HotkeyBinding {
    modifiers: ModifierSet,
    code: KeyCode,
    id: u32,
}

impl View for HotkeyBinding {
    type V = BindingView;

    closed spec fn view(&self) -> BindingView {
        BindingView { modifiers: self.modifiers, code: self.code@, id: self.id }
    }
}

impl HotkeyBinding {
    #[verifier::type_invariant]
    closed spec fn well_formed(self) -> bool {
        self@.wf()
    }

    /// The binding of these modifiers and this key.
    pub fn new(modifiers: ModifierSet, code: KeyCode) -> (r: HotkeyBinding)
        ensures
            r@ == BindingView::of(modifiers, code@),
            r@.wf(),
    {
        let id = registrar_id(modifiers.bits(), code.name()).unwrap();
        HotkeyBinding { modifiers, code, id }
    }

    /// The compiled-in default binding: Meta+Shift with `KeyK`.
    pub fn default_binding() -> (r: HotkeyBinding)
        ensures
            r@ == BindingView::default_binding(),
            r@.wf(),
    {
        Self::new(ModifierSet::default_modifiers(), KeyCode::default_key())
    }

    /// The binding made of the two parts where both are there, the
    /// compiled-in default otherwise.
    pub fn resolve(modifiers: Option<ModifierSet>, code: Option<KeyCode>) -> (r: HotkeyBinding)
        ensures
            r@ == BindingView::resolve(
                modifiers,
                match code {
                    Some(c) => Some(c@),
                    None => None,
                },
            ),
            r@.wf(),
    {
        match (modifiers, code) {
            (Some(m), Some(c)) => Self::new(m, c),
            _ => Self::default_binding(),
        }
    }

    /// The modifiers.
    pub fn modifiers(&self) -> (r: ModifierSet)
        ensures
            r == self@.modifiers,
    {
        self.modifiers
    }

    /// The key.
    pub fn code(&self) -> (r: &KeyCode)
        ensures
            r@ == self@.code,
    {
        &self.code
    }

    /// The identifier under which the registrar reports the binding.
    pub fn id(&self) -> (r: u32)
        ensures
            r == self@.id,
            self@.wf(),
    {
        proof {
            use_type_invariant(self);
        }
        self.id
    }
}

impl Clone for HotkeyBinding {
    fn clone(&self) -> (r: Self)
        ensures
            r@ == self@,
    {
        proof {
            use_type_invariant(self);
        }
        HotkeyBinding { modifiers: self.modifiers, code: self.code.clone(), id: self.id }
    }
}

} // verus!
