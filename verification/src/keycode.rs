//! Identifiers of physical keys.

use crate::outside::{canonical_code, resolve_code};
use crate::text::{strip_prefix, strip_prefix_spec};
use vstd::prelude::*;

verus! {

/// Whether `name` is the canonical identifier of a key.
pub open spec fn is_key_name(name: Seq<char>) -> bool {
    canonical_code(name) == Some(name)
}

/// The identifier of the compiled-in default key.
pub open spec fn default_key_name() -> Seq<char> {
    "KeyK"@
}

/// The label shown for a key: its identifier without a leading `Key`, then
/// without a leading `Digit`.
pub open spec fn key_label(name: Seq<char>) -> Seq<char> {
    strip_prefix_spec(strip_prefix_spec(name, "Key"@), "Digit"@)
}

/// A physical key, held by its canonical identifier.
#[derive(Debug, PartialEq, Eq)]
pub struct KeyCode {
    name: String,
}

impl View for KeyCode {
    type V = Seq<char>;

    closed spec fn view(&self) -> Seq<char> {
        self.name@
    }
}

impl KeyCode {
    #[verifier::type_invariant]
    closed spec fn is_canonical(self) -> bool {
        is_key_name(self.name@)
    }

    /// The key that `name` identifies, if it identifies one.
    pub fn parse(name: &str) -> (r: Option<KeyCode>)
        ensures
            match r {
                Some(code) => canonical_code(name@) == Some(code@),
                None => canonical_code(name@) is None,
            },
    {
        match resolve_code(name) {
            Some(canonical) => Some(KeyCode { name: canonical }),
            None => None,
        }
    }

    /// The compiled-in default key, `KeyK`.
    pub fn default_key() -> (r: KeyCode)
        ensures
            r@ == default_key_name(),
    {
        let canonical = resolve_code("KeyK").unwrap();
        KeyCode { name: canonical }
    }

    /// The canonical identifier.
    pub fn name(&self) -> (r: &str)
        ensures
            r@ == self@,
            is_key_name(self@),
    {
        proof {
            use_type_invariant(self);
        }
        self.name.as_str()
    }

    /// The label shown for the key.
    pub fn label(&self) -> (r: String)
        ensures
            r@ == key_label(self@),
    {
        let bare = strip_prefix(strip_prefix(self.name.as_str(), "Key"), "Digit");
        bare.to_owned()
    }
}

impl Clone for KeyCode {
    fn clone(&self) -> (r: Self)
        ensures
            r@ == self@,
    {
        proof {
            use_type_invariant(self);
        }
        KeyCode { name: self.name.clone() }
    }
}

} // verus!
