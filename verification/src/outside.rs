//! The calls into other crates. What this module states of them is believed,
//! not proved: the rest of the library is proved from these statements.

use global_hotkey::hotkey::{HotKey, Modifiers};
use keyboard_types::Code;
use uuid::Uuid;
use vstd::prelude::*;

verus! {

/// The canonical identifier of the key that `name` identifies; `None` where
/// `name` identifies no key.
pub uninterp spec fn canonical_code(name: Seq<char>) -> Option<Seq<char>>;

/// The identifier that the registrar gives to the shortcut made of the
/// modifier bitmask and the key identifier; `None` where `code` identifies no
/// key.
pub uninterp spec fn shortcut_id(modifiers: u32, code: Seq<char>) -> Option<u32>;

/// A digit or one of the letters `a` to `f`.
pub open spec fn is_lower_hex(c: char) -> bool {
    ('0' <= c && c <= '9') || ('a' <= c && c <= 'f')
}

/// Where the hyphenated form of an identifier has its hyphens.
pub open spec fn is_hyphen_position(i: int) -> bool {
    i == 8 || i == 13 || i == 18 || i == 23
}

/// The canonical text of a version 4 identifier: 36 characters, hyphens
/// after 8, 12, 16 and 20 digits, lowercase hexadecimal digits elsewhere,
/// the version digit `4` and a variant digit from `8` to `b`.
pub open spec fn is_uuid_text(text: Seq<char>) -> bool {
    &&& text.len() == 36
    &&& forall|i: int|
        0 <= i < 36 ==> if is_hyphen_position(i) {
            text[i] == '-'
        } else {
            is_lower_hex(#[trigger] text[i])
        }
    &&& text[14] == '4'
    &&& (text[19] == '8' || text[19] == '9' || text[19] == 'a' || text[19] == 'b')
}

/// Looks `name` up with `keyboard_types::Code::from_str` and, where a key is
/// found, returns the identifier that `Code`'s `Display` writes for it.
///
/// Trusted: the result is a function of `name` alone; the identifier that is
/// returned is found again under its own spelling; and `KeyK` is the
/// identifier of a key.
#[verifier::external_body]
pub(crate) fn resolve_code(name: &str) -> (r: Option<String>)
    ensures
        r.deep_view() == canonical_code(name@),
        r.is_some() ==> canonical_code(r.unwrap()@) == Some(r.unwrap()@),
        name@ == "KeyK"@ ==> r.deep_view() == Some(name@),
{
    match name.parse::<Code>() {
        Ok(code) => Some(code.to_string()),
        Err(_) => None,
    }
}

/// Builds the shortcut with `global_hotkey::hotkey::HotKey::new`, from
/// `Modifiers::from_bits` of the bitmask and `Code::from_str` of the
/// identifier, and returns its `id()`. The registrar reports a shortcut that
/// fires under this identifier. `HotKey::new` reads Meta as Super, so two
/// bitmasks may give one identifier.
///
/// Trusted: the identifier is a function of the two arguments alone, and there
/// is one exactly when `code` identifies a key.
#[verifier::external_body]
pub(crate) fn registrar_id(modifiers: u32, code: &str) -> (id: Option<u32>)
    ensures
        id == shortcut_id(modifiers, code@),
        id.is_some() == canonical_code(code@).is_some(),
{
    match code.parse::<Code>() {
        Ok(key) => Some(HotKey::new(Modifiers::from_bits(modifiers), key).id()),
        Err(_) => None,
    }
}

/// Draws an identifier with `uuid::Uuid::new_v4` and writes it out with its
/// `Display`.
///
/// Trusted: whatever was drawn, the text is the canonical lowercase
/// hyphenated form of a version 4 identifier. The call panics where the
/// operating system gives no random bytes.
#[verifier::external_body]
pub(crate) fn fresh_uuid() -> (text: String)
    ensures
        is_uuid_text(text@),
{
    Uuid::new_v4().to_string()
}

} // verus!
