//! Sets of modifier keys and their persisted bitmask form. The bits are laid
//! out as `keyboard_types::Modifiers` lays them out, so that a stored bitmask
//! is one that the registrar understands.

use vstd::prelude::*;

verus! {

/// Bit of the Alt (Option) key in a modifier bitmask.
pub const ALT: u32 = 0x01;

/// Bit of the Control key in a modifier bitmask.
pub const CONTROL: u32 = 0x08;

/// Bit of the Meta (Command) key in a modifier bitmask.
pub const META: u32 = 0x40;

/// Bit of the Shift key in a modifier bitmask.
pub const SHIFT: u32 = 0x200;

/// The four bits that a hotkey's bitmask may hold.
pub const HOTKEY_MODIFIERS: u32 = 0x249;

/// Bitmask of the compiled-in default binding: Meta and Shift.
pub const DEFAULT_MODIFIERS: u32 = 0x240;

/// A set of modifier keys: any subset of Meta, Shift, Alt and Control.
#[derive(Clone, Copy, Debug, PartialEq, Eq, Structural)]
pub struct ModifierSet {
    pub meta: bool,
    pub shift: bool,
    pub alt: bool,
    pub control: bool,
}

/// The bit `flag` if `present`, else no bit.
pub open spec fn flag_bit(present: bool, flag: u32) -> u32 {
    if present {
        flag
    } else {
        0u32
    }
}

/// Whether `bits` holds nothing but hotkey modifier bits.
pub open spec fn is_hotkey_mask(bits: u32) -> bool {
    bits & !HOTKEY_MODIFIERS == 0
}

impl ModifierSet {
    /// The bitmask of this set: the bitwise or of the bits of its members.
    pub open spec fn bits_spec(self) -> u32 {
        flag_bit(self.meta, META) | flag_bit(self.shift, SHIFT) | flag_bit(self.alt, ALT)
            | flag_bit(self.control, CONTROL)
    }

    /// The set that a bitmask made of hotkey modifier bits stands for.
    pub open spec fn of_bits(bits: u32) -> ModifierSet {
        ModifierSet {
            meta: bits & META != 0,
            shift: bits & SHIFT != 0,
            alt: bits & ALT != 0,
            control: bits & CONTROL != 0,
        }
    }

    /// What `from_bits` returns: the set for a hotkey mask, nothing otherwise.
    pub open spec fn from_bits_spec(bits: u32) -> Option<ModifierSet> {
        if is_hotkey_mask(bits) {
            Some(Self::of_bits(bits))
        } else {
            None
        }
    }

    /// The modifiers of the compiled-in default binding.
    pub open spec fn default_spec() -> ModifierSet {
        ModifierSet { meta: true, shift: true, alt: false, control: false }
    }

    /// The empty set.
    pub fn empty() -> (r: ModifierSet)
        ensures
            r == (ModifierSet { meta: false, shift: false, alt: false, control: false }),
    {
        ModifierSet { meta: false, shift: false, alt: false, control: false }
    }

    /// Meta and Shift, the modifiers of the compiled-in default binding.
    pub fn default_modifiers() -> (r: ModifierSet)
        ensures
            r == Self::default_spec(),
            r.bits_spec() == DEFAULT_MODIFIERS,
    {
        assert(0x40u32 | 0x200u32 | 0u32 | 0u32 == 0x240u32) by (bit_vector);
        ModifierSet { meta: true, shift: true, alt: false, control: false }
    }

    /// The persisted form of the set.
    #[verifier::when_used_as_spec(bits_spec)]
    pub fn bits(self) -> (r: u32)
        ensures
            r == self.bits_spec(),
    {
        let meta: u32 = if self.meta { META } else { 0 };
        let shift: u32 = if self.shift { SHIFT } else { 0 };
        let alt: u32 = if self.alt { ALT } else { 0 };
        let control: u32 = if self.control { CONTROL } else { 0 };
        meta | shift | alt | control
    }

    /// Decodes a bitmask. A mask with any bit outside Meta, Shift, Alt and
    /// Control does not decode.
    pub fn from_bits(bits: u32) -> (r: Option<ModifierSet>)
        ensures
            r == Self::from_bits_spec(bits),
    {
        if bits & !HOTKEY_MODIFIERS != 0 {
            None
        } else {
            Some(
                ModifierSet {
                    meta: bits & META != 0,
                    shift: bits & SHIFT != 0,
                    alt: bits & ALT != 0,
                    control: bits & CONTROL != 0,
                },
            )
        }
    }
}

/// Encoding a set and decoding the mask gives the set back.
pub proof fn lemma_bits_round_trip(set: ModifierSet)
    ensures
        ModifierSet::from_bits_spec(set.bits_spec()) == Some(set),
        is_hotkey_mask(set.bits_spec()),
{
    let m = flag_bit(set.meta, META);
    let s = flag_bit(set.shift, SHIFT);
    let a = flag_bit(set.alt, ALT);
    let c = flag_bit(set.control, CONTROL);
    assert((m == 0 || m == 0x40) && (s == 0 || s == 0x200) && (a == 0 || a == 0x01) && (c == 0
        || c == 0x08) ==> {
        &&& (m | s | a | c) & !0x249u32 == 0
        &&& ((m | s | a | c) & 0x40 != 0) == (m == 0x40)
        &&& ((m | s | a | c) & 0x200 != 0) == (s == 0x200)
        &&& ((m | s | a | c) & 0x01 != 0) == (a == 0x01)
        &&& ((m | s | a | c) & 0x08 != 0) == (c == 0x08)
    }) by (bit_vector);
}

/// Decoding a mask and encoding the set gives the mask back.
pub proof fn lemma_mask_round_trip(bits: u32)
    requires
        is_hotkey_mask(bits),
    ensures
        ModifierSet::of_bits(bits).bits_spec() == bits,
{
    let m = flag_bit(bits & META != 0, META);
    let s = flag_bit(bits & SHIFT != 0, SHIFT);
    let a = flag_bit(bits & ALT != 0, ALT);
    let c = flag_bit(bits & CONTROL != 0, CONTROL);
    assert(m == bits & 0x40) by (bit_vector)
        requires
            m == (if bits & 0x40 != 0 { 0x40u32 } else { 0u32 }),
    ;
    assert(s == bits & 0x200) by (bit_vector)
        requires
            s == (if bits & 0x200 != 0 { 0x200u32 } else { 0u32 }),
    ;
    assert(a == bits & 0x01) by (bit_vector)
        requires
            a == (if bits & 0x01 != 0 { 0x01u32 } else { 0u32 }),
    ;
    assert(c == bits & 0x08) by (bit_vector)
        requires
            c == (if bits & 0x08 != 0 { 0x08u32 } else { 0u32 }),
    ;
    assert((m | s | a | c) == bits) by (bit_vector)
        requires
            bits & !0x249u32 == 0,
            m == bits & 0x40,
            s == bits & 0x200,
            a == bits & 0x01,
            c == bits & 0x08,
    ;
}

} // verus!
