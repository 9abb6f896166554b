//! The capability set that a seat advertises.

use vstd::prelude::*;

verus! {

/// The bit that stands for the pointer in the encoded capability set.
pub const POINTER_BIT: u32 = 1;

/// The bit that stands for the keyboard in the encoded capability set.
pub const KEYBOARD_BIT: u32 = 2;

/// The bit that stands for touch in the encoded capability set.
pub const TOUCH_BIT: u32 = 4;

/// A subset of {pointer, keyboard, touch}.
#[derive(Clone, Copy, Debug, PartialEq, Eq)]
pub struct Capability {
    pub pointer: bool,
    pub keyboard: bool,
    pub touch: bool,
}

impl Capability {
    /// The encoded form of the set: the sum of the bits of its members.
    pub open spec fn spec_bits(self) -> int {
        (if self.pointer { POINTER_BIT as int } else { 0 })
            + (if self.keyboard { KEYBOARD_BIT as int } else { 0 })
            + (if self.touch { TOUCH_BIT as int } else { 0 })
    }

    /// The set that an encoded value below 8 stands for.
    pub open spec fn spec_from_bits(raw: int) -> Capability {
        Capability {
            pointer: raw % 2 == 1,
            keyboard: (raw / 2) % 2 == 1,
            touch: (raw / 4) % 2 == 1,
        }
    }

    /// Whether every member of `other` is a member of `self`.
    pub open spec fn spec_contains(self, other: Capability) -> bool {
        &&& other.pointer ==> self.pointer
        &&& other.keyboard ==> self.keyboard
        &&& other.touch ==> self.touch
    }

    /// The set with the members of both.
    pub open spec fn spec_union(self, other: Capability) -> Capability {
        Capability {
            pointer: self.pointer || other.pointer,
            keyboard: self.keyboard || other.keyboard,
            touch: self.touch || other.touch,
        }
    }

    /// The set without members.
    pub fn empty() -> (c: Capability)
        ensures
            c == (Capability { pointer: false, keyboard: false, touch: false }),
    {
        Capability { pointer: false, keyboard: false, touch: false }
    }

    /// The encoded form of the set.
    pub fn bits(self) -> (b: u32)
        ensures
            b == self.spec_bits(),
    {
        let p: u32 = if self.pointer { POINTER_BIT } else { 0 };
        let k: u32 = if self.keyboard { KEYBOARD_BIT } else { 0 };
        let t: u32 = if self.touch { TOUCH_BIT } else { 0 };
        p + k + t
    }

    /// Decodes a capability set. A value with a bit that stands for no
    /// capability is refused.
    pub fn from_raw(raw: u32) -> (r: Option<Capability>)
        ensures
            r is Some <==> raw < 8,
            r matches Some(c) ==> c == Capability::spec_from_bits(raw as int),
    {
        if raw < 8 {
            Some(
                Capability {
                    pointer: raw % 2 == 1,
                    keyboard: (raw / 2) % 2 == 1,
                    touch: (raw / 4) % 2 == 1,
                },
            )
        } else {
            None
        }
    }

    /// Whether every member of `other` is a member of `self`.
    pub fn contains(self, other: Capability) -> (b: bool)
        ensures
            b == self.spec_contains(other),
    {
        (!other.pointer || self.pointer) && (!other.keyboard || self.keyboard) && (!other.touch
            || self.touch)
    }

    /// The set with the members of both.
    pub fn union(self, other: Capability) -> (c: Capability)
        ensures
            c == self.spec_union(other),
    {
        Capability {
            pointer: self.pointer || other.pointer,
            keyboard: self.keyboard || other.keyboard,
            touch: self.touch || other.touch,
        }
    }
}

/// Encoding a capability set and decoding the result gives the set back, and
/// the encoded value is below 8.
pub proof fn law_capability_round_trip(c: Capability)
    ensures
        0 <= c.spec_bits() < 8,
        Capability::spec_from_bits(c.spec_bits()) == c,
{
}

/// Decoding a value below 8 and encoding the result gives the value back.
pub proof fn law_bits_round_trip(raw: int)
    requires
        0 <= raw < 8,
    ensures
        Capability::spec_from_bits(raw).spec_bits() == raw,
{
}

} // verus!
