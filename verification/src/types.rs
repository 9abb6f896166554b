//! Plain values that cross the seat's interface.

use vstd::prelude::*;

verus! {

/// The number of raw units in one whole unit of a [`Fixed`] value.
pub const FIXED_ONE: i32 = 256;

/// The largest whole number that a [`Fixed`] value can hold.
pub const FIXED_INT_MAX: i32 = 8388607;

/// The smallest whole number that a [`Fixed`] value can hold.
pub const FIXED_INT_MIN: i32 = -8388608;

/// A surface-local coordinate or an axis value, in signed 24.8 fixed point:
/// `raw` counts 256ths.
#[derive(Clone, Copy, Debug, PartialEq, Eq)]
pub struct Fixed {
    pub raw: i32,
}

impl Fixed {
    /// The fixed-point value of a whole number, where it fits in 24 bits.
    pub fn from_int(value: i32) -> (r: Option<Fixed>)
        ensures
            r is Some <==> FIXED_INT_MIN <= value <= FIXED_INT_MAX,
            r matches Some(f) ==> f.raw == value * FIXED_ONE,
    {
        if FIXED_INT_MIN <= value && value <= FIXED_INT_MAX {
            Some(Fixed { raw: value * FIXED_ONE })
        } else {
            None
        }
    }
}

/// The identifier that the input device assigned to one touch contact.
#[derive(Clone, Copy, Debug, PartialEq, Eq)]
pub struct TouchId(pub i32);

/// A client surface as the seat knows it: a stable identity, and whether the
/// client behind it takes touch input.
///
/// Two values with the same `id` denote the same surface.
#[derive(Clone, Copy, Debug, PartialEq, Eq)]
pub struct Surface {
    pub id: u64,
    pub accepts_touch: bool,
}

/// The direction of a scroll axis.
#[derive(Clone, Copy, Debug, PartialEq, Eq)]
pub enum AxisOrientation {
    Vertical,
    Horizontal,
}

/// The modifier state of a keyboard, as masks of depressed, latched and
/// locked modifiers and the active layout group.
#[derive(Clone, Copy, Debug, PartialEq, Eq)]
pub struct KeyboardModifiers {
    pub depressed: u32,
    pub latched: u32,
    pub locked: u32,
    pub group: u32,
}

/// An input device, known by its identity.
#[derive(Clone, Copy, Debug, PartialEq, Eq)]
pub struct InputDevice {
    pub id: u64,
}

} // verus!
