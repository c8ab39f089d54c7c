//! The keyboard as the simulation reads it.
//!
//! The state of the keys is bevy's `ButtonInput<KeyCode>`, which is opaque
//! here: the set of keys it holds as pressed has a name, and the one query the
//! simulation makes is believed to answer by that set.

use bevy::input::keyboard::{KeyCode, NativeKeyCode};
use bevy::input::ButtonInput;
use std::hash::Hash;
use vstd::prelude::*;

verus! {

/// bevy's `ButtonInput<T>`, carried through as an opaque value.
#[verifier::external_type_specification]
#[verifier::external_body]
#[verifier::reject_recursive_types(T)]
pub struct ExButtonInput<T: Copy + Eq + Hash + Send + Sync + 'static>(ButtonInput<T>);

/// bevy's `NativeKeyCode`, the payload of a key that has no name. It is
/// declared with its variants because `KeyCode` is.
#[verifier::external_type_specification]
pub struct ExNativeKeyCode(NativeKeyCode);

/// bevy's `KeyCode`, declared with its variants so that the bindings of keys
/// to controls are written, and proved about, in the library itself.
#[verifier::external_type_specification]
pub struct ExKeyCode(KeyCode);

/// The keys that `input` holds as currently pressed.
pub uninterp spec fn pressed_keys(input: ButtonInput<KeyCode>) -> Set<KeyCode>;

/// Calls `ButtonInput::pressed`, which looks `key` up in the set of pressed
/// keys that the input holds. Believed, not proved: the answer is membership
/// in [`pressed_keys`].
#[verifier::external_body]
fn key_pressed(input: &ButtonInput<KeyCode>, key: KeyCode) -> (held: bool)
    ensures
        held == pressed_keys(*input).contains(key),
{
    input.pressed(key)
}

/// The net value of a two-key axis: one step for the positive key and one step
/// back for the negative key, so holding both or neither gives zero.
pub open spec fn axis(positive: bool, negative: bool) -> int {
    (if positive {
        1int
    } else {
        0int
    }) - (if negative {
        1int
    } else {
        0int
    })
}

/// The net value of the axis that `positive` and `negative` form, when `keys`
/// are pressed.
pub open spec fn key_axis(keys: Set<KeyCode>, positive: KeyCode, negative: KeyCode) -> int {
    axis(keys.contains(positive), keys.contains(negative))
}

/// Reads the axis that `positive` and `negative` form.
pub fn read_axis(input: &ButtonInput<KeyCode>, positive: KeyCode, negative: KeyCode) -> (intent: i8)
    ensures
        intent == key_axis(pressed_keys(*input), positive, negative),
        -1 <= intent <= 1,
        pressed_keys(*input).contains(positive) && pressed_keys(*input).contains(negative)
            ==> intent == 0,
{
    let mut intent: i8 = 0;
    if key_pressed(input, positive) {
        intent = intent + 1;
    }
    if key_pressed(input, negative) {
        intent = intent - 1;
    }
    intent
}

} // verus!
