//! Reading the held keys from the engine's keyboard state.

use vstd::prelude::*;
use bevy::input::keyboard::KeyCode;
use bevy::input::ButtonInput;
use core::hash::Hash;
use crate::input::Keys;

verus! {

/// `bevy::input::ButtonInput`, the engine's record of which buttons are
/// down; nothing of its inside is visible here.
#[verifier::external_type_specification]
#[verifier::external_body]
#[verifier::reject_recursive_types(T)]
pub struct ExButtonInput<T: Copy + Eq + Hash + Send + Sync + 'static>(ButtonInput<T>);

/// `bevy::input::keyboard::KeyCode`, the engine's name for a key of the
/// keyboard.
#[verifier::external_type_specification]
#[verifier::external_body]
pub struct ExKeyCode(KeyCode);

/// One of the eight keys that move the sprite.
#[derive(Clone, Copy, Debug, PartialEq, Eq, Structural)]
pub enum Key {
    ArrowUp,
    ArrowDown,
    ArrowLeft,
    ArrowRight,
    W,
    A,
    S,
    D,
}

/// The movement keys that a keyboard state holds as pressed: those whose
/// key code is in the set that `ButtonInput::pressed` looks up.
pub uninterp spec fn pressed_keys(keyboard: ButtonInput<KeyCode>) -> Set<Key>;

/// The keys of a set, as the eight flags of `Keys`.
pub open spec fn keys_of(pressed: Set<Key>) -> Keys {
    Keys {
        arrow_up: pressed.contains(Key::ArrowUp),
        arrow_down: pressed.contains(Key::ArrowDown),
        arrow_left: pressed.contains(Key::ArrowLeft),
        arrow_right: pressed.contains(Key::ArrowRight),
        key_w: pressed.contains(Key::W),
        key_a: pressed.contains(Key::A),
        key_s: pressed.contains(Key::S),
        key_d: pressed.contains(Key::D),
    }
}

/// `ButtonInput::pressed` for one of the movement keys: whether the
/// keyboard state holds that key as pressed. The engine looks the key's
/// code up in its set of pressed buttons; that this set, cut down to the
/// eight movement keys, is `pressed_keys` is taken on trust.
#[verifier::external_body]
fn pressed(keyboard: &ButtonInput<KeyCode>, key: Key) -> (held: bool)
    ensures
        held == pressed_keys(*keyboard).contains(key),
{
    keyboard.pressed(match key {
        Key::ArrowUp => KeyCode::ArrowUp,
        Key::ArrowDown => KeyCode::ArrowDown,
        Key::ArrowLeft => KeyCode::ArrowLeft,
        Key::ArrowRight => KeyCode::ArrowRight,
        Key::W => KeyCode::KeyW,
        Key::A => KeyCode::KeyA,
        Key::S => KeyCode::KeyS,
        Key::D => KeyCode::KeyD,
    })
}

/// The movement keys that the keyboard state holds as pressed.
pub fn held_keys(keyboard: &ButtonInput<KeyCode>) -> (keys: Keys)
    ensures
        keys == keys_of(pressed_keys(*keyboard)),
{
    Keys {
        arrow_up: pressed(keyboard, Key::ArrowUp),
        arrow_down: pressed(keyboard, Key::ArrowDown),
        arrow_left: pressed(keyboard, Key::ArrowLeft),
        arrow_right: pressed(keyboard, Key::ArrowRight),
        key_w: pressed(keyboard, Key::W),
        key_a: pressed(keyboard, Key::A),
        key_s: pressed(keyboard, Key::S),
        key_d: pressed(keyboard, Key::D),
    }
}

} // verus!
