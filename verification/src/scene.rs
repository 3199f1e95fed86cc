//! The scene: one square sprite that starts at the origin and is moved once
//! per frame by the keys held during it.

use vstd::prelude::*;
use bevy::input::keyboard::KeyCode;
use bevy::input::ButtonInput;
use crate::input::Keys;
use crate::keyboard::{held_keys, keys_of, pressed_keys};
use crate::motion::{
    direction, lemma_no_direction_no_step, lemma_no_time_no_step, position_after, step_of,
};
use crate::surd::{ExactVector, Vector};

verus! {

/// The width of the window when it opens, in logical units.
pub const WINDOW_WIDTH: u32 = 800;

/// The height of the window when it opens, in logical units.
pub const WINDOW_HEIGHT: u32 = 600;

/// The side of the square sprite, in distance units.
pub const SPRITE_SIDE: u32 = 50;

/// The one sprite that the keys move.
#[derive(Clone, Copy, Debug, PartialEq, Eq, Structural)]
pub struct Player {
    /// Where the sprite's centre is, in billionths of a distance unit.
    pub position: Vector,
    /// The side of the square that is drawn, in distance units.
    pub side: u32,
}

/// The player as the scene starts: a square of side `SPRITE_SIDE` at
/// `(0, 0, 0)`.
pub fn setup() -> (player: Player)
    ensures
        player.position@ == ExactVector::zero(),
        player.side == SPRITE_SIDE,
{
    Player { position: Vector::zero(), side: SPRITE_SIDE }
}

impl Player {
    /// Moves the player by the direction of the held keys times the speed
    /// times the `elapsed_nanos` nanoseconds of a frame. Where the new
    /// position cannot be held, the player stays and the result is `false`.
    /// In a frame in which no time has passed, or in which the keys add up
    /// to nothing, the player stays too, and the result is `true`. The size
    /// of the square never changes.
    pub fn advance(&mut self, keys: &Keys, elapsed_nanos: u128) -> (moved: bool)
        ensures
            moved <==> old(self).position@.plus(step_of(*keys, elapsed_nanos as int)).fits(),
            moved ==> final(self).position@ == old(self).position@.plus(
                step_of(*keys, elapsed_nanos as int),
            ),
            final(self).side == old(self).side,
            !moved ==> *final(self) == *old(self),
            elapsed_nanos == 0 || (keys.horizontal() == 0 && keys.vertical() == 0) ==> moved
                && *final(self) == *old(self),
    {
        let heading = direction(keys);
        proof {
            if elapsed_nanos == 0 {
                lemma_no_time_no_step(*keys, self.position@);
            }
            if keys.horizontal() == 0 && keys.vertical() == 0 {
                lemma_no_direction_no_step(*keys, self.position@, elapsed_nanos as int);
            }
        }
        match position_after(&self.position, &heading, elapsed_nanos) {
            Some(position) => {
                self.position = position;
                true
            },
            None => false,
        }
    }
}

/// One frame: reads the movement keys that the keyboard holds as pressed
/// and moves the player by their direction times the speed times the
/// `elapsed_nanos` nanoseconds that have passed since the frame before.
/// The result is `false`, and the player stays, where the new position
/// cannot be held.
pub fn player_movement(
    player: &mut Player,
    keyboard: &ButtonInput<KeyCode>,
    elapsed_nanos: u128,
) -> (moved: bool)
    ensures
        ({
            let keys = keys_of(pressed_keys(*keyboard));
            let step = step_of(keys, elapsed_nanos as int);
            &&& moved <==> old(player).position@.plus(step).fits()
            &&& moved ==> final(player).position@ == old(player).position@.plus(step)
            &&& final(player).side == old(player).side
            &&& !moved ==> *final(player) == *old(player)
            &&& elapsed_nanos == 0 || (keys.horizontal() == 0 && keys.vertical() == 0) ==> moved
                && *final(player) == *old(player)
        }),
{
    let keys = held_keys(keyboard);
    player.advance(&keys, elapsed_nanos)
}

} // verus!
