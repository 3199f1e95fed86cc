//! The eight movement keys and the axes that they add up to.

use vstd::prelude::*;
use crate::surd::lemma_small_product;

verus! {

/// Which of the eight movement keys are held during a frame.
#[derive(Clone, Copy, Debug, PartialEq, Eq, Structural)]
pub struct Keys {
    pub arrow_up: bool,
    pub arrow_down: bool,
    pub arrow_left: bool,
    pub arrow_right: bool,
    pub key_w: bool,
    pub key_a: bool,
    pub key_s: bool,
    pub key_d: bool,
}

/// What one axis adds up to: one for its positive side, less one for its
/// negative side.
pub open spec fn axis(positive: bool, negative: bool) -> int {
    (if positive { 1int } else { 0int }) - (if negative { 1int } else { 0int })
}

impl Keys {
    /// Whether a key for moving up is held: the up arrow or W.
    pub open spec fn up(self) -> bool {
        self.arrow_up || self.key_w
    }

    /// Whether a key for moving down is held: the down arrow or S.
    pub open spec fn down(self) -> bool {
        self.arrow_down || self.key_s
    }

    /// Whether a key for moving right is held: the right arrow or D.
    pub open spec fn right(self) -> bool {
        self.arrow_right || self.key_d
    }

    /// Whether a key for moving left is held: the left arrow or A.
    pub open spec fn left(self) -> bool {
        self.arrow_left || self.key_a
    }

    /// The horizontal sum of the held keys: right counts `+1`, left `-1`.
    pub open spec fn horizontal(self) -> int {
        axis(self.right(), self.left())
    }

    /// The vertical sum of the held keys: up counts `+1`, down `-1`.
    pub open spec fn vertical(self) -> int {
        axis(self.up(), self.down())
    }

    /// No key held.
    pub fn released() -> (keys: Keys)
        ensures
            keys == (Keys {
                arrow_up: false,
                arrow_down: false,
                arrow_left: false,
                arrow_right: false,
                key_w: false,
                key_a: false,
                key_s: false,
                key_d: false,
            }),
    {
        Keys {
            arrow_up: false,
            arrow_down: false,
            arrow_left: false,
            arrow_right: false,
            key_w: false,
            key_a: false,
            key_s: false,
            key_d: false,
        }
    }
}

/// The sums of the held keys on the two axes, before any normalization.
#[derive(Clone, Copy, Debug, PartialEq, Eq, Structural)]
pub struct Axes {
    pub x: i8,
    pub y: i8,
}

impl Axes {
    /// Whether each sum is `-1`, `0` or `1`, as sums of held keys are.
    pub open spec fn wf(self) -> bool {
        -1 <= self.x <= 1 && -1 <= self.y <= 1
    }

    /// The square of the length of `(x, y)`.
    pub open spec fn spec_length_squared(self) -> int {
        self.x * self.x + self.y * self.y
    }

    /// The sums that the held keys add up to.
    pub fn from_keys(keys: &Keys) -> (axes: Axes)
        ensures
            axes.x == keys.horizontal(),
            axes.y == keys.vertical(),
            axes.wf(),
    {
        let mut x: i8 = 0;
        let mut y: i8 = 0;
        if keys.arrow_up || keys.key_w {
            y += 1;
        }
        if keys.arrow_down || keys.key_s {
            y -= 1;
        }
        if keys.arrow_right || keys.key_d {
            x += 1;
        }
        if keys.arrow_left || keys.key_a {
            x -= 1;
        }
        Axes { x, y }
    }

    /// The square of the length of `(x, y)`: for sums of held keys `0` at
    /// rest, `1` along an axis, `2` on a diagonal.
    pub fn length_squared(&self) -> (n: u16)
        ensures
            n == self.spec_length_squared(),
            self.wf() ==> n <= 2,
    {
        let x: i32 = self.x as i32;
        let y: i32 = self.y as i32;
        proof {
            assert(0 <= x * x <= 16384 && 0 <= y * y <= 16384) by (nonlinear_arith)
                requires
                    -128 <= x <= 127,
                    -128 <= y <= 127,
            ;
            if self.wf() {
                lemma_small_product(x as int, x as int);
                lemma_small_product(y as int, y as int);
            }
        }
        (x * x + y * y) as u16
    }

    /// Whether the keys add up to nothing, so that there is no direction to
    /// normalize.
    pub fn is_zero(&self) -> (zero: bool)
        ensures
            zero <==> self.x == 0 && self.y == 0,
    {
        self.x == 0 && self.y == 0
    }
}

/// Two opposite keys held together add nothing on their axis, whatever else
/// is held.
pub proof fn lemma_opposite_keys_cancel(keys: Keys)
    ensures
        keys.up() && keys.down() ==> keys.vertical() == 0,
        keys.left() && keys.right() ==> keys.horizontal() == 0,
{
}

} // verus!
