//! From held keys to a direction of length zero or one, and from a
//! direction and a frame's elapsed time to a displacement.
//!
//! Time is counted in nanoseconds and distance in billionths of a unit, so
//! that a speed in units per second needs no division.

use vstd::prelude::*;
use crate::input::{Axes, Keys};
use crate::surd::{
    lemma_length_of_multiple, lemma_small_product, lemma_small_square, Exact, ExactVector, Surd,
    Vector,
};

verus! {

/// The speed of the sprite, in distance units per second.
pub const SPEED: i64 = 300;

/// How many parts of a position make one distance unit, and how many parts
/// of an elapsed time make one second.
pub const PARTS_PER_UNIT: i64 = 1_000_000_000;

/// The vector `(x, y, 0)` of two sums of held keys divided by its length,
/// or `(0, 0, 0)` where it has none. Where one sum is zero the length is
/// `1` or `0` and the vector stays as it is; where neither is, the vector
/// lies on a diagonal, its length is `√2`, and each coordinate `c` becomes
/// `c / √2`.
pub open spec fn normalized(x: int, y: int) -> ExactVector
    recommends
        -1 <= x <= 1,
        -1 <= y <= 1,
{
    if x != 0 && y != 0 {
        ExactVector {
            x: Exact { whole: 0, diagonal: x },
            y: Exact { whole: 0, diagonal: y },
            z: Exact::zero(),
        }
    } else {
        ExactVector {
            x: Exact { whole: x, diagonal: 0 },
            y: Exact { whole: y, diagonal: 0 },
            z: Exact::zero(),
        }
    }
}

/// The direction in which the held keys move the sprite.
pub open spec fn direction_of(keys: Keys) -> ExactVector {
    normalized(keys.horizontal(), keys.vertical())
}

/// What a direction adds to a position in a frame of `elapsed_nanos`
/// nanoseconds: the direction times the speed times the elapsed time.
pub open spec fn displacement_of(direction: ExactVector, elapsed_nanos: int) -> ExactVector {
    direction.times(SPEED * elapsed_nanos)
}

/// What the held keys add to a position in a frame of `elapsed_nanos`
/// nanoseconds.
pub open spec fn step_of(keys: Keys, elapsed_nanos: int) -> ExactVector {
    displacement_of(direction_of(keys), elapsed_nanos)
}

/// The sums of held keys, brought to length one where they are not zero.
pub fn normalize(axes: &Axes) -> (direction: Vector)
    requires
        axes.wf(),
    ensures
        direction@ == normalized(axes.x as int, axes.y as int),
{
    proof {
        lemma_small_product(axes.x as int, axes.x as int);
        lemma_small_product(axes.y as int, axes.y as int);
    }
    let x: i64 = axes.x as i64;
    let y: i64 = axes.y as i64;
    if axes.length_squared() == 2 {
        Vector {
            x: Surd { whole: 0, diagonal: x },
            y: Surd { whole: 0, diagonal: y },
            z: Surd::zero(),
        }
    } else {
        Vector {
            x: Surd { whole: x, diagonal: 0 },
            y: Surd { whole: y, diagonal: 0 },
            z: Surd::zero(),
        }
    }
}

/// The direction in which the held keys move the sprite: up and W count
/// `+1` on the vertical axis, down and S `-1`, right and D `+1` on the
/// horizontal axis, left and A `-1`, and what they add up to is normalized
/// unless it is zero.
pub fn direction(keys: &Keys) -> (direction: Vector)
    ensures
        direction@ == direction_of(*keys),
{
    let axes = Axes::from_keys(keys);
    normalize(&axes)
}

/// A part of a position, moved by a multiple of a factor that is beyond
/// `u64::MAX`, stays in reach only where it is moved by no multiple at all.
proof fn lemma_far_step_leaves(part: i64, unit: int, factor: int)
    requires
        factor > u64::MAX,
    ensures
        unit == 0 ==> part + unit * factor == part,
        unit != 0 ==> !(i64::MIN <= part + unit * factor <= i64::MAX),
{
    assert(unit == 0 ==> unit * factor == 0) by (nonlinear_arith);
    assert(unit >= 1 ==> unit * factor >= factor) by (nonlinear_arith)
        requires
            factor > 0,
    ;
    assert(unit <= -1 ==> unit * factor <= -factor) by (nonlinear_arith)
        requires
            factor > 0,
    ;
}

/// Where a frame of `elapsed_nanos` nanoseconds takes a position in a
/// direction: the position plus the direction times the speed times the
/// elapsed time, where every part of that fits.
pub fn position_after(position: &Vector, direction: &Vector, elapsed_nanos: u128) -> (r: Option<
    Vector,
>)
    ensures
        r.is_some() <==> position@.plus(displacement_of(direction@, elapsed_nanos as int)).fits(),
        r.is_some() ==> r.unwrap()@ == position@.plus(
            displacement_of(direction@, elapsed_nanos as int),
        ),
{
    let speed: u64 = SPEED as u64;
    if elapsed_nanos <= (u64::MAX / speed) as u128 {
        let factor: u64 = speed * (elapsed_nanos as u64);
        position.checked_add_multiple(direction, factor)
    } else {
        proof {
            let factor = SPEED * elapsed_nanos;
            lemma_far_step_leaves(position.x.whole, direction.x.whole as int, factor);
            lemma_far_step_leaves(position.x.diagonal, direction.x.diagonal as int, factor);
            lemma_far_step_leaves(position.y.whole, direction.y.whole as int, factor);
            lemma_far_step_leaves(position.y.diagonal, direction.y.diagonal as int, factor);
            lemma_far_step_leaves(position.z.whole, direction.z.whole as int, factor);
            lemma_far_step_leaves(position.z.diagonal, direction.z.diagonal as int, factor);
        }
        if direction.is_zero() {
            Some(*position)
        } else {
            None
        }
    }
}

/// What a direction adds to a position in a frame of `elapsed_nanos`
/// nanoseconds: the direction times the speed times the elapsed time,
/// where every part of that fits.
pub fn displacement(direction: &Vector, elapsed_nanos: u128) -> (step: Option<Vector>)
    ensures
        step.is_some() <==> displacement_of(direction@, elapsed_nanos as int).fits(),
        step.is_some() ==> step.unwrap()@ == displacement_of(direction@, elapsed_nanos as int),
{
    let origin = Vector::zero();
    position_after(&origin, direction, elapsed_nanos)
}

/// A direction has length zero where the keys add up to nothing on both
/// axes, and length one otherwise: never more, on a diagonal either.
pub proof fn lemma_direction_length(keys: Keys)
    ensures
        keys.horizontal() == 0 && keys.vertical() == 0 ==> direction_of(keys)
            == ExactVector::zero(),
        keys.horizontal() != 0 || keys.vertical() != 0 ==> direction_of(keys).is_unit(),
{
    let d = direction_of(keys);
    lemma_small_square(d.x);
    lemma_small_square(d.y);
    lemma_small_square(d.z);
}

/// Two opposite keys held together leave the direction without a part on
/// their axis, and on the other axis as it is without them: of full length
/// where a key is held there.
pub proof fn lemma_opposite_keys_give_no_direction(keys: Keys)
    ensures
        keys.up() && keys.down() ==> direction_of(keys) == (ExactVector {
            x: Exact { whole: keys.horizontal(), diagonal: 0 },
            y: Exact::zero(),
            z: Exact::zero(),
        }),
        keys.left() && keys.right() ==> direction_of(keys) == (ExactVector {
            x: Exact::zero(),
            y: Exact { whole: keys.vertical(), diagonal: 0 },
            z: Exact::zero(),
        }),
{
}

/// Two opposite keys held together leave their axis of the position as it
/// is, and neither stop nor slow the other axis: there the step of a frame
/// is the sum of the held keys times the speed times the elapsed time.
pub proof fn lemma_opposite_keys_keep_the_other_axis(keys: Keys, elapsed_nanos: int)
    ensures
        keys.up() && keys.down() ==> step_of(keys, elapsed_nanos) == (ExactVector {
            x: Exact { whole: keys.horizontal() * (SPEED * elapsed_nanos), diagonal: 0 },
            y: Exact::zero(),
            z: Exact::zero(),
        }),
        keys.left() && keys.right() ==> step_of(keys, elapsed_nanos) == (ExactVector {
            x: Exact::zero(),
            y: Exact { whole: keys.vertical() * (SPEED * elapsed_nanos), diagonal: 0 },
            z: Exact::zero(),
        }),
{
    lemma_opposite_keys_give_no_direction(keys);
}

/// A direction points where the keys point: each of its coordinates,
/// squared and multiplied by the squared length of the keys' sums, is the
/// square of the sum on that axis, and its one part that may differ from
/// zero is that sum, so that it has the sum's sign.
pub proof fn lemma_direction_is_parallel(keys: Keys)
    ensures
        ({
            let n = keys.horizontal() * keys.horizontal() + keys.vertical() * keys.vertical();
            let d = direction_of(keys);
            &&& d.x.twice_square().times(n) == (Exact {
                whole: 2 * (keys.horizontal() * keys.horizontal()),
                diagonal: 0,
            })
            &&& d.y.twice_square().times(n) == (Exact {
                whole: 2 * (keys.vertical() * keys.vertical()),
                diagonal: 0,
            })
            &&& d.x.whole == 0 || d.x.diagonal == 0
            &&& d.y.whole == 0 || d.y.diagonal == 0
            &&& d.x.whole + d.x.diagonal == keys.horizontal()
            &&& d.y.whole + d.y.diagonal == keys.vertical()
            &&& d.z == Exact::zero()
        }),
{
    lemma_small_product(keys.horizontal(), keys.horizontal());
    lemma_small_product(keys.vertical(), keys.vertical());
    let d = direction_of(keys);
    lemma_small_square(d.x);
    lemma_small_square(d.y);
    lemma_small_square(d.z);
}

/// The sprite is as fast on a diagonal as along an axis: whatever keys give
/// a direction, the step of a frame is as long as the speed times the
/// elapsed time.
pub proof fn lemma_same_speed_in_every_direction(keys: Keys, elapsed_nanos: int)
    requires
        keys.horizontal() != 0 || keys.vertical() != 0,
    ensures
        step_of(keys, elapsed_nanos).twice_length_squared() == (Exact {
            whole: 2 * ((SPEED * elapsed_nanos) * (SPEED * elapsed_nanos)),
            diagonal: 0,
        }),
{
    lemma_direction_length(keys);
    lemma_length_of_multiple(direction_of(keys), SPEED * elapsed_nanos);
}

/// In a frame in which no time has passed nothing moves, whatever is held.
pub proof fn lemma_no_time_no_step(keys: Keys, position: ExactVector)
    ensures
        step_of(keys, 0) == ExactVector::zero(),
        position.plus(step_of(keys, 0)) == position,
{
}

/// Where the held keys add up to nothing on both axes nothing moves,
/// however long the frame is.
pub proof fn lemma_no_direction_no_step(keys: Keys, position: ExactVector, elapsed_nanos: int)
    requires
        keys.horizontal() == 0,
        keys.vertical() == 0,
    ensures
        step_of(keys, elapsed_nanos) == ExactVector::zero(),
        position.plus(step_of(keys, elapsed_nanos)) == position,
{
}

/// Times and distances are on one scale: in one second, which is
/// `PARTS_PER_UNIT` nanoseconds, a direction is taken `SPEED` distance
/// units far, each of which is `PARTS_PER_UNIT` parts of a position. Along
/// the horizontal axis that is a step of `SPEED * PARTS_PER_UNIT` parts.
pub proof fn lemma_one_second_covers_the_speed(direction: ExactVector)
    ensures
        displacement_of(direction, PARTS_PER_UNIT as int) == direction.times(SPEED as int).times(
            PARTS_PER_UNIT as int,
        ),
        displacement_of(normalized(1, 0), PARTS_PER_UNIT as int) == (ExactVector {
            x: Exact { whole: SPEED * PARTS_PER_UNIT, diagonal: 0 },
            y: Exact::zero(),
            z: Exact::zero(),
        }),
{
}

} // verus!
