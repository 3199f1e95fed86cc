//! Numbers of the form `whole + diagonal / √2`, and vectors of them.
//!
//! Since `√2` is irrational, two such numbers with integer parts are equal
//! exactly when their parts are equal: the pair of parts is the number.

use vstd::prelude::*;

verus! {

/// The mathematical number `whole + diagonal / √2`, with unbounded parts.
pub struct Exact {
    pub whole: int,
    pub diagonal: int,
}

impl Exact {
    /// The number zero.
    pub open spec fn zero() -> Exact {
        Exact { whole: 0, diagonal: 0 }
    }

    /// The sum of two numbers.
    pub open spec fn plus(self, other: Exact) -> Exact {
        Exact { whole: self.whole + other.whole, diagonal: self.diagonal + other.diagonal }
    }

    /// The number multiplied by an integer.
    pub open spec fn times(self, factor: int) -> Exact {
        Exact { whole: self.whole * factor, diagonal: self.diagonal * factor }
    }

    /// Twice the square of the number:
    /// `2 (w + d/√2)² = (2w² + d²) + 4wd / √2`.
    pub open spec fn twice_square(self) -> Exact {
        Exact {
            whole: 2 * (self.whole * self.whole) + self.diagonal * self.diagonal,
            diagonal: 4 * (self.whole * self.diagonal),
        }
    }

    /// Whether both parts can be held in an `i64`.
    pub open spec fn fits(self) -> bool {
        &&& i64::MIN <= self.whole <= i64::MAX
        &&& i64::MIN <= self.diagonal <= i64::MAX
    }
}

/// The product of two integers of size at most one is zero where one of them
/// is, `1` where they are equal and `-1` where they are opposite.
pub proof fn lemma_small_product(a: int, b: int)
    requires
        -1 <= a <= 1,
        -1 <= b <= 1,
    ensures
        a * b == (if a == 0 || b == 0 {
            0int
        } else if a == b {
            1int
        } else {
            -1int
        }),
{
    assert(a * b == (if a == 0 || b == 0 {
        0int
    } else if a == b {
        1int
    } else {
        -1int
    })) by (nonlinear_arith)
        requires
            -1 <= a <= 1,
            -1 <= b <= 1,
    ;
}

/// The three products in twice the square of a number whose parts are of
/// size at most one.
pub proof fn lemma_small_square(e: Exact)
    requires
        -1 <= e.whole <= 1,
        -1 <= e.diagonal <= 1,
    ensures
        e.whole * e.whole == (if e.whole == 0 { 0int } else { 1int }),
        e.diagonal * e.diagonal == (if e.diagonal == 0 { 0int } else { 1int }),
        e.whole == 0 || e.diagonal == 0 ==> e.whole * e.diagonal == 0,
{
    lemma_small_product(e.whole, e.whole);
    lemma_small_product(e.diagonal, e.diagonal);
    lemma_small_product(e.whole, e.diagonal);
}

/// Multiplying a number by a factor multiplies its square by the square of
/// the factor.
pub proof fn lemma_square_of_multiple(e: Exact, factor: int)
    ensures
        e.times(factor).twice_square() == e.twice_square().times(factor * factor),
{
    let w = e.whole;
    let d = e.diagonal;
    assert(2 * ((w * factor) * (w * factor)) + (d * factor) * (d * factor) == (2 * (w * w) + d
        * d) * (factor * factor)) by (nonlinear_arith);
    assert(4 * ((w * factor) * (d * factor)) == (4 * (w * d)) * (factor * factor))
        by (nonlinear_arith);
}

/// Multiplying a vector by a factor multiplies the square of its length by
/// the square of the factor.
pub proof fn lemma_length_of_multiple(v: ExactVector, factor: int)
    ensures
        v.times(factor).twice_length_squared() == v.twice_length_squared().times(
            factor * factor,
        ),
{
    lemma_square_of_multiple(v.x, factor);
    lemma_square_of_multiple(v.y, factor);
    lemma_square_of_multiple(v.z, factor);
    let f = factor * factor;
    let a = v.x.twice_square();
    let b = v.y.twice_square();
    let c = v.z.twice_square();
    assert((a.whole + b.whole + c.whole) * f == a.whole * f + b.whole * f + c.whole * f)
        by (nonlinear_arith);
    assert((a.diagonal + b.diagonal + c.diagonal) * f == a.diagonal * f + b.diagonal * f
        + c.diagonal * f) by (nonlinear_arith);
}

/// `part + unit * factor`, where that fits.
fn checked_add_product(part: i64, unit: i64, factor: u64) -> (r: Option<i64>)
    ensures
        r.is_some() <==> i64::MIN <= part + unit * factor <= i64::MAX,
        r.is_some() ==> r.unwrap() == part + unit * factor,
{
    assert(-0x8000_0000_0000_0000 * 0xffff_ffff_ffff_ffff <= unit * factor
        <= 0x7fff_ffff_ffff_ffff * 0xffff_ffff_ffff_ffff) by (nonlinear_arith)
        requires
            -0x8000_0000_0000_0000 <= unit <= 0x7fff_ffff_ffff_ffff,
            0 <= factor <= 0xffff_ffff_ffff_ffff,
    ;
    let product: i128 = (unit as i128) * (factor as i128);
    let sum: i128 = (part as i128) + product;
    if sum < -0x8000_0000_0000_0000i128 || sum > 0x7fff_ffff_ffff_ffffi128 {
        None
    } else {
        Some(sum as i64)
    }
}

/// The number `whole + diagonal / √2` with machine-sized parts.
#[derive(Clone, Copy, Debug, PartialEq, Eq, Structural)]
pub struct Surd {
    pub whole: i64,
    pub diagonal: i64,
}

impl View for Surd {
    type V = Exact;

    open spec fn view(&self) -> Exact {
        Exact { whole: self.whole as int, diagonal: self.diagonal as int }
    }
}

impl Surd {
    /// The number zero.
    pub fn zero() -> (r: Surd)
        ensures
            r@ == Exact::zero(),
    {
        Surd { whole: 0, diagonal: 0 }
    }

    /// Whether the number is zero.
    pub fn is_zero(&self) -> (zero: bool)
        ensures
            zero <==> self@ == Exact::zero(),
    {
        self.whole == 0 && self.diagonal == 0
    }

    /// The number plus `factor` times `unit`, where both parts of that fit.
    pub fn checked_add_multiple(&self, unit: &Surd, factor: u64) -> (r: Option<Surd>)
        ensures
            r.is_some() <==> self@.plus(unit@.times(factor as int)).fits(),
            r.is_some() ==> r.unwrap()@ == self@.plus(unit@.times(factor as int)),
    {
        match (
            checked_add_product(self.whole, unit.whole, factor),
            checked_add_product(self.diagonal, unit.diagonal, factor),
        ) {
            (Some(whole), Some(diagonal)) => Some(Surd { whole, diagonal }),
            _ => None,
        }
    }

    /// The sum of two numbers, where both of its parts fit.
    pub fn checked_add(&self, other: &Surd) -> (r: Option<Surd>)
        ensures
            r.is_some() <==> self@.plus(other@).fits(),
            r.is_some() ==> r.unwrap()@ == self@.plus(other@),
    {
        match (self.whole.checked_add(other.whole), self.diagonal.checked_add(other.diagonal)) {
            (Some(whole), Some(diagonal)) => Some(Surd { whole, diagonal }),
            _ => None,
        }
    }
}

/// A vector of three mathematical numbers.
pub struct ExactVector {
    pub x: Exact,
    pub y: Exact,
    pub z: Exact,
}

impl ExactVector {
    /// The vector `(0, 0, 0)`.
    pub open spec fn zero() -> ExactVector {
        ExactVector { x: Exact::zero(), y: Exact::zero(), z: Exact::zero() }
    }

    /// The sum of two vectors.
    pub open spec fn plus(self, other: ExactVector) -> ExactVector {
        ExactVector {
            x: self.x.plus(other.x),
            y: self.y.plus(other.y),
            z: self.z.plus(other.z),
        }
    }

    /// The vector multiplied by an integer.
    pub open spec fn times(self, factor: int) -> ExactVector {
        ExactVector {
            x: self.x.times(factor),
            y: self.y.times(factor),
            z: self.z.times(factor),
        }
    }

    /// Twice the square of the vector's length.
    pub open spec fn twice_length_squared(self) -> Exact {
        self.x.twice_square().plus(self.y.twice_square()).plus(self.z.twice_square())
    }

    /// Whether the vector has length one: twice the square of its length is
    /// the number two.
    pub open spec fn is_unit(self) -> bool {
        self.twice_length_squared() == (Exact { whole: 2, diagonal: 0 })
    }

    /// Whether every part of every coordinate can be held in an `i64`.
    pub open spec fn fits(self) -> bool {
        self.x.fits() && self.y.fits() && self.z.fits()
    }
}

/// A vector of three numbers with machine-sized parts: a direction, a
/// displacement or a position.
#[derive(Clone, Copy, Debug, PartialEq, Eq, Structural)]
pub struct Vector {
    pub x: Surd,
    pub y: Surd,
    pub z: Surd,
}

impl View for Vector {
    type V = ExactVector;

    open spec fn view(&self) -> ExactVector {
        ExactVector { x: self.x@, y: self.y@, z: self.z@ }
    }
}

impl Vector {
    /// The vector `(0, 0, 0)`.
    pub fn zero() -> (r: Vector)
        ensures
            r@ == ExactVector::zero(),
    {
        Vector { x: Surd::zero(), y: Surd::zero(), z: Surd::zero() }
    }

    /// Whether the vector is `(0, 0, 0)`.
    pub fn is_zero(&self) -> (zero: bool)
        ensures
            zero <==> self@ == ExactVector::zero(),
    {
        self.x.is_zero() && self.y.is_zero() && self.z.is_zero()
    }

    /// The vector plus `factor` times `unit`, where every part of that fits.
    pub fn checked_add_multiple(&self, unit: &Vector, factor: u64) -> (r: Option<Vector>)
        ensures
            r.is_some() <==> self@.plus(unit@.times(factor as int)).fits(),
            r.is_some() ==> r.unwrap()@ == self@.plus(unit@.times(factor as int)),
    {
        match (
            self.x.checked_add_multiple(&unit.x, factor),
            self.y.checked_add_multiple(&unit.y, factor),
            self.z.checked_add_multiple(&unit.z, factor),
        ) {
            (Some(x), Some(y), Some(z)) => Some(Vector { x, y, z }),
            _ => None,
        }
    }

    /// The sum of two vectors, where every part of it fits.
    pub fn checked_add(&self, other: &Vector) -> (r: Option<Vector>)
        ensures
            r.is_some() <==> self@.plus(other@).fits(),
            r.is_some() ==> r.unwrap()@ == self@.plus(other@),
    {
        match (self.x.checked_add(&other.x), self.y.checked_add(&other.y), self.z.checked_add(&other.z)) {
            (Some(x), Some(y), Some(z)) => Some(Vector { x, y, z }),
            _ => None,
        }
    }
}

} // verus!
