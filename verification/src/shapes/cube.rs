use vstd::prelude::*;
use super::Shape;
use crate::utils::math::{Numeric, Ops};

verus! {

/// A cube over the numeric domain `T`: a single scalar edge length.
pub struct Cube<T: Numeric> {
    sides: T,
}

/// The cube surface formula: six square faces, `6 * s * s`, with the 6
/// projected into the domain before the multiplication.
pub open spec fn cube_area(s: int) -> int {
    6 * (s * s)
}

/// The cube volume formula: `s * s * s`.
pub open spec fn cube_volume(s: int) -> int {
    s * s * s
}

impl<T: Numeric> Cube<T> {
    /// Builds the cube directly from its edge length; nothing is derived.
    pub fn new(sides: T) -> (c: Self)
        ensures
            c.sides_int() == sides.as_int(),
    {
        Self { sides }
    }

    /// The stored edge length, as the domain's integer.
    pub closed spec fn sides_int(self) -> int {
        self.sides.as_int()
    }

    pub fn sides(&self) -> (s: T)
        ensures
            s.as_int() == self.sides_int(),
    {
        self.sides
    }
}

impl<T: Numeric> Shape<T> for Cube<T> {
    open spec fn area_value(&self) -> int {
        cube_area(self.sides_int())
    }

    open spec fn area_in_range(&self) -> bool {
        self.sides_int() * self.sides_int() <= T::max_int() && cube_area(self.sides_int())
            <= T::max_int()
    }

    open spec fn volume_value(&self) -> int {
        cube_volume(self.sides_int())
    }

    open spec fn volume_in_range(&self) -> bool {
        self.sides_int() * self.sides_int() <= T::max_int() && T::min_int() <= cube_volume(
            self.sides_int(),
        ) <= T::max_int()
    }

    fn area(&self) -> (a: T) {
        proof {
            T::bounds();
            assert(6 * (self.sides_int() * self.sides_int()) >= 0) by (nonlinear_arith);
        }
        T::from_trunc(6).times(Ops::square(self.sides))
    }

    fn volume(&self) -> (v: T) {
        Ops::cube(self.sides)
    }
}

} // verus!
