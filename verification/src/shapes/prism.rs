use vstd::prelude::*;
use super::Shape;
use crate::utils::math::{Numeric, Ops};

verus! {

/// A rectangular prism (3-D box) over the numeric domain `T`: three
/// independent scalar edges.
pub struct Prism<T: Numeric> {
    length: T,
    width: T,
    height: T,
}

/// The prism surface formula: the three distinct faces, each doubled,
/// `2 * (h*w + w*l + h*l)`.
pub open spec fn prism_area(l: int, w: int, h: int) -> int {
    2 * (h * w + w * l + h * l)
}

/// The prism volume formula: `l * w * h`.
pub open spec fn prism_volume(l: int, w: int, h: int) -> int {
    l * w * h
}

impl<T: Numeric> Prism<T> {
    /// Builds the prism directly from its three edges; nothing is derived.
    pub fn new(length: T, width: T, height: T) -> (p: Self)
        ensures
            p.length_int() == length.as_int(),
            p.width_int() == width.as_int(),
            p.height_int() == height.as_int(),
    {
        Self { length, width, height }
    }

    /// The stored length, as the domain's integer.
    pub closed spec fn length_int(self) -> int {
        self.length.as_int()
    }

    /// The stored width, as the domain's integer.
    pub closed spec fn width_int(self) -> int {
        self.width.as_int()
    }

    /// The stored height, as the domain's integer.
    pub closed spec fn height_int(self) -> int {
        self.height.as_int()
    }

    pub fn length(&self) -> (l: T)
        ensures
            l.as_int() == self.length_int(),
    {
        self.length
    }

    pub fn width(&self) -> (w: T)
        ensures
            w.as_int() == self.width_int(),
    {
        self.width
    }

    pub fn height(&self) -> (h: T)
        ensures
            h.as_int() == self.height_int(),
    {
        self.height
    }
}

impl<T: Numeric> Shape<T> for Prism<T> {
    open spec fn area_value(&self) -> int {
        prism_area(self.length_int(), self.width_int(), self.height_int())
    }

    open spec fn area_in_range(&self) -> bool {
        let l = self.length_int();
        let w = self.width_int();
        let h = self.height_int();
        &&& T::min_int() <= h * w <= T::max_int()
        &&& T::min_int() <= w * l <= T::max_int()
        &&& T::min_int() <= h * l <= T::max_int()
        &&& T::min_int() <= h * w + w * l <= T::max_int()
        &&& T::min_int() <= h * w + w * l + h * l <= T::max_int()
        &&& T::min_int() <= prism_area(l, w, h) <= T::max_int()
    }

    open spec fn volume_value(&self) -> int {
        prism_volume(self.length_int(), self.width_int(), self.height_int())
    }

    open spec fn volume_in_range(&self) -> bool {
        let l = self.length_int();
        let w = self.width_int();
        let h = self.height_int();
        &&& T::min_int() <= l * w <= T::max_int()
        &&& T::min_int() <= prism_volume(l, w, h) <= T::max_int()
    }

    fn area(&self) -> (a: T) {
        let h_w = self.height.times(self.width);
        let w_l = self.width.times(self.length);
        let h_l = self.height.times(self.length);
        Ops::double(h_w.plus(w_l).plus(h_l))
    }

    fn volume(&self) -> (v: T) {
        proof {
            assert((self.length_int() * self.width_int()) * self.height_int()
                == self.length_int() * self.width_int() * self.height_int()) by (nonlinear_arith);
        }
        self.length.times(self.width).times(self.height)
    }
}

} // verus!
