use vstd::prelude::*;

verus! {

/// Rust's truncating division: the quotient is rounded toward zero, as the
/// `/` operator computes it on the primitive integer types. Spec-level `/`
/// is Euclidean, so the two differ exactly when the dividend is negative
/// and the division is inexact.
pub open spec fn div_trunc(a: int, b: int) -> int
    recommends
        b != 0,
{
    if a >= 0 {
        a / b
    } else {
        -((-a) / b)
    }
}

/// The capability contract every numeric domain of this library satisfies:
/// the four arithmetic operators with their exact machine semantics, and the
/// projection of a small non-negative 64-bit floating constant into the
/// domain. For an integer domain the narrowing cast truncates the constant
/// toward zero, so the projection is handed that truncation directly: pi
/// (3.14159...) enters as 3, and 4/3 (1.333...) enters as 1.
pub trait Numeric: Sized + Copy {
    /// The mathematical integer this value stands for.
    spec fn as_int(self) -> int;

    /// The smallest integer the domain can hold.
    spec fn min_int() -> int;

    /// The largest integer the domain can hold.
    spec fn max_int() -> int;

    /// Every domain spans at least the range of the small projected
    /// constants, 0 through 255.
    proof fn bounds()
        ensures
            Self::min_int() <= 0,
            255 <= Self::max_int(),
    ;

    /// Every value of the domain lies within the domain's range.
    proof fn lemma_in_range(self)
        ensures
            Self::min_int() <= self.as_int() <= Self::max_int(),
    ;

    /// Projects a non-negative 64-bit floating constant into the domain;
    /// `c` is the constant truncated toward zero, which is the value the
    /// narrowing cast produces for every integer domain.
    fn from_trunc(c: u8) -> (r: Self)
        ensures
            r.as_int() == c as int,
    ;

    fn plus(self, rhs: Self) -> (r: Self)
        requires
            Self::min_int() <= self.as_int() + rhs.as_int() <= Self::max_int(),
        ensures
            r.as_int() == self.as_int() + rhs.as_int(),
    ;

    fn minus(self, rhs: Self) -> (r: Self)
        requires
            Self::min_int() <= self.as_int() - rhs.as_int() <= Self::max_int(),
        ensures
            r.as_int() == self.as_int() - rhs.as_int(),
    ;

    fn times(self, rhs: Self) -> (r: Self)
        requires
            Self::min_int() <= self.as_int() * rhs.as_int() <= Self::max_int(),
        ensures
            r.as_int() == self.as_int() * rhs.as_int(),
    ;

    fn div(self, rhs: Self) -> (r: Self)
        requires
            rhs.as_int() != 0,
            Self::min_int() <= div_trunc(self.as_int(), rhs.as_int()) <= Self::max_int(),
        ensures
            r.as_int() == div_trunc(self.as_int(), rhs.as_int()),
    ;
}

impl Numeric for u64 {
    open spec fn as_int(self) -> int {
        self as int
    }

    open spec fn min_int() -> int {
        0
    }

    open spec fn max_int() -> int {
        u64::MAX as int
    }

    proof fn bounds() {
    }

    proof fn lemma_in_range(self) {
    }

    fn from_trunc(c: u8) -> (r: Self) {
        c as u64
    }

    fn plus(self, rhs: Self) -> (r: Self) {
        self + rhs
    }

    fn minus(self, rhs: Self) -> (r: Self) {
        self - rhs
    }

    fn times(self, rhs: Self) -> (r: Self) {
        self * rhs
    }

    fn div(self, rhs: Self) -> (r: Self) {
        self / rhs
    }
}

impl Numeric for u32 {
    open spec fn as_int(self) -> int {
        self as int
    }

    open spec fn min_int() -> int {
        0
    }

    open spec fn max_int() -> int {
        u32::MAX as int
    }

    proof fn bounds() {
    }

    proof fn lemma_in_range(self) {
    }

    fn from_trunc(c: u8) -> (r: Self) {
        c as u32
    }

    fn plus(self, rhs: Self) -> (r: Self) {
        self + rhs
    }

    fn minus(self, rhs: Self) -> (r: Self) {
        self - rhs
    }

    fn times(self, rhs: Self) -> (r: Self) {
        self * rhs
    }

    fn div(self, rhs: Self) -> (r: Self) {
        self / rhs
    }
}

impl Numeric for usize {
    open spec fn as_int(self) -> int {
        self as int
    }

    open spec fn min_int() -> int {
        0
    }

    open spec fn max_int() -> int {
        usize::MAX as int
    }

    proof fn bounds() {
    }

    proof fn lemma_in_range(self) {
    }

    fn from_trunc(c: u8) -> (r: Self) {
        c as usize
    }

    fn plus(self, rhs: Self) -> (r: Self) {
        self + rhs
    }

    fn minus(self, rhs: Self) -> (r: Self) {
        self - rhs
    }

    fn times(self, rhs: Self) -> (r: Self) {
        self * rhs
    }

    fn div(self, rhs: Self) -> (r: Self) {
        self / rhs
    }
}

impl Numeric for i32 {
    open spec fn as_int(self) -> int {
        self as int
    }

    open spec fn min_int() -> int {
        i32::MIN as int
    }

    open spec fn max_int() -> int {
        i32::MAX as int
    }

    proof fn bounds() {
    }

    proof fn lemma_in_range(self) {
    }

    fn from_trunc(c: u8) -> (r: Self) {
        c as i32
    }

    fn plus(self, rhs: Self) -> (r: Self) {
        self + rhs
    }

    fn minus(self, rhs: Self) -> (r: Self) {
        self - rhs
    }

    fn times(self, rhs: Self) -> (r: Self) {
        self * rhs
    }

    fn div(self, rhs: Self) -> (r: Self) {
        proof {
            lemma_div_trunc_by_minus_one(self as int);
        }
        self / rhs
    }
}

impl Numeric for i64 {
    open spec fn as_int(self) -> int {
        self as int
    }

    open spec fn min_int() -> int {
        i64::MIN as int
    }

    open spec fn max_int() -> int {
        i64::MAX as int
    }

    proof fn bounds() {
    }

    proof fn lemma_in_range(self) {
    }

    fn from_trunc(c: u8) -> (r: Self) {
        c as i64
    }

    fn plus(self, rhs: Self) -> (r: Self) {
        self + rhs
    }

    fn minus(self, rhs: Self) -> (r: Self) {
        self - rhs
    }

    fn times(self, rhs: Self) -> (r: Self) {
        self * rhs
    }

    fn div(self, rhs: Self) -> (r: Self) {
        proof {
            lemma_div_trunc_by_minus_one(self as int);
        }
        self / rhs
    }
}

/// Dividing by -1 negates: the one case where a signed machine division can
/// overflow, namely the domain's minimum over -1, is exactly the case the
/// range bound in `Numeric::div`'s precondition rules out.
proof fn lemma_div_trunc_by_minus_one(a: int)
    ensures
        div_trunc(a, -1) == -a,
{
    if a >= 0 {
        assert(a / -1 == -a) by (nonlinear_arith);
    } else {
        assert((-a) / -1 == a) by (nonlinear_arith);
    }
}

/// Generic arithmetic helpers over any numeric domain: they centralize the
/// projection of the constant 2 and the rounding behavior of dividing by it,
/// so no formula re-derives "2 in the domain" at its call site.
pub struct Ops<T: Numeric> {
    phantom: core::marker::PhantomData<T>,
}

impl<T: Numeric> Ops<T> {
    pub fn square(prop: T) -> (r: T)
        requires
            prop.as_int() * prop.as_int() <= T::max_int(),
        ensures
            r.as_int() == prop.as_int() * prop.as_int(),
    {
        proof {
            T::bounds();
            assert(prop.as_int() * prop.as_int() >= 0) by (nonlinear_arith);
        }
        prop.times(prop)
    }

    pub fn half(value: T) -> (r: T)
        ensures
            r.as_int() == div_trunc(value.as_int(), 2),
    {
        proof {
            T::bounds();
            value.lemma_in_range();
            lemma_div_trunc_two_in_range(value.as_int());
        }
        value.div(T::from_trunc(2))
    }

    pub fn cube(value: T) -> (r: T)
        requires
            value.as_int() * value.as_int() <= T::max_int(),
            T::min_int() <= value.as_int() * value.as_int() * value.as_int() <= T::max_int(),
        ensures
            r.as_int() == value.as_int() * value.as_int() * value.as_int(),
    {
        proof {
            T::bounds();
            assert(value.as_int() * value.as_int() >= 0) by (nonlinear_arith);
            assert((value.as_int() * value.as_int()) * value.as_int() == value.as_int()
                * value.as_int() * value.as_int()) by (nonlinear_arith);
        }
        value.times(value).times(value)
    }

    pub fn double(value: T) -> (r: T)
        requires
            T::min_int() <= 2 * value.as_int() <= T::max_int(),
        ensures
            r.as_int() == 2 * value.as_int(),
    {
        value.times(T::from_trunc(2))
    }
}

/// Halving never leaves the range that its argument lies in: the truncated
/// quotient of `a` and 2 sits between 0 and `a`.
proof fn lemma_div_trunc_two_in_range(a: int)
    ensures
        a >= 0 ==> 0 <= div_trunc(a, 2) <= a,
        a < 0 ==> a <= div_trunc(a, 2) <= 0,
{
    if a >= 0 {
        assert(0 <= a / 2 <= a) by (nonlinear_arith)
            requires
                a >= 0,
        ;
    } else {
        assert(0 <= (-a) / 2 <= -a) by (nonlinear_arith)
            requires
                a < 0,
        ;
    }
}

} // verus!
