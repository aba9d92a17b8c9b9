//! The scalar interface that the matrix and volume code is written against.

use vstd::prelude::*;

verus! {

/// A scalar: the arithmetic, ordering and conversions that the geometry needs.
///
/// Each executable operation is paired with a specification function of the
/// same meaning, and promises to return exactly that value. Nothing else is
/// assumed of a scalar: rounding arithmetic is as welcome as exact arithmetic.
/// What additionally holds of exact arithmetic is stated in
/// [`crate::exact`].
///
/// Every operation is total. An implementation over integers picks a value
/// for division by zero; one over floating point lets infinities and NaN
/// through.
///
/// An implementation that is not verified, such as one over floating point,
/// gives each specification function the body of the operation that it
/// specifies. Those functions are never run.
pub trait Field: Copy + Sized {
    /// The additive identity.
    spec fn zero_spec() -> Self;

    /// The multiplicative identity.
    spec fn one_spec() -> Self;

    /// `self + rhs`.
    spec fn add_spec(self, rhs: Self) -> Self;

    /// `self - rhs`.
    spec fn sub_spec(self, rhs: Self) -> Self;

    /// `self * rhs`.
    spec fn mul_spec(self, rhs: Self) -> Self;

    /// `self / rhs`.
    spec fn div_spec(self, rhs: Self) -> Self;

    /// `-self`.
    spec fn neg_spec(self) -> Self;

    /// The magnitude of `self`.
    spec fn abs_spec(self) -> Self;

    /// Whether `self` is strictly below `rhs`.
    spec fn lt_spec(self, rhs: Self) -> bool;

    /// Whether `self` counts as zero when a pivot is tested.
    spec fn is_zero_spec(self) -> bool;

    /// The scalar that stands for the integer `v`.
    spec fn from_i32_spec(v: i32) -> Self;

    /// The scalar that stands for the count `v`.
    spec fn from_usize_spec(v: usize) -> Self;

    /// The integer nearest to `self`.
    spec fn round_spec(self) -> i64;

    fn zero() -> (r: Self)
        ensures
            r == Self::zero_spec(),
    ;

    fn one() -> (r: Self)
        ensures
            r == Self::one_spec(),
    ;

    fn add(self, rhs: Self) -> (r: Self)
        ensures
            r == self.add_spec(rhs),
    ;

    fn sub(self, rhs: Self) -> (r: Self)
        ensures
            r == self.sub_spec(rhs),
    ;

    fn mul(self, rhs: Self) -> (r: Self)
        ensures
            r == self.mul_spec(rhs),
    ;

    fn div(self, rhs: Self) -> (r: Self)
        ensures
            r == self.div_spec(rhs),
    ;

    fn neg(self) -> (r: Self)
        ensures
            r == self.neg_spec(),
    ;

    fn abs(self) -> (r: Self)
        ensures
            r == self.abs_spec(),
    ;

    fn lt(self, rhs: Self) -> (r: bool)
        ensures
            r == self.lt_spec(rhs),
    ;

    fn is_zero(self) -> (r: bool)
        ensures
            r == self.is_zero_spec(),
    ;

    fn from_i32(v: i32) -> (r: Self)
        ensures
            r == Self::from_i32_spec(v),
    ;

    fn from_usize(v: usize) -> (r: Self)
        ensures
            r == Self::from_usize_spec(v),
    ;

    fn round(self) -> (r: i64)
        ensures
            r == self.round_spec(),
    ;

    /// The scalar that a text stands for, where it stands for one. How a
    /// text is read is for the scalar to say: nothing is promised of it, and
    /// what rests on it states what holds of every outcome.
    fn parse(text: &str) -> (r: Option<Self>)
    ;
}

/// The larger of two scalars; the first where neither is below the other.
pub open spec fn max_spec<T: Field>(a: T, b: T) -> T {
    if a.lt_spec(b) {
        b
    } else {
        a
    }
}

/// The scalar `num / den`, as the scalar's own division gives it.
pub open spec fn ratio_spec<T: Field>(num: i32, den: i32) -> T {
    T::from_i32_spec(num).div_spec(T::from_i32_spec(den))
}

/// The larger of two scalars; the first where neither is below the other.
pub fn max<T: Field>(a: T, b: T) -> (r: T)
    ensures
        r == max_spec(a, b),
{
    if a.lt(b) {
        b
    } else {
        a
    }
}

/// The scalar `num / den`, as the scalar's own division gives it.
pub fn ratio<T: Field>(num: i32, den: i32) -> (r: T)
    ensures
        r == ratio_spec::<T>(num, den),
{
    T::from_i32(num).div(T::from_i32(den))
}

} // verus!
