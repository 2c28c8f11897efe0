//! The arithmetic that a number type must offer, and the vocabulary in which
//! the contracts of this library speak of it.
//!
//! Nothing is assumed of the arithmetic of a scalar type: neither that it is
//! exact, nor that it is associative, nor even that it gives the same result
//! twice. A contract therefore never says that a result *equals* a product.
//! It says that the result *is* a product of the two operands: a value that
//! the type's own `*` gives for them. For a type whose arithmetic is a
//! function of its operands, as IEEE 754 arithmetic is, that is the same
//! thing.
//!
//! The standard library has a trait for the product and one for the
//! quotient, but none for a whole power. The functions that need powers
//! therefore take the power function as an argument; for a primitive
//! floating-point type that is its `powi`.

use core::ops::{Div, Mul};
use vstd::prelude::*;

verus! {

/// A number type in which conversion factors can be derived and applied: it
/// is copied freely, has a product and a quotient, and holds the small whole
/// numbers.
pub trait Scalar: Copy + Mul<Output = Self> + Div<Output = Self> + From<u16> {

}

impl<T: Copy + Mul<Output = T> + Div<Output = T> + From<u16>> Scalar for T {

}

/// `r` is a value of `a * b`.
pub open spec fn product_of<T: Scalar>(a: T, b: T, r: T) -> bool {
    call_ensures(<T as Mul>::mul, (a, b), r)
}

/// `r` is a value of `a / b`.
pub open spec fn quotient_of<T: Scalar>(a: T, b: T, r: T) -> bool {
    call_ensures(<T as Div>::div, (a, b), r)
}

/// `r` is the scalar that stands for the whole number `n`.
pub open spec fn whole_of<T: Scalar>(n: u16, r: T) -> bool {
    call_ensures(<T as From<u16>>::from, (n,), r)
}

/// `r` is a value of `x` raised to the whole power `n` by `powi`.
pub open spec fn power_of<T, P: Fn(T, i32) -> T>(powi: P, x: T, n: i32, r: T) -> bool {
    call_ensures(powi, (x, n), r)
}

/// `r` is a value of `1 / x`.
pub open spec fn reciprocal_of<T: Scalar>(x: T, r: T) -> bool {
    exists|one: T| #[trigger] whole_of(1u16, one) && quotient_of(one, x, r)
}

/// The product and the quotient of `T` accept every pair of operands: no
/// operand makes them panic.
pub open spec fn arithmetic_is_total<T: Scalar>() -> bool {
    &&& forall|a: T, b: T| #[trigger] call_requires(<T as Mul>::mul, (a, b))
    &&& forall|a: T, b: T| #[trigger] call_requires(<T as Div>::div, (a, b))
}

/// `powi` accepts every scalar and every exponent.
pub open spec fn power_is_total<T, P: Fn(T, i32) -> T>(powi: P) -> bool {
    forall|x: T, n: i32| #[trigger] call_requires(powi, (x, n))
}

/// The product, the quotient and the whole numbers of `T` are functions of
/// their operands: the same operands give the same result.
pub open spec fn arithmetic_is_functional<T: Scalar>() -> bool {
    &&& forall|a: T, b: T, r1: T, r2: T|
        #[trigger] product_of(a, b, r1) && #[trigger] product_of(a, b, r2) ==> r1 == r2
    &&& forall|a: T, b: T, r1: T, r2: T|
        #[trigger] quotient_of(a, b, r1) && #[trigger] quotient_of(a, b, r2) ==> r1 == r2
    &&& forall|n: u16, r1: T, r2: T|
        #[trigger] whole_of(n, r1) && #[trigger] whole_of(n, r2) ==> r1 == r2
}

/// `powi` is a function of its operands.
pub open spec fn power_is_functional<T, P: Fn(T, i32) -> T>(powi: P) -> bool {
    forall|x: T, n: i32, r1: T, r2: T|
        #[trigger] power_of(powi, x, n, r1) && #[trigger] power_of(powi, x, n, r2) ==> r1 == r2
}

/// `one` is the only scalar that stands for the whole number 1, it is
/// neutral on the right of the product and of the quotient, and every power
/// of it by `powi` is `one` again.
pub open spec fn is_neutral<T: Scalar, P: Fn(T, i32) -> T>(powi: P, one: T) -> bool {
    &&& forall|r: T| #[trigger] whole_of(1u16, r) ==> r == one
    &&& forall|v: T, r: T| #[trigger] product_of(v, one, r) ==> r == v
    &&& forall|v: T, r: T| #[trigger] quotient_of(v, one, r) ==> r == v
    &&& forall|n: i32, r: T| #[trigger] power_of(powi, one, n, r) ==> r == one
}

/// `1 / x`.
pub fn reciprocal<T: Scalar>(x: T) -> (r: T)
    requires
        arithmetic_is_total::<T>(),
    ensures
        reciprocal_of(x, r),
{
    let one = <T as From<u16>>::from(1u16);
    let r = one / x;
    assert(whole_of(1u16, one) && quotient_of(one, x, r));
    r
}

} // verus!
