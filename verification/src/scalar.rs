//! What the library asks of the numbers it computes with.
//!
//! Coordinates, matrix cells, angles and masses are values of one scalar
//! type, which the caller chooses. The library uses its operators and its
//! conversions from small whole numbers; functions that no operator gives,
//! such as the sine or the square root, are handed in as function values.
//!
//! Contracts that pin a computed value down do so for scalars whose
//! operators are deterministic and for function values that return one
//! result for one argument.

use std::ops::{Add, Div, Mul, Neg, Sub};
use vstd::prelude::*;
use vstd::std_specs::convert::FromSpec;
use vstd::std_specs::ops::{AddSpec, DivSpec, MulSpec, NegSpec, SubSpec};

verus! {

/// What a scalar must offer: the four arithmetic operators, negation, and
/// conversion from small whole numbers. Every type that has these is a
/// scalar.
pub trait Scalar: Copy + Add<Output = Self> + Sub<Output = Self> + Mul<Output = Self> + Div<
    Output = Self,
> + Neg<Output = Self> + From<u8> + From<u16> {

}

impl<
    T: Copy + Add<Output = T> + Sub<Output = T> + Mul<Output = T> + Div<Output = T> + Neg<
        Output = T,
    > + From<u8> + From<u16>,
> Scalar for T {

}

/// Whether `s` is a sum of `a` and `b`: what `a + b` can evaluate to.
pub open spec fn is_sum<T: Add<Output = T>>(a: T, b: T, s: T) -> bool {
    call_ensures(<T as Add>::add, (a, b), s)
}

/// Whether `d` is a difference of `a` and `b`: what `a - b` can evaluate
/// to.
pub open spec fn is_difference<T: Sub<Output = T>>(a: T, b: T, d: T) -> bool {
    call_ensures(<T as Sub>::sub, (a, b), d)
}

/// Whether `p` is a product of `a` and `b`: what `a * b` can evaluate to.
pub open spec fn is_product<T: Mul<Output = T>>(a: T, b: T, p: T) -> bool {
    call_ensures(<T as Mul>::mul, (a, b), p)
}

/// Whether `q` is a quotient of `a` and `b`: what `a / b` can evaluate to.
pub open spec fn is_quotient<T: Div<Output = T>>(a: T, b: T, q: T) -> bool {
    call_ensures(<T as Div>::div, (a, b), q)
}

/// Whether `n` is a negation of `a`: what `-a` can evaluate to.
pub open spec fn is_neg<T: Neg<Output = T>>(a: T, n: T) -> bool {
    call_ensures(<T as Neg>::neg, (a,), n)
}

/// Whether `v` stands for the whole number `n`: what the conversion of `n`
/// can return.
pub open spec fn is_scalar_of<T: From<u16>>(n: u16, v: T) -> bool {
    call_ensures(<T as From<u16>>::from, (n,), v)
}

/// Whether `v` stands for the small whole number `n`: what the conversion
/// of `n` can return.
pub open spec fn is_small_scalar_of<T: From<u8>>(n: u8, v: T) -> bool {
    call_ensures(<T as From<u8>>::from, (n,), v)
}

/// Whether the operators and conversions of `T` are deterministic: each
/// returns what its specification says.
pub open spec fn exact_scalar<T: Scalar>() -> bool {
    &&& T::obeys_add_spec()
    &&& T::obeys_sub_spec()
    &&& T::obeys_mul_spec()
    &&& T::obeys_div_spec()
    &&& T::obeys_neg_spec()
    &&& <T as FromSpec<u8>>::obeys_from_spec()
    &&& <T as FromSpec<u16>>::obeys_from_spec()
}

/// The scalar that stands for the whole number `n`.
pub open spec fn scalar_of<T: Scalar>(n: u16) -> T {
    <T as FromSpec<u16>>::from_spec(n)
}

/// Whether `f` returns one result for one argument.
pub open spec fn is_function<A, B, F: Fn(A) -> B>(f: F) -> bool {
    forall|x: A, r: B, s: B|
        #[trigger] call_ensures(f, (x,), r) && #[trigger] call_ensures(f, (x,), s) ==> r == s
}

/// What `f` returns for `x`.
pub open spec fn value_of<A, B, F: Fn(A) -> B>(f: F, x: A) -> B {
    choose|r: B| call_ensures(f, (x,), r)
}

/// What a function that returns one result for one argument has returned
/// is its value.
pub proof fn lemma_value_of<A, B, F: Fn(A) -> B>(f: F, x: A, r: B)
    requires
        is_function(f),
        call_ensures(f, (x,), r),
    ensures
        r == value_of(f, x),
{
}

} // verus!
