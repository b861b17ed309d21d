//! A pair of coordinates over any scalar type that has the four arithmetic
//! operators.
//!
//! The contracts say of each computed coordinate which operator returned it
//! for which operands. For a scalar type whose operators are deterministic
//! that pins the value down: it is what `add_spec`, `sub_spec`, `mul_spec`
//! and `div_spec` of the scalar type name.

use std::ops::{Add, Div, Mul, Sub};
use crate::scalar::{
    is_difference, is_function, is_product, is_quotient, is_sum, lemma_value_of, value_of,
};
use vstd::prelude::*;
use vstd::std_specs::ops::{AddSpec, DivSpec, MulSpec, SubSpec};

verus! {

/// A point or displacement in the plane. `pos[0]` is the abscissa, `pos[1]`
/// the ordinate.
#[derive(Clone, Copy, Debug)]
pub struct Vector<T: Clone + Copy> {
    pub pos: [T; 2],
}

impl<T: Clone + Copy> View for Vector<T> {
    type V = (T, T);

    /// The two coordinates as a pair.
    open spec fn view(&self) -> (T, T) {
        (self.pos[0], self.pos[1])
    }
}

/// Two vectors with the same coordinates are the same vector.
pub proof fn lemma_vector_ext<T: Clone + Copy>(a: Vector<T>, b: Vector<T>)
    requires
        a@ == b@,
    ensures
        a == b,
{
    assert(a.pos =~= b.pos);
}

/// Coordinate-wise sum of two pairs.
pub open spec fn pair_sum<T: Add<Output = T>>(a: (T, T), b: (T, T)) -> (T, T) {
    (a.0.add_spec(b.0), a.1.add_spec(b.1))
}

/// Coordinate-wise difference of two pairs.
pub open spec fn pair_diff<T: Sub<Output = T>>(a: (T, T), b: (T, T)) -> (T, T) {
    (a.0.sub_spec(b.0), a.1.sub_spec(b.1))
}

/// Whether both coordinates of `a` may be added to those of `b`.
pub open spec fn pair_sum_req<T: Add<Output = T>>(a: (T, T), b: (T, T)) -> bool {
    a.0.add_req(b.0) && a.1.add_req(b.1)
}

/// Whether both coordinates of `b` may be subtracted from those of `a`.
pub open spec fn pair_diff_req<T: Sub<Output = T>>(a: (T, T), b: (T, T)) -> bool {
    a.0.sub_req(b.0) && a.1.sub_req(b.1)
}

/// Whether `s` is a coordinate-wise sum of `a` and `b`; with a
/// deterministic sum it is `pair_sum(a, b)`.
pub open spec fn is_pair_sum<T: Add<Output = T>>(a: (T, T), b: (T, T), s: (T, T)) -> bool {
    &&& is_sum(a.0, b.0, s.0)
    &&& is_sum(a.1, b.1, s.1)
    &&& T::obeys_add_spec() ==> s == pair_sum(a, b)
}

/// Whether `d` is a coordinate-wise difference of `a` and `b`; with a
/// deterministic difference it is `pair_diff(a, b)`.
pub open spec fn is_pair_diff<T: Sub<Output = T>>(a: (T, T), b: (T, T), d: (T, T)) -> bool {
    &&& is_difference(a.0, b.0, d.0)
    &&& is_difference(a.1, b.1, d.1)
    &&& T::obeys_sub_spec() ==> d == pair_diff(a, b)
}

/// The sum of the squares of the two coordinates.
pub open spec fn pair_mag<T: Add<Output = T> + Mul<Output = T>>(v: (T, T)) -> T {
    v.0.mul_spec(v.0).add_spec(v.1.mul_spec(v.1))
}

/// Whether `m` is a sum of squares of the coordinates of `v`: a sum of a
/// product of the first with itself and a product of the second with
/// itself. With deterministic operators it is `pair_mag(v)`.
pub open spec fn is_pair_mag<T: Add<Output = T> + Mul<Output = T>>(v: (T, T), m: T) -> bool {
    &&& exists|p: T, q: T|
        #[trigger] is_product(v.0, v.0, p) && #[trigger] is_product(v.1, v.1, q) && is_sum(p, q, m)
    &&& (T::obeys_mul_spec() && T::obeys_add_spec()) ==> m == pair_mag(v)
}

/// Whether the sum of squares of `v` can be computed: each square can, and
/// so can the sum of whatever the squares evaluate to.
pub open spec fn pair_mag_req<T: Add<Output = T> + Mul<Output = T>>(v: (T, T)) -> bool {
    &&& v.0.mul_req(v.0)
    &&& v.1.mul_req(v.1)
    &&& forall|p: T, q: T|
        #[trigger] is_product(v.0, v.0, p) && #[trigger] is_product(v.1, v.1, q) ==> p.add_req(q)
}

/// Whether the magnitude of `v` can be computed: the sum of squares can,
/// and `sqrt` accepts whatever that evaluates to.
pub open spec fn magnitude_req<T: Add<Output = T> + Mul<Output = T>, S: Fn(T) -> T>(
    v: (T, T),
    sqrt: S,
) -> bool {
    &&& pair_mag_req(v)
    &&& forall|m2: T| #[trigger] is_pair_mag(v, m2) ==> call_requires(sqrt, (m2,))
}

/// Whether `m` is a magnitude of `v`: what the square root `sqrt` gives for
/// a sum of squares of the coordinates. With deterministic operators and a
/// square root that returns one result for one argument it is the root of
/// `pair_mag(v)`.
pub open spec fn is_magnitude<T: Add<Output = T> + Mul<Output = T>, S: Fn(T) -> T>(
    v: (T, T),
    sqrt: S,
    m: T,
) -> bool {
    &&& exists|m2: T| #[trigger] is_pair_mag(v, m2) && call_ensures(sqrt, (m2,), m)
    &&& (T::obeys_mul_spec() && T::obeys_add_spec() && is_function(sqrt)) ==> m == value_of(
        sqrt,
        pair_mag(v),
    )
}

/// Both coordinates of `v` divided by `m`.
pub open spec fn pair_over<T: Div<Output = T>>(v: (T, T), m: T) -> (T, T) {
    (v.0.div_spec(m), v.1.div_spec(m))
}

/// Whether `v` can be divided by its own magnitude, whatever that
/// evaluates to.
pub open spec fn pair_normal_req<
    T: Add<Output = T> + Mul<Output = T> + Div<Output = T>,
    S: Fn(T) -> T,
>(v: (T, T), sqrt: S) -> bool {
    &&& magnitude_req(v, sqrt)
    &&& forall|m: T| #[trigger] is_magnitude(v, sqrt, m) ==> v.0.div_req(m) && v.1.div_req(m)
}

/// Whether every operator used on the way to a normalised vector is
/// deterministic, and the square root returns one result for one argument.
pub open spec fn obeys_normal_spec<
    T: Add<Output = T> + Mul<Output = T> + Div<Output = T>,
    S: Fn(T) -> T,
>(sqrt: S) -> bool {
    T::obeys_mul_spec() && T::obeys_add_spec() && T::obeys_div_spec() && is_function(sqrt)
}

/// Whether `n` is `v` normalised: both coordinates of `v` divided by one
/// magnitude of `v`. With deterministic operators and square root it is
/// `v` over the root of `pair_mag(v)`.
pub open spec fn is_pair_normal<
    T: Add<Output = T> + Mul<Output = T> + Div<Output = T>,
    S: Fn(T) -> T,
>(v: (T, T), sqrt: S, n: (T, T)) -> bool {
    &&& exists|m: T| #[trigger]
        is_magnitude(v, sqrt, m) && is_quotient(v.0, m, n.0) && is_quotient(v.1, m, n.1)
    &&& obeys_normal_spec::<T, S>(sqrt) ==> n == pair_over(v, value_of(sqrt, pair_mag(v)))
}

impl<
    T: Copy + Clone + Add<Output = T> + Sub<Output = T> + Mul<Output = T> + Div<Output = T>,
> Vector<T> {
    /// The vector with coordinates `x` and `y`.
    pub fn new(x: T, y: T) -> (v: Self)
        ensures
            v@ == (x, y),
    {
        Self { pos: [x, y] }
    }

    /// The abscissa.
    pub fn x(&self) -> (r: T)
        ensures
            r == self@.0,
    {
        self.pos[0]
    }

    /// The ordinate.
    pub fn y(&self) -> (r: T)
        ensures
            r == self@.1,
    {
        self.pos[1]
    }

    /// Replaces the abscissa and keeps the ordinate.
    pub fn set_x(&mut self, value: T)
        ensures
            final(self)@ == (value, old(self)@.1),
    {
        self.pos[0] = value;
    }

    /// Replaces the ordinate and keeps the abscissa.
    pub fn set_y(&mut self, value: T)
        ensures
            final(self)@ == (old(self)@.0, value),
    {
        self.pos[1] = value;
    }

    /// Adds `vec` to this vector, coordinate by coordinate.
    pub fn add_vec(&mut self, vec: Self)
        requires
            pair_sum_req(old(self)@, vec@),
        ensures
            is_pair_sum(old(self)@, vec@, final(self)@),
    {
        let x = self.pos[0] + vec.x();
        let y = self.pos[1] + vec.y();
        self.pos[0] = x;
        self.pos[1] = y;
    }

    /// Subtracts `vec` from this vector, coordinate by coordinate.
    pub fn sub_vec(&mut self, vec: Self)
        requires
            pair_diff_req(old(self)@, vec@),
        ensures
            is_pair_diff(old(self)@, vec@, final(self)@),
    {
        let x = self.pos[0] - vec.x();
        let y = self.pos[1] - vec.y();
        self.pos[0] = x;
        self.pos[1] = y;
    }

    /// The coordinate-wise sum of two vectors.
    pub fn vec_sum(vec1: Self, vec2: Self) -> (v: Self)
        requires
            pair_sum_req(vec1@, vec2@),
        ensures
            is_pair_sum(vec1@, vec2@, v@),
    {
        Self::new(vec1.x() + vec2.x(), vec1.y() + vec2.y())
    }

    /// The coordinate-wise difference of two vectors.
    pub fn vec_diff(vec1: Self, vec2: Self) -> (v: Self)
        requires
            pair_diff_req(vec1@, vec2@),
        ensures
            is_pair_diff(vec1@, vec2@, v@),
    {
        Self::new(vec1.x() - vec2.x(), vec1.y() - vec2.y())
    }

    /// The magnitude: the square root, as `sqrt` takes it, of the sum of
    /// the squares of the coordinates.
    pub fn mag<S: Fn(T) -> T>(&self, sqrt: S) -> (m: T)
        requires
            magnitude_req(self@, sqrt),
        ensures
            is_magnitude(self@, sqrt, m),
    {
        let xx = self.pos[0] * self.pos[0];
        let yy = self.pos[1] * self.pos[1];
        assert(is_product(self@.0, self@.0, xx) && is_product(self@.1, self@.1, yy));
        let squares = xx + yy;
        assert(is_pair_mag(self@, squares));
        let m = sqrt(squares);
        proof {
            if T::obeys_mul_spec() && T::obeys_add_spec() && is_function(sqrt) {
                lemma_value_of(sqrt, squares, m);
            }
        }
        m
    }

    /// Divides both coordinates by the magnitude, so that the vector keeps
    /// its direction and gets the length one.
    pub fn normalize<S: Fn(T) -> T>(&mut self, sqrt: S)
        requires
            pair_normal_req(old(self)@, sqrt),
        ensures
            is_pair_normal(old(self)@, sqrt, final(self)@),
    {
        let mag = self.mag(sqrt);
        let x = self.pos[0] / mag;
        let y = self.pos[1] / mag;
        self.pos[0] = x;
        self.pos[1] = y;
    }

    /// This vector with both coordinates divided by the magnitude.
    pub fn normalized<S: Fn(T) -> T>(&self, sqrt: S) -> (v: Self)
        requires
            pair_normal_req(self@, sqrt),
        ensures
            is_pair_normal(self@, sqrt, v@),
    {
        let mag = self.mag(sqrt);
        Self::new(self.pos[0] / mag, self.pos[1] / mag)
    }
}

} // verus!
