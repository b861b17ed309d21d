//! A planar transform kept as the sixteen cells of a four by four matrix.
//!
//! Six cells carry meaning: the two translation cells, and the two by two
//! block that rotation, scale and shear share. Rotation and shear both write
//! the off-diagonal cells of that block, rotation and scale both write its
//! diagonal: whichever is applied last wins.
//!
//! Shear follows one convention throughout: it reads and writes both
//! off-diagonal cells, the upper with the abscissa of the shear vector and
//! the lower with its ordinate.
//!
//! The scalar type supplies the arithmetic; functions such as sine, cosine
//! and arc tangent are handed in by the caller.

use crate::scalar::{is_neg, is_product, is_small_scalar_of, is_sum, Scalar};
use crate::vector::Vector;
use std::ops::{Add, Mul, Neg};
use vstd::prelude::*;
use vstd::std_specs::convert::FromSpec;
use vstd::std_specs::ops::{AddSpec, MulSpec, NegSpec};

verus! {

/// Row 0, column 0: first diagonal cell of the block.
pub const CELL_XX: usize = 0;

/// Row 0, column 1: upper off-diagonal cell of the block.
pub const CELL_XY: usize = 1;

/// Row 0, column 2: translation along the abscissa.
pub const CELL_TX: usize = 2;

/// Row 1, column 0: lower off-diagonal cell of the block.
pub const CELL_YX: usize = 4;

/// Row 1, column 1: second diagonal cell of the block.
pub const CELL_YY: usize = 5;

/// Row 1, column 2: translation along the ordinate.
pub const CELL_TY: usize = 6;

/// A transform of the plane: sixteen cells, row after row.
#[derive(Clone, Copy, Debug)]
pub struct Mat4x4<T: Clone + Copy> {
    value: [T; 16],
}

impl<T: Clone + Copy> View for Mat4x4<T> {
    type V = Seq<T>;

    /// The sixteen cells, row after row.
    closed spec fn view(&self) -> Seq<T> {
        self.value@
    }
}

/// Two transforms with the same cells are the same transform.
pub proof fn lemma_matrix_ext<T: Clone + Copy>(a: Mat4x4<T>, b: Mat4x4<T>)
    requires
        a@ == b@,
    ensures
        a == b,
{
    assert(a.value =~= b.value);
}

/// A transform has sixteen cells.
pub proof fn lemma_matrix_len<T: Clone + Copy>(m: Mat4x4<T>)
    ensures
        m@.len() == 16,
{
}

/// The cells of the transform that moves nothing, given the scalars zero
/// and one.
pub open spec fn identity_cells<T>(zero: T, one: T) -> Seq<T> {
    seq![
        one, zero, zero, zero,
        zero, one, zero, zero,
        zero, zero, one, zero,
        zero, zero, zero, one,
    ]
}

/// Whether `cells` are those of the transform that moves nothing: zero and
/// one are what the conversions from 0 and 1 return.
pub open spec fn is_identity<T: Scalar>(cells: Seq<T>) -> bool {
    &&& exists|zero: T, one: T|
        {
            &&& cells == #[trigger] identity_cells(zero, one)
            &&& is_small_scalar_of(0u8, zero)
            &&& is_small_scalar_of(1u8, one)
        }
    &&& <T as FromSpec<u8>>::obeys_from_spec() ==> cells == identity_cells(
        <T as FromSpec<u8>>::from_spec(0u8),
        <T as FromSpec<u8>>::from_spec(1u8),
    )
}

/// Whether `after` differs from `before` in at most the cells `a` and `b`.
pub open spec fn same_but_two<T>(before: Seq<T>, after: Seq<T>, a: int, b: int) -> bool {
    &&& after.len() == before.len()
    &&& forall|i: int| 0 <= i < before.len() && i != a && i != b ==> after[i] == before[i]
}

/// Whether `after` differs from `before` in at most the four cells of the
/// two by two block.
pub open spec fn same_but_block<T>(before: Seq<T>, after: Seq<T>) -> bool {
    &&& after.len() == before.len()
    &&& forall|i: int|
        0 <= i < before.len() && i != CELL_XX && i != CELL_XY && i != CELL_YX && i != CELL_YY
            ==> after[i] == before[i]
}

/// Whether the block of `after` is the rotation that `sin_cos` gives for
/// `angle`: cosine on the diagonal, sine below it, the negated sine above.
pub open spec fn block_turned_to<T: Neg<Output = T>, F: Fn(T) -> (T, T)>(
    after: Seq<T>,
    angle: T,
    sin_cos: F,
) -> bool {
    &&& call_ensures(sin_cos, (angle,), (after[CELL_YX as int], after[CELL_XX as int]))
    &&& after[CELL_YY as int] == after[CELL_XX as int]
    &&& is_neg(after[CELL_YX as int], after[CELL_XY as int])
}

/// Whether `sin_cos` may be called on `angle` and each sine it can return may
/// be negated.
pub open spec fn turn_to_req<T: Neg<Output = T>, F: Fn(T) -> (T, T)>(angle: T, sin_cos: F) -> bool {
    &&& call_requires(sin_cos, (angle,))
    &&& forall|s: T, c: T| #[trigger] call_ensures(sin_cos, (angle,), (s, c)) ==> s.neg_req()
}

/// Whether `angle` can be what `atan2` recovers from the block of `cells`:
/// the arc tangent of the negated upper off-diagonal cell over the first
/// diagonal cell.
pub open spec fn is_recovered_angle<T: Neg<Output = T>, A: Fn(T, T) -> T>(
    cells: Seq<T>,
    atan2: A,
    angle: T,
) -> bool {
    exists|n: T|
        #[trigger] is_neg(cells[CELL_XY as int], n) && call_ensures(
            atan2,
            (n, cells[CELL_XX as int]),
            angle,
        )
}

/// Whether a turn by `by` can be carried out on `cells`: every step of it
/// may be called on whatever the step before can return.
pub open spec fn turn_by_req<
    T: Neg<Output = T> + Add<Output = T>,
    A: Fn(T, T) -> T,
    F: Fn(T) -> (T, T),
>(cells: Seq<T>, by: T, atan2: A, sin_cos: F) -> bool {
    &&& cells[CELL_XY as int].neg_req()
    &&& forall|n: T| #[trigger]
        is_neg(cells[CELL_XY as int], n) ==> call_requires(atan2, (n, cells[CELL_XX as int]))
    &&& forall|from: T| #[trigger]
        is_recovered_angle(cells, atan2, from) ==> from.add_req(by)
    &&& forall|from: T, to: T|
        is_recovered_angle(cells, atan2, from) && #[trigger] is_sum(from, by, to) ==> turn_to_req(
            to,
            sin_cos,
        )
}

/// Whether `after` is `before` with the pair `v` written into the cells `a`
/// and `b`.
pub open spec fn cells_set<T>(before: Seq<T>, after: Seq<T>, a: int, b: int, v: (T, T)) -> bool {
    after == before.update(a, v.0).update(b, v.1)
}

/// Whether the pair `v` may be added to the cells `a` and `b` of `cells`.
pub open spec fn cells_add_req<T: Add<Output = T>>(cells: Seq<T>, a: int, b: int, v: (T, T)) -> bool {
    cells[a].add_req(v.0) && cells[b].add_req(v.1)
}

/// Whether `after` is `before` with the pair `v` added to the cells `a` and
/// `b`: no other cell differs, and the two cells hold sums, which with a
/// deterministic sum are what `add_spec` names.
pub open spec fn cells_added<T: Add<Output = T>>(
    before: Seq<T>,
    after: Seq<T>,
    a: int,
    b: int,
    v: (T, T),
) -> bool {
    &&& same_but_two(before, after, a, b)
    &&& is_sum(before[a], v.0, after[a])
    &&& is_sum(before[b], v.1, after[b])
    &&& T::obeys_add_spec() ==> after == before.update(a, before[a].add_spec(v.0)).update(
        b,
        before[b].add_spec(v.1),
    )
}

/// Whether the cells `a` and `b` of `cells` may be multiplied by the pair
/// `v`.
pub open spec fn cells_mul_req<T: Mul<Output = T>>(cells: Seq<T>, a: int, b: int, v: (T, T)) -> bool {
    cells[a].mul_req(v.0) && cells[b].mul_req(v.1)
}

/// Whether `after` is `before` with the cells `a` and `b` multiplied by the
/// pair `v`: no other cell differs, and the two cells hold products, which
/// with a deterministic product are what `mul_spec` names.
pub open spec fn cells_multiplied<T: Mul<Output = T>>(
    before: Seq<T>,
    after: Seq<T>,
    a: int,
    b: int,
    v: (T, T),
) -> bool {
    &&& same_but_two(before, after, a, b)
    &&& is_product(before[a], v.0, after[a])
    &&& is_product(before[b], v.1, after[b])
    &&& T::obeys_mul_spec() ==> after == before.update(a, before[a].mul_spec(v.0)).update(
        b,
        before[b].mul_spec(v.1),
    )
}

/// Whether `after` is `before` turned to the absolute `angle`: the block
/// holds the rotation that `sin_cos` gives, no other cell differs.
pub open spec fn turned_to<T: Neg<Output = T>, F: Fn(T) -> (T, T)>(
    before: Seq<T>,
    after: Seq<T>,
    angle: T,
    sin_cos: F,
) -> bool {
    &&& same_but_block(before, after)
    &&& block_turned_to(after, angle, sin_cos)
}

/// Whether `after` is `before` turned by `by`: turned to the sum of `by` and
/// an angle that `atan2` recovers from the block of `before`.
pub open spec fn turned_by<
    T: Neg<Output = T> + Add<Output = T>,
    A: Fn(T, T) -> T,
    F: Fn(T) -> (T, T),
>(before: Seq<T>, after: Seq<T>, by: T, atan2: A, sin_cos: F) -> bool {
    exists|from: T, to: T|
        {
            &&& is_recovered_angle(before, atan2, from)
            &&& #[trigger] is_sum(from, by, to)
            &&& turned_to(before, after, to, sin_cos)
        }
}

/// The transform that moves nothing reads as no move, no shear and unit
/// scale: its translation and off-diagonal cells are the scalar zero, its
/// diagonal cells the scalar one. An angle is read from it as the arc
/// tangent of zero over one.
pub proof fn lemma_identity_reads<T: Scalar>(cells: Seq<T>)
    requires
        is_identity(cells),
    ensures
        is_small_scalar_of(0u8, cells[CELL_TX as int]),
        is_small_scalar_of(1u8, cells[CELL_XX as int]),
        cells[CELL_TY as int] == cells[CELL_TX as int],
        cells[CELL_XY as int] == cells[CELL_TX as int],
        cells[CELL_YX as int] == cells[CELL_TX as int],
        cells[CELL_YY as int] == cells[CELL_XX as int],
        <T as FromSpec<u8>>::obeys_from_spec() ==> cells[CELL_TX as int] == <T as FromSpec<
            u8,
        >>::from_spec(0u8) && cells[CELL_XX as int] == <T as FromSpec<u8>>::from_spec(1u8),
{
}

/// A transform that was moved to a position reads back that position,
/// whatever it held before.
pub proof fn lemma_translate_to_reads_back<T>(before: Seq<T>, after: Seq<T>, position: (T, T))
    requires
        before.len() == 16,
        cells_set(before, after, CELL_TX as int, CELL_TY as int, position),
    ensures
        (after[CELL_TX as int], after[CELL_TY as int]) == position,
{
}

/// Moving by one displacement and then by another is moving once by their
/// sum, for scalars whose sum is deterministic and does not depend on how
/// the three summands of each translation cell are grouped.
pub proof fn lemma_translate_by_twice<T: Add<Output = T>>(
    start: Seq<T>,
    first: Seq<T>,
    second: Seq<T>,
    once: Seq<T>,
    d1: (T, T),
    d2: (T, T),
)
    requires
        start.len() == 16,
        T::obeys_add_spec(),
        start[CELL_TX as int].add_spec(d1.0).add_spec(d2.0) == start[CELL_TX as int].add_spec(
            d1.0.add_spec(d2.0),
        ),
        start[CELL_TY as int].add_spec(d1.1).add_spec(d2.1) == start[CELL_TY as int].add_spec(
            d1.1.add_spec(d2.1),
        ),
        cells_added(start, first, CELL_TX as int, CELL_TY as int, d1),
        cells_added(first, second, CELL_TX as int, CELL_TY as int, d2),
        cells_added(
            start,
            once,
            CELL_TX as int,
            CELL_TY as int,
            (d1.0.add_spec(d2.0), d1.1.add_spec(d2.1)),
        ),
    ensures
        second == once,
{
    assert(second =~= once);
}

/// Of several turns to absolute angles only the last one shows: the block
/// holds the rotation for the last angle, and no cell outside the block
/// has changed since before the first.
pub proof fn lemma_last_turn_shows<T: Neg<Output = T>, F: Fn(T) -> (T, T)>(
    start: Seq<T>,
    first: Seq<T>,
    second: Seq<T>,
    a1: T,
    a2: T,
    sin_cos: F,
)
    requires
        turned_to(start, first, a1, sin_cos),
        turned_to(first, second, a2, sin_cos),
    ensures
        turned_to(start, second, a2, sin_cos),
{
}

/// The angle read after a turn to an absolute angle is the arc tangent of
/// a sine over a cosine that `sin_cos` gives for that angle, whatever the
/// transform held before.
pub proof fn lemma_angle_reads_turn<T: Neg<Output = T>, F: Fn(T) -> (T, T), A: Fn(T, T) -> T>(
    before: Seq<T>,
    after: Seq<T>,
    angle: T,
    sin_cos: F,
    atan2: A,
    read: T,
)
    requires
        turned_to(before, after, angle, sin_cos),
        call_ensures(atan2, (after[CELL_YX as int], after[CELL_XX as int]), read),
    ensures
        exists|s: T, c: T|
            #[trigger] call_ensures(sin_cos, (angle,), (s, c)) && call_ensures(atan2, (s, c), read),
{
}

impl<T: Scalar> Mat4x4<T> {
    /// The transform with the given cells, row after row.
    pub fn new(
        _0: T,
        _1: T,
        _2: T,
        _3: T,
        _4: T,
        _5: T,
        _6: T,
        _7: T,
        _8: T,
        _9: T,
        _10: T,
        _11: T,
        _12: T,
        _13: T,
        _14: T,
        _15: T,
    ) -> (m: Self)
        ensures
            m@ == seq![_0, _1, _2, _3, _4, _5, _6, _7, _8, _9, _10, _11, _12, _13, _14, _15],
    {
        let m = Self {
            value: [_0, _1, _2, _3, _4, _5, _6, _7, _8, _9, _10, _11, _12, _13, _14, _15],
        };
        assert(m@ =~= seq![_0, _1, _2, _3, _4, _5, _6, _7, _8, _9, _10, _11, _12, _13, _14, _15]);
        m
    }

    /// The transform that moves nothing: one on the diagonal, zero
    /// elsewhere, each converted once from the integers 1 and 0.
    pub fn identity() -> (m: Self)
        ensures
            is_identity(m@),
    {
        let zero: T = <T as From<u8>>::from(0u8);
        let one: T = <T as From<u8>>::from(1u8);
        let m = Self::new(
            one,
            zero,
            zero,
            zero,
            zero,
            one,
            zero,
            zero,
            zero,
            zero,
            one,
            zero,
            zero,
            zero,
            zero,
            one,
        );
        assert(m@ == identity_cells(zero, one));
        m
    }

    /// The sixteen cells, row after row.
    pub fn cells(&self) -> (c: [T; 16])
        ensures
            c@ == self@,
    {
        self.value
    }

    /// Adds the displacement to the two translation cells.
    pub fn translate_by(&mut self, displacement_vec: Vector<T>)
        requires
            cells_add_req(old(self)@, CELL_TX as int, CELL_TY as int, displacement_vec@),
        ensures
            cells_added(old(self)@, final(self)@, CELL_TX as int, CELL_TY as int, displacement_vec@),
    {
        let x = self.value[CELL_TX] + displacement_vec.x();
        let y = self.value[CELL_TY] + displacement_vec.y();
        self.value[CELL_TX] = x;
        self.value[CELL_TY] = y;
        assert(final(self)@ =~= old(self)@.update(CELL_TX as int, x).update(CELL_TY as int, y));
    }

    /// Sets the two translation cells to the position.
    pub fn translate_to(&mut self, position_vec: Vector<T>)
        ensures
            cells_set(old(self)@, final(self)@, CELL_TX as int, CELL_TY as int, position_vec@),
    {
        self.value[CELL_TX] = position_vec.x();
        self.value[CELL_TY] = position_vec.y();
        assert(final(self)@ =~= old(self)@.update(CELL_TX as int, position_vec@.0).update(
            CELL_TY as int,
            position_vec@.1,
        ));
    }

    /// The two translation cells.
    pub fn position(&self) -> (p: Vector<T>)
        ensures
            p@ == (self@[CELL_TX as int], self@[CELL_TY as int]),
    {
        Vector::new(self.value[CELL_TX], self.value[CELL_TY])
    }

    /// Turns the block by `displacement_angle`: recovers the present angle
    /// with `atan2` from the negated upper off-diagonal cell and the first
    /// diagonal cell, adds the displacement, and writes the rotation for
    /// the sum. The recovery takes the block for a pure rotation, so a
    /// scale or shear in it is lost.
    pub fn rotate_by<A: Fn(T, T) -> T, F: Fn(T) -> (T, T)>(
        &mut self,
        displacement_angle: T,
        atan2: A,
        sin_cos: F,
    )
        requires
            turn_by_req(old(self)@, displacement_angle, atan2, sin_cos),
        ensures
            turned_by(old(self)@, final(self)@, displacement_angle, atan2, sin_cos),
    {
        let n = self.value[CELL_XY].neg();
        assert(is_neg(old(self)@[CELL_XY as int], n));
        let initial_angle = atan2(n, self.value[CELL_XX]);
        assert(is_recovered_angle(old(self)@, atan2, initial_angle));
        let target = initial_angle + displacement_angle;
        assert(is_sum(initial_angle, displacement_angle, target));
        self.rotate_to(target, sin_cos);
    }

    /// Writes the rotation for the absolute `angle` into the block: the
    /// cosine on the diagonal, the sine below it, the negated sine above.
    pub fn rotate_to<F: Fn(T) -> (T, T)>(&mut self, angle: T, sin_cos: F)
        requires
            turn_to_req(angle, sin_cos),
        ensures
            turned_to(old(self)@, final(self)@, angle, sin_cos),
    {
        let (sval, cval) = sin_cos(angle);
        let nsval = sval.neg();
        self.value[CELL_XX] = cval;
        self.value[CELL_YY] = cval;
        self.value[CELL_XY] = nsval;
        self.value[CELL_YX] = sval;
    }

    /// The angle that `atan2` gives for the lower off-diagonal cell over
    /// the first diagonal cell.
    pub fn angle<A: Fn(T, T) -> T>(&self, atan2: A) -> (a: T)
        requires
            call_requires(atan2, (self@[CELL_YX as int], self@[CELL_XX as int])),
        ensures
            call_ensures(atan2, (self@[CELL_YX as int], self@[CELL_XX as int]), a),
    {
        atan2(self.value[CELL_YX], self.value[CELL_XX])
    }

    /// Sets the two diagonal cells of the block to the scale.
    pub fn scale_to(&mut self, scale: Vector<T>)
        ensures
            cells_set(old(self)@, final(self)@, CELL_XX as int, CELL_YY as int, scale@),
    {
        self.value[CELL_XX] = scale.x();
        self.value[CELL_YY] = scale.y();
        assert(final(self)@ =~= old(self)@.update(CELL_XX as int, scale@.0).update(
            CELL_YY as int,
            scale@.1,
        ));
    }

    /// Multiplies the two diagonal cells of the block by the factors.
    pub fn scale_by(&mut self, scale_factor: Vector<T>)
        requires
            cells_mul_req(old(self)@, CELL_XX as int, CELL_YY as int, scale_factor@),
        ensures
            cells_multiplied(
                old(self)@,
                final(self)@,
                CELL_XX as int,
                CELL_YY as int,
                scale_factor@,
            ),
    {
        let x = self.value[CELL_XX] * scale_factor.x();
        let y = self.value[CELL_YY] * scale_factor.y();
        self.value[CELL_XX] = x;
        self.value[CELL_YY] = y;
        assert(final(self)@ =~= old(self)@.update(CELL_XX as int, x).update(CELL_YY as int, y));
    }

    /// The two diagonal cells of the block.
    pub fn scale(&self) -> (s: Vector<T>)
        ensures
            s@ == (self@[CELL_XX as int], self@[CELL_YY as int]),
    {
        Vector::new(self.value[CELL_XX], self.value[CELL_YY])
    }

    /// Sets the two off-diagonal cells of the block to the shear.
    pub fn shear_to(&mut self, shear_angle: Vector<T>)
        ensures
            cells_set(old(self)@, final(self)@, CELL_XY as int, CELL_YX as int, shear_angle@),
    {
        self.value[CELL_XY] = shear_angle.x();
        self.value[CELL_YX] = shear_angle.y();
        assert(final(self)@ =~= old(self)@.update(CELL_XY as int, shear_angle@.0).update(
            CELL_YX as int,
            shear_angle@.1,
        ));
    }

    /// Adds the shear displacement to the two off-diagonal cells of the
    /// block.
    pub fn shear_by(&mut self, shear_displacement_angle: Vector<T>)
        requires
            cells_add_req(old(self)@, CELL_XY as int, CELL_YX as int, shear_displacement_angle@),
        ensures
            cells_added(
                old(self)@,
                final(self)@,
                CELL_XY as int,
                CELL_YX as int,
                shear_displacement_angle@,
            ),
    {
        let x = self.value[CELL_XY] + shear_displacement_angle.x();
        let y = self.value[CELL_YX] + shear_displacement_angle.y();
        self.value[CELL_XY] = x;
        self.value[CELL_YX] = y;
        assert(final(self)@ =~= old(self)@.update(CELL_XY as int, x).update(CELL_YX as int, y));
    }
}

} // verus!
