//! Rings of points on a circle, and index lists that fill a ring of points
//! with triangles.

use crate::scalar::{
    exact_scalar, is_function, is_product, is_quotient, is_scalar_of, is_small_scalar_of, is_sum,
    scalar_of, value_of, Scalar,
};
use crate::vector::Vector;
use vstd::prelude::*;
use vstd::std_specs::convert::FromSpec;
use vstd::std_specs::ops::{AddSpec, DivSpec, MulSpec};

verus! {

/// The triangle cut off at the `k`-th even corner of `ring`: the corner two
/// steps on (the first corner when the ring ends there), the corner between,
/// and the even corner itself.
pub open spec fn ear(ring: Seq<u32>, k: int) -> Seq<u32> {
    seq![
        if 2 * k + 2 < ring.len() {
            ring[2 * k + 2]
        } else {
            ring[0]
        },
        ring[2 * k + 1],
        ring[2 * k],
    ]
}

/// The first `count` ears of `ring`, one after the other.
pub open spec fn ears(ring: Seq<u32>, count: nat) -> Seq<u32>
    decreases count,
{
    if count == 0 {
        Seq::empty()
    } else {
        ears(ring, (count - 1) as nat) + ear(ring, count - 1)
    }
}

/// The corners of `ring` at even places, in order: what is left of the ring
/// once its ears are cut off.
pub open spec fn even_corners(ring: Seq<u32>) -> Seq<u32> {
    Seq::new(((ring.len() + 1) / 2) as nat, |k: int| ring[2 * k])
}

/// The index list that fills `ring`: nothing for fewer than three corners,
/// else one ear at every second corner, followed by the fill of the smaller
/// ring that remains.
pub open spec fn triangles_of(ring: Seq<u32>) -> Seq<u32>
    decreases ring.len(),
{
    if ring.len() < 3 {
        Seq::empty()
    } else {
        ears(ring, ring.len() / 2) + triangles_of(even_corners(ring))
    }
}

/// `count` ears hold three indices each.
pub proof fn lemma_ears_len(ring: Seq<u32>, count: nat)
    ensures
        ears(ring, count).len() == 3 * count,
    decreases count,
{
    if count > 0 {
        lemma_ears_len(ring, (count - 1) as nat);
    }
}

/// A ring of at least three corners is filled by two triangles fewer than it
/// has corners, three indices each; a smaller ring by none.
pub proof fn lemma_triangle_count(ring: Seq<u32>)
    ensures
        ring.len() >= 3 ==> triangles_of(ring).len() == 3 * (ring.len() - 2),
        ring.len() < 3 ==> triangles_of(ring).len() == 0,
    decreases ring.len(),
{
    if ring.len() >= 3 {
        lemma_ears_len(ring, ring.len() / 2);
        lemma_triangle_count(even_corners(ring));
    }
}

/// Every index of the fill is a corner of the ring.
pub proof fn lemma_triangles_within(ring: Seq<u32>)
    ensures
        forall|j: int|
            0 <= j < triangles_of(ring).len() ==> ring.contains(#[trigger] triangles_of(ring)[j]),
    decreases ring.len(),
{
    if ring.len() >= 3 {
        let rest = even_corners(ring);
        let half = ring.len() / 2;
        lemma_ears_len(ring, half);
        lemma_ears_within(ring, half);
        lemma_triangles_within(rest);
        assert forall|j: int| 0 <= j < triangles_of(ring).len() implies ring.contains(
            #[trigger] triangles_of(ring)[j],
        ) by {
            if j >= 3 * half {
                let v = triangles_of(rest)[j - 3 * half];
                assert(rest.contains(v));
                let k = choose|k: int| 0 <= k < rest.len() && rest[k] == v;
                assert(ring[2 * k] == v);
            }
        }
    }
}

/// Every index of the first `count` ears is a corner of the ring.
pub proof fn lemma_ears_within(ring: Seq<u32>, count: nat)
    requires
        2 * count <= ring.len(),
    ensures
        forall|j: int|
            0 <= j < ears(ring, count).len() ==> ring.contains(#[trigger] ears(ring, count)[j]),
    decreases count,
{
    if count > 0 {
        let k = count - 1;
        lemma_ears_within(ring, k as nat);
        lemma_ears_len(ring, k as nat);
        assert(ring.contains(ring[2 * k]));
        assert(ring.contains(ring[2 * k + 1]));
        assert(ring.contains(ring[0]));
        if 2 * k + 2 < ring.len() {
            assert(ring.contains(ring[2 * k + 2]));
        }
    }
}

/// Fills the ring `points` with triangles and returns their corner indices,
/// three per triangle.
pub fn generate_triangles(points: Vec<u32>) -> (tris: Vec<u32>)
    ensures
        tris@ == triangles_of(points@),
    decreases points.len(),
{
    let n = points.len();
    if n < 3 {
        return Vec::new();
    }
    let half = n / 2;
    let mut tris: Vec<u32> = Vec::new();
    let mut rest: Vec<u32> = Vec::new();
    let mut k: usize = 0;
    while k < half
        invariant
            n == points.len(),
            half == n / 2,
            k <= half,
            tris@ == ears(points@, k as nat),
            rest@ == Seq::new(k as nat, |j: int| points@[2 * j]),
        decreases half - k,
    {
        let i = 2 * k;
        let pt = points[i];
        let next_pt = points[i + 1];
        let end_pt = if i + 2 >= n {
            points[0]
        } else {
            points[i + 2]
        };
        tris.push(end_pt);
        tris.push(next_pt);
        tris.push(pt);
        rest.push(pt);
        k += 1;
        proof {
            assert(tris@ =~= ears(points@, (k - 1) as nat) + ear(points@, k - 1));
            assert(rest@ =~= Seq::new(k as nat, |j: int| points@[2 * j]));
        }
    }
    // The last corner of a ring with an odd number of corners has no ear of
    // its own and stays in the remaining ring.
    if n % 2 != 0 {
        rest.push(points[n - 1]);
    }
    assert(rest@ =~= even_corners(points@));
    let mut res = generate_triangles(rest);
    tris.append(&mut res);
    tris
}

/// A polygon: its corners, and indices into them.
#[derive(Clone, Debug)]
pub struct Polygon<T: Clone + Copy> {
    vertices: Vec<Vector<T>>,
    indices: Vec<usize>,
}

impl<T: Clone + Copy> Polygon<T> {
    /// The polygon with the given corners and indices. The indices are not
    /// held against the number of corners.
    pub fn new(vertices: Vec<Vector<T>>, indices: Vec<usize>) -> (p: Self)
        ensures
            p.corners() == vertices@,
            p.order() == indices@,
    {
        Polygon { vertices, indices }
    }

    /// The corners.
    pub closed spec fn corners(&self) -> Seq<Vector<T>> {
        self.vertices@
    }

    /// The indices.
    pub closed spec fn order(&self) -> Seq<usize> {
        self.indices@
    }
}

/// Whether `a >= b` holds as the scalar type compares.
pub open spec fn reaches<T: PartialOrd>(a: T, b: T) -> bool {
    choose|r: bool| call_ensures(<T as PartialOrd>::ge, (&a, &b), r)
}

/// Whether comparing two scalars gives one answer for one pair.
pub open spec fn is_ordered<T: PartialOrd>() -> bool {
    forall|a: T, b: T, r: bool, s: bool|
        #[trigger] call_ensures(<T as PartialOrd>::ge, (&a, &b), r) && #[trigger] call_ensures(
            <T as PartialOrd>::ge,
            (&a, &b),
            s,
        ) ==> r == s
}

/// Whether the points of an arc are pinned down: the scalar type computes
/// and compares deterministically, and `sin_cos` returns one result for one
/// angle.
pub open spec fn arcs_exact<T: Scalar + PartialOrd, F: Fn(T) -> (T, T)>(sin_cos: F) -> bool {
    exact_scalar::<T>() && is_ordered::<T>() && is_function(sin_cos)
}

/// The angle between two neighbouring points of a ring of `sides` points:
/// the full turn divided by their number.
pub open spec fn arc_step<T: Scalar>(full_turn: T, sides: u16) -> T {
    full_turn.div_spec(scalar_of(sides))
}

/// Whether the `i`-th step reaches the end of the arc: its angle, `i`
/// times the step, is not below `angle`.
pub open spec fn arc_reached<T: Scalar + PartialOrd>(step: T, i: int, angle: T) -> bool {
    reaches(step.mul_spec(scalar_of(i as u16)), angle)
}

/// The angle of the `i`-th point: `i` times the step, or `angle` where that
/// reaches it.
pub open spec fn arc_angle<T: Scalar + PartialOrd>(step: T, i: int, angle: T) -> T {
    if arc_reached(step, i, angle) {
        angle
    } else {
        step.mul_spec(scalar_of(i as u16))
    }
}

/// The point at angle `a` past `phase`: the sine, times the radius, to the
/// right of the centre, and the cosine, times the radius, above it.
pub open spec fn arc_point<T: Scalar, F: Fn(T) -> (T, T)>(
    radius: T,
    center: (T, T),
    phase: T,
    a: T,
    sin_cos: F,
) -> (T, T) {
    let sc = value_of(sin_cos, phase.add_spec(a));
    (center.0.add_spec(sc.0.mul_spec(radius)), center.1.add_spec(sc.1.mul_spec(radius)))
}

/// How many points an arc has from its `from`-th step on: one for each step
/// up to and including the first that reaches the angle, and no more than
/// there are sides.
pub open spec fn arc_len<T: Scalar + PartialOrd>(step: T, angle: T, sides: u16, from: int) -> nat
    decreases sides - from,
{
    if from < 0 || from >= sides {
        0
    } else if arc_reached(step, from, angle) {
        1
    } else {
        1 + arc_len(step, angle, sides, from + 1)
    }
}

/// The points of the arc that starts at `phase` and spans `angle`, on the
/// circle round `center` with the given radius, in steps of one `sides`-th
/// of the full turn.
pub open spec fn arc_points<T: Scalar + PartialOrd, F: Fn(T) -> (T, T)>(
    sides: u16,
    radius: T,
    center: (T, T),
    phase: T,
    angle: T,
    full_turn: T,
    sin_cos: F,
) -> Seq<(T, T)> {
    let step = arc_step(full_turn, sides);
    Seq::new(
        arc_len(step, angle, sides, 0),
        |i: int| arc_point(radius, center, phase, arc_angle(step, i, angle), sin_cos),
    )
}

/// Whether `step` is an angle between two neighbouring points of a ring of
/// `sides` points: a quotient of the full turn and their number.
pub open spec fn is_arc_step<T: Scalar>(full_turn: T, sides: u16, step: T) -> bool {
    exists|count: T| #[trigger] is_scalar_of(sides, count) && is_quotient(full_turn, count, step)
}

/// Whether `place` stands for the whole number `i`, the place of a point on
/// its arc.
pub open spec fn is_place_scalar<T: Scalar>(i: int, place: T) -> bool {
    is_scalar_of(i as u16, place)
}

/// Whether `a` is an angle of the `i`-th point and `reached` tells whether
/// that step reaches the end of the arc: with a product of the step and
/// `i`, `reached` is what comparing the product with `angle` gives, and
/// `a` is `angle` where it is reached and the product where not.
pub open spec fn is_arc_angle<T: Scalar + PartialOrd>(
    step: T,
    i: int,
    angle: T,
    a: T,
    reached: bool,
) -> bool {
    exists|place: T, raw: T|
        #![trigger is_product(step, place, raw)]
        {
            &&& is_place_scalar(i, place)
            &&& is_product(step, place, raw)
            &&& call_ensures(<T as PartialOrd>::ge, (&raw, &angle), reached)
            &&& a == if reached {
                angle
            } else {
                raw
            }
        }
}

/// Whether `p` is a point at angle `a` past `phase`: with the sine and
/// cosine that `sin_cos` gives for a sum of `phase` and `a`, its abscissa
/// is a sum of the centre's and a product of the sine and the radius, its
/// ordinate a sum of the centre's and a product of the cosine and the
/// radius.
pub open spec fn is_arc_point<T: Scalar, F: Fn(T) -> (T, T)>(
    radius: T,
    center: (T, T),
    phase: T,
    a: T,
    sin_cos: F,
    p: (T, T),
) -> bool {
    exists|at: T, s: T, c: T, right: T, up: T|
        #![trigger is_sum(phase, a, at), is_product(s, radius, right), is_product(c, radius, up)]
        {
            &&& is_sum(phase, a, at)
            &&& call_ensures(sin_cos, (at,), (s, c))
            &&& is_product(s, radius, right)
            &&& is_product(c, radius, up)
            &&& is_sum(center.0, right, p.0)
            &&& is_sum(center.1, up, p.1)
        }
}

/// Whether a point at angle `a` past `phase` can be computed: the sum of
/// the two can, `sin_cos` accepts whatever the sum evaluates to, each of
/// the two it returns can be multiplied by the radius, and the products can
/// be added to the centre.
pub open spec fn point_req<T: Scalar, F: Fn(T) -> (T, T)>(
    radius: T,
    center: (T, T),
    phase: T,
    a: T,
    sin_cos: F,
) -> bool {
    &&& phase.add_req(a)
    &&& forall|at: T| #[trigger] is_sum(phase, a, at) ==> call_requires(sin_cos, (at,))
    &&& forall|at: T, s: T, c: T|
        is_sum(phase, a, at) && #[trigger] call_ensures(sin_cos, (at,), (s, c)) ==> s.mul_req(
            radius,
        ) && c.mul_req(radius)
    &&& forall|at: T, s: T, c: T, right: T|
        #![trigger call_ensures(sin_cos, (at,), (s, c)), is_product(s, radius, right)]
        is_sum(phase, a, at) && call_ensures(sin_cos, (at,), (s, c)) && is_product(
            s,
            radius,
            right,
        ) ==> center.0.add_req(right)
    &&& forall|at: T, s: T, c: T, up: T|
        #![trigger call_ensures(sin_cos, (at,), (s, c)), is_product(c, radius, up)]
        is_sum(phase, a, at) && call_ensures(sin_cos, (at,), (s, c)) && is_product(c, radius, up)
            ==> center.1.add_req(up)
}

/// Whether an arc can be computed: the full turn can be divided by the
/// number of sides, each step can be multiplied by its place, and each
/// point can be computed at whatever angle its step comes to.
pub open spec fn arc_req<T: Scalar + PartialOrd, F: Fn(T) -> (T, T)>(
    sides: u16,
    radius: T,
    center: (T, T),
    phase: T,
    angle: T,
    full_turn: T,
    sin_cos: F,
) -> bool {
    &&& forall|count: T| #[trigger] is_scalar_of(sides, count) ==> full_turn.div_req(count)
    &&& forall|step: T, i: int, place: T|
        #![trigger is_arc_step(full_turn, sides, step), is_place_scalar(i, place)]
        is_arc_step(full_turn, sides, step) && 0 <= i < sides && is_place_scalar(i, place)
            ==> step.mul_req(place)
    &&& forall|step: T, i: int, a: T, reached: bool|
        #![trigger is_arc_step(full_turn, sides, step), is_arc_angle(step, i, angle, a, reached)]
        is_arc_step(full_turn, sides, step) && 0 <= i < sides && is_arc_angle(
            step,
            i,
            angle,
            a,
            reached,
        ) ==> point_req(radius, center, phase, a, sin_cos)
}

/// Whether `p` is the `i`-th point of an arc and `reached` tells whether
/// the arc ends with it.
pub open spec fn is_arc_place<T: Scalar + PartialOrd, F: Fn(T) -> (T, T)>(
    step: T,
    i: int,
    radius: T,
    center: (T, T),
    phase: T,
    angle: T,
    sin_cos: F,
    p: (T, T),
    reached: bool,
) -> bool {
    exists|a: T| #[trigger]
        is_arc_angle(step, i, angle, a, reached) && is_arc_point(
            radius,
            center,
            phase,
            a,
            sin_cos,
            p,
        )
}

/// Whether `points` are the points of an arc that starts at `phase` and
/// spans `angle`, on the circle round `center` with the given radius, in
/// steps of one `sides`-th of the full turn: there is one point for each
/// step up to and including the first that reaches the angle, and no more
/// than there are sides. With deterministic scalars and functions the
/// points are `arc_points(..)`.
pub open spec fn is_arc<T: Scalar + PartialOrd, F: Fn(T) -> (T, T)>(
    sides: u16,
    radius: T,
    center: (T, T),
    phase: T,
    angle: T,
    full_turn: T,
    sin_cos: F,
    points: Seq<(T, T)>,
) -> bool {
    &&& points.len() <= sides
    &&& sides > 0 ==> points.len() >= 1
    &&& exists|step: T, reached: Seq<bool>|
        #![trigger is_arc_step(full_turn, sides, step), reached.len()]
        {
            &&& is_arc_step(full_turn, sides, step)
            &&& reached.len() == points.len()
            &&& forall|i: int|
                0 <= i < points.len() ==> is_arc_place(
                    step,
                    i,
                    radius,
                    center,
                    phase,
                    angle,
                    sin_cos,
                    #[trigger] points[i],
                    reached[i],
                )
            &&& forall|i: int| 0 <= i < points.len() - 1 ==> !#[trigger] reached[i]
            &&& 0 < points.len() < sides ==> reached[points.len() - 1]
        }
    &&& arcs_exact::<T, F>(sin_cos) ==> points == arc_points(
        sides,
        radius,
        center,
        phase,
        angle,
        full_turn,
        sin_cos,
    )
}

/// The coordinates of each vector, in order.
pub open spec fn coordinates<T: Copy + Clone>(points: Seq<Vector<T>>) -> Seq<(T, T)> {
    Seq::new(points.len(), |i: int| points[i]@)
}

/// An arc whose steps do not reach the angle before `stop`, and which ends
/// at `stop`, has that many points from `from` on, and one more where it
/// ends by reaching the angle.
pub proof fn lemma_arc_len<T: Scalar + PartialOrd>(
    step: T,
    angle: T,
    sides: u16,
    from: int,
    stop: int,
)
    requires
        0 <= from <= stop <= sides,
        forall|k: int| from <= k < stop ==> !arc_reached(step, k, angle),
        stop == sides || arc_reached(step, stop, angle),
    ensures
        arc_len(step, angle, sides, from) == stop - from + if stop < sides {
            1int
        } else {
            0int
        },
    decreases stop - from,
{
    if from < stop {
        lemma_arc_len(step, angle, sides, from + 1, stop);
    }
}

/// A ring whose steps all stay below the angle has as many points as sides.
pub proof fn lemma_full_ring<T: Scalar + PartialOrd, F: Fn(T) -> (T, T)>(
    sides: u16,
    radius: T,
    center: (T, T),
    phase: T,
    angle: T,
    full_turn: T,
    sin_cos: F,
)
    requires
        forall|k: int|
            0 <= k < sides ==> !arc_reached(arc_step(full_turn, sides), k, angle),
    ensures
        arc_points(sides, radius, center, phase, angle, full_turn, sin_cos).len() == sides,
{
    lemma_arc_len(arc_step(full_turn, sides), angle, sides, 0, sides as int);
}

/// An arc none of whose steps compares as reaching its angle has exactly as
/// many points as sides: so has the ring of a regular polygon, whose angle
/// is the full turn, wherever no multiple of the step below the number of
/// sides compares as reaching the full turn.
pub proof fn lemma_unreached_arc_is_full<T: Scalar + PartialOrd, F: Fn(T) -> (T, T)>(
    sides: u16,
    radius: T,
    center: (T, T),
    phase: T,
    angle: T,
    full_turn: T,
    sin_cos: F,
    points: Seq<(T, T)>,
)
    requires
        is_arc(sides, radius, center, phase, angle, full_turn, sin_cos, points),
        forall|step: T, i: int, a: T, reached: bool|
            #![trigger is_arc_step(full_turn, sides, step), is_arc_angle(step, i, angle, a, reached)]
            is_arc_step(full_turn, sides, step) && 0 <= i < sides && is_arc_angle(
                step,
                i,
                angle,
                a,
                reached,
            ) ==> !reached,
    ensures
        points.len() == sides,
{
    let (step, reached) = choose|step: T, reached: Seq<bool>|
        #![trigger is_arc_step(full_turn, sides, step), reached.len()]
        {
            &&& is_arc_step(full_turn, sides, step)
            &&& reached.len() == points.len()
            &&& forall|i: int|
                0 <= i < points.len() ==> is_arc_place(
                    step,
                    i,
                    radius,
                    center,
                    phase,
                    angle,
                    sin_cos,
                    #[trigger] points[i],
                    reached[i],
                )
            &&& forall|i: int| 0 <= i < points.len() - 1 ==> !#[trigger] reached[i]
            &&& 0 < points.len() < sides ==> reached[points.len() - 1]
        };
    if 0 < points.len() < sides {
        let last = points.len() - 1;
        assert(is_arc_place(
            step,
            last,
            radius,
            center,
            phase,
            angle,
            sin_cos,
            points[last],
            reached[last],
        ));
    }
}

fn internal_gen_arc<T: Scalar + PartialOrd, F: Fn(T) -> (T, T)>(
    sides: u16,
    radius: T,
    center: Vector<T>,
    phase: T,
    angle: T,
    full_turn: T,
    sin_cos: F,
) -> (points: Vec<Vector<T>>)
    requires
        arc_req(sides, radius, center@, phase, angle, full_turn, sin_cos),
    ensures
        is_arc(sides, radius, center@, phase, angle, full_turn, sin_cos, coordinates(points@)),
{
    let mut points: Vec<Vector<T>> = Vec::new();
    let count: T = <T as From<u16>>::from(sides);
    assert(is_scalar_of(sides, count));
    let step = full_turn / count;
    let ghost exact = arcs_exact::<T, F>(sin_cos);
    let ghost spec_step = arc_step(full_turn, sides);
    let ghost mut reached: Seq<bool> = Seq::empty();
    proof {
        assert(is_scalar_of(sides, count));
        assert(is_arc_step(full_turn, sides, step));
    }
    let mut i: u16 = 0;
    let mut done = false;
    while i < sides && !done
        invariant
            arc_req(sides, radius, center@, phase, angle, full_turn, sin_cos),
            is_arc_step(full_turn, sides, step),
            exact == arcs_exact::<T, F>(sin_cos),
            spec_step == arc_step(full_turn, sides),
            exact ==> step == spec_step,
            i <= sides,
            points@.len() == i,
            reached.len() == i,
            done ==> i >= 1 && reached[i - 1],
            forall|k: int|
                0 <= k < i - if done {
                    1int
                } else {
                    0int
                } ==> !#[trigger] reached[k],
            forall|k: int|
                0 <= k < i ==> is_arc_place(
                    step,
                    k,
                    radius,
                    center@,
                    phase,
                    angle,
                    sin_cos,
                    (#[trigger] points@[k])@,
                    reached[k],
                ),
            exact && done ==> arc_reached(spec_step, i - 1, angle),
            exact ==> forall|k: int|
                0 <= k < i - if done {
                    1int
                } else {
                    0int
                } ==> !arc_reached(spec_step, k, angle),
            exact ==> forall|k: int|
                0 <= k < i ==> (#[trigger] points@[k])@ == arc_point(
                    radius,
                    center@,
                    phase,
                    arc_angle(spec_step, k, angle),
                    sin_cos,
                ),
        decreases sides - i,
    {
        let place: T = <T as From<u16>>::from(i);
        assert(is_place_scalar(i as int, place));
        let raw = step * place;
        assert(is_product(step, place, raw));
        let mut step_angle = raw;
        if raw >= angle {
            step_angle = angle;
            done = true;
        }
        assert(is_arc_angle(step, i as int, angle, step_angle, done));
        assert(point_req(radius, center@, phase, step_angle, sin_cos));
        let at = phase + step_angle;
        assert(is_sum(phase, step_angle, at));
        let (s, c) = sin_cos(at);
        let right = s * radius;
        assert(is_product(s, radius, right));
        let up = c * radius;
        assert(is_product(c, radius, up));
        let pos = Vector::new(center.x() + right, center.y() + up);
        points.push(pos);
        proof {
            reached = reached.push(done);
            assert(is_arc_point(radius, center@, phase, step_angle, sin_cos, pos@));
            assert(is_arc_place(
                step,
                i as int,
                radius,
                center@,
                phase,
                angle,
                sin_cos,
                pos@,
                done,
            ));
        }
        i += 1;
    }
    proof {
        let coords = coordinates(points@);
        assert(is_arc_step(full_turn, sides, step) && reached.len() == coords.len());
        assert forall|k: int| 0 <= k < coords.len() implies is_arc_place(
            step,
            k,
            radius,
            center@,
            phase,
            angle,
            sin_cos,
            #[trigger] coords[k],
            reached[k],
        ) by {
            assert(coords[k] == points@[k]@);
        }
        if exact {
            let stop = if done {
                i - 1
            } else {
                i as int
            };
            lemma_arc_len(spec_step, angle, sides, 0, stop);
            assert(coords =~= arc_points(
                sides,
                radius,
                center@,
                phase,
                angle,
                full_turn,
                sin_cos,
            ));
        }
    }
    points
}

/// The ring of a regular polygon: `sides` points on the circle round
/// `center`, one step of the full turn apart, the first at `phase`.
pub fn generate_regular_geometry<T: Scalar + PartialOrd, F: Fn(T) -> (T, T)>(
    sides: u16,
    radius: T,
    center: Vector<T>,
    phase: T,
    full_turn: T,
    sin_cos: F,
) -> (points: Vec<Vector<T>>)
    requires
        arc_req(sides, radius, center@, phase, full_turn, full_turn, sin_cos),
    ensures
        is_arc(
            sides,
            radius,
            center@,
            phase,
            full_turn,
            full_turn,
            sin_cos,
            coordinates(points@),
        ),
{
    internal_gen_arc(sides, radius, center, phase, full_turn, full_turn, sin_cos)
}

/// The outline of a circular sector: the origin, then the points of the
/// arc that starts at `phase` and spans `angle`.
pub fn generate_arc<T: Scalar + PartialOrd, F: Fn(T) -> (T, T)>(
    sides: u16,
    radius: T,
    center: Vector<T>,
    phase: T,
    angle: T,
    full_turn: T,
    sin_cos: F,
) -> (points: Vec<Vector<T>>)
    requires
        arc_req(sides, radius, center@, phase, angle, full_turn, sin_cos),
    ensures
        points@.len() >= 1,
        is_small_scalar_of(0u8, points@[0]@.0),
        points@[0]@.1 == points@[0]@.0,
        <T as FromSpec<u8>>::obeys_from_spec() ==> points@[0]@.0 == <T as FromSpec<u8>>::from_spec(
            0u8,
        ),
        is_arc(
            sides,
            radius,
            center@,
            phase,
            angle,
            full_turn,
            sin_cos,
            coordinates(points@).subrange(1, points@.len() as int),
        ),
{
    let mut arc = internal_gen_arc(sides, radius, center, phase, angle, full_turn, sin_cos);
    let ghost ring = arc@;
    let zero: T = <T as From<u8>>::from(0u8);
    arc.insert(0, Vector::new(zero, zero));
    proof {
        assert(coordinates(arc@).subrange(1, arc@.len() as int) =~= coordinates(ring));
    }
    arc
}

} // verus!
