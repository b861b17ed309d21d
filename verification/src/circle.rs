//! Bodies that attract each other, each drawn as a circle.
//!
//! A body holds its mass, radius, position, velocity and acceleration, and
//! the place of the entity that draws it. The place confers no ownership:
//! the entity belongs to the registry, and a body does not notice when the
//! registry removes an entity and the places shift.
//!
//! One tick is `gravity` for all bodies, then `update` for all bodies.

use crate::entity::{
    index_count_of, initial_shader_args, sends_transform, DeviceWork, Entity, EntityList,
    EntityView,
};
use crate::geometry::{
    arc_req, coordinates, generate_regular_geometry, generate_triangles, is_arc, triangles_of,
};
use crate::matrix::{
    cells_add_req, cells_added, cells_set, is_identity, Mat4x4, CELL_TX, CELL_TY,
};
use crate::scalar::{
    exact_scalar, is_function, is_neg, is_product, is_quotient, is_scalar_of,
    is_small_scalar_of, lemma_value_of, scalar_of, value_of, Scalar,
};
use crate::vector::{
    is_pair_diff, is_pair_mag, is_pair_sum, pair_diff_req, pair_mag_req, pair_sum, pair_sum_req,
    Vector,
};
use vstd::prelude::*;
use vstd::std_specs::convert::FromSpec;
use vstd::std_specs::ops::{AddSpec, DivSpec, MulSpec, NegSpec, SubSpec};

verus! {

/// How many sides the polygon has that stands for a circle.
pub const CIRCLE_SIDES: u16 = 20;

/// A body.
pub struct Circle<T: Copy + Clone> {
    mass: usize,
    radius: T,
    index: usize,
    position: Vector<T>,
    velocity: Vector<T>,
    acceleration: Vector<T>,
}

/// What a body is, as plain values.
pub ghost struct CircleView<T> {
    pub mass: usize,
    pub radius: T,
    /// The place of the entity that draws the body.
    pub index: usize,
    pub position: (T, T),
    pub velocity: (T, T),
    pub acceleration: (T, T),
}

impl<T: Copy + Clone> View for Circle<T> {
    type V = CircleView<T>;

    closed spec fn view(&self) -> CircleView<T> {
        CircleView {
            mass: self.mass,
            radius: self.radius,
            index: self.index,
            position: self.position@,
            velocity: self.velocity@,
            acceleration: self.acceleration@,
        }
    }
}

/// The scalar zero.
pub open spec fn zero<T: Scalar>() -> T {
    <T as FromSpec<u8>>::from_spec(0u8)
}

/// The gravitational constant, one ten-millionth: one over the product of
/// ten thousand and a thousand.
pub open spec fn gravitational_constant_spec<T: Scalar>() -> T {
    <T as FromSpec<u8>>::from_spec(1u8).div_spec(
        scalar_of::<T>(10000u16).mul_spec(scalar_of::<T>(1000u16)),
    )
}

/// Whether `g` is a gravitational constant: a quotient of one and a
/// product of ten thousand and a thousand. With a deterministic scalar it
/// is `gravitational_constant_spec()`.
pub open spec fn is_gravitational_constant<T: Scalar>(g: T) -> bool {
    &&& exists|one: T, a: T, b: T, ab: T|
        {
            &&& is_small_scalar_of(1u8, one)
            &&& is_scalar_of(10000u16, a)
            &&& is_scalar_of(1000u16, b)
            &&& #[trigger] is_product(a, b, ab)
            &&& #[trigger] is_quotient(one, ab, g)
        }
    &&& exact_scalar::<T>() ==> g == gravitational_constant_spec::<T>()
}

/// Whether the gravitational constant can be computed: ten thousand can be
/// multiplied by a thousand, and one can be divided by whatever the
/// product evaluates to.
pub open spec fn constant_req<T: Scalar>() -> bool {
    &&& forall|a: T, b: T|
        #[trigger] is_scalar_of(10000u16, a) && #[trigger] is_scalar_of(1000u16, b) ==> a.mul_req(b)
    &&& forall|one: T, a: T, b: T, ab: T|
        #![trigger is_small_scalar_of(1u8, one), is_product(a, b, ab)]
        is_small_scalar_of(1u8, one) && is_scalar_of(10000u16, a) && is_scalar_of(1000u16, b)
            && is_product(a, b, ab) ==> one.div_req(ab)
}

/// The gravitational constant.
pub fn gravitational_constant<T: Scalar>() -> (g: T)
    requires
        constant_req::<T>(),
    ensures
        is_gravitational_constant(g),
{
    let one: T = <T as From<u8>>::from(1u8);
    let ten_thousand: T = <T as From<u16>>::from(10000u16);
    let thousand: T = <T as From<u16>>::from(1000u16);
    assert(is_small_scalar_of(1u8, one));
    assert(is_scalar_of(10000u16, ten_thousand) && is_scalar_of(1000u16, thousand));
    let ten_million = ten_thousand * thousand;
    assert(is_product(ten_thousand, thousand, ten_million));
    let g = one / ten_million;
    assert(is_quotient(one, ten_million, g));
    g
}

/// The numbers from 0 up to `n`, each as an index.
pub open spec fn iota(n: nat) -> Seq<u32> {
    Seq::new(n, |k: int| k as u32)
}

/// The acceleration that a body of mass `m` at `other` gives a body at
/// `at`: along the line between them and against the difference of their
/// positions, the constant `g` times the mass over the square of their
/// distance.
pub open spec fn pull<T: Scalar, S: Fn(T) -> T>(at: (T, T), other: (T, T), m: T, g: T, sqrt: S) -> (
    T,
    T,
) {
    let dx = at.0.sub_spec(other.0);
    let dy = at.1.sub_spec(other.1);
    let d2 = dx.mul_spec(dx).add_spec(dy.mul_spec(dy));
    let force = g.mul_spec(m).div_spec(d2);
    let d = value_of(sqrt, d2);
    (dx.div_spec(d).neg_spec().mul_spec(force), dy.div_spec(d).neg_spec().mul_spec(force))
}

/// The acceleration of the `i`-th body once the first `upto` bodies have
/// pulled at it, each but itself, in order: what it had, plus their pulls.
pub open spec fn pulled<T: Scalar, M: Fn(usize) -> T, S: Fn(T) -> T>(
    bodies: Seq<CircleView<T>>,
    i: int,
    upto: nat,
    mass_of: M,
    sqrt: S,
) -> (T, T)
    decreases upto,
{
    if upto == 0 {
        bodies[i].acceleration
    } else {
        let j = upto - 1;
        let before = pulled(bodies, i, j as nat, mass_of, sqrt);
        if j == i {
            before
        } else {
            pair_sum(
                before,
                pull(
                    bodies[i].position,
                    bodies[j].position,
                    value_of(mass_of, bodies[j].mass),
                    gravitational_constant_spec::<T>(),
                    sqrt,
                ),
            )
        }
    }
}

/// Whether `force` is the strength of the pull of a mass `m` at a squared
/// distance `d2`: a quotient of a product of the constant `g` and the mass,
/// and the squared distance.
pub open spec fn is_force<T: Scalar>(g: T, m: T, d2: T, force: T) -> bool {
    exists|gm: T| #[trigger] is_product(g, m, gm) && is_quotient(gm, d2, force)
}

/// Whether `push` is one coordinate of a pull: the negation of a quotient
/// of the offset along that coordinate and the distance, times the
/// strength.
pub open spec fn is_push<T: Scalar>(offset: T, distance: T, force: T, push: T) -> bool {
    exists|unit: T, against: T|
        #[trigger] is_quotient(offset, distance, unit) && #[trigger] is_neg(unit, against)
            && is_product(against, force, push)
}

/// Whether `f` is a pull that a body of the given mass at `other` gives a
/// body at `at`: with the offset a difference of the two positions, its
/// sum of squares, the strength for the mass as `mass_of` gives it, and
/// the distance that `sqrt` gives for the sum of squares, each coordinate
/// of `f` is the push along it.
pub open spec fn is_pull<T: Scalar, M: Fn(usize) -> T, S: Fn(T) -> T>(
    at: (T, T),
    other: (T, T),
    mass: usize,
    g: T,
    mass_of: M,
    sqrt: S,
    f: (T, T),
) -> bool {
    exists|m: T, offset: (T, T), d2: T, force: T, d: T|
        #![trigger is_pair_diff(at, other, offset), is_force(g, m, d2, force), call_ensures(sqrt, (d2,), d)]
        {
            &&& call_ensures(mass_of, (mass,), m)
            &&& is_pair_diff(at, other, offset)
            &&& is_pair_mag(offset, d2)
            &&& is_force(g, m, d2, force)
            &&& call_ensures(sqrt, (d2,), d)
            &&& is_push(offset.0, d, force, f.0)
            &&& is_push(offset.1, d, force, f.1)
        }
}

/// Whether `acc` is an acceleration of the `i`-th body once the first
/// `upto` bodies have pulled at it, each but itself, in order: what it had,
/// with a pull of each added.
pub open spec fn is_pulled<T: Scalar, M: Fn(usize) -> T, S: Fn(T) -> T>(
    bodies: Seq<CircleView<T>>,
    i: int,
    upto: nat,
    g: T,
    mass_of: M,
    sqrt: S,
    acc: (T, T),
) -> bool
    decreases upto,
{
    if upto == 0 {
        acc == bodies[i].acceleration
    } else if upto - 1 == i {
        is_pulled(bodies, i, (upto - 1) as nat, g, mass_of, sqrt, acc)
    } else {
        exists|before: (T, T), f: (T, T)|
            {
                &&& is_pulled(bodies, i, (upto - 1) as nat, g, mass_of, sqrt, before)
                &&& is_pull(
                    bodies[i].position,
                    bodies[upto - 1].position,
                    bodies[upto - 1].mass,
                    g,
                    mass_of,
                    sqrt,
                    f,
                )
                &&& #[trigger] is_pair_sum(before, f, acc)
            }
    }
}

/// Whether the strength of a pull at the squared distance `d2` can be
/// computed: the product of the constant and the mass can be divided by it,
/// whatever the product evaluates to.
pub open spec fn force_req<T: Scalar, M: Fn(usize) -> T>(g: T, mass: usize, mass_of: M, d2: T) -> bool {
    forall|m: T, gm: T|
        call_ensures(mass_of, (mass,), m) && #[trigger] is_product(g, m, gm) ==> gm.div_req(d2)
}

/// Whether one coordinate of a pull can be computed: the offset can be
/// divided by the distance, the quotient negated, and the negation
/// multiplied by the strength, each whatever the one before evaluates to.
pub open spec fn push_req<T: Scalar, M: Fn(usize) -> T>(
    offset: T,
    d: T,
    g: T,
    mass: usize,
    mass_of: M,
    d2: T,
) -> bool {
    &&& offset.div_req(d)
    &&& forall|unit: T| #[trigger] is_quotient(offset, d, unit) ==> unit.neg_req()
    &&& forall|unit: T, against: T, m: T, force: T|
        #![trigger is_neg(unit, against), is_force(g, m, d2, force)]
        is_quotient(offset, d, unit) && is_neg(unit, against) && call_ensures(mass_of, (mass,), m)
            && is_force(g, m, d2, force) ==> against.mul_req(force)
}

/// Whether the pull that a body of the given mass at `other` gives a body
/// at `at` can be computed: every step of it may be called on whatever the
/// steps before can return.
pub open spec fn pull_req<T: Scalar, M: Fn(usize) -> T, S: Fn(T) -> T>(
    at: (T, T),
    other: (T, T),
    mass: usize,
    g: T,
    mass_of: M,
    sqrt: S,
) -> bool {
    &&& call_requires(mass_of, (mass,))
    &&& pair_diff_req(at, other)
    &&& forall|m: T| #[trigger] call_ensures(mass_of, (mass,), m) ==> g.mul_req(m)
    &&& forall|offset: (T, T)| #[trigger] is_pair_diff(at, other, offset) ==> pair_mag_req(offset)
    &&& forall|offset: (T, T), d2: T|
        #![trigger is_pair_diff(at, other, offset), is_pair_mag(offset, d2)]
        is_pair_diff(at, other, offset) && is_pair_mag(offset, d2) ==> call_requires(sqrt, (d2,))
            && force_req(g, mass, mass_of, d2)
    &&& forall|offset: (T, T), d2: T, d: T|
        #![trigger is_pair_diff(at, other, offset), is_pair_mag(offset, d2), call_ensures(sqrt, (d2,), d)]
        is_pair_diff(at, other, offset) && is_pair_mag(offset, d2) && call_ensures(sqrt, (d2,), d)
            ==> push_req(offset.0, d, g, mass, mass_of, d2) && push_req(
            offset.1,
            d,
            g,
            mass,
            mass_of,
            d2,
        )
}

/// Whether `gravity` can be carried out on `bodies`: the constant can be
/// computed, each pull of one body at another can, and each pull can be
/// added to whatever the acceleration has come to by then.
pub open spec fn gravity_req<T: Scalar, M: Fn(usize) -> T, S: Fn(T) -> T>(
    bodies: Seq<CircleView<T>>,
    mass_of: M,
    sqrt: S,
) -> bool {
    &&& constant_req::<T>()
    &&& forall|g: T, i: int, j: int|
        #![trigger pull_req(bodies[i].position, bodies[j].position, bodies[j].mass, g, mass_of, sqrt)]
        is_gravitational_constant(g) && 0 <= i < bodies.len() && 0 <= j < bodies.len() && i != j
            ==> pull_req(
            bodies[i].position,
            bodies[j].position,
            bodies[j].mass,
            g,
            mass_of,
            sqrt,
        )
    &&& forall|g: T, i: int, j: nat, acc: (T, T), f: (T, T)|
        #![trigger is_pulled(bodies, i, j, g, mass_of, sqrt, acc), is_pull(bodies[i].position, bodies[j as int].position, bodies[j as int].mass, g, mass_of, sqrt, f)]
        is_gravitational_constant(g) && 0 <= i < bodies.len() && j < bodies.len() && i != j
            && is_pulled(bodies, i, j, g, mass_of, sqrt, acc) && is_pull(
            bodies[i].position,
            bodies[j as int].position,
            bodies[j as int].mass,
            g,
            mass_of,
            sqrt,
            f,
        ) ==> pair_sum_req(acc, f)
}

/// Whether the accelerations that `gravity` computes are pinned down: the
/// scalar type computes deterministically, and `mass_of` and `sqrt` return
/// one result for one argument.
pub open spec fn gravity_exact<T: Scalar, M: Fn(usize) -> T, S: Fn(T) -> T>(
    mass_of: M,
    sqrt: S,
) -> bool {
    exact_scalar::<T>() && is_function(mass_of) && is_function(sqrt)
}

/// The views of the bodies, in order.
pub open spec fn body_views<T: Copy + Clone>(circles: Seq<Circle<T>>) -> Seq<CircleView<T>> {
    Seq::new(circles.len(), |k: int| circles[k]@)
}

/// One step of `update`: a body moves the entity at place `index` by
/// `velocity`.
pub ghost struct Move<T> {
    pub index: usize,
    pub velocity: (T, T),
}

/// Whether the scene `after` is the scene `before` with one entity moved:
/// the entity at the place of the move is translated by its velocity and
/// has sent its transform, every other entity is as it was.
pub open spec fn is_moved_once<T: Scalar>(
    before: Seq<Entity<T>>,
    after: Seq<Entity<T>>,
    step: Move<T>,
) -> bool {
    &&& after.len() == before.len()
    &&& step.index < before.len()
    &&& forall|k: int| 0 <= k < before.len() && k != step.index ==> after[k] == before[k]
    &&& cells_added(
        before[step.index as int]@.transform,
        after[step.index as int]@.transform,
        CELL_TX as int,
        CELL_TY as int,
        step.velocity,
    )
    &&& sends_transform(before[step.index as int]@, after[step.index as int]@)
}

/// Whether the scene `after` is the scene `before` after the moves
/// `steps`, one after the other.
pub open spec fn is_moved<T: Scalar>(
    before: Seq<Entity<T>>,
    after: Seq<Entity<T>>,
    steps: Seq<Move<T>>,
) -> bool
    decreases steps.len(),
{
    if steps.len() == 0 {
        after == before
    } else {
        exists|mid: Seq<Entity<T>>|
            is_moved(before, mid, steps.drop_last()) && #[trigger] is_moved_once(
                mid,
                after,
                steps.last(),
            )
    }
}

/// Whether the body `after` is the body `before` one tick on: mass, radius
/// and place stay; the velocity is a sum of the old velocity and the
/// acceleration, the position a sum of the old position and the new
/// velocity, and both coordinates of the acceleration are the scalar zero.
pub open spec fn is_ticked<T: Scalar>(before: CircleView<T>, after: CircleView<T>) -> bool {
    &&& after.mass == before.mass
    &&& after.radius == before.radius
    &&& after.index == before.index
    &&& is_pair_sum(before.velocity, before.acceleration, after.velocity)
    &&& is_pair_sum(before.position, after.velocity, after.position)
    &&& is_small_scalar_of(0u8, after.acceleration.0)
    &&& after.acceleration.1 == after.acceleration.0
    &&& <T as FromSpec<u8>>::obeys_from_spec() ==> after.acceleration == (zero::<T>(), zero::<T>())
}

/// The moves that the bodies make in one tick, in order: each moves its
/// entity by its velocity after the tick.
pub open spec fn moves_of<T: Copy + Clone>(after: Seq<Circle<T>>) -> Seq<Move<T>> {
    Seq::new(after.len(), |k: int| Move { index: after[k]@.index, velocity: after[k]@.velocity })
}

/// Whether `steps` can be the moves that the first bodies of `bodies` make
/// in one tick: each has the place of its body and a velocity that is a
/// sum of the body's velocity and acceleration.
pub open spec fn can_be_moves<T: Scalar>(bodies: Seq<CircleView<T>>, steps: Seq<Move<T>>) -> bool {
    &&& steps.len() <= bodies.len()
    &&& forall|j: int|
        0 <= j < steps.len() ==> (#[trigger] steps[j]).index == bodies[j].index && is_pair_sum(
            bodies[j].velocity,
            bodies[j].acceleration,
            steps[j].velocity,
        )
}

/// Whether `update` can be carried out on `bodies` in the scene `scene`:
/// each body's place is taken, its acceleration can be added to its
/// velocity and the new velocity to its position, and its entity, as the
/// bodies before have left it, can be moved by the new velocity.
pub open spec fn update_req<T: Scalar>(bodies: Seq<CircleView<T>>, scene: Seq<Entity<T>>) -> bool {
    &&& forall|k: int| 0 <= k < bodies.len() ==> (#[trigger] bodies[k]).index < scene.len()
    &&& forall|k: int|
        0 <= k < bodies.len() ==> pair_sum_req((#[trigger] bodies[k]).velocity, bodies[k].acceleration)
    &&& forall|k: int, v: (T, T)|
        0 <= k < bodies.len() && #[trigger] is_pair_sum(
            bodies[k].velocity,
            bodies[k].acceleration,
            v,
        ) ==> pair_sum_req(bodies[k].position, v)
    &&& forall|k: int, v: (T, T), mid: Seq<Entity<T>>, steps: Seq<Move<T>>|
        #![trigger is_pair_sum(bodies[k].velocity, bodies[k].acceleration, v), is_moved(scene, mid, steps)]
        0 <= k < bodies.len() && steps.len() == k && can_be_moves(bodies, steps) && is_moved(
            scene,
            mid,
            steps,
        ) && is_pair_sum(bodies[k].velocity, bodies[k].acceleration, v) ==> cells_add_req(
            mid[bodies[k].index as int]@.transform,
            CELL_TX as int,
            CELL_TY as int,
            v,
        )
}

/// Whether a body with the given radius can be spawned: the ring of its
/// circle can be computed round the origin, whatever the conversion of
/// zero returns for it.
pub open spec fn spawn_req<T: Scalar + PartialOrd, F: Fn(T) -> (T, T)>(
    radius: T,
    full_turn: T,
    sin_cos: F,
) -> bool {
    forall|origin: T| #[trigger]
        is_small_scalar_of(0u8, origin) ==> arc_req(
            CIRCLE_SIDES,
            radius,
            (origin, origin),
            origin,
            full_turn,
            full_turn,
            sin_cos,
        )
}

/// Whether the scene `after` is the scene `before` with one body spawned:
/// the entities that were there are as they were, and one more follows
/// them, which holds the transform that moves to `position` and nothing
/// else, and whose outbox asks for its buffers, then for the geometry of a
/// circle, a ring of points and the triangles that fill it, and then for
/// the write of its transform.
pub open spec fn is_spawned<T: Scalar + PartialOrd, F: Fn(T) -> (T, T)>(
    before: Seq<Entity<T>>,
    after: Seq<Entity<T>>,
    radius: T,
    position: (T, T),
    full_turn: T,
    sin_cos: F,
) -> bool {
    &&& after.len() == before.len() + 1
    &&& after.take(before.len() as int) == before
    &&& {
        let e = after.last()@;
        &&& exists|cells: Seq<T>|
            #[trigger] is_identity(cells) && cells_set(
                cells,
                e.transform,
                CELL_TX as int,
                CELL_TY as int,
                position,
            )
        &&& e.shader_args_size == 4
        &&& !e.custom_pipeline
        &&& e.outbox.len() == 3
        &&& e.outbox[0] matches DeviceWork::CreateBuffers {
            vertices,
            indices,
            transform,
            shader_args,
        }
        &&& vertices@.len() == 0
        &&& indices@.len() == 0
        &&& is_identity(transform@)
        &&& shader_args@ == initial_shader_args()
        &&& e.outbox[2] matches DeviceWork::WriteTransform { transform: moved }
        &&& moved@ == e.transform
        &&& e.outbox[1] matches DeviceWork::ReplaceGeometry { vertices: ring, indices: fill }
        &&& fill@ == triangles_of(iota(ring@.len()))
        &&& e.vertex_count == ring@.len()
        &&& e.index_size == index_count_of(fill@.len())
        &&& exists|origin: T|
            is_small_scalar_of(0u8, origin) && #[trigger] is_arc(
                CIRCLE_SIDES,
                radius,
                (origin, origin),
                origin,
                full_turn,
                full_turn,
                sin_cos,
                coordinates(ring@),
            )
        &&& <T as FromSpec<u8>>::obeys_from_spec() ==> is_arc(
            CIRCLE_SIDES,
            radius,
            (zero::<T>(), zero::<T>()),
            zero::<T>(),
            full_turn,
            full_turn,
            sin_cos,
            coordinates(ring@),
        )
    }
}

/// What `dress` makes of an entity at the given place: the entity at place
/// one stays as it is; every other gets a pipeline of its own and the
/// colour as its shader arguments; the entity at place two is recoloured
/// at once.
pub open spec fn dressed<T: Copy + Clone>(
    e: EntityView<T>,
    place: usize,
    shader: String,
    color: Vec<u8>,
    recolor: Vec<u8>,
) -> EntityView<T> {
    if place == 1 {
        e
    } else {
        let colored = e.outbox.push(DeviceWork::BuildPipeline { shader }).push(
            DeviceWork::ReplaceShaderArgs { bytes: color },
        );
        EntityView {
            custom_pipeline: true,
            shader_args_size: color@.len(),
            outbox: if place == 2 {
                colored.push(DeviceWork::WriteShaderArgs { bytes: recolor })
            } else {
                colored
            },
            ..e
        }
    }
}

/// Dresses the entity at `place` as a body's circle is dressed: every
/// entity but the one at place one gets a pipeline of its own from the
/// shader source and the colour as its shader arguments, and the entity at
/// place two is recoloured at once. The place must be taken, and where the
/// entity is recoloured the two colours must be of one size.
pub fn dress<T: Scalar>(
    entity_list: &mut EntityList<T>,
    place: usize,
    shader: String,
    color: Vec<u8>,
    recolor: Vec<u8>,
)
    requires
        place < old(entity_list)@.len(),
        place == 2 ==> recolor@.len() == color@.len(),
    ensures
        final(entity_list)@.len() == old(entity_list)@.len(),
        forall|k: int|
            0 <= k < old(entity_list)@.len() && k != place ==> #[trigger] final(entity_list)@[k]
                == old(entity_list)@[k],
        final(entity_list)@[place as int]@ == dressed(
            old(entity_list)@[place as int]@,
            place,
            shader,
            color,
            recolor,
        ),
{
    let entity = entity_list.get_entity_unchecked(place);
    if place != 1 {
        entity.set_shader(shader);
        entity.set_shader_args(color);
    }
    if place == 2 {
        entity.send_shader_args(recolor);
    }
}

/// Whether negation goes through the arithmetic of `T` as it does through
/// that of the real numbers: a difference taken the other way round is the
/// negation, a negation times itself is the square, and negation can be
/// drawn out of a quotient, out of a product, and out of a sum with zero.
pub open spec fn negation_laws<T: Scalar>() -> bool {
    &&& forall|a: T, b: T| #[trigger] b.sub_spec(a) == a.sub_spec(b).neg_spec()
    &&& forall|x: T| #[trigger] x.neg_spec().mul_spec(x.neg_spec()) == x.mul_spec(x)
    &&& forall|x: T, d: T| #[trigger] x.neg_spec().div_spec(d) == x.div_spec(d).neg_spec()
    &&& forall|w: T, f: T| #[trigger] w.neg_spec().mul_spec(f) == w.mul_spec(f).neg_spec()
    &&& forall|v: T| #[trigger] zero::<T>().add_spec(v.neg_spec()) == zero::<T>().add_spec(v).neg_spec()
}

/// Two bodies of equal mass and equal ordinate, both without acceleration,
/// pull each other symmetrically: after all pulls the abscissa of the one
/// acceleration is the negation of the other's, and the ordinates are
/// equal. This holds for scalars through whose arithmetic negation goes as
/// through that of the real numbers.
pub proof fn lemma_two_bodies_pull_symmetrically<T: Scalar, M: Fn(usize) -> T, S: Fn(T) -> T>(
    bodies: Seq<CircleView<T>>,
    mass_of: M,
    sqrt: S,
)
    requires
        bodies.len() == 2,
        bodies[0].mass == bodies[1].mass,
        bodies[0].position.1 == bodies[1].position.1,
        bodies[0].acceleration == (zero::<T>(), zero::<T>()),
        bodies[1].acceleration == (zero::<T>(), zero::<T>()),
        negation_laws::<T>(),
    ensures
        pulled(bodies, 1, 2, mass_of, sqrt).0 == pulled(bodies, 0, 2, mass_of, sqrt).0.neg_spec(),
        pulled(bodies, 1, 2, mass_of, sqrt).1 == pulled(bodies, 0, 2, mass_of, sqrt).1,
{
    reveal_with_fuel(pulled, 3);
    let g = gravitational_constant_spec::<T>();
    let m = value_of(mass_of, bodies[0].mass);
    let p0 = bodies[0].position;
    let p1 = bodies[1].position;
    let dx = p0.0.sub_spec(p1.0);
    let dy = p0.1.sub_spec(p1.1);
    let d2 = dx.mul_spec(dx).add_spec(dy.mul_spec(dy));
    let force = g.mul_spec(m).div_spec(d2);
    let d = value_of(sqrt, d2);
    let back = p1.0.sub_spec(p0.0);
    assert(back == dx.neg_spec());
    assert(back.mul_spec(back) == dx.mul_spec(dx));
    assert(p1.1.sub_spec(p0.1) == dy);
    assert(back.div_spec(d) == dx.div_spec(d).neg_spec());
    let fx = dx.div_spec(d).neg_spec().mul_spec(force);
    assert(back.div_spec(d).neg_spec().mul_spec(force) == fx.neg_spec());
    assert(pull(p0, p1, m, g, sqrt).0 == fx);
    assert(pull(p1, p0, m, g, sqrt).0 == fx.neg_spec());
    assert(pull(p1, p0, m, g, sqrt).1 == pull(p0, p1, m, g, sqrt).1);
    assert(pulled(bodies, 0, 2, mass_of, sqrt) == pair_sum(
        (zero::<T>(), zero::<T>()),
        pull(p0, p1, m, g, sqrt),
    ));
    assert(pulled(bodies, 1, 2, mass_of, sqrt) == pair_sum(
        (zero::<T>(), zero::<T>()),
        pull(p1, p0, m, g, sqrt),
    ));
}

/// Two bodies of equal ordinate and without acceleration are not pulled
/// along the ordinate, for scalars for which the push along no offset adds
/// nothing to zero.
pub proof fn lemma_two_bodies_stay_level<T: Scalar, M: Fn(usize) -> T, S: Fn(T) -> T>(
    bodies: Seq<CircleView<T>>,
    mass_of: M,
    sqrt: S,
)
    requires
        bodies.len() == 2,
        bodies[0].position.1 == bodies[1].position.1,
        bodies[0].acceleration == (zero::<T>(), zero::<T>()),
        bodies[1].acceleration == (zero::<T>(), zero::<T>()),
        forall|d: T, f: T|
            zero::<T>().add_spec(
                #[trigger] bodies[0].position.1.sub_spec(bodies[0].position.1).div_spec(
                    d,
                ).neg_spec().mul_spec(f),
            ) == zero::<T>(),
    ensures
        pulled(bodies, 0, 2, mass_of, sqrt).1 == zero::<T>(),
        pulled(bodies, 1, 2, mass_of, sqrt).1 == zero::<T>(),
{
    reveal_with_fuel(pulled, 3);
    let g = gravitational_constant_spec::<T>();
    let p0 = bodies[0].position;
    let p1 = bodies[1].position;
    let m0 = value_of(mass_of, bodies[0].mass);
    let m1 = value_of(mass_of, bodies[1].mass);
    assert(pulled(bodies, 0, 2, mass_of, sqrt) == pair_sum(
        (zero::<T>(), zero::<T>()),
        pull(p0, p1, m1, g, sqrt),
    ));
    assert(pulled(bodies, 1, 2, mass_of, sqrt) == pair_sum(
        (zero::<T>(), zero::<T>()),
        pull(p1, p0, m0, g, sqrt),
    ));
}

/// A body without acceleration keeps its velocity through a tick and
/// advances by exactly that velocity, and its acceleration is zero
/// afterwards, for scalars that compute deterministically and for which
/// adding zero to the velocity changes nothing.
pub proof fn lemma_tick_without_acceleration<T: Scalar>(before: CircleView<T>, after: CircleView<T>)
    requires
        is_ticked(before, after),
        exact_scalar::<T>(),
        before.acceleration == (zero::<T>(), zero::<T>()),
        before.velocity.0.add_spec(zero::<T>()) == before.velocity.0,
        before.velocity.1.add_spec(zero::<T>()) == before.velocity.1,
    ensures
        after.velocity == before.velocity,
        after.position == pair_sum(before.position, before.velocity),
        after.acceleration == (zero::<T>(), zero::<T>()),
{
}

impl<T: Scalar + PartialOrd> Circle<T> {
    /// Spawns a body: appends an entity to the registry, gives it the
    /// geometry of a circle of the given radius round the origin and the
    /// transform that moves to `position`, and returns the body that holds
    /// the entity's place. `full_turn` is the angle of a full turn and
    /// `sin_cos` the sine and cosine of an angle, in this order.
    pub fn new<F: Fn(T) -> (T, T)>(
        entity_list: &mut EntityList<T>,
        mass: usize,
        radius: T,
        position: Vector<T>,
        velocity: Vector<T>,
        acceleration: Vector<T>,
        full_turn: T,
        sin_cos: F,
    ) -> (body: Circle<T>)
        requires
            spawn_req(radius, full_turn, sin_cos),
        ensures
            body@.mass == mass,
            body@.radius == radius,
            body@.index == old(entity_list)@.len(),
            body@.position == position@,
            body@.velocity == velocity@,
            body@.acceleration == acceleration@,
            is_spawned(
                old(entity_list)@,
                final(entity_list)@,
                radius,
                position@,
                full_turn,
                sin_cos,
            ),
    {
        let index = entity_list.count();
        let ghost before = entity_list@;
        let circle = entity_list.add_entity();
        let ghost fresh = circle@;

        let origin: T = <T as From<u8>>::from(0u8);
        assert(is_small_scalar_of(0u8, origin));
        let verts = generate_regular_geometry(
            CIRCLE_SIDES,
            radius,
            Vector::new(origin, origin),
            origin,
            full_turn,
            sin_cos,
        );
        assert(coordinates(verts@).len() == verts@.len());
        let mut indices: Vec<u32> = Vec::new();
        let mut i: usize = 0;
        while i < verts.len()
            invariant
                i <= verts@.len() <= CIRCLE_SIDES,
                indices@ == iota(i as nat),
            decreases verts@.len() - i,
        {
            indices.push(i as u32);
            i += 1;
            assert(indices@ =~= iota(i as nat));
        }
        let tris_right = generate_triangles(indices);
        let ghost ring = verts;
        let ghost fill = tris_right;
        circle.set_geometry(verts, tris_right);

        let mut circle_transform = Mat4x4::identity();
        let ghost cells = circle_transform@;
        circle_transform.translate_to(position);

        circle.set_transform(circle_transform);
        proof {
            let e = circle@;
            assert(e.outbox =~= seq![
                fresh.outbox[0],
                DeviceWork::ReplaceGeometry { vertices: ring, indices: fill },
                e.outbox[2],
            ]);
            assert(is_identity(cells) && cells_set(
                cells,
                e.transform,
                CELL_TX as int,
                CELL_TY as int,
                position@,
            ));
            assert(entity_list@.take(before.len() as int) =~= before);
            assert(is_small_scalar_of(0u8, origin) && is_arc(
                CIRCLE_SIDES,
                radius,
                (origin, origin),
                origin,
                full_turn,
                full_turn,
                sin_cos,
                coordinates(ring@),
            ));
        }

        Circle { mass, radius, position, velocity, acceleration, index }
    }

    /// Lets every body pull at every other: for each body, and for each
    /// other body in order, the pull of the other is added to the body's
    /// acceleration. Nothing else changes, and all pulls are added before
    /// any body moves. `mass_of` turns a mass into a scalar, `sqrt` is the
    /// square root. Where two bodies coincide the pull is divided by zero
    /// and is whatever the scalar type makes of that.
    pub fn gravity<M: Fn(usize) -> T, S: Fn(T) -> T>(
        circles: &mut Vec<Circle<T>>,
        mass_of: M,
        sqrt: S,
    )
        requires
            gravity_req(body_views(old(circles)@), mass_of, sqrt),
        ensures
            final(circles)@.len() == old(circles)@.len(),
            forall|i: int|
                0 <= i < old(circles)@.len() ==> (#[trigger] final(circles)@[i])@ == (CircleView {
                    acceleration: final(circles)@[i]@.acceleration,
                    ..old(circles)@[i]@
                }),
            exists|g: T|
                #[trigger] is_gravitational_constant(g) && forall|i: int|
                    0 <= i < old(circles)@.len() ==> is_pulled(
                        body_views(old(circles)@),
                        i,
                        old(circles)@.len(),
                        g,
                        mass_of,
                        sqrt,
                        (#[trigger] final(circles)@[i])@.acceleration,
                    ),
            gravity_exact(mass_of, sqrt) ==> forall|i: int|
                0 <= i < old(circles)@.len() ==> (#[trigger] final(circles)@[i])@.acceleration
                    == pulled(
                    body_views(old(circles)@),
                    i,
                    old(circles)@.len(),
                    mass_of,
                    sqrt,
                ),
    {
        let g: T = gravitational_constant::<T>();
        let circle_len = circles.len();
        let ghost exact = gravity_exact(mass_of, sqrt);
        let ghost bodies = body_views(old(circles)@);
        let mut i: usize = 0;
        while i < circle_len
            invariant
                gravity_req(bodies, mass_of, sqrt),
                exact == gravity_exact(mass_of, sqrt),
                bodies == body_views(old(circles)@),
                is_gravitational_constant(g),
                circles@.len() == circle_len == old(circles)@.len(),
                i <= circle_len,
                forall|k: int|
                    0 <= k < circle_len ==> (#[trigger] circles@[k])@ == (CircleView {
                        acceleration: circles@[k]@.acceleration,
                        ..old(circles)@[k]@
                    }),
                forall|k: int| i <= k < circle_len ==> #[trigger] circles@[k] == old(circles)@[k],
                forall|k: int|
                    0 <= k < i ==> is_pulled(
                        bodies,
                        k,
                        circle_len as nat,
                        g,
                        mass_of,
                        sqrt,
                        (#[trigger] circles@[k])@.acceleration,
                    ),
                exact ==> forall|k: int|
                    0 <= k < i ==> (#[trigger] circles@[k])@.acceleration == pulled(
                        bodies,
                        k,
                        circle_len as nat,
                        mass_of,
                        sqrt,
                    ),
            decreases circle_len - i,
        {
            let circle_pos = circles[i].position;
            let ghost entry = circles@;
            let mut j: usize = 0;
            while j < circle_len
                invariant
                    gravity_req(bodies, mass_of, sqrt),
                    exact == gravity_exact(mass_of, sqrt),
                    bodies == body_views(old(circles)@),
                    is_gravitational_constant(g),
                    circles@.len() == circle_len == old(circles)@.len(),
                    i < circle_len,
                    j <= circle_len,
                    circle_pos@ == old(circles)@[i as int]@.position,
                    entry.len() == circle_len,
                    forall|k: int|
                        0 <= k < circle_len && k != i ==> #[trigger] circles@[k] == entry[k],
                    forall|k: int|
                        0 <= k < circle_len ==> (#[trigger] circles@[k])@ == (CircleView {
                            acceleration: circles@[k]@.acceleration,
                            ..old(circles)@[k]@
                        }),
                    is_pulled(
                        bodies,
                        i as int,
                        j as nat,
                        g,
                        mass_of,
                        sqrt,
                        circles@[i as int]@.acceleration,
                    ),
                    exact ==> circles@[i as int]@.acceleration == pulled(
                        bodies,
                        i as int,
                        j as nat,
                        mass_of,
                        sqrt,
                    ),
                decreases circle_len - j,
            {
                if i != j {
                    let ghost before = circles@[i as int]@.acceleration;
                    let ghost at = bodies[i as int].position;
                    let ghost other = bodies[j as int].position;
                    let ghost mass = bodies[j as int].mass;
                    assert(pull_req(
                        bodies[i as int].position,
                        bodies[j as int].position,
                        bodies[j as int].mass,
                        g,
                        mass_of,
                        sqrt,
                    ));
                    let other_circle_pos = circles[j].position;
                    let other_circle_mass = mass_of(circles[j].mass);
                    let dx = circle_pos.x() - other_circle_pos.x();
                    let dy = circle_pos.y() - other_circle_pos.y();
                    assert(is_pair_diff(at, other, (dx, dy)));
                    let xx = dx * dx;
                    let yy = dy * dy;
                    assert(is_product(dx, dx, xx) && is_product(dy, dy, yy));
                    let pos_diff_mag_sq = xx + yy;
                    assert(is_pair_mag((dx, dy), pos_diff_mag_sq));
                    assert(force_req(g, mass, mass_of, pos_diff_mag_sq));
                    let pull_mass = g * other_circle_mass;
                    assert(is_product(g, other_circle_mass, pull_mass));
                    let force_mag = pull_mass / pos_diff_mag_sq;
                    assert(is_force(g, other_circle_mass, pos_diff_mag_sq, force_mag));
                    let distance = sqrt(pos_diff_mag_sq);
                    assert(push_req(dx, distance, g, mass, mass_of, pos_diff_mag_sq));
                    assert(push_req(dy, distance, g, mass, mass_of, pos_diff_mag_sq));
                    let unit_x = dx / distance;
                    let unit_y = dy / distance;
                    assert(is_quotient(dx, distance, unit_x) && is_quotient(dy, distance, unit_y));
                    let against_x = unit_x.neg();
                    let against_y = unit_y.neg();
                    assert(is_neg(unit_x, against_x) && is_neg(unit_y, against_y));
                    let force = Vector::new(against_x * force_mag, against_y * force_mag);
                    proof {
                        assert(is_push(dx, distance, force_mag, force@.0));
                        assert(is_push(dy, distance, force_mag, force@.1));
                        assert(is_pull(
                            bodies[i as int].position,
                            bodies[j as int].position,
                            bodies[j as int].mass,
                            g,
                            mass_of,
                            sqrt,
                            force@,
                        ));
                        assert(is_pulled(bodies, i as int, j as nat, g, mass_of, sqrt, before));
                    }
                    circles[i].acceleration.add_vec(force);
                    proof {
                        let sum = circles@[i as int]@.acceleration;
                        assert(is_pulled(bodies, i as int, j as nat, g, mass_of, sqrt, before));
                        assert(is_pair_sum(before, force@, sum));
                        let next = (j + 1) as nat;
                        assert(is_pulled(
                            bodies,
                            i as int,
                            (next - 1) as nat,
                            g,
                            mass_of,
                            sqrt,
                            before,
                        ));
                        assert(is_pull(
                            bodies[i as int].position,
                            bodies[next - 1].position,
                            bodies[next - 1].mass,
                            g,
                            mass_of,
                            sqrt,
                            force@,
                        ));
                        assert(is_pulled(bodies, i as int, next, g, mass_of, sqrt, sum));
                        if exact {
                            lemma_value_of(mass_of, bodies[j as int].mass, other_circle_mass);
                            lemma_value_of(sqrt, pos_diff_mag_sq, distance);
                            assert(force@ == pull(
                                at,
                                other,
                                value_of(mass_of, bodies[j as int].mass),
                                gravitational_constant_spec::<T>(),
                                sqrt,
                            ));
                        }
                    }
                } else {
                    assert(is_pulled(
                        bodies,
                        i as int,
                        (j + 1) as nat,
                        g,
                        mass_of,
                        sqrt,
                        circles@[i as int]@.acceleration,
                    ));
                }
                j += 1;
            }
            i += 1;
        }
    }

    /// Moves every body one tick on, in order: the velocity grows by the
    /// acceleration, the position by the new velocity, the body's entity
    /// is moved by the new velocity and sends its transform, and the
    /// acceleration becomes zero. Each body's place must be taken.
    pub fn update(circles: &mut Vec<Circle<T>>, entity_list: &mut EntityList<T>)
        requires
            update_req(body_views(old(circles)@), old(entity_list)@),
        ensures
            final(circles)@.len() == old(circles)@.len(),
            forall|k: int|
                0 <= k < old(circles)@.len() ==> is_ticked(
                    old(circles)@[k]@,
                    (#[trigger] final(circles)@[k])@,
                ),
            is_moved(old(entity_list)@, final(entity_list)@, moves_of(final(circles)@)),
    {
        let none: T = <T as From<u8>>::from(0u8);
        let n = circles.len();
        let ghost bodies = body_views(old(circles)@);
        let ghost start = entity_list@;
        let mut k: usize = 0;
        while k < n
            invariant
                bodies == body_views(old(circles)@),
                start == old(entity_list)@,
                update_req(bodies, start),
                is_small_scalar_of(0u8, none),
                <T as FromSpec<u8>>::obeys_from_spec() ==> none == zero::<T>(),
                circles@.len() == n == old(circles)@.len(),
                k <= n,
                entity_list@.len() == start.len(),
                forall|j: int| k <= j < n ==> #[trigger] circles@[j] == old(circles)@[j],
                forall|j: int|
                    0 <= j < k ==> is_ticked(old(circles)@[j]@, (#[trigger] circles@[j])@),
                is_moved(start, entity_list@, moves_of(circles@.take(k as int))),
            decreases n - k,
        {
            let ghost scene = entity_list@;
            let ghost done = circles@.take(k as int);
            let ghost body = bodies[k as int];
            assert(body == circles@[k as int]@);
            let place = circles[k].index;
            let acceleration = circles[k].acceleration;
            circles[k].velocity.add_vec(acceleration);
            let velocity = circles[k].velocity;
            assert(is_pair_sum(
                bodies[k as int].velocity,
                bodies[k as int].acceleration,
                velocity@,
            ));
            circles[k].position.add_vec(velocity);
            proof {
                let steps = moves_of(done);
                assert forall|j: int| 0 <= j < steps.len() implies (#[trigger] steps[j]).index
                    == bodies[j].index && is_pair_sum(
                    bodies[j].velocity,
                    bodies[j].acceleration,
                    steps[j].velocity,
                ) by {
                    assert(is_ticked(old(circles)@[j]@, done[j]@));
                }
                assert(can_be_moves(bodies, steps));
                assert(is_moved(start, scene, steps));
            }
            let entity = entity_list.get_entity_unchecked(place);
            entity.translate_by(velocity);
            circles[k].acceleration = Vector::new(none, none);
            k += 1;
            proof {
                let steps = moves_of(circles@.take(k as int));
                assert(steps.drop_last() =~= moves_of(done));
                assert(is_moved_once(scene, entity_list@, steps.last()));
            }
        }
        assert(circles@.take(k as int) =~= circles@);
    }

    /// The place of the entity that draws the body.
    pub fn index(&self) -> (k: usize)
        ensures
            k == self@.index,
    {
        self.index
    }

    /// Where the body is.
    pub fn position(&self) -> (p: Vector<T>)
        ensures
            p@ == self@.position,
    {
        self.position
    }

    /// How fast the body moves, per tick.
    pub fn velocity(&self) -> (v: Vector<T>)
        ensures
            v@ == self@.velocity,
    {
        self.velocity
    }

    /// How much the velocity grows at the next tick.
    pub fn acceleration(&self) -> (a: Vector<T>)
        ensures
            a@ == self@.acceleration,
    {
        self.acceleration
    }
}

} // verus!
