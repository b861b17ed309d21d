//! Drawable entities and the registry that owns them.
//!
//! An entity keeps the state that decides what the graphics device must hold
//! for it: its transform, how many indices it draws, how large its shader
//! arguments are and whether it overrides the pipeline. It does not talk to
//! the device. Every operation that changes what the device must hold puts
//! one piece of work into the entity's outbox, at once and in order; whoever
//! owns the device takes the work out and carries it through before the next
//! submission.

use crate::matrix::{
    cells_add_req, cells_added, cells_mul_req, cells_multiplied, cells_set, is_identity,
    turn_by_req, turn_to_req, turned_by, turned_to, Mat4x4, CELL_TX, CELL_TY, CELL_XX, CELL_XY,
    CELL_YX, CELL_YY,
};
use crate::scalar::Scalar;
use crate::vector::Vector;
use vstd::prelude::*;

verus! {

/// Binding slot of the transform uniform: sixteen scalars.
pub const TRANSFORM_SLOT: u32 = 0;

/// Binding slot of the shader arguments: a blob of fixed size.
pub const SHADER_ARGS_SLOT: u32 = 1;

/// One piece of work for the graphics device on behalf of one entity.
pub enum DeviceWork<T: Copy + Clone> {
    /// Allocate the four buffers of a new entity with these contents, and
    /// the two binding sets that expose the transform and the shader
    /// arguments.
    CreateBuffers {
        vertices: Vec<Vector<T>>,
        indices: Vec<u32>,
        transform: Mat4x4<T>,
        shader_args: Vec<u8>,
    },
    /// Allocate the vertex and the index buffer anew with these contents.
    ReplaceGeometry { vertices: Vec<Vector<T>>, indices: Vec<u32> },
    /// Write all sixteen cells into the transform buffer, from its start.
    WriteTransform { transform: Mat4x4<T> },
    /// Allocate the shader argument buffer anew, exactly as large as the
    /// blob, and rebuild its binding set.
    ReplaceShaderArgs { bytes: Vec<u8> },
    /// Write the blob into the shader argument buffer that is there, from
    /// its start.
    WriteShaderArgs { bytes: Vec<u8> },
    /// Compile a pipeline of the entity's own from this shader source.
    BuildPipeline { shader: String },
}

/// One drawable.
pub struct Entity<T: Copy + Clone> {
    pub(crate) transform: Mat4x4<T>,
    pub(crate) index_size: u32,
    pub(crate) vertex_count: usize,
    pub(crate) shader_args_size: usize,
    pub(crate) custom_pipeline: bool,
    pub(crate) outbox: Vec<DeviceWork<T>>,
}

/// What an entity is, as plain values.
pub ghost struct EntityView<T: Copy + Clone> {
    /// The sixteen cells of the transform.
    pub transform: Seq<T>,
    /// How many indices a draw of the entity covers.
    pub index_size: u32,
    /// How many vertices the geometry set last holds.
    pub vertex_count: nat,
    /// The size in bytes of the shader arguments committed last.
    pub shader_args_size: nat,
    /// Whether the entity is drawn with a pipeline of its own.
    pub custom_pipeline: bool,
    /// The device work that is waiting, oldest first.
    pub outbox: Seq<DeviceWork<T>>,
}

impl<T: Copy + Clone> View for Entity<T> {
    type V = EntityView<T>;

    closed spec fn view(&self) -> EntityView<T> {
        EntityView {
            transform: self.transform@,
            index_size: self.index_size,
            vertex_count: self.vertex_count as nat,
            shader_args_size: self.shader_args_size as nat,
            custom_pipeline: self.custom_pipeline,
            outbox: self.outbox@,
        }
    }
}

/// The index count that a list of `len` indices gives: `len` itself while
/// it fits the count's 32 bits, its low 32 bits beyond.
pub open spec fn index_count_of(len: nat) -> u32 {
    len as u32
}

/// `after` is `before` with the transform `cells` and with one more piece of
/// work at the end of the outbox: the write of exactly those cells.
pub open spec fn transform_sent<T: Copy + Clone>(
    before: EntityView<T>,
    after: EntityView<T>,
    work: DeviceWork<T>,
) -> bool {
    &&& work matches DeviceWork::WriteTransform { transform }
    &&& transform@ == after.transform
    &&& after == EntityView { transform: after.transform, outbox: before.outbox.push(work), ..before }
}

/// `after` is `before` with one more piece of work in its outbox, which
/// writes the whole transform of `after`.
pub open spec fn sends_transform<T: Copy + Clone>(before: EntityView<T>, after: EntityView<T>) -> bool {
    &&& after.outbox.len() == before.outbox.len() + 1
    &&& transform_sent(before, after, after.outbox.last())
}

/// The four bytes of the shader arguments that a new entity starts with.
pub open spec fn initial_shader_args() -> Seq<u8> {
    seq![0u8, 0u8, 0u8, 0u8]
}

/// Whether `e` is an entity as it is first made: no geometry, the transform
/// that moves nothing, four zero bytes of shader arguments, no pipeline of
/// its own, and an outbox that asks for its buffers.
pub open spec fn is_fresh_entity<T: Scalar>(e: EntityView<T>) -> bool {
    &&& is_identity(e.transform)
    &&& e.index_size == 0
    &&& e.vertex_count == 0
    &&& e.shader_args_size == 4
    &&& !e.custom_pipeline
    &&& e.outbox.len() == 1
    &&& e.outbox[0] matches DeviceWork::CreateBuffers { vertices, indices, transform, shader_args }
    &&& vertices@.len() == 0
    &&& indices@.len() == 0
    &&& transform@ == e.transform
    &&& shader_args@ == initial_shader_args()
}

impl<T: Scalar> Entity<T> {
    /// An entity with no geometry and the transform that moves nothing.
    pub fn default() -> (e: Self)
        ensures
            is_fresh_entity(e@),
    {
        Self::new(Vec::new(), Vec::new(), Mat4x4::identity())
    }

    /// An entity with the given geometry and transform, four zero bytes of
    /// shader arguments and no pipeline of its own. Its outbox asks for its
    /// buffers.
    pub fn new(vertex_data: Vec<Vector<T>>, index_data: Vec<u32>, transform: Mat4x4<T>) -> (e:
        Self)
        ensures
            e@.transform == transform@,
            e@.index_size == index_count_of(index_data@.len()),
            e@.vertex_count == vertex_data@.len(),
            e@.shader_args_size == 4,
            !e@.custom_pipeline,
            e@.outbox.len() == 1,
            e@.outbox[0] matches DeviceWork::CreateBuffers {
                vertices,
                indices,
                transform: sent,
                shader_args,
            } && vertices == vertex_data && indices == index_data && sent == transform
                && shader_args@ == initial_shader_args(),
    {
        let index_size = #[verifier::truncate] (index_data.len() as u32);
        let vertex_count = vertex_data.len();
        let mut shader_args: Vec<u8> = Vec::new();
        shader_args.push(0u8);
        shader_args.push(0u8);
        shader_args.push(0u8);
        shader_args.push(0u8);
        assert(shader_args@ =~= initial_shader_args());
        let mut outbox: Vec<DeviceWork<T>> = Vec::new();
        outbox.push(
            DeviceWork::CreateBuffers {
                vertices: vertex_data,
                indices: index_data,
                transform,
                shader_args,
            },
        );
        Entity {
            transform,
            index_size,
            vertex_count,
            shader_args_size: 4,
            custom_pipeline: false,
            outbox,
        }
    }

    /// Replaces the geometry: the number of indices becomes the index
    /// count, and the outbox asks for both geometry buffers anew. The
    /// indices are not held against the number of vertices.
    pub fn set_geometry(&mut self, vertices: Vec<Vector<T>>, indices: Vec<u32>)
        ensures
            final(self)@ == (EntityView {
                index_size: index_count_of(indices@.len()),
                vertex_count: vertices@.len(),
                outbox: old(self)@.outbox.push(DeviceWork::ReplaceGeometry { vertices, indices }),
                ..old(self)@
            }),
    {
        self.index_size = #[verifier::truncate] (indices.len() as u32);
        self.vertex_count = vertices.len();
        self.outbox.push(DeviceWork::ReplaceGeometry { vertices, indices });
    }

    fn send_transform(&mut self, transform: Mat4x4<T>)
        ensures
            final(self)@ == (EntityView {
                outbox: old(self)@.outbox.push(DeviceWork::WriteTransform { transform }),
                ..old(self)@
            }),
    {
        self.outbox.push(DeviceWork::WriteTransform { transform });
    }

    /// Moves the entity by the displacement and sends the transform.
    pub fn translate_by(&mut self, displacement: Vector<T>)
        requires
            cells_add_req(old(self)@.transform, CELL_TX as int, CELL_TY as int, displacement@),
        ensures
            cells_added(
                old(self)@.transform,
                final(self)@.transform,
                CELL_TX as int,
                CELL_TY as int,
                displacement@,
            ),
            sends_transform(old(self)@, final(self)@),
    {
        self.transform.translate_by(displacement);
        self.send_transform(self.transform);
    }

    /// Moves the entity to the position and sends the transform.
    pub fn translate_to(&mut self, position: Vector<T>)
        ensures
            cells_set(
                old(self)@.transform,
                final(self)@.transform,
                CELL_TX as int,
                CELL_TY as int,
                position@,
            ),
            sends_transform(old(self)@, final(self)@),
    {
        self.transform.translate_to(position);
        self.send_transform(self.transform);
    }

    /// Turns the entity to the absolute angle and sends the transform.
    pub fn rotate_to<F: Fn(T) -> (T, T)>(&mut self, angle: T, sin_cos: F)
        requires
            turn_to_req(angle, sin_cos),
        ensures
            turned_to(old(self)@.transform, final(self)@.transform, angle, sin_cos),
            sends_transform(old(self)@, final(self)@),
    {
        self.transform.rotate_to(angle, sin_cos);
        self.send_transform(self.transform);
    }

    /// Turns the entity by the displacement angle and sends the transform.
    pub fn rotate_by<A: Fn(T, T) -> T, F: Fn(T) -> (T, T)>(
        &mut self,
        displacement_angle: T,
        atan2: A,
        sin_cos: F,
    )
        requires
            turn_by_req(old(self)@.transform, displacement_angle, atan2, sin_cos),
        ensures
            turned_by(
                old(self)@.transform,
                final(self)@.transform,
                displacement_angle,
                atan2,
                sin_cos,
            ),
            sends_transform(old(self)@, final(self)@),
    {
        self.transform.rotate_by(displacement_angle, atan2, sin_cos);
        self.send_transform(self.transform);
    }

    /// Sets the scale of the entity and sends the transform.
    pub fn scale_to(&mut self, scale: Vector<T>)
        ensures
            cells_set(
                old(self)@.transform,
                final(self)@.transform,
                CELL_XX as int,
                CELL_YY as int,
                scale@,
            ),
            sends_transform(old(self)@, final(self)@),
    {
        self.transform.scale_to(scale);
        self.send_transform(self.transform);
    }

    /// Multiplies the scale of the entity and sends the transform.
    pub fn scale_by(&mut self, scale_factor: Vector<T>)
        requires
            cells_mul_req(old(self)@.transform, CELL_XX as int, CELL_YY as int, scale_factor@),
        ensures
            cells_multiplied(
                old(self)@.transform,
                final(self)@.transform,
                CELL_XX as int,
                CELL_YY as int,
                scale_factor@,
            ),
            sends_transform(old(self)@, final(self)@),
    {
        self.transform.scale_by(scale_factor);
        self.send_transform(self.transform);
    }

    /// Sets the shear of the entity and sends the transform.
    pub fn shear_to(&mut self, shear_angle: Vector<T>)
        ensures
            cells_set(
                old(self)@.transform,
                final(self)@.transform,
                CELL_XY as int,
                CELL_YX as int,
                shear_angle@,
            ),
            sends_transform(old(self)@, final(self)@),
    {
        self.transform.shear_to(shear_angle);
        self.send_transform(self.transform);
    }

    /// Adds to the shear of the entity and sends the transform.
    pub fn shear_by(&mut self, shear_displacement_angle: Vector<T>)
        requires
            cells_add_req(
                old(self)@.transform,
                CELL_XY as int,
                CELL_YX as int,
                shear_displacement_angle@,
            ),
        ensures
            cells_added(
                old(self)@.transform,
                final(self)@.transform,
                CELL_XY as int,
                CELL_YX as int,
                shear_displacement_angle@,
            ),
            sends_transform(old(self)@, final(self)@),
    {
        self.transform.shear_by(shear_displacement_angle);
        self.send_transform(self.transform);
    }

    /// The angle that `atan2` reads off the transform.
    pub fn angle<A: Fn(T, T) -> T>(&self, atan2: A) -> (a: T)
        requires
            call_requires(atan2, (self@.transform[CELL_YX as int], self@.transform[CELL_XX as int])),
        ensures
            call_ensures(
                atan2,
                (self@.transform[CELL_YX as int], self@.transform[CELL_XX as int]),
                a,
            ),
    {
        self.transform.angle(atan2)
    }

    /// The position that the transform moves to.
    pub fn position(&self) -> (p: Vector<T>)
        ensures
            p@ == (self@.transform[CELL_TX as int], self@.transform[CELL_TY as int]),
    {
        self.transform.position()
    }

    /// The scale of the transform.
    pub fn scale(&self) -> (s: Vector<T>)
        ensures
            s@ == (self@.transform[CELL_XX as int], self@.transform[CELL_YY as int]),
    {
        self.transform.scale()
    }

    /// The transform.
    pub fn get_transform(&self) -> (m: Mat4x4<T>)
        ensures
            m@ == self@.transform,
    {
        self.transform
    }

    /// Replaces the transform and sends it.
    pub fn set_transform(&mut self, new_transform: Mat4x4<T>)
        ensures
            final(self)@.transform == new_transform@,
            sends_transform(old(self)@, final(self)@),
    {
        self.transform = new_transform;
        self.send_transform(self.transform);
    }

    /// Gives the entity a pipeline of its own, to be compiled from the
    /// shader source; draws prefer it to the renderer's.
    pub fn set_shader(&mut self, shader: String)
        ensures
            final(self)@ == (EntityView {
                custom_pipeline: true,
                outbox: old(self)@.outbox.push(DeviceWork::BuildPipeline { shader }),
                ..old(self)@
            }),
    {
        self.custom_pipeline = true;
        self.outbox.push(DeviceWork::BuildPipeline { shader });
    }

    /// Commits shader arguments of a new size: the outbox asks for a buffer
    /// of exactly that size and a new binding set.
    pub fn set_shader_args(&mut self, args: Vec<u8>)
        ensures
            final(self)@ == (EntityView {
                shader_args_size: args@.len(),
                outbox: old(self)@.outbox.push(DeviceWork::ReplaceShaderArgs { bytes: args }),
                ..old(self)@
            }),
    {
        self.shader_args_size = args.len();
        self.outbox.push(DeviceWork::ReplaceShaderArgs { bytes: args });
    }

    /// Sends shader arguments of the size committed last: the outbox asks
    /// for a write into the buffer that is there.
    pub fn send_shader_args(&mut self, args: Vec<u8>)
        requires
            args@.len() == old(self)@.shader_args_size,
        ensures
            final(self)@ == (EntityView {
                outbox: old(self)@.outbox.push(DeviceWork::WriteShaderArgs { bytes: args }),
                ..old(self)@
            }),
    {
        self.outbox.push(DeviceWork::WriteShaderArgs { bytes: args });
    }

    /// How many indices a draw of the entity covers.
    pub fn index_count(&self) -> (n: u32)
        ensures
            n == self@.index_size,
    {
        self.index_size
    }

    /// The size in bytes of the shader arguments committed last.
    pub fn shader_args_len(&self) -> (n: usize)
        ensures
            n == self@.shader_args_size,
    {
        self.shader_args_size
    }

    /// Whether the entity is drawn with a pipeline of its own.
    pub fn has_pipeline(&self) -> (b: bool)
        ensures
            b == self@.custom_pipeline,
    {
        self.custom_pipeline
    }

    /// Takes the waiting device work out, oldest first, and leaves the
    /// outbox empty.
    pub fn take_work(&mut self) -> (work: Vec<DeviceWork<T>>)
        ensures
            work@ == old(self)@.outbox,
            final(self)@ == (EntityView { outbox: Seq::empty(), ..old(self)@ }),
    {
        let mut work: Vec<DeviceWork<T>> = Vec::new();
        work.append(&mut self.outbox);
        assert(work@ =~= old(self)@.outbox);
        assert(self.outbox@ =~= Seq::empty());
        work
    }
}

/// The entities of a scene, in the order in which they were added, which is
/// the order in which they are drawn. An entity is addressed by its place;
/// removing one moves every later entity one place down.
pub struct EntityList<T: Copy + Clone> {
    pub(crate) entities: Vec<Entity<T>>,
}

impl<T: Copy + Clone> View for EntityList<T> {
    type V = Seq<Entity<T>>;

    /// The entities, first added first.
    closed spec fn view(&self) -> Seq<Entity<T>> {
        self.entities@
    }
}

impl<T: Scalar> EntityList<T> {
    /// A registry without entities.
    pub fn new() -> (list: Self)
        ensures
            list@.len() == 0,
    {
        Self { entities: Vec::new() }
    }

    /// Appends a fresh entity and hands it out for further changes. Its
    /// place is the number of entities before the call.
    pub fn add_entity(&mut self) -> (entity: &mut Entity<T>)
        ensures
            is_fresh_entity(entity@),
            final(self)@ == old(self)@.push(*final(entity)),
    {
        let entity = Entity::default();
        self.entities.push(entity);
        let last = self.entities.len() - 1;
        &mut self.entities[last]
    }

    /// The entity at place `index`, for changes, if there is one.
    pub fn get_entity(&mut self, index: usize) -> (found: Option<&mut Entity<T>>)
        ensures
            index >= old(self)@.len() ==> found.is_none() && final(self)@ == old(self)@,
            index < old(self)@.len() ==> found.is_some() && *found.unwrap() == old(self)@[index as int]
                && final(self)@ == old(self)@.update(index as int, *final(found.unwrap())),
    {
        if index < self.entities.len() {
            Some(&mut self.entities[index])
        } else {
            None
        }
    }

    /// The entity at place `index`, for changes. The place must be taken.
    pub fn get_entity_unchecked(&mut self, index: usize) -> (entity: &mut Entity<T>)
        requires
            index < old(self)@.len(),
        ensures
            *entity == old(self)@[index as int],
            final(self)@ == old(self)@.update(index as int, *final(entity)),
    {
        &mut self.entities[index]
    }

    /// Removes the entity at place `index`; every later entity moves one
    /// place down. The place must be taken.
    pub fn delete_entity(&mut self, index: usize)
        requires
            index < old(self)@.len(),
        ensures
            final(self)@ == old(self)@.remove(index as int),
    {
        self.entities.remove(index);
    }

    /// The entities in drawing order, for changes. None is added or
    /// removed through it.
    pub fn iter_mut(&mut self) -> (entities: &mut [Entity<T>])
        ensures
            entities@ == old(self)@,
            final(self)@ == final(entities)@,
    {
        self.entities.as_mut_slice()
    }

    /// The entities in drawing order.
    pub fn iter(&self) -> (entities: &[Entity<T>])
        ensures
            entities@ == self@,
    {
        self.entities.as_slice()
    }

    /// How many entities there are.
    pub fn count(&self) -> (n: usize)
        ensures
            n == self@.len(),
    {
        self.entities.len()
    }

    /// Takes the waiting device work out of every entity: one batch for
    /// each place, in drawing order, each batch oldest work first. All
    /// outboxes are empty afterwards and nothing else has changed.
    pub fn take_work(&mut self) -> (work: Vec<Vec<DeviceWork<T>>>)
        ensures
            is_work_of(work@, old(self)@),
            are_drained(old(self)@, final(self)@),
            all_sent(final(self)@),
    {
        let mut work: Vec<Vec<DeviceWork<T>>> = Vec::new();
        let n = self.entities.len();
        let mut i: usize = 0;
        while i < n
            invariant
                n == old(self)@.len(),
                self@.len() == n,
                i <= n,
                work@.len() == i,
                forall|k: int| 0 <= k < i ==> (#[trigger] work@[k])@ == old(self)@[k]@.outbox,
                forall|k: int| 0 <= k < i ==> is_drained(old(self)@[k]@, #[trigger] self@[k]@),
                forall|k: int| i <= k < n ==> self@[k] == old(self)@[k],
            decreases n - i,
        {
            let batch = self.entities[i].take_work();
            work.push(batch);
            i += 1;
        }
        work
    }
}

/// After the entity at place `index` is removed, every entity before that
/// place is where it was and every entity behind it is one place down.
pub proof fn lemma_delete_shifts<T: Copy + Clone>(before: Seq<Entity<T>>, index: int)
    requires
        0 <= index < before.len(),
    ensures
        before.remove(index).len() == before.len() - 1,
        forall|k: int| 0 <= k < index ==> #[trigger] before.remove(index)[k] == before[k],
        forall|k: int|
            index <= k < before.len() - 1 ==> #[trigger] before.remove(index)[k] == before[k + 1],
{
}

/// An entity that is added takes the place that equals the number of
/// entities before, and leaves every other entity where it was.
pub proof fn lemma_add_is_last<T: Copy + Clone>(before: Seq<Entity<T>>, added: Entity<T>)
    ensures
        before.push(added).len() == before.len() + 1,
        before.push(added)[before.len() as int] == added,
        forall|k: int| 0 <= k < before.len() ==> #[trigger] before.push(added)[k] == before[k],
{
}

/// Whether `after` is `before` with an empty outbox.
pub open spec fn is_drained<T: Copy + Clone>(before: EntityView<T>, after: EntityView<T>) -> bool {
    after == EntityView { outbox: Seq::empty(), ..before }
}

/// Whether `after` holds the entities of `before`, place by place, each
/// with an empty outbox and otherwise unchanged.
pub open spec fn are_drained<T: Copy + Clone>(before: Seq<Entity<T>>, after: Seq<Entity<T>>) -> bool {
    &&& after.len() == before.len()
    &&& forall|k: int| 0 <= k < before.len() ==> is_drained(before[k]@, #[trigger] after[k]@)
}

/// Whether no device work waits in any of `entities`.
pub open spec fn all_sent<T: Copy + Clone>(entities: Seq<Entity<T>>) -> bool {
    forall|k: int| 0 <= k < entities.len() ==> (#[trigger] entities[k])@.outbox.len() == 0
}

/// Whether `work` holds, place by place, the outboxes of `entities`.
pub open spec fn is_work_of<T: Copy + Clone>(
    work: Seq<Vec<DeviceWork<T>>>,
    entities: Seq<Entity<T>>,
) -> bool {
    &&& work.len() == entities.len()
    &&& forall|k: int| 0 <= k < entities.len() ==> (#[trigger] work[k])@ == entities[k]@.outbox
}

} // verus!
