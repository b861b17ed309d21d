use scene2d::entity::{DeviceWork, Entity, EntityList, SHADER_ARGS_SLOT, TRANSFORM_SLOT};
use scene2d::matrix::Mat4x4;
use scene2d::vector::Vector;

fn identity() -> [f32; 16] {
    [1.0, 0.0, 0.0, 0.0, 0.0, 1.0, 0.0, 0.0, 0.0, 0.0, 1.0, 0.0, 0.0, 0.0, 0.0, 1.0]
}

#[test]
fn binding_slots_are_zero_and_one() {
    assert_eq!(TRANSFORM_SLOT, 0);
    assert_eq!(SHADER_ARGS_SLOT, 1);
}

#[test]
fn default_entity_is_empty_and_asks_for_its_buffers() {
    let mut e: Entity<f32> = Entity::default();
    assert_eq!(e.index_count(), 0);
    assert_eq!(e.shader_args_len(), 4);
    assert!(!e.has_pipeline());
    assert_eq!(e.get_transform().cells(), identity());
    let work = e.take_work();
    assert_eq!(work.len(), 1);
    match &work[0] {
        DeviceWork::CreateBuffers { vertices, indices, transform, shader_args } => {
            assert!(vertices.is_empty());
            assert!(indices.is_empty());
            assert_eq!(transform.cells(), identity());
            assert_eq!(shader_args, &vec![0u8, 0, 0, 0]);
        }
        _ => panic!("expected the creation of the buffers"),
    }
    assert!(e.take_work().is_empty());
}

#[test]
fn new_entity_keeps_geometry_size_and_transform() {
    let mut t: Mat4x4<f32> = Mat4x4::identity();
    t.translate_to(Vector::new(2.0, 3.0));
    let e = Entity::new(
        vec![Vector::new(0.0f32, 0.0), Vector::new(1.0, 0.0), Vector::new(0.0, 1.0)],
        vec![0, 1, 2],
        t,
    );
    assert_eq!(e.index_count(), 3);
    assert_eq!(e.position().pos, [2.0, 3.0]);
    assert_eq!(e.scale().pos, [1.0, 1.0]);
    assert_eq!(e.angle(f32::atan2), 0.0);
}

#[test]
fn set_geometry_sets_the_index_count_and_asks_for_both_buffers() {
    let mut e: Entity<f32> = Entity::default();
    e.take_work();
    let vertices = vec![Vector::new(0.0f32, 0.0), Vector::new(1.0, 0.0), Vector::new(0.0, 1.0)];
    e.set_geometry(vertices, vec![0, 1, 2, 2, 1, 0]);
    assert_eq!(e.index_count(), 6);
    let work = e.take_work();
    assert_eq!(work.len(), 1);
    match &work[0] {
        DeviceWork::ReplaceGeometry { vertices, indices } => {
            assert_eq!(vertices.len(), 3);
            assert_eq!(vertices[1].pos, [1.0, 0.0]);
            assert_eq!(indices, &vec![0, 1, 2, 2, 1, 0]);
        }
        _ => panic!("expected new geometry"),
    }
}

#[test]
fn set_geometry_does_not_hold_indices_against_vertices() {
    let mut e: Entity<f32> = Entity::default();
    e.set_geometry(vec![Vector::new(0.0f32, 0.0)], vec![5, 6, 7]);
    assert_eq!(e.index_count(), 3);
}

#[test]
fn every_transform_change_sends_the_whole_transform_once() {
    let mut e: Entity<f32> = Entity::default();
    e.take_work();
    e.translate_by(Vector::new(1.0, 2.0));
    e.translate_to(Vector::new(5.0, 6.0));
    e.rotate_to(0.5, f32::sin_cos);
    e.rotate_by(0.25, f32::atan2, f32::sin_cos);
    e.scale_to(Vector::new(2.0, 2.0));
    e.scale_by(Vector::new(2.0, 0.5));
    e.shear_to(Vector::new(0.1, 0.2));
    e.shear_by(Vector::new(0.1, 0.2));
    let last = e.get_transform().cells();
    let work = e.take_work();
    assert_eq!(work.len(), 8);
    let mut sent = Vec::new();
    for w in &work {
        match w {
            DeviceWork::WriteTransform { transform } => sent.push(transform.cells()),
            _ => panic!("expected a transform write"),
        }
    }
    assert_eq!(sent[0][2], 1.0);
    assert_eq!(sent[0][6], 2.0);
    assert_eq!(sent[1][2], 5.0);
    assert_eq!(sent[1][6], 6.0);
    assert_eq!(sent[2][4], 0.5f32.sin());
    assert_eq!(sent[4][0], 2.0);
    assert_eq!(sent[5][0], 4.0);
    assert_eq!(sent[5][5], 1.0);
    assert_eq!(sent[6][1], 0.1);
    assert_eq!(sent[7], last);
    assert_eq!(last[2], 5.0);
}

#[test]
fn entity_translate_by_moves_the_position() {
    let mut e: Entity<i64> = Entity::default();
    e.translate_by(Vector::new(3, 4));
    e.translate_by(Vector::new(-1, 10));
    assert_eq!(e.position().pos, [2, 14]);
}

#[test]
fn set_transform_replaces_the_transform_and_sends_it() {
    let mut e: Entity<f32> = Entity::default();
    e.take_work();
    let mut t: Mat4x4<f32> = Mat4x4::identity();
    t.translate_to(Vector::new(9.0, 8.0));
    t.scale_to(Vector::new(2.0, 3.0));
    e.set_transform(t);
    assert_eq!(e.get_transform().cells(), t.cells());
    let work = e.take_work();
    assert_eq!(work.len(), 1);
    match &work[0] {
        DeviceWork::WriteTransform { transform } => assert_eq!(transform.cells(), t.cells()),
        _ => panic!("expected a transform write"),
    }
    e.translate_by(Vector::new(1.0, 1.0));
    let work = e.take_work();
    assert_eq!(work.len(), 1);
    match &work[0] {
        DeviceWork::WriteTransform { transform } => {
            assert_eq!(transform.position().pos, [10.0, 9.0])
        }
        _ => panic!("expected a transform write"),
    }
}

#[test]
fn set_shader_args_commits_a_size_and_send_shader_args_reuses_it() {
    let mut e: Entity<f32> = Entity::default();
    e.take_work();
    e.set_shader_args(vec![1u8; 16]);
    assert_eq!(e.shader_args_len(), 16);
    e.send_shader_args(vec![2u8; 16]);
    assert_eq!(e.shader_args_len(), 16);
    let work = e.take_work();
    assert_eq!(work.len(), 2);
    match &work[0] {
        DeviceWork::ReplaceShaderArgs { bytes } => assert_eq!(bytes, &vec![1u8; 16]),
        _ => panic!("expected a new shader argument buffer"),
    }
    match &work[1] {
        DeviceWork::WriteShaderArgs { bytes } => assert_eq!(bytes, &vec![2u8; 16]),
        _ => panic!("expected a shader argument write"),
    }
}

#[test]
fn set_shader_gives_the_entity_its_own_pipeline() {
    let mut e: Entity<f32> = Entity::default();
    e.take_work();
    assert!(!e.has_pipeline());
    e.set_shader(String::from("shader source"));
    assert!(e.has_pipeline());
    let work = e.take_work();
    assert_eq!(work.len(), 1);
    match &work[0] {
        DeviceWork::BuildPipeline { shader } => assert_eq!(shader, "shader source"),
        _ => panic!("expected a pipeline"),
    }
}

#[test]
fn registry_adds_at_the_end_and_removal_shifts_down() {
    let mut list: EntityList<i64> = EntityList::new();
    assert_eq!(list.count(), 0);
    for k in 0..3 {
        assert_eq!(list.count(), k);
        let e = list.add_entity();
        e.translate_to(Vector::new(100 + k as i64, 0));
    }
    assert_eq!(list.count(), 3);
    for k in 0..3 {
        assert_eq!(list.get_entity_unchecked(k).position().pos, [100 + k as i64, 0]);
    }
    list.delete_entity(1);
    assert_eq!(list.count(), 2);
    assert_eq!(list.get_entity_unchecked(0).position().pos, [100, 0]);
    assert_eq!(list.get_entity_unchecked(1).position().pos, [102, 0]);
    assert!(list.get_entity(5).is_none());
    assert!(list.get_entity(2).is_none());
    assert!(list.get_entity(1).is_some());
}

#[test]
fn get_entity_hands_out_the_entity_for_changes() {
    let mut list: EntityList<f32> = EntityList::new();
    list.add_entity();
    list.add_entity();
    match list.get_entity(1) {
        Some(e) => e.translate_to(Vector::new(4.0, 5.0)),
        None => panic!("there is an entity at place 1"),
    }
    assert_eq!(list.iter()[0].position().pos, [0.0, 0.0]);
    assert_eq!(list.iter()[1].position().pos, [4.0, 5.0]);
}

#[test]
fn iteration_is_in_the_order_of_adding() {
    let mut list: EntityList<i64> = EntityList::new();
    for k in 0..4 {
        list.add_entity().scale_to(Vector::new(k, k));
    }
    let seen: Vec<i64> = list.iter().iter().map(|e| e.scale().x()).collect();
    assert_eq!(seen, vec![0, 1, 2, 3]);
    for e in list.iter_mut().iter_mut() {
        e.scale_by(Vector::new(10, 1));
    }
    let seen: Vec<i64> = list.iter().iter().map(|e| e.scale().x()).collect();
    assert_eq!(seen, vec![0, 10, 20, 30]);
}

#[test]
fn take_work_of_the_registry_gives_one_batch_per_place() {
    let mut list: EntityList<f32> = EntityList::new();
    list.add_entity();
    list.add_entity().translate_by(Vector::new(1.0, 0.0));
    let work = list.take_work();
    assert_eq!(work.len(), 2);
    assert_eq!(work[0].len(), 1);
    assert_eq!(work[1].len(), 2);
    assert!(matches!(work[1][0], DeviceWork::CreateBuffers { .. }));
    assert!(matches!(work[1][1], DeviceWork::WriteTransform { .. }));
    let again = list.take_work();
    assert_eq!(again.len(), 2);
    assert!(again[0].is_empty() && again[1].is_empty());
    assert_eq!(list.iter()[1].position().pos, [1.0, 0.0]);
}
