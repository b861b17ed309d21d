use scene2d::circle::{dress, gravitational_constant, Circle, CIRCLE_SIDES};
use scene2d::entity::{DeviceWork, EntityList};
use scene2d::geometry::generate_triangles;
use scene2d::vector::Vector;

const TURN: f32 = 2.0 * std::f32::consts::PI;

fn mass_of(m: usize) -> f32 {
    m as f32
}

fn body(list: &mut EntityList<f32>, mass: usize, at: [f32; 2], v: [f32; 2]) -> Circle<f32> {
    Circle::new(
        list,
        mass,
        0.02,
        Vector::new(at[0], at[1]),
        Vector::new(v[0], v[1]),
        Vector::new(0.0, 0.0),
        TURN,
        f32::sin_cos,
    )
}

#[test]
fn gravitational_constant_is_one_ten_millionth() {
    assert_eq!(gravitational_constant::<f32>(), 0.0000001f32);
    assert_eq!(CIRCLE_SIDES, 20);
}

#[test]
fn spawn_adds_one_entity_with_the_geometry_of_a_circle() {
    let mut list: EntityList<f32> = EntityList::new();
    list.add_entity();
    let c = body(&mut list, 1, [0.25, 0.5], [0.0, 0.0]);
    assert_eq!(c.index(), 1);
    assert_eq!(list.count(), 2);
    assert_eq!(c.position().pos, [0.25, 0.5]);
    let e = list.get_entity_unchecked(1);
    assert_eq!(e.index_count(), 54);
    assert_eq!(e.position().pos, [0.25, 0.5]);
    assert_eq!(e.scale().pos, [1.0, 1.0]);
    assert!(!e.has_pipeline());
    let work = e.take_work();
    assert_eq!(work.len(), 3);
    assert!(matches!(work[0], DeviceWork::CreateBuffers { .. }));
    match &work[2] {
        DeviceWork::WriteTransform { transform } => {
            assert_eq!(transform.position().pos, [0.25, 0.5]);
            assert_eq!(transform.scale().pos, [1.0, 1.0]);
        }
        _ => panic!("expected the transform"),
    }
    match &work[1] {
        DeviceWork::ReplaceGeometry { vertices, indices } => {
            assert_eq!(vertices.len(), 20);
            assert_eq!(vertices[0].pos, [0.0, 0.02]);
            for v in vertices {
                assert!(((v.x() * v.x() + v.y() * v.y()).sqrt() - 0.02).abs() < 1e-6);
            }
            assert_eq!(indices, &generate_triangles((0..20).collect()));
        }
        _ => panic!("expected the geometry"),
    }
}

#[test]
fn spawn_yields_places_in_the_order_of_creation() {
    let mut list: EntityList<f32> = EntityList::new();
    for k in 0..3 {
        let c = body(&mut list, 1, [k as f32, 0.0], [0.0, 0.0]);
        assert_eq!(c.index(), k);
    }
    assert_eq!(list.count(), 3);
}

#[test]
fn two_equal_bodies_pull_each_other_symmetrically() {
    let mut list: EntityList<f32> = EntityList::new();
    let mut circles = vec![
        body(&mut list, 5, [-1.0, 0.0], [0.0, 0.0]),
        body(&mut list, 5, [1.0, 0.0], [0.0, 0.0]),
    ];
    Circle::gravity(&mut circles, mass_of, f32::sqrt);
    let a = circles[0].acceleration();
    let b = circles[1].acceleration();
    assert!(a.x() > 0.0);
    assert!(b.x() < 0.0);
    assert_eq!(a.x(), -b.x());
    assert_eq!(a.y(), 0.0);
    assert_eq!(b.y(), 0.0);
    // constant times mass over the square of the distance
    assert_eq!(a.x(), 0.0000001f32 * 5.0 / 4.0);
    // gravity moves nothing
    assert_eq!(circles[0].position().pos, [-1.0, 0.0]);
    assert_eq!(circles[0].velocity().pos, [0.0, 0.0]);
}

#[test]
fn gravity_adds_to_the_acceleration_that_is_there() {
    let mut list: EntityList<f32> = EntityList::new();
    let mut circles = vec![
        Circle::new(
            &mut list,
            1,
            0.02,
            Vector::new(0.0f32, 0.0),
            Vector::new(0.0, 0.0),
            Vector::new(1.0, 2.0),
            TURN,
            f32::sin_cos,
        ),
        body(&mut list, 4, [0.0, 2.0], [0.0, 0.0]),
    ];
    Circle::gravity(&mut circles, mass_of, f32::sqrt);
    let pull = 0.0000001f32 * 4.0 / 4.0;
    assert_eq!(circles[0].acceleration().pos, [1.0 + -(0.0f32 / 2.0) * pull, 2.0 + pull]);
    let back = 0.0000001f32 * 1.0 / 4.0;
    assert_eq!(circles[1].acceleration().pos, [-(0.0f32 / 2.0) * back, -back]);
}

#[test]
fn gravity_sums_the_pulls_of_all_others_in_order() {
    let mut list: EntityList<f32> = EntityList::new();
    let at = [[0.0f32, 0.0], [3.0, 4.0], [-6.0, 8.0]];
    let masses = [2usize, 3, 7];
    let mut circles: Vec<Circle<f32>> =
        (0..3).map(|k| body(&mut list, masses[k], at[k], [0.0, 0.0])).collect();
    Circle::gravity(&mut circles, mass_of, f32::sqrt);
    let g = 0.0000001f32;
    for i in 0..3 {
        let mut want = [0.0f32, 0.0];
        for j in 0..3 {
            if i == j {
                continue;
            }
            let dx = at[i][0] - at[j][0];
            let dy = at[i][1] - at[j][1];
            let d2 = dx * dx + dy * dy;
            let f = g * masses[j] as f32 / d2;
            want[0] += -(dx / d2.sqrt()) * f;
            want[1] += -(dy / d2.sqrt()) * f;
        }
        assert_eq!(circles[i].acceleration().pos, want);
    }
}

#[test]
fn a_single_body_feels_no_pull() {
    let mut list: EntityList<f32> = EntityList::new();
    let mut circles = vec![body(&mut list, 1, [0.0, 0.0], [0.0, 0.0])];
    Circle::gravity(&mut circles, mass_of, f32::sqrt);
    assert_eq!(circles[0].acceleration().pos, [0.0, 0.0]);
    let mut none: Vec<Circle<f32>> = Vec::new();
    Circle::gravity(&mut none, mass_of, f32::sqrt);
    assert!(none.is_empty());
}

#[test]
fn coinciding_bodies_give_no_number() {
    let mut list: EntityList<f32> = EntityList::new();
    let mut circles = vec![
        body(&mut list, 1, [1.0, 1.0], [0.0, 0.0]),
        body(&mut list, 1, [1.0, 1.0], [0.0, 0.0]),
    ];
    Circle::gravity(&mut circles, mass_of, f32::sqrt);
    assert!(circles[0].acceleration().x().is_nan());
}

#[test]
fn a_body_with_unit_velocity_advances_by_it_each_tick() {
    let mut list: EntityList<f32> = EntityList::new();
    let mut circles = vec![body(&mut list, 1, [0.5, 0.25], [1.0, 0.0])];
    list.take_work();
    for tick in 1..=3 {
        Circle::update(&mut circles, &mut list);
        assert_eq!(circles[0].position().pos, [0.5 + tick as f32, 0.25]);
        assert_eq!(circles[0].velocity().pos, [1.0, 0.0]);
        assert_eq!(circles[0].acceleration().pos, [0.0, 0.0]);
        assert_eq!(list.get_entity_unchecked(0).position().pos, [0.5 + tick as f32, 0.25]);
    }
    let work = list.take_work();
    assert_eq!(work[0].len(), 3);
    match &work[0][2] {
        DeviceWork::WriteTransform { transform } => {
            assert_eq!(transform.position().pos, [3.5, 0.25])
        }
        _ => panic!("expected a transform write"),
    }
}

#[test]
fn update_adds_acceleration_to_velocity_before_velocity_to_position() {
    let mut list: EntityList<f32> = EntityList::new();
    let mut circles = vec![Circle::new(
        &mut list,
        1,
        0.02,
        Vector::new(10.0f32, 20.0),
        Vector::new(1.0, 2.0),
        Vector::new(0.5, 0.25),
        TURN,
        f32::sin_cos,
    )];
    Circle::update(&mut circles, &mut list);
    assert_eq!(circles[0].velocity().pos, [1.5, 2.25]);
    assert_eq!(circles[0].position().pos, [11.5, 22.25]);
    assert_eq!(circles[0].acceleration().pos, [0.0, 0.0]);
    assert_eq!(list.get_entity_unchecked(0).position().pos, [11.5, 22.25]);
}

#[test]
fn update_moves_each_body_s_own_entity() {
    let mut list: EntityList<f32> = EntityList::new();
    list.add_entity();
    let mut circles = vec![
        body(&mut list, 1, [0.0, 0.0], [1.0, 0.0]),
        body(&mut list, 1, [5.0, 5.0], [0.0, -1.0]),
    ];
    Circle::update(&mut circles, &mut list);
    assert_eq!(list.get_entity_unchecked(0).position().pos, [0.0, 0.0]);
    assert_eq!(list.get_entity_unchecked(1).position().pos, [1.0, 0.0]);
    assert_eq!(list.get_entity_unchecked(2).position().pos, [5.0, 4.0]);
}

#[test]
fn one_tick_of_two_bodies_keeps_the_order_gravity_then_update() {
    let mut list: EntityList<f32> = EntityList::new();
    let mut circles = vec![
        body(&mut list, 1, [-1.0, 0.0], [0.0, 0.0]),
        body(&mut list, 1, [1.0, 0.0], [0.0, 0.0]),
    ];
    Circle::gravity(&mut circles, mass_of, f32::sqrt);
    Circle::update(&mut circles, &mut list);
    let pull = 0.0000001f32 / 4.0;
    assert_eq!(circles[0].velocity().pos, [pull, 0.0]);
    assert_eq!(circles[1].velocity().pos, [-pull, 0.0]);
    assert_eq!(circles[0].position().pos, [-1.0 + pull, 0.0]);
    assert_eq!(circles[1].position().pos, [1.0 - pull, 0.0]);
    assert_eq!(circles[0].acceleration().pos, [0.0, 0.0]);
}

#[test]
fn dress_gives_every_entity_but_the_second_a_coloured_pipeline() {
    let mut list: EntityList<f32> = EntityList::new();
    for _ in 0..4 {
        list.add_entity();
    }
    list.take_work();
    for place in 0..4 {
        dress(&mut list, place, String::from("shader"), vec![7u8; 16], vec![9u8; 16]);
    }
    let work = list.take_work();
    for place in [0usize, 3] {
        let e = list.get_entity_unchecked(place);
        assert!(e.has_pipeline());
        assert_eq!(e.shader_args_len(), 16);
        assert_eq!(work[place].len(), 2);
        match &work[place][0] {
            DeviceWork::BuildPipeline { shader } => assert_eq!(shader, "shader"),
            _ => panic!("expected a pipeline"),
        }
        match &work[place][1] {
            DeviceWork::ReplaceShaderArgs { bytes } => assert_eq!(bytes, &vec![7u8; 16]),
            _ => panic!("expected the colour"),
        }
    }
    assert!(!list.get_entity_unchecked(1).has_pipeline());
    assert_eq!(list.get_entity_unchecked(1).shader_args_len(), 4);
    assert!(work[1].is_empty());
    assert!(list.get_entity_unchecked(2).has_pipeline());
    assert_eq!(work[2].len(), 3);
    match &work[2][2] {
        DeviceWork::WriteShaderArgs { bytes } => assert_eq!(bytes, &vec![9u8; 16]),
        _ => panic!("expected the second colour"),
    }
}
