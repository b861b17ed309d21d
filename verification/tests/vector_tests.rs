use scene2d::vector::Vector;

#[test]
fn new_keeps_both_coordinates() {
    let v = Vector::new(3i32, -4i32);
    assert_eq!(v.x(), 3);
    assert_eq!(v.y(), -4);
    assert_eq!(v.pos, [3, -4]);
}

#[test]
fn set_x_and_set_y_touch_one_coordinate_each() {
    let mut v = Vector::new(1.5f32, 2.5f32);
    v.set_x(7.0);
    assert_eq!(v.pos, [7.0, 2.5]);
    v.set_y(-1.0);
    assert_eq!(v.pos, [7.0, -1.0]);
}

#[test]
fn add_vec_adds_coordinate_wise() {
    let mut v = Vector::new(1i64, 2i64);
    v.add_vec(Vector::new(10, 20));
    assert_eq!(v.pos, [11, 22]);
    let mut f = Vector::new(0.5f32, 0.25f32);
    f.add_vec(Vector::new(0.25, 0.25));
    assert_eq!(f.pos, [0.75, 0.5]);
}

#[test]
fn sub_vec_subtracts_coordinate_wise() {
    let mut v = Vector::new(1i64, 2i64);
    v.sub_vec(Vector::new(10, 20));
    assert_eq!(v.pos, [-9, -18]);
}

#[test]
fn vec_sum_and_vec_diff_leave_their_arguments() {
    let a = Vector::new(4i32, 9i32);
    let b = Vector::new(1i32, 3i32);
    assert_eq!(Vector::vec_sum(a, b).pos, [5, 12]);
    assert_eq!(Vector::vec_diff(a, b).pos, [3, 6]);
    assert_eq!(Vector::vec_diff(b, a).pos, [-3, -6]);
    assert_eq!(a.pos, [4, 9]);
    assert_eq!(b.pos, [1, 3]);
}

fn whole_root(n: i32) -> i32 {
    let mut r = 0;
    while (r + 1) * (r + 1) <= n {
        r += 1;
    }
    r
}

#[test]
fn mag_is_the_root_of_the_sum_of_squares() {
    assert_eq!(Vector::new(3.0f32, 4.0f32).mag(f32::sqrt), 5.0);
    assert_eq!(Vector::new(-6.0f32, 8.0f32).mag(f32::sqrt), 10.0);
    assert_eq!(Vector::new(0.0f32, 0.0f32).mag(f32::sqrt), 0.0);
    assert_eq!(Vector::new(1.0f32, 1.0f32).mag(f32::sqrt), 2.0f32.sqrt());
    assert_eq!(Vector::new(3i32, 4i32).mag(whole_root), 5);
    assert_eq!(Vector::new(5i32, -12i32).mag(whole_root), 13);
}

#[test]
fn mag_leaves_the_vector() {
    let v = Vector::new(3.0f32, 4.0f32);
    v.mag(f32::sqrt);
    assert_eq!(v.pos, [3.0, 4.0]);
}

#[test]
fn mag_takes_the_root_that_is_handed_in() {
    assert_eq!(Vector::new(3i32, 4i32).mag(|squares: i32| squares + 1), 26);
}

#[test]
fn normalize_divides_by_the_magnitude() {
    let mut v = Vector::new(3.0f32, 4.0f32);
    v.normalize(f32::sqrt);
    assert_eq!(v.pos, [0.6, 0.8]);
    assert!((v.mag(f32::sqrt) - 1.0).abs() < 1e-6);
    let mut u = Vector::new(0.0f32, -2.0f32);
    u.normalize(f32::sqrt);
    assert_eq!(u.pos, [0.0, -1.0]);
    let mut w = Vector::new(30i32, 40i32);
    w.normalize(|squares: i32| whole_root(squares) / 10);
    assert_eq!(w.pos, [6, 8]);
}

#[test]
fn normalized_returns_a_new_vector() {
    let v = Vector::new(-8.0f32, 6.0f32);
    let n = v.normalized(f32::sqrt);
    assert_eq!(n.pos, [-0.8, 0.6]);
    assert_eq!(v.pos, [-8.0, 6.0]);
}

#[test]
fn normalize_of_the_zero_vector_is_not_a_number() {
    let mut v = Vector::new(0.0f32, 0.0f32);
    v.normalize(f32::sqrt);
    assert!(v.x().is_nan());
    assert!(v.y().is_nan());
}
