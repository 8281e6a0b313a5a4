use euclid::{point3, size3, vec3, Box3D, Fixed, Point3D, SideOffsets3D};

fn f(x: f64) -> Fixed {
    Fixed::from_raw((x * 1.0e9).round() as i64)
}

fn p3(x: f64, y: f64, z: f64) -> Point3D<Fixed> {
    point3(f(x), f(y), f(z))
}

#[test]
fn test_new() {
    let b = Box3D::new(p3(-1.0, 1.0, 1.0), p3(1.0, -1.0, -1.0));
    assert!(b.a.x == f(-1.0));
    assert!(b.a.y == f(1.0));
    assert!(b.a.z == f(1.0));
    assert!(b.b.x == f(1.0));
    assert!(b.b.y == f(-1.0));
    assert!(b.b.z == f(-1.0));
}

#[test]
fn test_size() {
    let b = Box3D::new(p3(-10.0, 10.0, 10.0), p3(10.0, -10.0, -10.0));
    assert!(b.size().width == f(20.0));
    assert!(b.size().height == f(20.0));
    assert!(b.size().depth == f(20.0));
}

#[test]
fn test_center() {
    let b = Box3D::new(p3(-10.0, 10.0, 10.0), p3(10.0, -10.0, -10.0));
    assert!(b.center() == Point3D::zero());
}

#[test]
fn test_volume() {
    let b = Box3D::new(p3(-10.0, 10.0, 10.0), p3(10.0, -10.0, -10.0));
    assert!(b.volume() == f(8000.0));
}

#[test]
fn test_area() {
    let b = Box3D::new(p3(-10.0, 10.0, 10.0), p3(10.0, -10.0, -10.0));
    assert!(b.front_area() == f(400.0));
    assert!(b.left_area() == f(400.0));
    assert!(b.right_area() == f(400.0));
    assert!(b.back_area() == f(400.0));
    assert!(b.top_area() == f(400.0));
    assert!(b.bottom_area() == f(400.0));
}

#[test]
fn test_from_points() {
    let b = Box3D::from_points(&[p3(50.0, 25.0, 12.5), p3(100.0, 160.0, 200.0)]);
    assert!(b.a == p3(50.0, 160.0, 200.0));
    assert!(b.b == p3(100.0, 25.0, 12.5));
}

#[test]
fn box3d_test_min_max() {
    let b = Box3D::from_points(&[p3(50.0, 25.0, 12.5), p3(100.0, 160.0, 200.0)]);
    assert!(b.min_x() == f(50.0));
    assert!(b.min_y() == f(25.0));
    assert!(b.min_z() == f(12.5));
    assert!(b.max_x() == f(100.0));
    assert!(b.max_y() == f(160.0));
    assert!(b.max_z() == f(200.0));
}

#[test]
fn test_from_min_max() {
    let b = Box3D::from_min_max(f(10.0), f(20.0), f(30.0), f(40.0), f(50.0), f(60.0));
    assert!(b.a == p3(10.0, 50.0, 60.0));
    assert!(b.b == p3(40.0, 20.0, 30.0));
}

#[test]
fn test_round_in() {
    let b = Box3D::from_points(&[p3(-25.5, -40.4, -70.9), p3(60.3, 36.5, 89.8)]).round_in();
    assert!(b.min_x() == f(-25.0));
    assert!(b.min_y() == f(-40.0));
    assert!(b.min_z() == f(-70.0));
    assert!(b.max_x() == f(60.0));
    assert!(b.max_y() == f(36.0));
    assert!(b.max_z() == f(89.0));
}

#[test]
fn test_round_out() {
    let b = Box3D::from_points(&[p3(-25.5, -40.4, -70.9), p3(60.3, 36.5, 89.8)]).round_out();
    assert!(b.min_x() == f(-26.0));
    assert!(b.min_y() == f(-41.0));
    assert!(b.min_z() == f(-71.0));
    assert!(b.max_x() == f(61.0));
    assert!(b.max_y() == f(37.0));
    assert!(b.max_z() == f(90.0));
}

#[test]
fn box3d_test_round() {
    let b = Box3D::from_points(&[p3(-25.5, -40.4, -70.9), p3(60.3, 36.5, 89.8)]).round();
    // Half way between two whole numbers the greater is taken, also below
    // zero: -25.5 goes to -25, and 36.5 to 37.
    assert!(b.min_x() == f(-25.0));
    assert!(b.min_y() == f(-40.0));
    assert!(b.min_z() == f(-71.0));
    assert!(b.max_x() == f(60.0));
    assert!(b.max_y() == f(37.0));
    assert!(b.max_z() == f(90.0));
}

#[test]
fn test_from_size() {
    let b = Box3D::from_size(size3(f(30.0), f(40.0), f(50.0)));
    assert!(b.center() == Point3D::zero());
    assert!(b.size().width == f(30.0));
    assert!(b.size().height == f(40.0));
    assert!(b.size().depth == f(50.0));
}

#[test]
fn test_inner_box() {
    let b = Box3D::from_points(&[p3(50.0, 25.0, 12.5), p3(100.0, 160.0, 200.0)]);
    let b = b.inner_box(SideOffsets3D::new(f(10.0), f(20.0), f(5.0), f(10.0), f(20.0), f(5.0)));
    assert!(b.max_x() == f(80.0));
    assert!(b.max_y() == f(150.0));
    assert!(b.max_z() == f(180.0));
    assert!(b.min_x() == f(60.0));
    assert!(b.min_y() == f(30.0));
    assert!(b.min_z() == f(17.5));
}

#[test]
fn test_outer_box() {
    let b = Box3D::from_points(&[p3(50.0, 25.0, 12.5), p3(100.0, 160.0, 200.0)]);
    let b = b.outer_box(SideOffsets3D::new(f(10.0), f(20.0), f(5.0), f(10.0), f(20.0), f(5.0)));
    assert!(b.max_x() == f(120.0));
    assert!(b.max_y() == f(170.0));
    assert!(b.max_z() == f(220.0));
    assert!(b.min_x() == f(40.0));
    assert!(b.min_y() == f(20.0));
    assert!(b.min_z() == f(7.5));
}

#[test]
fn box3d_test_translate() {
    let b = Box3D::from_size(size3(f(15.0), f(15.0), f(200.0)));
    assert!(b.center() == Point3D::zero());
    let b = b.translate(&vec3(f(10.0), f(0.0), f(0.0)));
    assert!(b.center() == p3(10.0, 0.0, 0.0));
    assert!(b.max_x() == f(17.5));
    assert!(b.max_y() == f(7.5));
    assert!(b.max_z() == f(100.0));
    assert!(b.min_x() == f(2.5));
    assert!(b.min_y() == f(-7.5));
    assert!(b.min_z() == f(-100.0));
}

#[test]
fn box3d_test_union() {
    let b1 = Box3D::from_points(&[p3(-20.0, -20.0, -20.0), p3(0.0, 20.0, 20.0)]);
    let b2 = Box3D::from_points(&[p3(0.0, 20.0, 20.0), p3(20.0, -20.0, -20.0)]);
    let b = b1.union(&b2);
    assert!(b.max_x() == f(20.0));
    assert!(b.max_y() == f(20.0));
    assert!(b.max_z() == f(20.0));
    assert!(b.min_x() == f(-20.0));
    assert!(b.min_y() == f(-20.0));
    assert!(b.min_z() == f(-20.0));
    assert!(b.volume() == f(40.0 * 40.0 * 40.0));
}

#[test]
fn box3d_test_intersection() {
    let b1 = Box3D::from_points(&[p3(-15.0, -20.0, -20.0), p3(10.0, 20.0, 20.0)]);
    let b2 = Box3D::from_points(&[p3(-10.0, 20.0, 20.0), p3(15.0, -20.0, -20.0)]);
    let b = b1.intersection(&b2).unwrap();
    assert!(b.max_x() == f(10.0));
    assert!(b.max_y() == f(20.0));
    assert!(b.max_z() == f(20.0));
    assert!(b.min_x() == f(-10.0));
    assert!(b.min_y() == f(-20.0));
    assert!(b.min_z() == f(-20.0));
    assert!(b.volume() == f(20.0 * 40.0 * 40.0));
}

#[test]
fn box3d_test_scale() {
    let b = Box3D::from_points(&[p3(-10.0, -10.0, -10.0), p3(10.0, 10.0, 10.0)]);
    let b = b.scale(f(0.5), f(0.5), f(0.5));
    assert!(b.max_x() == f(5.0));
    assert!(b.max_y() == f(5.0));
    assert!(b.max_z() == f(5.0));
    assert!(b.min_x() == f(-5.0));
    assert!(b.min_y() == f(-5.0));
    assert!(b.min_z() == f(-5.0));
}

#[test]
fn test_zero() {
    let b = Box3D::<Fixed>::zero();
    assert!(b.max_x() == f(0.0));
    assert!(b.max_y() == f(0.0));
    assert!(b.max_z() == f(0.0));
    assert!(b.min_x() == f(0.0));
    assert!(b.min_y() == f(0.0));
    assert!(b.min_z() == f(0.0));
}

#[test]
fn test_lerp() {
    let b1 = Box3D::from_points(&[p3(-20.0, -20.0, -20.0), p3(-10.0, -10.0, -10.0)]);
    let b2 = Box3D::from_points(&[p3(10.0, 10.0, 10.0), p3(20.0, 20.0, 20.0)]);
    let b = b1.lerp(b2, f(0.5));
    assert!(b.center() == Point3D::zero());
    assert!(b.size().width == f(10.0));
    assert!(b.size().height == f(10.0));
    assert!(b.size().depth == f(10.0));
}

#[test]
fn box3d_test_contains() {
    let b = Box3D::from_points(&[p3(-20.0, -20.0, -20.0), p3(20.0, 20.0, 20.0)]);
    assert!(b.contains(&p3(-15.3, 10.5, 18.4)));
}

#[test]
fn test_contains_box() {
    let b1 = Box3D::from_points(&[p3(-20.0, -20.0, -20.0), p3(20.0, 20.0, 20.0)]);
    let b2 = Box3D::from_points(&[p3(-14.3, -16.5, -19.3), p3(6.7, 17.6, 2.5)]);
    assert!(b1.contains_box(&b2));
}

#[test]
fn box3d_test_inflate() {
    let b = Box3D::from_points(&[p3(-20.0, -20.0, -20.0), p3(20.0, 20.0, 20.0)]);
    let b = b.inflate(f(10.0), f(5.0), f(2.0));
    // Every face moves outward by the given amount: the box grows by
    // twice the amount along each axis, about the same centre.
    assert!(b.size().width == f(60.0));
    assert!(b.size().height == f(50.0));
    assert!(b.size().depth == f(44.0));
    assert!(b.center() == Point3D::zero());
}

#[test]
fn box3d_test_is_empty() {
    for i in 0..3 {
        let mut coords_neg = [-20.0, -20.0, -20.0];
        let mut coords_pos = [20.0, 20.0, 20.0];
        coords_neg[i] = 0.0;
        coords_pos[i] = 0.0;
        let b = Box3D::from_points(&[
            p3(coords_neg[0], coords_neg[1], coords_neg[2]),
            p3(coords_pos[0], coords_pos[1], coords_pos[2]),
        ]);
        assert!(b.is_empty());
    }
}
