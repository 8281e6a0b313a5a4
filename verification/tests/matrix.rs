use euclid::{ortho, Fixed, Matrix2D, Matrix4, Matrix4D, Point2D};

fn f(x: f64) -> Fixed {
    Fixed::from_raw((x * 1.0e9).round() as i64)
}

type Mat = Matrix2D<Fixed>;
type Mf = Matrix4D<Fixed>;

/// The rotation about the unit axis `(x, y, z)` by the angle `theta`.
fn rotation(x: f64, y: f64, z: f64, theta: f64) -> Mf {
    let half_theta = theta / 2.0;
    let sc = half_theta.sin() * half_theta.cos();
    let sq = half_theta.sin() * half_theta.sin();
    Mf::create_rotation(f(x), f(y), f(z), f(sc), f(sq))
}

#[test]
pub fn test_inverse_simple() {
    let m1 = Mat::identity();
    let m2 = m1.inverse().unwrap();
    assert!(m1.approx_eq(&m2));
}

#[test]
pub fn test_inverse_scale() {
    let m1 = Mat::create_scale(f(1.5), f(0.3));
    let m2 = m1.inverse().unwrap();
    assert!(m1.pre_mul(&m2).approx_eq(&Mat::identity()));
}

#[test]
pub fn test_inverse_translate() {
    let m1 = Mat::create_translation(f(-132.0), f(0.3));
    let m2 = m1.inverse().unwrap();
    assert!(m1.pre_mul(&m2).approx_eq(&Mat::identity()));
}

#[test]
pub fn test_pre_post() {
    let m1 = Mat::identity().post_scaled(f(1.0), f(2.0)).post_translated(f(1.0), f(2.0));
    let m2 = Mat::identity().pre_translated(f(1.0), f(2.0)).pre_scaled(f(1.0), f(2.0));
    assert!(m1.approx_eq(&m2));
}

#[test]
pub fn matrix4d_test_ortho() {
    let (left, right, bottom, top) = (f(0.0), f(1.0), f(0.1), f(1.0));
    let (near, far) = (f(-1.0), f(1.0));
    let result = Mf::ortho(left, right, bottom, top, near, far);
    let expected = Mf::new(
        f(2.0), f(0.0), f(0.0), f(0.0),
        f(0.0), f(2.22222222), f(0.0), f(0.0),
        f(0.0), f(0.0), f(-1.0), f(0.0),
        f(-1.0), f(-1.22222222), f(-0.0), f(1.0),
    );
    println!("result={:?} expected={:?}", result, expected);
    assert!(result.approx_eq(&expected));
}

#[test]
pub fn matrix_test_ortho() {
    let (left, right, bottom, top) = (f(0.0), f(1.0), f(0.1), f(1.0));
    let (near, far) = (f(-1.0), f(1.0));
    let result = ortho(left, right, bottom, top, near, far);
    let expected = Matrix4(
        f(2.0), f(0.0), f(0.0), f(0.0),
        f(0.0), f(2.22222222), f(0.0), f(0.0),
        f(0.0), f(0.0), f(-1.0), f(0.0),
        f(-1.0), f(-1.22222222), f(-0.0), f(1.0),
    );
    println!("result={:?} expected={:?}", result, expected);
    assert!(result.approx_eq(&expected));
}

#[test]
pub fn test_is_2d() {
    assert!(Mf::identity().is_2d());
    assert!(rotation(0.0, 0.0, 1.0, 0.7854).is_2d());
    assert!(!rotation(0.0, 1.0, 0.0, 0.7854).is_2d());
}

#[test]
pub fn test_new_2d() {
    let m1 = Mf::new_2d(f(1.0), f(2.0), f(3.0), f(4.0), f(5.0), f(6.0));
    let m2 = Mf::new(
        f(1.0), f(2.0), f(0.0), f(0.0),
        f(3.0), f(4.0), f(0.0), f(0.0),
        f(0.0), f(0.0), f(1.0), f(0.0),
        f(5.0), f(6.0), f(0.0), f(1.0),
    );
    assert_eq!(m1, m2);
}

#[test]
pub fn test_invert_simple() {
    let m1 = Mf::identity();
    let m2 = m1.invert().unwrap();
    assert!(m1.approx_eq(&m2));
}

#[test]
pub fn test_invert_scale() {
    let m1 = Mf::create_scale(f(1.5), f(0.3), f(2.1));
    let m2 = m1.invert().unwrap();
    assert!(m1.mul(&m2).approx_eq(&Mf::identity()));
}

#[test]
pub fn test_invert_translate() {
    let m1 = Mf::create_translation(f(-132.0), f(0.3), f(493.0));
    let m2 = m1.invert().unwrap();
    assert!(m1.mul(&m2).approx_eq(&Mf::identity()));
}

#[test]
pub fn test_invert_rotate() {
    let m1 = rotation(0.0, 1.0, 0.0, 1.57);
    let m2 = m1.invert().unwrap();
    assert!(m1.mul(&m2).approx_eq(&Mf::identity()));
}

#[test]
pub fn test_invert_transform_point_2d() {
    let m1 = Mf::create_translation(f(100.0), f(200.0), f(0.0));
    let m2 = m1.invert().unwrap();
    assert!(m1.mul(&m2).approx_eq(&Mf::identity()));

    let p1 = Point2D::new(f(1000.0), f(2000.0));
    let p2 = m1.transform_point(&p1);
    assert!(p2.eq(&Point2D::new(f(1100.0), f(2200.0))));

    let p3 = m2.transform_point(&p2);
    assert!(p3.eq(&p1));
}
