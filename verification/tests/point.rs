use euclid::{Fixed, Point2D, Point3D, Point4D, ScaleFactor, TypedPoint2D};

fn f(x: f64) -> Fixed {
    Fixed::from_raw((x * 1.0e9).round() as i64)
}

#[derive(Debug, Copy, Clone)]
pub enum Mm {}
#[derive(Debug, Copy, Clone)]
pub enum Cm {}

pub type Point2DMm<T> = TypedPoint2D<T, Mm>;
pub type Point2DCm<T> = TypedPoint2D<T, Cm>;

#[test]
pub fn test_scalar_mul() {
    let p1: Point2D<Fixed> = Point2D::new(f(3.0), f(5.0));

    let result = p1 * f(5.0);

    assert_eq!(result, Point2D::new(f(15.0), f(25.0)));
}

#[test]
pub fn point_test_scalar_mul() {
    let p1 = Point2DMm::new(f(1.0), f(2.0));
    let cm_per_mm: ScaleFactor<Mm, Cm, Fixed> = ScaleFactor::new(f(0.1));

    let result = p1 * cm_per_mm;

    assert_eq!(result, Point2DCm::new(f(0.1), f(0.2)));
}

#[test]
pub fn test_dot() {
    let p1: Point2D<Fixed> = Point2D::new(f(2.0), f(7.0));
    let p2: Point2D<Fixed> = Point2D::new(f(13.0), f(11.0));
    assert_eq!(p1.dot(p2), f(103.0));
}

#[test]
pub fn point_test_dot() {
    let p1 = Point3D::new(f(7.0), f(21.0), f(32.0));
    let p2 = Point3D::new(f(43.0), f(5.0), f(16.0));
    assert_eq!(p1.dot(p2), f(918.0));
}

#[test]
pub fn test_cross() {
    let p1: Point2D<Fixed> = Point2D::new(f(4.0), f(7.0));
    let p2: Point2D<Fixed> = Point2D::new(f(13.0), f(8.0));
    let r = p1.cross(p2);
    assert_eq!(r, f(-59.0));
}

#[test]
pub fn point_test_cross() {
    let p1 = Point3D::new(f(4.0), f(7.0), f(9.0));
    let p2 = Point3D::new(f(13.0), f(8.0), f(3.0));
    let p3 = p1.cross(p2);
    assert_eq!(p3, Point3D::new(f(-51.0), f(105.0), f(-59.0)));
}

#[test]
pub fn test_min() {
    let p1 = Point2D::new(f(1.0), f(3.0));
    let p2 = Point2D::new(f(2.0), f(2.0));

    let result = p1.min(p2);

    assert_eq!(result, Point2D::new(f(1.0), f(2.0)));
}

#[test]
pub fn point_test_min() {
    let p1 = Point3D::new(f(1.0), f(3.0), f(5.0));
    let p2 = Point3D::new(f(2.0), f(2.0), f(-1.0));

    let result = p1.min(p2);

    assert_eq!(result, Point3D::new(f(1.0), f(2.0), f(-1.0)));

    let p1 = Point4D::new(f(1.0), f(3.0), f(5.0), f(7.0));
    let p2 = Point4D::new(f(2.0), f(2.0), f(-1.0), f(10.0));

    let result = p1.min(p2);

    assert_eq!(result, Point4D::new(f(1.0), f(2.0), f(-1.0), f(7.0)));
}

#[test]
pub fn test_max() {
    let p1 = Point2D::new(f(1.0), f(3.0));
    let p2 = Point2D::new(f(2.0), f(2.0));

    let result = p1.max(p2);

    assert_eq!(result, Point2D::new(f(2.0), f(3.0)));
}

#[test]
pub fn point_test_max() {
    let p1 = Point3D::new(f(1.0), f(3.0), f(5.0));
    let p2 = Point3D::new(f(2.0), f(2.0), f(-1.0));

    let result = p1.max(p2);

    assert_eq!(result, Point3D::new(f(2.0), f(3.0), f(5.0)));

    let p1 = Point4D::new(f(1.0), f(3.0), f(5.0), f(7.0));
    let p2 = Point4D::new(f(2.0), f(2.0), f(-1.0), f(10.0));

    let result = p1.max(p2);

    assert_eq!(result, Point4D::new(f(2.0), f(3.0), f(5.0), f(10.0)));
}

#[test]
pub fn test_add() {
    let p1 = Point2DMm::new(f(1.0), f(2.0));
    let p2 = Point2DMm::new(f(3.0), f(4.0));

    let result = p1 + p2;

    assert_eq!(result, Point2DMm::new(f(4.0), f(6.0)));
}

#[test]
pub fn point_test_add() {
    let p1 = Point4D::new(f(7.0), f(21.0), f(32.0), f(1.0));
    let p2 = Point4D::new(f(43.0), f(5.0), f(16.0), f(2.0));

    let result = p1 + p2;

    assert_eq!(result, Point4D::new(f(50.0), f(26.0), f(48.0), f(3.0)));
}

#[test]
pub fn test_sub() {
    let p1 = Point4D::new(f(7.0), f(21.0), f(32.0), f(1.0));
    let p2 = Point4D::new(f(43.0), f(5.0), f(16.0), f(2.0));

    let result = p1 - p2;

    assert_eq!(result, Point4D::new(f(-36.0), f(16.0), f(16.0), f(-1.0)));
}
