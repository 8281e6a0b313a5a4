use euclid::{
    Fixed, Length, Point2D, Point3D, Point4D, ScaleFactor, SideOffsets2D, SideOffsets2DSimdI32,
    SideOffsets3D, Size2D, TypedPoint2D, UnknownUnit, Vector2D, Vector3D,
};

fn point2<T: Copy>(x: T, y: T) -> Point2D<T> {
    euclid::point2(x, y)
}

fn point3<T: Copy>(x: T, y: T, z: T) -> Point3D<T> {
    euclid::point3(x, y, z)
}

fn size2<T: Copy>(w: T, h: T) -> Size2D<T> {
    euclid::size2(w, h)
}

fn vec2<T: Copy>(x: T, y: T) -> Vector2D<T> {
    euclid::vec2(x, y)
}

fn vec3<T: Copy>(x: T, y: T, z: T) -> Vector3D<T> {
    euclid::vec3(x, y, z)
}

fn f(x: f64) -> Fixed {
    Fixed::from_raw((x * 1.0e9).round() as i64)
}

#[derive(Debug, Copy, Clone)]
enum Mm {}
#[derive(Debug, Copy, Clone)]
enum Cm {}

#[test]
fn point_arithmetic() {
    let p: Point2D<i32> = point2(3, -4);
    assert_eq!(Point2D::<i32>::zero(), point2(0, 0));
    assert_eq!(Point2D::<i32>::origin(), point2(0, 0));
    assert_eq!(p + point2(1, 1), point2(4, -3));
    assert_eq!(p - point2(1, 1), point2(2, -5));
    assert_eq!(-p, point2(-3, 4));
    assert_eq!(p * 2, point2(6, -8));
    assert_eq!(p / 2, point2(1, -2));
    assert_eq!(p + size2(10, 20), point2(13, 16));
    assert_eq!(p.add_size(&size2(10, 20)), point2(13, 16));
    assert_eq!(p + vec2(10, 20), point2(13, 16));
    assert_eq!(p.to_vector(), vec2(3, -4));
    assert_eq!(vec2(3, -4).to_point(), p);
    assert_eq!(vec2(3, -4).to_size(), size2(3, -4));
    assert_eq!(p.dot(point2(5, 6)), -9);
    assert_eq!(p.cross(point2(5, 6)), 38);
    // Linear interpolation is not clamped.
    assert_eq!(p.lerp(point2(5, 6), 0), p);
    assert_eq!(p.lerp(point2(5, 6), 1), point2(5, 6));
    assert_eq!(p.lerp(point2(5, 6), 3), point2(9, 26));
    assert_eq!(p.lerp(point2(5, 6), -1), point2(1, -14));
    assert_eq!(point2(f(0.0), f(10.0)).lerp(point2(f(1.0), f(20.0)), f(0.25)), point2(f(0.25), f(12.5)));
    assert_eq!(p.x_typed(), Length::new(3));
    assert_eq!(p.y_typed(), Length::new(-4));
    assert_eq!(Point2D::from_lengths(Length::new(3), Length::new(-4)), p);
    assert_eq!(euclid::point::TypedPoint2D::<i32, UnknownUnit>(3, -4), p);
}

#[test]
fn point3d_and_point4d_arithmetic() {
    let p: Point3D<i32> = point3(1, 2, 3);
    assert_eq!(Point3D::<i32>::origin(), point3(0, 0, 0));
    assert_eq!(p + point3(1, 1, 1), point3(2, 3, 4));
    assert_eq!(p - point3(1, 1, 1), point3(0, 1, 2));
    assert_eq!(-p, point3(-1, -2, -3));
    assert_eq!(p * 3, point3(3, 6, 9));
    assert_eq!(p / 2, point3(0, 1, 1));
    assert_eq!(p + vec3(1, 1, 1), point3(2, 3, 4));
    assert_eq!(p.to_vector(), vec3(1, 2, 3));
    assert_eq!(vec3(1, 2, 3).to_point(), p);
    assert_eq!(vec3(1, 2, 3) + vec3(1, 1, 1), vec3(2, 3, 4));
    assert_eq!(vec3(1, 2, 3) - vec3(1, 1, 1), vec3(0, 1, 2));
    assert_eq!(-vec3(1, 2, 3), vec3(-1, -2, -3));
    assert_eq!(p.lerp(point3(2, 4, 6), 2), point3(3, 6, 9));
    assert_eq!(p.x_typed(), Length::new(1));
    assert_eq!(p.y_typed(), Length::new(2));
    assert_eq!(p.z_typed(), Length::new(3));
    assert_eq!(Point3D::from_lengths(Length::new(1), Length::new(2), Length::new(3)), p);
    let q: Point4D<i32> = Point4D::new(1, 2, 3, 4);
    assert_eq!(-q, Point4D::new(-1, -2, -3, -4));
    assert_eq!(Point4D::<i32>::zero(), Point4D::new(0, 0, 0, 0));
    assert_eq!(q.x_typed(), Length::new(1));
    assert_eq!(q.y_typed(), Length::new(2));
    assert_eq!(q.z_typed(), Length::new(3));
    assert_eq!(q.w_typed(), Length::new(4));
    assert_eq!(
        Point4D::from_lengths(Length::new(1), Length::new(2), Length::new(3), Length::new(4)),
        q
    );
    assert_eq!(q.to_untyped(), q);
    assert_eq!(Point4D::from_untyped(&q), q);
    assert_eq!(q.cast::<u32>(), Some(Point4D::new(1u32, 2, 3, 4)));
}

#[test]
fn point_rounding() {
    let p = point2(f(-0.5), f(0.5));
    assert_eq!(p.round(), point2(f(0.0), f(1.0)));
    assert_eq!(p.floor(), point2(f(-1.0), f(0.0)));
    assert_eq!(p.ceil(), point2(f(0.0), f(1.0)));
    let p = point2(f(-1.500000001), f(1.499999999));
    assert_eq!(p.round(), point2(f(-2.0), f(1.0)));
    let p = point2(f(-7.0), f(7.0));
    assert_eq!(p.round(), p);
    assert_eq!(p.floor(), p);
    assert_eq!(p.ceil(), p);
}

#[test]
fn points_change_unit_by_a_scale_factor() {
    let p: TypedPoint2D<i32, Mm> = TypedPoint2D::new(30, 40);
    let cm_per_mm: ScaleFactor<Cm, Mm, i32> = ScaleFactor::new(10);
    let in_cm: TypedPoint2D<i32, Cm> = p / cm_per_mm;
    assert_eq!(in_cm, TypedPoint2D::new(3, 4));
    let back: TypedPoint2D<i32, Mm> = in_cm * cm_per_mm;
    assert_eq!(back, p);
}

#[test]
fn lengths_and_scale_factors() {
    let a: Length<Mm, i32> = Length::new(30);
    let b: Length<Mm, i32> = Length::new(12);
    assert_eq!(a + b, Length::new(42));
    assert_eq!(a - b, Length::new(18));
    assert_eq!(-a, Length::new(-30));
    assert!(b < a);
    assert!(a > b);
    assert!(a >= a);
    assert!(a <= a);
    assert!(a != b);
    let per_cm: ScaleFactor<Cm, Mm, i32> = ScaleFactor::new(10);
    let in_cm: Length<Cm, i32> = a / per_cm;
    assert_eq!(in_cm, Length::new(3));
    let in_mm: Length<Mm, i32> = in_cm * per_cm;
    assert_eq!(in_mm, a);
    let ratio: ScaleFactor<Cm, Mm, i32> = a / in_cm;
    assert_eq!(ratio, per_cm);
    assert_eq!(per_cm + per_cm, ScaleFactor::new(20));
    assert_eq!(per_cm - per_cm, ScaleFactor::new(0));
    // A quotient of integers is rounded toward zero.
    let c: Length<Mm, i32> = Length::new(-35);
    assert_eq!((c / per_cm).get(), -3);
}

#[test]
fn side_offsets() {
    let s: SideOffsets2D<i32, UnknownUnit> = SideOffsets2D::new(1, 2, 3, 4);
    assert_eq!((s.y0, s.x1, s.y1, s.x0), (1, 2, 3, 4));
    assert_eq!(s.horizontal(), 6);
    assert_eq!(s.vertical(), 4);
    assert_eq!(s + s, SideOffsets2D::new(2, 4, 6, 8));
    assert_eq!(SideOffsets2D::<i32, UnknownUnit>::zero(), SideOffsets2D::new(0, 0, 0, 0));
    assert_eq!(SideOffsets2D::<i32, UnknownUnit>::new_all_same(7), SideOffsets2D::new(7, 7, 7, 7));
    assert_eq!(
        SideOffsets2D::<i32, UnknownUnit>::from_length_all_same(Length::new(7)),
        SideOffsets2D::new(7, 7, 7, 7)
    );
    // The lengths are handed on in the order left, top, right, bottom.
    let t: SideOffsets2D<i32, UnknownUnit> =
        SideOffsets2D::from_lengths(Length::new(1), Length::new(2), Length::new(3), Length::new(4));
    assert_eq!(t, SideOffsets2D::new(4, 1, 2, 3));

    let s: SideOffsets3D<i32> = SideOffsets3D::new(1, 2, 3, 4, 5, 6);
    assert_eq!(s.horizontal(), 6);
    assert_eq!(s.vertical(), 4);
    assert_eq!(s.applicate(), 11);
    assert_eq!(SideOffsets3D::<i32>::zero().applicate(), 0);
    assert_eq!(SideOffsets3D::<i32>::new_all_same(2).horizontal(), 4);

    let s = SideOffsets2DSimdI32::new(1, 2, 3, 4);
    assert_eq!((s.top, s.right, s.bottom, s.left), (1, 2, 3, 4));
    assert_eq!(s.horizontal(), 6);
    assert_eq!(s.vertical(), 4);
    assert_eq!(s.add(&s), SideOffsets2DSimdI32::new(2, 4, 6, 8));
    assert!(SideOffsets2DSimdI32::zero().is_zero());
    assert!(!s.is_zero());
    assert_eq!(SideOffsets2DSimdI32::new_all_same(5), SideOffsets2DSimdI32::new(5, 5, 5, 5));
}

#[test]
fn decimal_scalar() {
    assert_eq!(Fixed::from_int(-3), f(-3.0));
    assert_eq!(Fixed::from_raw(1_500_000_000), f(1.5));
    assert_eq!(f(1.5).raw(), 1_500_000_000);
    let p = point2(f(1.5), f(-0.000000001));
    assert_eq!(p * f(2.0), point2(f(3.0), f(-0.000000002)));
    // A product is rounded toward zero to the ninth digit.
    assert_eq!(p * f(0.5), point2(f(0.75), f(0.0)));
    assert_eq!(p / f(4.0), point2(f(0.375), f(0.0)));
}
