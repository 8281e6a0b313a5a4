use euclid::{
    Box3D, Cuboid, Fixed, Length, Matrix2D, Matrix4D, Point2D, Point3D, Rect, ScaleFactor, Size2D,
    Size3D, TypedPoint2D, TypedPoint3D,
};

fn point2<T: Copy>(x: T, y: T) -> Point2D<T> {
    euclid::point2(x, y)
}

fn point3<T: Copy>(x: T, y: T, z: T) -> Point3D<T> {
    euclid::point3(x, y, z)
}

fn size2<T: Copy>(w: T, h: T) -> Size2D<T> {
    euclid::size2(w, h)
}

fn f(x: f64) -> Fixed {
    Fixed::from_raw((x * 1.0e9).round() as i64)
}

#[derive(Debug, Copy, Clone)]
enum Px {}
#[derive(Debug, Copy, Clone)]
enum Layout {}
#[derive(Debug, Copy, Clone)]
enum Device {}

#[test]
fn length_new_then_get_gives_the_scalar_back() {
    for x in [i32::MIN, -7, 0, 1, 12, i32::MAX] {
        let l: Length<Px, i32> = Length::new(x);
        assert_eq!(l.get(), x);
    }
    let l: Length<Px, Fixed> = Length::new(f(-0.25));
    assert_eq!(l.get(), f(-0.25));
}

#[test]
fn untyped_round_trip_recovers_the_point() {
    let p: TypedPoint2D<i64, Px> = TypedPoint2D::new(-3, 1 << 40);
    let u: Point2D<i64> = p.to_untyped();
    assert_eq!(u.x, -3);
    assert_eq!(u.y, 1 << 40);
    assert_eq!(TypedPoint2D::<i64, Px>::from_untyped(&u), p);

    let p: TypedPoint3D<Fixed, Px> = TypedPoint3D::new(f(1.5), f(-2.25), f(0.0));
    let u: Point3D<Fixed> = p.to_untyped();
    assert_eq!(TypedPoint3D::<Fixed, Px>::from_untyped(&u), p);
}

#[test]
fn scale_factors_compose_as_their_scalars_multiply() {
    let s1: ScaleFactor<Px, Layout, i32> = ScaleFactor::new(6);
    let s2: ScaleFactor<Layout, Device, i32> = ScaleFactor::new(-7);
    let s: ScaleFactor<Px, Device, i32> = s1 * s2;
    assert_eq!(s.get(), s1.get() * s2.get());
    assert_eq!(s.get(), -42);

    let s1: ScaleFactor<Px, Layout, Fixed> = ScaleFactor::new(f(1.5));
    let s2: ScaleFactor<Layout, Device, Fixed> = ScaleFactor::new(f(0.5));
    assert_eq!((s1 * s2).get(), f(0.75));
}

#[test]
fn inverse_of_inverse_of_a_scale_factor() {
    let one: ScaleFactor<Px, Layout, i32> = ScaleFactor::new(1);
    assert_eq!(one.inv().inv(), one);
    let minus_one: ScaleFactor<Px, Layout, i32> = ScaleFactor::new(-1);
    assert_eq!(minus_one.inv().inv(), minus_one);

    let s: ScaleFactor<Px, Layout, Fixed> = ScaleFactor::new(f(0.125));
    assert_eq!(s.inv().get(), f(8.0));
    assert_eq!(s.inv().inv(), s);
    // Over integers a quotient is rounded toward zero: the inverse of 3 is 0.
    let three: ScaleFactor<Px, Layout, i32> = ScaleFactor::new(3);
    assert_eq!(three.inv().get(), 0);
}

#[test]
fn inverse_of_inverse_of_a_decimal_scale_factor_is_near_the_factor() {
    let epsilon = 1_000;
    for x in [0.000000001, 0.3, 0.7, 1.0, 1.5, 3.0, 7.0, 25.4, 31.0] {
        for sign in [1.0, -1.0] {
            let s: ScaleFactor<Px, Layout, Fixed> = ScaleFactor::new(f(sign * x));
            let back = s.inv().inv();
            let off = back.get().raw() - s.get().raw();
            assert!(-epsilon < off && off < epsilon);
            // Never nearer to zero than the factor.
            assert!(off * (sign as i64) >= 0);
            if x <= 1.0 {
                assert_eq!(back, s);
            }
        }
    }
    // Three comes back as three and one billionth.
    let three: ScaleFactor<Px, Layout, Fixed> = ScaleFactor::new(f(3.0));
    assert_eq!(three.inv().get(), Fixed::from_raw(333_333_333));
    assert_eq!(three.inv().inv().get(), Fixed::from_raw(3_000_000_003));
}

#[test]
fn identity_is_neutral_for_2d_matrices() {
    let m: Matrix2D<i32> = Matrix2D::row_major(2, -3, 5, 7, -11, 13);
    assert_eq!(m.post_mul(&Matrix2D::identity()), m);
    assert_eq!(Matrix2D::identity().post_mul(&m), m);
    assert_eq!(m.pre_mul(&Matrix2D::identity()), m);

    let m: Matrix2D<Fixed> = Matrix2D::row_major(f(0.5), f(-3.0), f(5.25), f(7.0), f(-11.0), f(0.001));
    assert_eq!(m.post_mul(&Matrix2D::identity()), m);
    assert_eq!(Matrix2D::identity().post_mul(&m), m);
}

#[test]
fn identity_is_neutral_for_4d_matrices() {
    let m: Matrix4D<i64> = Matrix4D::new(1, 2, 3, 4, 5, 6, 7, 8, 9, 10, 11, 12, 13, 14, 15, 16);
    assert_eq!(m.post_mul(&Matrix4D::identity()), m);
    assert_eq!(Matrix4D::identity().post_mul(&m), m);
    assert_eq!(m.mul(&Matrix4D::identity()), m);
    assert_eq!(Matrix4D::identity().mul(&m), m);
}

#[test]
fn integer_matrix_of_determinant_one_times_its_inverse_is_the_identity() {
    let m: Matrix4D<i64> = Matrix4D::new(1, 2, 0, 0, 3, 7, 0, 0, 0, 0, 1, 4, 5, -6, 0, 1);
    assert_eq!(m.determinant(), 1);
    let inv = m.invert().unwrap();
    assert_eq!(m.mul(&inv), Matrix4D::identity());
    assert_eq!(inv.mul(&m), Matrix4D::identity());

    let m: Matrix4D<i64> = Matrix4D::new(0, 1, 0, 0, 1, 0, 0, 0, 0, 0, 1, 0, 2, 3, 4, 1);
    assert_eq!(m.determinant(), -1);
    let inv = m.invert().unwrap();
    assert_eq!(m.mul(&inv), Matrix4D::identity());
    assert_eq!(inv.mul(&m), Matrix4D::identity());

    let m: Matrix2D<i32> = Matrix2D::row_major(2, 3, 1, 2, 10, -20);
    assert_eq!(m.determinant(), 1);
    let inv = m.inverse().unwrap();
    assert_eq!(m.post_mul(&inv), Matrix2D::identity());
    assert_eq!(m.pre_mul(&inv), Matrix2D::identity());
}

#[test]
fn integer_matrix_of_another_determinant_has_no_exact_inverse() {
    // One divided by eight is zero among the integers.
    let m: Matrix4D<i32> = Matrix4D::create_scale(2, 2, 2);
    assert_eq!(m.determinant(), 8);
    let inv = m.invert().unwrap();
    assert_eq!(inv, Matrix4D::new(0, 0, 0, 0, 0, 0, 0, 0, 0, 0, 0, 0, 0, 0, 0, 0));
}

#[test]
fn rect_intersection_and_union() {
    let rects = [
        Rect::new(point2(0, 0), size2(10, 20)),
        Rect::new(point2(5, 15), size2(10, 10)),
        Rect::new(point2(-5, -5), size2(8, 8)),
        Rect::new(point2(10, 0), size2(3, 3)),
        Rect::new(point2(2, 2), size2(1, 1)),
        Rect::new(point2(40, 40), size2(1, 7)),
    ];
    for a in rects.iter() {
        for b in rects.iter() {
            let i = a.intersection(b);
            assert_eq!(i.is_none(), !a.intersects(b));
            if let Some(i) = i {
                assert!(a.contains_rect(&i));
                assert!(b.contains_rect(&i));
            }
            let u = a.union(b);
            assert!(u.contains_rect(a));
            assert!(u.contains_rect(b));
        }
    }
}

#[test]
fn box3d_and_cuboid_intersection_and_union() {
    let boxes = [
        Box3D::from_min_max(0, 0, 0, 10, 10, 10),
        Box3D::from_min_max(5, 5, 5, 15, 15, 15),
        Box3D::from_min_max(10, 0, 0, 12, 2, 2),
        Box3D::from_min_max(-3, -3, -3, -1, -1, -1),
    ];
    for a in boxes.iter() {
        for b in boxes.iter() {
            let i = a.intersection(b);
            assert_eq!(i.is_none(), !a.intersects(b));
            if let Some(i) = i {
                assert!(a.contains_box(&i));
                assert!(b.contains_box(&i));
            }
            let u = a.union(b);
            assert!(u.contains_box(a));
            assert!(u.contains_box(b));
        }
    }
    let cuboids = [
        Cuboid::new(point3(0, 0, 0), Size3D::new(10, 10, 10)),
        Cuboid::new(point3(5, 5, 5), Size3D::new(10, 10, 10)),
        Cuboid::new(point3(10, 0, 0), Size3D::new(2, 2, 2)),
        Cuboid::new(point3(-3, -3, -3), Size3D::new(2, 2, 2)),
    ];
    for a in cuboids.iter() {
        for b in cuboids.iter() {
            let i = a.intersection(b);
            assert_eq!(i.is_none(), !a.intersects(b));
            if let Some(i) = i {
                assert!(a.contains_box(&i));
                assert!(b.contains_box(&i));
            }
            let u = a.union(b);
            assert!(u.contains_box(a));
            assert!(u.contains_box(b));
        }
    }
}

#[test]
fn rounding_in_and_out_bracket_the_rectangle() {
    let r = Rect::new(Point2D::new(f(-1.5), f(0.25)), Size2D::new(f(3.75), f(2.5)));
    assert_eq!(r.round_in(), Rect::new(Point2D::new(f(-1.0), f(1.0)), Size2D::new(f(3.0), f(1.0))));
    assert_eq!(r.round_out(), Rect::new(Point2D::new(f(-2.0), f(0.0)), Size2D::new(f(5.0), f(3.0))));
    assert_eq!(r.round(), Rect::new(Point2D::new(f(-1.0), f(0.0)), Size2D::new(f(3.0), f(3.0))));
    assert!(r.contains_rect(&r.round_in()));
    assert!(r.round_out().contains_rect(&r));
    assert!(r.inflate(f(1.0), f(1.0)).contains_rect(&r.round()));
    assert!(r.round().inflate(f(1.0), f(1.0)).contains_rect(&r));
    assert!(r.round().inflate(f(1.0), f(1.0)).contains_rect(&r.round_in()));
    assert!(r.round().inflate(f(1.0), f(1.0)).contains_rect(&r.round_out()));

    // Among the integers every scalar is whole: rounding changes nothing.
    let r = Rect::new(Point2D::new(-3, 4), Size2D::new(7, 9));
    assert_eq!(r.round(), r);
    assert_eq!(r.round_in(), r);
    assert_eq!(r.round_out(), r);
}
