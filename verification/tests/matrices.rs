use euclid::{
    Matrix2D, Matrix4D, Point2D, Point4D, Rect, ScaleFactor, TypedMatrix2D, TypedMatrix4D,
    TypedPoint2D, UnknownUnit, identity,
};

fn point2<T: Copy>(x: T, y: T) -> Point2D<T> {
    euclid::point2(x, y)
}

fn rect<T: Copy>(x: T, y: T, w: T, h: T) -> Rect<T> {
    euclid::rect(x, y, w, h)
}

#[derive(Debug, Copy, Clone)]
enum World {}
#[derive(Debug, Copy, Clone)]
enum Screen {}

#[test]
fn matrix2d_terms_in_both_orders() {
    let m: Matrix2D<i32> = Matrix2D::row_major(1, 2, 3, 4, 5, 6);
    assert_eq!(m.to_row_major_array(), [1, 2, 3, 4, 5, 6]);
    assert_eq!(m.to_column_major_array(), [1, 3, 5, 2, 4, 6]);
    assert_eq!(Matrix2D::colum_major(1, 3, 5, 2, 4, 6), m);
    assert_eq!(euclid::matrix2d::Matrix2D(1, 2, 3, 4, 5, 6), m);
    assert_eq!(m.to_untyped(), m);
    assert_eq!(Matrix2D::from_untyped(&m), m);
}

#[test]
fn matrix2d_composition_order() {
    let scale: Matrix2D<i32> = Matrix2D::create_scale(2, 3);
    let shift: Matrix2D<i32> = Matrix2D::create_translation(10, 20);
    // Scale first, then shift.
    let m = scale.post_mul(&shift);
    assert_eq!(m, Matrix2D::row_major(2, 0, 0, 3, 10, 20));
    assert_eq!(m.transform_point(&point2(1, 1)), point2(12, 23));
    assert_eq!(shift.pre_mul(&scale), m);
    assert_eq!(scale.post_translated(10, 20), m);
    assert_eq!(shift.pre_scaled(2, 3), m);
    // Shift first, then scale.
    let n = shift.post_mul(&scale);
    assert_eq!(n, Matrix2D::row_major(2, 0, 0, 3, 20, 60));
    assert_eq!(n.transform_point(&point2(1, 1)), point2(22, 63));
    assert_eq!(shift.post_scaled(2, 3), n);
    assert_eq!(scale.pre_translated(10, 20), n);
}

#[test]
fn matrix2d_determinant_and_inverse() {
    let m: Matrix2D<i32> = Matrix2D::row_major(2, 3, 1, 2, 10, -20);
    assert_eq!(m.determinant(), 1);
    assert_eq!(m.inverse(), Some(Matrix2D::row_major(2, -3, -1, 2, -40, 70)));
    let singular: Matrix2D<i32> = Matrix2D::row_major(2, 4, 1, 2, 10, -20);
    assert_eq!(singular.determinant(), 0);
    assert_eq!(singular.inverse(), None);
    let zero: Matrix2D<i32> = Matrix2D::create_scale(0, 7);
    assert_eq!(zero.inverse(), None);
}

#[test]
fn matrix2d_transforms_a_rect_to_its_bounding_box() {
    // A quarter turn: (x, y) goes to (-y, x).
    let turn: Matrix2D<i32> = Matrix2D::row_major(0, 1, -1, 0, 0, 0);
    let r: Rect<i32> = rect(1, 2, 10, 20);
    assert_eq!(turn.transform_rect(&r), rect(-22, 1, 20, 10));
    let shear: Matrix2D<i32> = Matrix2D::row_major(1, 0, 1, 1, 0, 0);
    assert_eq!(shear.transform_rect(&rect(0, 0, 10, 10)), rect(0, 0, 20, 10));
    assert_eq!(Matrix2D::identity().transform_rect(&r), r);
}

#[test]
fn matrix2d_changes_units() {
    let m: TypedMatrix2D<i32, World, Screen> = TypedMatrix2D::create_translation(1, 2);
    let p: TypedPoint2D<i32, World> = TypedPoint2D::new(10, 10);
    let q: TypedPoint2D<i32, Screen> = m.transform_point(&p);
    assert_eq!(q, TypedPoint2D::new(11, 12));
    let back: TypedMatrix2D<i32, Screen, World> = m.inverse().unwrap();
    assert_eq!(back.transform_point(&q), p);
    let retagged: TypedMatrix2D<i32, World, World> = m.with_destination();
    assert_eq!(retagged.to_untyped(), m.to_untyped());
    let retagged: TypedMatrix2D<i32, Screen, Screen> = m.with_source();
    assert_eq!(retagged.to_untyped(), m.to_untyped());
}

#[test]
fn matrix4d_constructors() {
    let m: Matrix4D<i32> = Matrix4D::new(1, 2, 3, 4, 5, 6, 7, 8, 9, 10, 11, 12, 13, 14, 15, 16);
    assert_eq!(m.to_array(), [1, 2, 3, 4, 5, 6, 7, 8, 9, 10, 11, 12, 13, 14, 15, 16]);
    assert_eq!(euclid::matrix::Matrix4(1, 2, 3, 4, 5, 6, 7, 8, 9, 10, 11, 12, 13, 14, 15, 16), m);
    assert_eq!(identity::<i32>(), Matrix4D::identity());
    assert_eq!(
        Matrix4D::<i32>::identity().to_array(),
        [1, 0, 0, 0, 0, 1, 0, 0, 0, 0, 1, 0, 0, 0, 0, 1]
    );
    assert_eq!(
        Matrix4D::<i32>::create_translation(7, 8, 9).to_array(),
        [1, 0, 0, 0, 0, 1, 0, 0, 0, 0, 1, 0, 7, 8, 9, 1]
    );
    assert_eq!(
        Matrix4D::<i32>::create_scale(7, 8, 9).to_array(),
        [7, 0, 0, 0, 0, 8, 0, 0, 0, 0, 9, 0, 0, 0, 0, 1]
    );
    assert_eq!(
        Matrix4D::<i32>::create_skew(2, 3).to_array(),
        [1, 3, 0, 0, 2, 1, 0, 0, 0, 0, 1, 0, 0, 0, 0, 1]
    );
    assert_eq!(
        Matrix4D::<i32>::create_perspective(-1).to_array(),
        [1, 0, 0, 0, 0, 1, 0, 0, 0, 0, 1, 1, 0, 0, 0, 1]
    );
    assert_eq!(
        Matrix4D::<i32>::new_2d(1, 2, 3, 4, 5, 6).to_array(),
        [1, 2, 0, 0, 3, 4, 0, 0, 0, 0, 1, 0, 5, 6, 0, 1]
    );
    let k: ScaleFactor<UnknownUnit, UnknownUnit, i32> = ScaleFactor::new(3);
    assert_eq!(Matrix4D::from_scale_factor(k), Matrix4D::create_scale(3, 3, 3));
    assert_eq!(m.to_2d(), Matrix2D::row_major(1, 2, 5, 6, 13, 14));
    assert_eq!(
        m.mul_s(2).to_array(),
        [2, 4, 6, 8, 10, 12, 14, 16, 18, 20, 22, 24, 26, 28, 30, 32]
    );
    assert_eq!(
        m.scale(2, 3, 4).to_array(),
        [2, 2, 3, 4, 5, 18, 7, 8, 9, 10, 44, 12, 13, 14, 15, 16]
    );
}

#[test]
fn matrix4d_ortho_over_integers() {
    let m: Matrix4D<i32> = Matrix4D::ortho(-1, 1, -2, 2, 1, 3);
    assert_eq!(m.to_array(), [1, 0, 0, 0, 0, 0, 0, 0, 0, 0, -1, 0, 0, 0, -2, 1]);
    assert_eq!(euclid::ortho(-1, 1, -2, 2, 1, 3), m);
}

#[test]
fn matrix4d_rotation_by_a_half_turn() {
    // The half of a half turn has the sine one and the cosine zero.
    let about_z: Matrix4D<i32> = Matrix4D::create_rotation(0, 0, 1, 0, 1);
    assert_eq!(about_z.to_array(), [-1, 0, 0, 0, 0, -1, 0, 0, 0, 0, 1, 0, 0, 0, 0, 1]);
    assert!(about_z.is_2d());
    let about_x: Matrix4D<i32> = Matrix4D::create_rotation(1, 0, 0, 0, 1);
    assert_eq!(about_x.to_array(), [1, 0, 0, 0, 0, -1, 0, 0, 0, 0, -1, 0, 0, 0, 0, 1]);
    assert!(!about_x.is_2d());
    let none: Matrix4D<i32> = Matrix4D::create_rotation(0, 1, 0, 0, 0);
    assert_eq!(none, Matrix4D::identity());
}

#[test]
fn matrix4d_product_order() {
    let scale: Matrix4D<i32> = Matrix4D::create_scale(2, 3, 4);
    let shift: Matrix4D<i32> = Matrix4D::create_translation(10, 20, 30);
    // `mul` applies its argument first.
    let m = shift.mul(&scale);
    assert_eq!(m.to_array(), [2, 0, 0, 0, 0, 3, 0, 0, 0, 0, 4, 0, 10, 20, 30, 1]);
    assert_eq!(shift.pre_mul(&scale), m);
    assert_eq!(scale.post_mul(&shift), m);
    assert_eq!(m.transform_point(&point2(1, 1)), point2(12, 23));
    assert_eq!(m.transform_point4d(&Point4D::new(1, 1, 1, 1)), Point4D::new(12, 23, 34, 1));
    let n = scale.mul(&shift);
    assert_eq!(n.to_array(), [2, 0, 0, 0, 0, 3, 0, 0, 0, 0, 4, 0, 20, 60, 120, 1]);
    assert_eq!(scale.translate(10, 20, 30), n);
    assert_eq!(n.transform_point(&point2(1, 1)), point2(22, 63));
}

#[test]
fn matrix4d_perspective_leaves_the_division_to_the_caller() {
    let m: Matrix4D<i32> = Matrix4D::create_perspective(-1);
    let p = m.transform_point4d(&Point4D::new(6, 8, 2, 1));
    assert_eq!(p, Point4D::new(6, 8, 2, 3));
    // The `w` of the point takes no part.
    assert_eq!(m.transform_point4d(&Point4D::new(6, 8, 2, 100)), p);
}

#[test]
fn matrix4d_determinant_and_inverse() {
    let m: Matrix4D<i32> = Matrix4D::new(1, 2, 0, 0, 3, 7, 0, 0, 0, 0, 1, 4, 5, -6, 0, 1);
    assert_eq!(m.determinant(), 1);
    assert_eq!(
        m.invert().unwrap().to_array(),
        [7, -2, 0, 0, -3, 1, 0, 0, 212, -64, 1, -4, -53, 16, 0, 1]
    );
    assert_eq!(Matrix4D::<i32>::create_scale(2, 3, 4).determinant(), 24);
    let singular: Matrix4D<i32> = Matrix4D::create_scale(2, 0, 4);
    assert_eq!(singular.determinant(), 0);
    assert_eq!(singular.invert(), None);
    let rows_alike: Matrix4D<i32> =
        Matrix4D::new(1, 2, 3, 4, 1, 2, 3, 4, 0, 0, 1, 0, 0, 0, 0, 1);
    assert_eq!(rows_alike.invert(), None);
}

#[test]
fn approximate_equality() {
    // Integers are approximately equal only where they are equal.
    let m: Matrix2D<i32> = Matrix2D::row_major(1, 2, 3, 4, 5, 6);
    assert!(m.approx_eq(&m));
    assert!(!m.approx_eq(&Matrix2D::row_major(1, 2, 3, 4, 5, 7)));
    let m: Matrix4D<i32> = Matrix4D::identity();
    assert!(m.approx_eq(&m));
    assert!(!m.approx_eq(&Matrix4D::create_translation(0, 0, 1)));
    // Decimal scalars are approximately equal within a millionth.
    let one = euclid::Fixed::from_raw(1_000_000_000);
    let near = euclid::Fixed::from_raw(1_000_000_999);
    let far = euclid::Fixed::from_raw(1_000_001_000);
    let zero = euclid::Fixed::from_raw(0);
    let a = Matrix2D::row_major(one, zero, zero, one, zero, zero);
    assert!(a.approx_eq(&Matrix2D::row_major(near, zero, zero, one, zero, zero)));
    assert!(Matrix2D::row_major(near, zero, zero, one, zero, zero).approx_eq(&a));
    assert!(!a.approx_eq(&Matrix2D::row_major(far, zero, zero, one, zero, zero)));
    assert!(!Matrix2D::row_major(far, zero, zero, one, zero, zero).approx_eq(&a));
}

#[test]
fn matrix4d_changes_units() {
    let m: TypedMatrix4D<i32, World, Screen> = TypedMatrix4D::create_translation(1, 2, 3);
    let p: TypedPoint2D<i32, World> = TypedPoint2D::new(10, 10);
    let q: TypedPoint2D<i32, Screen> = m.transform_point(&p);
    assert_eq!(q, TypedPoint2D::new(11, 12));
    let back: TypedMatrix4D<i32, Screen, World> = m.invert().unwrap();
    assert_eq!(back.transform_point(&q), p);
    let retagged: TypedMatrix4D<i32, World, World> = m.to();
    assert_eq!(retagged.to_array(), m.to_array());
    let _: Point2D<i32> = Point2D::new(0, 0);
}
