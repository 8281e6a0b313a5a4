use euclid::rect::{max, min};
use euclid::{
    Box2D, Box3D, Cuboid, Fixed, Length, Point2D, Point3D, Rect, SideOffsets3D, Size2D, Size3D,
    TypedRect, UnknownUnit, Vector2D, Vector3D,
};

fn point2<T: Copy>(x: T, y: T) -> Point2D<T> {
    euclid::point2(x, y)
}

fn point3<T: Copy>(x: T, y: T, z: T) -> Point3D<T> {
    euclid::point3(x, y, z)
}

fn size2<T: Copy>(w: T, h: T) -> Size2D<T> {
    euclid::size2(w, h)
}

fn size3<T: Copy>(w: T, h: T, d: T) -> Size3D<T> {
    euclid::size3(w, h, d)
}

fn vec2<T: Copy>(x: T, y: T) -> Vector2D<T> {
    euclid::vec2(x, y)
}

fn vec3<T: Copy>(x: T, y: T, z: T) -> Vector3D<T> {
    euclid::vec3(x, y, z)
}

fn rect<T: Copy>(x: T, y: T, w: T, h: T) -> Rect<T> {
    euclid::rect(x, y, w, h)
}

fn box2<T: Copy>(min_x: T, min_y: T, max_x: T, max_y: T) -> Box2D<T> {
    euclid::box2(min_x, min_y, max_x, max_y)
}

fn cuboid<T: Copy>(x: T, y: T, z: T, w: T, h: T, d: T) -> Cuboid<T> {
    euclid::cuboid(x, y, z, w, h, d)
}

fn box3d<T: Copy>(ax: T, ay: T, az: T, bx: T, by: T, bz: T) -> Box3D<T> {
    euclid::box3d(ax, ay, az, bx, by, bz)
}

fn f(x: f64) -> Fixed {
    Fixed::from_raw((x * 1.0e9).round() as i64)
}

#[test]
fn min_and_max_of_equal_scalars() {
    assert_eq!(min(4, 4), 4);
    assert_eq!(max(4, 4), 4);
    assert_eq!(min(-4, 4), -4);
    assert_eq!(max(-4, 4), 4);
    assert_eq!(min(4, -4), -4);
    assert_eq!(max(4, -4), 4);
}

#[test]
fn rects_that_touch_do_not_intersect() {
    let a: Rect<i32> = rect(0, 0, 10, 10);
    assert!(!a.intersects(&rect(10, 0, 5, 5)));
    assert!(!a.intersects(&rect(0, 10, 5, 5)));
    assert!(!a.intersects(&rect(-5, 0, 5, 5)));
    assert!(!a.intersects(&rect(0, -5, 5, 5)));
    assert!(a.intersection(&rect(10, 0, 5, 5)).is_none());
    assert!(a.intersects(&rect(9, 9, 5, 5)));
    assert_eq!(a.intersection(&rect(9, 9, 5, 5)), Some(rect(9, 9, 1, 1)));
}

#[test]
fn rect_intersection_of_reversed_bounds_is_clamped() {
    // A rectangle of negative width against one around it.
    let a: Rect<i32> = rect(5, 0, -2, 10);
    let b: Rect<i32> = rect(0, 0, 10, 10);
    assert!(a.intersects(&b));
    assert_eq!(a.intersection(&b), Some(rect(5, 0, -2, 10)));
}

#[test]
fn rect_union_absorbs_a_zero_size() {
    let a: Rect<i32> = rect(1, 2, 3, 4);
    let z: Rect<i32> = rect(100, 100, 0, 0);
    assert_eq!(a.union(&z), a);
    assert_eq!(z.union(&a), a);
    assert_eq!(z.union(&z), z);
    // A rectangle with one extent of zero is not absorbed.
    let flat: Rect<i32> = rect(100, 100, 0, 5);
    assert_eq!(a.union(&flat), rect(1, 2, 99, 103));
}

#[test]
fn box2d_union_has_no_special_case() {
    let a: Box2D<i32> = box2(1, 2, 4, 6);
    let z: Box2D<i32> = box2(100, 100, 100, 100);
    assert_eq!(a.union(&z), box2(1, 2, 100, 100));
    assert_eq!(z.union(&a), box2(1, 2, 100, 100));
}

#[test]
fn box2d_emptiness_conversion_and_containment() {
    let a: Box2D<i32> = box2(0, 0, 10, 20);
    assert!(!a.is_empty_or_negative());
    assert_eq!(a.size(), size2(10, 20));
    assert_eq!(a.to_rect(), Some(rect(0, 0, 10, 20)));
    assert!(box2(0, 0, 0, 20).is_empty_or_negative());
    assert!(box2(0, 0, 10, -1).is_empty_or_negative());
    assert!(box2(0, 0, 0, 20).to_rect().is_none());
    assert!(a.contains(&point2(0, 0)));
    assert!(a.contains(&point2(9, 19)));
    assert!(!a.contains(&point2(10, 0)));
    assert!(!a.contains(&point2(0, 20)));
    assert!(a.intersects(&box2(9, 19, 30, 30)));
    assert!(!a.intersects(&box2(10, 0, 30, 30)));
    assert_eq!(a.intersection(&box2(5, 5, 30, 30)), Some(box2(5, 5, 10, 20)));
    assert_eq!(a.intersection(&box2(10, 0, 30, 30)), None);
    assert_eq!(a.intersection_unchecked(&box2(10, 0, 30, 30)), box2(10, 0, 10, 20));
    assert_eq!(a.lerp(box2(10, 10, 30, 40), 2), box2(20, 20, 50, 60));
    assert!(a.contains_box(&box2(1, 1, 10, 20)));
    assert!(!a.contains_box(&box2(1, 1, 11, 20)));
    assert!(a.contains_box(&box2(100, 100, 100, 200)));
    assert_eq!(rect(1, 2, 3, 4).to_box(), box2(1, 2, 4, 6));
}

#[test]
fn rect_contains_is_half_open() {
    let r: Rect<i32> = rect(-20, 15, 100, 200);
    assert!(r.contains(&point2(-20, 15)));
    assert!(r.contains(&point2(79, 214)));
    assert!(!r.contains(&point2(80, 15)));
    assert!(!r.contains(&point2(-20, 215)));
    // An empty rectangle is within every rectangle, wherever it is.
    assert!(r.contains_rect(&rect(1000, 1000, 0, 5)));
    assert!(!r.contains_rect(&rect(1000, 1000, 1, 5)));
    // A rectangle with points is not within an empty one.
    assert!(!rect(0, 0, 0, 0).contains_rect(&rect(0, 0, 1, 1)));
}

#[test]
fn rect_corners_and_typed_edges() {
    let r: TypedRect<i32, UnknownUnit> = rect(1, 2, 30, 40);
    assert_eq!(r.top_right(), point2(31, 2));
    assert_eq!(r.bottom_left(), point2(1, 42));
    assert_eq!(r.bottom_right(), point2(31, 42));
    assert_eq!(r.min_x_typed(), Length::new(1));
    assert_eq!(r.max_x_typed(), Length::new(31));
    assert_eq!(r.min_y_typed(), Length::new(2));
    assert_eq!(r.max_y_typed(), Length::new(42));
    assert_eq!(r.inflate_typed(Length::new(1), Length::new(2)), rect(0, 0, 32, 44));
    assert_eq!(r.to_untyped(), r);
    assert_eq!(Rect::from_untyped(&r), r);
    assert_eq!(r * 3, rect(3, 6, 90, 120));
    assert_eq!(r / 2, rect(0, 1, 15, 20));
    assert_eq!(r.lerp(rect(11, 12, 50, 60), 3), rect(31, 32, 90, 100));
    assert_eq!(Rect::<i32>::zero(), rect(0, 0, 0, 0));
    assert_eq!(r.translate(&vec2(-1, -2)), rect(0, 0, 30, 40));
}

#[test]
fn rect_from_points() {
    let none: [Point2D<i32>; 0] = [];
    assert_eq!(Rect::from_points(&none), Rect::zero());
    assert_eq!(Rect::from_points(&[point2(3, -4)]), rect(3, -4, 0, 0));
    assert_eq!(
        Rect::from_points(&[point2(3, -4), point2(-1, 8), point2(7, 0), point2(0, 0)]),
        rect(-1, -4, 8, 12)
    );
}

#[test]
fn box3d_contains_is_half_open_on_every_axis() {
    let b = Box3D::from_min_max(0, 0, 0, 10, 10, 10);
    assert!(b.contains(&point3(0, 0, 0)));
    assert!(b.contains(&point3(9, 9, 9)));
    assert!(!b.contains(&point3(10, 5, 5)));
    assert!(!b.contains(&point3(5, 10, 5)));
    assert!(!b.contains(&point3(5, 5, 10)));
    assert!(!b.contains(&point3(-1, 5, 5)));
    assert!(b.contains_box(&Box3D::from_min_max(50, 50, 50, 50, 60, 60)));
    assert!(!b.is_empty_or_negative());
    assert!(Box3D::from_min_max(0, 0, 0, 10, 0, 10).is_empty_or_negative());
    assert!(Box3D::from_min_max(0, 0, 5, 10, 10, 4).is_empty_or_negative());
    assert!(!b.contains_box(&Box3D::from_min_max(5, 5, 5, 11, 6, 6)));
}

#[test]
fn box3d_corners_and_faces() {
    let b: Box3D<i32> = Box3D::from_min_max(1, 2, 3, 10, 20, 30);
    assert_eq!(b, box3d(1, 20, 30, 10, 2, 3));
    assert_eq!(b.top_left_front(), point3(1, 20, 30));
    assert_eq!(b.top_right_front(), point3(10, 20, 30));
    assert_eq!(b.bottom_left_front(), point3(1, 2, 30));
    assert_eq!(b.bottom_right_front(), point3(10, 2, 30));
    assert_eq!(b.top_left_back(), point3(1, 20, 3));
    assert_eq!(b.top_right_back(), point3(10, 20, 3));
    assert_eq!(b.bottom_left_back(), point3(1, 2, 3));
    assert_eq!(b.bottom_right_back(), point3(10, 2, 3));
    assert_eq!(b.min_x_typed(), Length::new(1));
    assert_eq!(b.max_x_typed(), Length::new(10));
    assert_eq!(b.min_y_typed(), Length::new(2));
    assert_eq!(b.max_y_typed(), Length::new(20));
    assert_eq!(b.min_z_typed(), Length::new(3));
    assert_eq!(b.max_z_typed(), Length::new(30));
    assert_eq!(b.size(), size3(9, 18, 27));
    assert_eq!(b.volume(), 9 * 18 * 27);
    assert_eq!(b.front_area(), 9 * 18);
    assert_eq!(b.left_area(), 27 * 18);
    assert_eq!(b.top_area(), 27 * 9);
    assert_eq!(b.center(), point3(5, 11, 16));
    assert_eq!(b.translate(&vec3(1, 1, 1)), Box3D::from_min_max(2, 3, 4, 11, 21, 31));
    assert_eq!(b.translate_by_size(&point3(1, 1, 1)), Box3D::from_min_max(2, 3, 4, 11, 21, 31));
    assert_eq!(b.scale(2, 3, 4), Box3D::from_min_max(2, 6, 12, 20, 60, 120));
    assert_eq!(b * 2, Box3D::from_min_max(2, 4, 6, 20, 40, 60));
    assert_eq!(b / 2, Box3D::from_min_max(0, 1, 1, 5, 10, 15));
    assert_eq!(b.inflate(4, 6, 9), Box3D::from_min_max(-3, -4, -6, 14, 26, 39));
    assert_eq!(b.inflate(-1, -2, -3), Box3D::from_min_max(2, 4, 6, 9, 18, 27));
    assert_eq!(
        b.inflate_typed(Length::new(4), Length::new(6), Length::new(9)),
        Box3D::from_min_max(-3, -4, -6, 14, 26, 39)
    );
    assert_eq!(
        b.inner_box(SideOffsets3D::new(1, 2, 3, 4, 5, 6)),
        Box3D::from_min_max(5, 5, 9, 8, 19, 25)
    );
    assert_eq!(
        b.outer_box(SideOffsets3D::new(1, 2, 3, 4, 5, 6)),
        Box3D::from_min_max(-3, -1, -3, 12, 21, 35)
    );
    assert_eq!(b.to_untyped(), b);
    assert_eq!(Box3D::from_untyped(&b), b);
    assert_eq!(b.lerp(Box3D::from_min_max(2, 3, 4, 11, 21, 31), 5), Box3D::from_min_max(6, 7, 8, 15, 25, 35));
}

#[test]
fn box3d_from_points_is_the_smallest_box() {
    let none: [Point3D<i32>; 0] = [];
    assert_eq!(Box3D::from_points(&none), Box3D::zero());
    assert_eq!(Box3D::from_points(&[point3(1, 2, 3)]), Box3D::from_min_max(1, 2, 3, 1, 2, 3));
    assert_eq!(
        Box3D::from_points(&[point3(1, 20, 3), point3(10, 2, 30), point3(5, 5, -5)]),
        Box3D::from_min_max(1, 2, -5, 10, 20, 30)
    );
}

#[test]
fn box3d_from_size_over_integers() {
    // Half of an odd extent is rounded toward zero.
    let b: Box3D<i32> = Box3D::from_size(size3(5, 4, 3));
    assert_eq!(b, Box3D::from_min_max(-2, -2, -1, 2, 2, 1));
}

#[test]
fn cuboid_regions() {
    let c: Cuboid<i32> = cuboid(1, 2, 3, 10, 20, 30);
    assert_eq!(c.min_x(), 1);
    assert_eq!(c.max_x(), 11);
    assert_eq!(c.min_y(), 2);
    assert_eq!(c.max_y(), 22);
    assert_eq!(c.min_z(), 3);
    assert_eq!(c.max_z(), 33);
    assert_eq!(c.min_x_typed(), Length::new(1));
    assert_eq!(c.max_x_typed(), Length::new(11));
    assert_eq!(c.min_y_typed(), Length::new(2));
    assert_eq!(c.max_y_typed(), Length::new(22));
    assert_eq!(c.min_z_typed(), Length::new(3));
    assert_eq!(c.max_z_typed(), Length::new(33));
    assert_eq!(c.top_right_front(), point3(11, 2, 3));
    assert_eq!(c.bottom_left_front(), point3(1, 22, 3));
    assert_eq!(c.bottom_right_front(), point3(11, 22, 3));
    assert_eq!(c.top_left_back(), point3(1, 2, 33));
    assert_eq!(c.top_right_back(), point3(11, 2, 33));
    assert_eq!(c.bottom_left_back(), point3(1, 22, 33));
    assert_eq!(c.bottom_right_back(), point3(11, 22, 33));
    assert!(c.contains(&point3(1, 2, 3)));
    assert!(c.contains(&point3(10, 21, 32)));
    assert!(!c.contains(&point3(11, 2, 3)));
    assert!(!c.contains(&point3(1, 22, 3)));
    assert!(!c.contains(&point3(1, 2, 33)));
    assert!(c.contains_box(&cuboid(2, 3, 4, 1, 1, 1)));
    assert!(c.contains_box(&cuboid(200, 300, 400, 0, 1, 1)));
    assert!(!c.contains_box(&cuboid(2, 3, 4, 10, 1, 1)));
    assert!(c.intersects(&cuboid(10, 21, 32, 5, 5, 5)));
    assert!(!c.intersects(&cuboid(11, 2, 3, 5, 5, 5)));
    assert_eq!(c.intersection(&cuboid(5, 5, 5, 100, 100, 100)), Some(cuboid(5, 5, 5, 6, 17, 28)));
    assert_eq!(c.intersection(&cuboid(11, 2, 3, 5, 5, 5)), None);
    assert_eq!(c.union(&cuboid(-1, -2, -3, 1, 1, 1)), cuboid(-1, -2, -3, 12, 24, 36));
    assert_eq!(c.union(&cuboid(-1, -2, -3, 0, 0, 0)), c);
    assert_eq!(cuboid(-1, -2, -3, 0, 0, 0).union(&c), c);
    assert_eq!(c.inflate(1, 2, 3), cuboid(0, 0, 0, 12, 24, 36));
    assert_eq!(
        c.inflate_typed(Length::new(1), Length::new(2), Length::new(3)),
        cuboid(0, 0, 0, 12, 24, 36)
    );
    assert_eq!(c.translate(&vec3(1, 1, 1)), cuboid(2, 3, 4, 10, 20, 30));
    assert_eq!(c.translate_by_size(&point3(1, 1, 1)), cuboid(2, 3, 4, 10, 20, 30));
    assert_eq!(c.inner_box(SideOffsets3D::new(1, 2, 3, 4, 5, 6)), cuboid(5, 3, 8, 4, 16, 19));
    assert_eq!(c.outer_box(SideOffsets3D::new(1, 2, 3, 4, 5, 6)), cuboid(-3, 1, -2, 16, 24, 41));
    assert_eq!(c.lerp(cuboid(2, 3, 4, 11, 21, 31), 5), cuboid(6, 7, 8, 15, 25, 35));
    assert_eq!(c.center(), point3(6, 12, 18));
    assert_eq!(c.scale(2, 3, 4), cuboid(2, 6, 12, 20, 60, 120));
    assert_eq!(c * 2, cuboid(2, 4, 6, 20, 40, 60));
    assert_eq!(c / 2, cuboid(0, 1, 1, 5, 10, 15));
    assert_eq!(c.volume(), 6000);
    assert!(!c.is_empty());
    assert!(cuboid(1, 2, 3, 10, 0, 30).is_empty());
    assert_eq!(Cuboid::<i32>::zero(), cuboid(0, 0, 0, 0, 0, 0));
    assert_eq!(Cuboid::from_size(size3(1, 2, 3)), cuboid(0, 0, 0, 1, 2, 3));
    assert_eq!(c.to_untyped(), c);
    assert_eq!(Cuboid::from_untyped(&c), c);
}

#[test]
fn cuboid_from_points_is_the_smallest_cuboid() {
    let none: [Point3D<i32>; 0] = [];
    assert_eq!(Cuboid::from_points(&none), Cuboid::zero());
    assert_eq!(Cuboid::from_points(&[point3(1, 2, 3)]), cuboid(1, 2, 3, 0, 0, 0));
    // The greatest z is found whatever the y of its point.
    assert_eq!(
        Cuboid::from_points(&[point3(1, 20, 3), point3(10, 2, 30), point3(5, 5, -5)]),
        cuboid(1, 2, -5, 9, 18, 35)
    );
}

#[test]
fn cuboid_rounding() {
    let c = Cuboid::new(
        point3(f(-1.5), f(0.25), f(2.0)),
        size3(f(3.75), f(2.5), f(0.5)),
    );
    assert_eq!(
        c.round_in(),
        Cuboid::new(point3(f(-1.0), f(1.0), f(2.0)), size3(f(3.0), f(1.0), f(0.0)))
    );
    assert_eq!(
        c.round_out(),
        Cuboid::new(point3(f(-2.0), f(0.0), f(2.0)), size3(f(5.0), f(3.0), f(1.0)))
    );
    assert_eq!(
        c.round(),
        Cuboid::new(point3(f(-1.0), f(0.0), f(2.0)), size3(f(3.0), f(3.0), f(1.0)))
    );
    assert!(c.contains_box(&c.round_in()));
    assert!(c.round_out().contains_box(&c));
}

#[test]
fn sizes() {
    let s: Size2D<i32> = size2(3, -4);
    assert_eq!(s.area(), -12);
    assert!(!s.is_empty());
    assert!(size2(0, 4).is_empty());
    assert_eq!(Size2D::<i32>::zero(), size2(0, 0));
    assert_eq!(s * 3, size2(9, -12));
    assert_eq!(s / 2, size2(1, -2));
    assert_eq!(s.to_vector(), vec2(3, -4));
    assert_eq!(s.lerp(size2(5, 6), 2), size2(7, 16));
    assert_eq!(s.min(size2(5, -6)), size2(3, -6));
    assert_eq!(s.max(size2(5, -6)), size2(5, -4));
    assert_eq!(Size2D::from_lengths(Length::new(3), Length::new(-4)), s);
    assert_eq!(size3(2, 3, 4).volume(), 24);
    assert!(size3(2, 0, 4).is_empty());
    assert_eq!(size3(2, 3, 4).to_vector(), vec3(2, 3, 4));
    let h = size2(f(1.5), f(2.5));
    assert_eq!(h.area(), f(3.75));
    assert_eq!(h.round(), size2(f(2.0), f(3.0)));
    assert_eq!(h.floor(), size2(f(1.0), f(2.0)));
    assert_eq!(h.ceil(), size2(f(2.0), f(3.0)));
}
