use euclid::{
    Box3D, Cuboid, Fixed, Length, Point2D, Point3D, Rect, ScaleFactor, Size2D, Size3D,
    UnknownUnit,
};

fn point2<T: Copy>(x: T, y: T) -> Point2D<T> {
    euclid::point2(x, y)
}

fn point3<T: Copy>(x: T, y: T, z: T) -> Point3D<T> {
    euclid::point3(x, y, z)
}

fn size2<T: Copy>(w: T, h: T) -> Size2D<T> {
    euclid::size2(w, h)
}

fn f(x: f64) -> Fixed {
    Fixed::from_raw((x * 1.0e9).round() as i64)
}

#[test]
fn cast_into_i32() {
    let l: Length<UnknownUnit, i64> = Length::new(2_147_483_647);
    assert_eq!(l.cast::<i32>().map(|c| c.get()), Some(i32::MAX));
    let l: Length<UnknownUnit, i64> = Length::new(2_147_483_648);
    assert!(l.cast::<i32>().is_none());
    let l: Length<UnknownUnit, i64> = Length::new(-2_147_483_648);
    assert_eq!(l.cast::<i32>().map(|c| c.get()), Some(i32::MIN));
    let l: Length<UnknownUnit, i64> = Length::new(-2_147_483_649);
    assert!(l.cast::<i32>().is_none());
}

#[test]
fn cast_into_i64() {
    let l: Length<UnknownUnit, u64> = Length::new(9_223_372_036_854_775_807);
    assert_eq!(l.cast::<i64>().map(|c| c.get()), Some(i64::MAX));
    let l: Length<UnknownUnit, u64> = Length::new(9_223_372_036_854_775_808);
    assert!(l.cast::<i64>().is_none());
    let l: Length<UnknownUnit, i32> = Length::new(-5);
    assert_eq!(l.cast::<i64>().map(|c| c.get()), Some(-5));
}

#[test]
fn cast_into_isize() {
    let l: Length<UnknownUnit, i32> = Length::new(-12);
    assert_eq!(l.cast::<isize>().map(|c| c.get()), Some(-12));
    let l: Length<UnknownUnit, u64> = Length::new(u64::MAX);
    assert!(l.cast::<isize>().is_none());
}

#[test]
fn cast_into_u32() {
    let l: Length<UnknownUnit, i64> = Length::new(4_294_967_295);
    assert_eq!(l.cast::<u32>().map(|c| c.get()), Some(u32::MAX));
    let l: Length<UnknownUnit, i64> = Length::new(4_294_967_296);
    assert!(l.cast::<u32>().is_none());
    let l: Length<UnknownUnit, i64> = Length::new(-1);
    assert!(l.cast::<u32>().is_none());
    let l: Length<UnknownUnit, i64> = Length::new(0);
    assert_eq!(l.cast::<u32>().map(|c| c.get()), Some(0));
}

#[test]
fn cast_into_u64() {
    let l: Length<UnknownUnit, i64> = Length::new(i64::MAX);
    assert_eq!(l.cast::<u64>().map(|c| c.get()), Some(9_223_372_036_854_775_807));
    let l: Length<UnknownUnit, i32> = Length::new(-1);
    assert!(l.cast::<u64>().is_none());
}

#[test]
fn cast_into_usize() {
    let l: Length<UnknownUnit, i32> = Length::new(77);
    assert_eq!(l.cast::<usize>().map(|c| c.get()), Some(77));
    let l: Length<UnknownUnit, i32> = Length::new(-77);
    assert!(l.cast::<usize>().is_none());
}

#[test]
fn cast_from_and_into_the_decimal_scalar() {
    // A fraction is cut off toward zero.
    let l: Length<UnknownUnit, Fixed> = Length::new(f(12.75));
    assert_eq!(l.cast::<i32>().map(|c| c.get()), Some(12));
    let l: Length<UnknownUnit, Fixed> = Length::new(f(-12.75));
    assert_eq!(l.cast::<i32>().map(|c| c.get()), Some(-12));
    assert!(l.cast::<u32>().is_none());
    let l: Length<UnknownUnit, Fixed> = Length::new(f(-0.75));
    assert_eq!(l.cast::<u32>().map(|c| c.get()), Some(0));
    let l: Length<UnknownUnit, Fixed> = Length::new(f(-1.0));
    assert!(l.cast::<u32>().is_none());

    let l: Length<UnknownUnit, i32> = Length::new(-3);
    assert_eq!(l.cast::<Fixed>().map(|c| c.get()), Some(f(-3.0)));
    // The decimal scalar ends a little above nine billion.
    let l: Length<UnknownUnit, i64> = Length::new(9_223_372_036);
    assert_eq!(l.cast::<Fixed>().map(|c| c.get()), Some(Fixed::from_raw(9_223_372_036_000_000_000)));
    let l: Length<UnknownUnit, i64> = Length::new(9_223_372_037);
    assert!(l.cast::<Fixed>().is_none());
}

#[test]
fn cast_of_points_sizes_and_regions() {
    let p = Point2D::new(3i64, -4i64);
    assert_eq!(p.cast::<i32>(), Some(Point2D::new(3, -4)));
    assert_eq!(p.cast::<u32>(), None);
    assert_eq!(Point2D::new(3i64, 4i64).as_uint(), Point2D::new(3usize, 4usize));

    let s = Size2D::new(1i64 << 40, 1);
    assert_eq!(s.cast::<i32>(), None);
    assert_eq!(s.cast::<u64>(), Some(Size2D::new(1u64 << 40, 1)));
    assert_eq!(Size2D::new(5i32, 6i32).as_uint(), Size2D::new(5usize, 6usize));

    let r = Rect::new(point2(1i64, 2i64), size2(3i64, 4i64));
    assert_eq!(r.cast::<i32>(), Some(Rect::new(point2(1, 2), size2(3, 4))));
    assert_eq!(r.to_i32(), Rect::new(point2(1, 2), size2(3, 4)));
    assert_eq!(r.to_i64(), r);
    assert_eq!(r.to_usize(), Rect::new(point2(1usize, 2usize), size2(3usize, 4usize)));
    assert_eq!(r.as_uint(), Rect::new(point2(1usize, 2usize), size2(3usize, 4usize)));
    let r = Rect::new(point2(-1i64, 2i64), size2(3i64, 4i64));
    assert_eq!(r.cast::<usize>(), None);
    let r = Rect::new(point2(f(1.9), f(-2.9)), size2(f(3.5), f(0.5)));
    assert_eq!(r.cast::<i32>(), Some(Rect::new(point2(1, -2), size2(3, 0))));

    let b = Box3D::from_min_max(1i64, 2, 3, 4, 5, 6);
    assert_eq!(b.try_cast::<i32>(), Some(Box3D::from_min_max(1, 2, 3, 4, 5, 6)));
    assert_eq!(b.cast::<i32>(), Box3D::from_min_max(1, 2, 3, 4, 5, 6));
    assert_eq!(b.to_i32(), Box3D::from_min_max(1, 2, 3, 4, 5, 6));
    assert_eq!(b.to_u32(), Box3D::from_min_max(1u32, 2, 3, 4, 5, 6));
    assert_eq!(b.to_usize(), Box3D::from_min_max(1usize, 2, 3, 4, 5, 6));
    assert_eq!(b.to_i64(), b);
    let b = Box3D::from_min_max(-1i64, 2, 3, 1 << 33, 5, 6);
    assert_eq!(b.try_cast::<i32>(), None);
    assert_eq!(b.try_cast::<u64>(), None);

    let c = Cuboid::new(point3(1i64, 2, 3), Size3D::new(4i64, 5, 6));
    assert_eq!(c.try_cast::<u32>(), Some(Cuboid::new(point3(1u32, 2, 3), Size3D::new(4u32, 5, 6))));
    assert_eq!(c.cast::<i32>(), Cuboid::new(point3(1, 2, 3), Size3D::new(4, 5, 6)));
    assert_eq!(c.to_i32(), Cuboid::new(point3(1, 2, 3), Size3D::new(4, 5, 6)));
    assert_eq!(c.to_u32(), Cuboid::new(point3(1u32, 2, 3), Size3D::new(4u32, 5, 6)));
    assert_eq!(c.to_usize(), Cuboid::new(point3(1usize, 2, 3), Size3D::new(4usize, 5, 6)));
    assert_eq!(c.to_i64(), c);
    let c = Cuboid::new(point3(1i64, 2, -3), Size3D::new(4i64, 5, 6));
    assert_eq!(c.try_cast::<u32>(), None);

    let k: ScaleFactor<UnknownUnit, UnknownUnit, i64> = ScaleFactor::new(300);
    assert_eq!(k.cast::<i32>(), Some(ScaleFactor::new(300)));
    let k: ScaleFactor<UnknownUnit, UnknownUnit, i64> = ScaleFactor::new(1 << 35);
    assert_eq!(k.cast::<i32>(), None);
}
