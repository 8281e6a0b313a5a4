use vstd::prelude::*;
use crate::num::{Scalar, cast_val, fits, two_val};

verus! {

/// The lesser of two integers; `a` where they are equal.
pub open spec fn lesser(a: int, b: int) -> int {
    if a <= b {
        a
    } else {
        b
    }
}

/// Whether two scalars of the type `T` differ by less than its epsilon.
pub open spec fn near<T: Scalar>(a: int, b: int) -> bool {
    -T::epsilon() < a - b < T::epsilon()
}

/// The product of three scalars of the type `T`, taken from the left.
pub open spec fn prod3<T: Scalar>(a: int, b: int, c: int) -> int {
    T::mul_val(T::mul_val(a, b), c)
}

/// The product of four scalars of the type `T`, taken from the left.
pub open spec fn prod4<T: Scalar>(a: int, b: int, c: int, d: int) -> int {
    T::mul_val(T::mul_val(T::mul_val(a, b), c), d)
}

/// The greater of two integers; `a` where they are equal.
pub open spec fn greater(a: int, b: int) -> int {
    if a >= b {
        a
    } else {
        b
    }
}

/// A point or a vector of the plane, by its integer coordinates.
pub struct Point2 {
    pub x: int,
    pub y: int,
}

impl Point2 {
    /// Whether the scalar type `T` can hold every component.
    pub open spec fn fits<T: Scalar>(self) -> bool {
        fits::<T>(self.x) && fits::<T>(self.y)
    }

    pub open spec fn zero() -> Point2 {
        Point2 { x: 0, y: 0 }
    }

    pub open spec fn add(self, o: Point2) -> Point2 {
        Point2 { x: self.x + o.x, y: self.y + o.y }
    }

    pub open spec fn sub(self, o: Point2) -> Point2 {
        Point2 { x: self.x - o.x, y: self.y - o.y }
    }

    pub open spec fn neg(self) -> Point2 {
        Point2 { x: -self.x, y: -self.y }
    }

    /// Every component multiplied by `k`, as the scalar type `T` multiplies.
    pub open spec fn scale<T: Scalar>(self, k: int) -> Point2 {
        Point2 { x: T::mul_val(self.x, k), y: T::mul_val(self.y, k) }
    }

    /// Every component divided by `k`, as the scalar type `T` divides.
    pub open spec fn div<T: Scalar>(self, k: int) -> Point2 {
        Point2 { x: T::div_val(self.x, k), y: T::div_val(self.y, k) }
    }

    /// Every component rounded down to a whole scalar of `T`.
    pub open spec fn floor<T: Scalar>(self) -> Point2 {
        Point2 { x: T::floor_val(self.x), y: T::floor_val(self.y) }
    }

    /// Every component rounded up to a whole scalar of `T`.
    pub open spec fn ceil<T: Scalar>(self) -> Point2 {
        Point2 { x: T::ceil_val(self.x), y: T::ceil_val(self.y) }
    }

    /// Every component rounded to the nearest whole scalar of `T`, as the
    /// floor of the component plus one half.
    pub open spec fn round<T: Scalar>(self) -> Point2 {
        Point2 { x: T::round_val(self.x), y: T::round_val(self.y) }
    }

    /// Every component cast from the scalar type `T0` to `T1`.
    pub open spec fn cast<T0: Scalar, T1: Scalar>(self) -> Point2 {
        Point2 { x: cast_val::<T0, T1>(self.x), y: cast_val::<T0, T1>(self.y) }
    }

    /// The lesser of the two values, component by component.
    pub open spec fn min(self, o: Point2) -> Point2 {
        Point2 { x: lesser(self.x, o.x), y: lesser(self.y, o.y) }
    }

    /// The greater of the two values, component by component.
    pub open spec fn max(self, o: Point2) -> Point2 {
        Point2 { x: greater(self.x, o.x), y: greater(self.y, o.y) }
    }

    /// `self + (o - self) * t`: `self` at `t == 0`, `o` at `t == 1`.
    pub open spec fn lerp<T: Scalar>(self, o: Point2, t: int) -> Point2 {
        self.add(o.sub(self).scale::<T>(t))
    }

    pub open spec fn dot<T: Scalar>(self, o: Point2) -> int {
        T::mul_val(self.x, o.x) + T::mul_val(self.y, o.y)
    }

    /// The signed area of the parallelogram spanned by `self` and `o`.
    pub open spec fn cross<T: Scalar>(self, o: Point2) -> int {
        T::mul_val(self.x, o.y) - T::mul_val(self.y, o.x)
    }

    pub open spec fn add_size(self, s: Size2) -> Point2 {
        Point2 { x: self.x + s.width, y: self.y + s.height }
    }

    pub open spec fn to_size(self) -> Size2 {
        Size2 { width: self.x, height: self.y }
    }
}

/// A point or a vector of space, by its integer coordinates.
pub struct Point3 {
    pub x: int,
    pub y: int,
    pub z: int,
}

impl Point3 {
    /// Whether the scalar type `T` can hold every component.
    pub open spec fn fits<T: Scalar>(self) -> bool {
        fits::<T>(self.x) && fits::<T>(self.y) && fits::<T>(self.z)
    }

    pub open spec fn zero() -> Point3 {
        Point3 { x: 0, y: 0, z: 0 }
    }

    pub open spec fn add(self, o: Point3) -> Point3 {
        Point3 { x: self.x + o.x, y: self.y + o.y, z: self.z + o.z }
    }

    pub open spec fn sub(self, o: Point3) -> Point3 {
        Point3 { x: self.x - o.x, y: self.y - o.y, z: self.z - o.z }
    }

    pub open spec fn neg(self) -> Point3 {
        Point3 { x: -self.x, y: -self.y, z: -self.z }
    }

    /// Every component multiplied by `k`, as the scalar type `T` multiplies.
    pub open spec fn scale<T: Scalar>(self, k: int) -> Point3 {
        Point3 { x: T::mul_val(self.x, k), y: T::mul_val(self.y, k), z: T::mul_val(self.z, k) }
    }

    /// Every component divided by `k`, as the scalar type `T` divides.
    pub open spec fn div<T: Scalar>(self, k: int) -> Point3 {
        Point3 { x: T::div_val(self.x, k), y: T::div_val(self.y, k), z: T::div_val(self.z, k) }
    }

    /// Every component rounded down to a whole scalar of `T`.
    pub open spec fn floor<T: Scalar>(self) -> Point3 {
        Point3 { x: T::floor_val(self.x), y: T::floor_val(self.y), z: T::floor_val(self.z) }
    }

    /// Every component rounded up to a whole scalar of `T`.
    pub open spec fn ceil<T: Scalar>(self) -> Point3 {
        Point3 { x: T::ceil_val(self.x), y: T::ceil_val(self.y), z: T::ceil_val(self.z) }
    }

    /// Every component rounded to the nearest whole scalar of `T`, as the
    /// floor of the component plus one half.
    pub open spec fn round<T: Scalar>(self) -> Point3 {
        Point3 { x: T::round_val(self.x), y: T::round_val(self.y), z: T::round_val(self.z) }
    }

    /// Every component cast from the scalar type `T0` to `T1`.
    pub open spec fn cast<T0: Scalar, T1: Scalar>(self) -> Point3 {
        Point3 { x: cast_val::<T0, T1>(self.x), y: cast_val::<T0, T1>(self.y), z: cast_val::<T0, T1>(self.z) }
    }

    /// The lesser of the two values, component by component.
    pub open spec fn min(self, o: Point3) -> Point3 {
        Point3 { x: lesser(self.x, o.x), y: lesser(self.y, o.y), z: lesser(self.z, o.z) }
    }

    /// The greater of the two values, component by component.
    pub open spec fn max(self, o: Point3) -> Point3 {
        Point3 { x: greater(self.x, o.x), y: greater(self.y, o.y), z: greater(self.z, o.z) }
    }

    /// `self + (o - self) * t`: `self` at `t == 0`, `o` at `t == 1`.
    pub open spec fn lerp<T: Scalar>(self, o: Point3, t: int) -> Point3 {
        self.add(o.sub(self).scale::<T>(t))
    }

    pub open spec fn dot<T: Scalar>(self, o: Point3) -> int {
        T::mul_val(self.x, o.x) + T::mul_val(self.y, o.y) + T::mul_val(self.z, o.z)
    }

    pub open spec fn cross<T: Scalar>(self, o: Point3) -> Point3 {
        Point3 {
            x: T::mul_val(self.y, o.z) - T::mul_val(self.z, o.y),
            y: T::mul_val(self.z, o.x) - T::mul_val(self.x, o.z),
            z: T::mul_val(self.x, o.y) - T::mul_val(self.y, o.x),
        }
    }

    pub open spec fn add_size(self, s: Size3) -> Point3 {
        Point3 { x: self.x + s.width, y: self.y + s.height, z: self.z + s.depth }
    }

    pub open spec fn to_size(self) -> Size3 {
        Size3 { width: self.x, height: self.y, depth: self.z }
    }
}

/// A homogeneous point, by its four integer coordinates.
pub struct Point4 {
    pub x: int,
    pub y: int,
    pub z: int,
    pub w: int,
}

impl Point4 {
    /// Whether the scalar type `T` can hold every component.
    pub open spec fn fits<T: Scalar>(self) -> bool {
        fits::<T>(self.x) && fits::<T>(self.y) && fits::<T>(self.z) && fits::<T>(self.w)
    }

    pub open spec fn zero() -> Point4 {
        Point4 { x: 0, y: 0, z: 0, w: 0 }
    }

    pub open spec fn add(self, o: Point4) -> Point4 {
        Point4 { x: self.x + o.x, y: self.y + o.y, z: self.z + o.z, w: self.w + o.w }
    }

    pub open spec fn sub(self, o: Point4) -> Point4 {
        Point4 { x: self.x - o.x, y: self.y - o.y, z: self.z - o.z, w: self.w - o.w }
    }

    pub open spec fn neg(self) -> Point4 {
        Point4 { x: -self.x, y: -self.y, z: -self.z, w: -self.w }
    }

    /// Every component multiplied by `k`, as the scalar type `T` multiplies.
    pub open spec fn scale<T: Scalar>(self, k: int) -> Point4 {
        Point4 { x: T::mul_val(self.x, k), y: T::mul_val(self.y, k), z: T::mul_val(self.z, k), w: T::mul_val(self.w, k) }
    }

    /// Every component divided by `k`, as the scalar type `T` divides.
    pub open spec fn div<T: Scalar>(self, k: int) -> Point4 {
        Point4 { x: T::div_val(self.x, k), y: T::div_val(self.y, k), z: T::div_val(self.z, k), w: T::div_val(self.w, k) }
    }

    /// Every component rounded down to a whole scalar of `T`.
    pub open spec fn floor<T: Scalar>(self) -> Point4 {
        Point4 { x: T::floor_val(self.x), y: T::floor_val(self.y), z: T::floor_val(self.z), w: T::floor_val(self.w) }
    }

    /// Every component rounded up to a whole scalar of `T`.
    pub open spec fn ceil<T: Scalar>(self) -> Point4 {
        Point4 { x: T::ceil_val(self.x), y: T::ceil_val(self.y), z: T::ceil_val(self.z), w: T::ceil_val(self.w) }
    }

    /// Every component rounded to the nearest whole scalar of `T`, as the
    /// floor of the component plus one half.
    pub open spec fn round<T: Scalar>(self) -> Point4 {
        Point4 { x: T::round_val(self.x), y: T::round_val(self.y), z: T::round_val(self.z), w: T::round_val(self.w) }
    }

    /// Every component cast from the scalar type `T0` to `T1`.
    pub open spec fn cast<T0: Scalar, T1: Scalar>(self) -> Point4 {
        Point4 { x: cast_val::<T0, T1>(self.x), y: cast_val::<T0, T1>(self.y), z: cast_val::<T0, T1>(self.z), w: cast_val::<T0, T1>(self.w) }
    }

    /// The lesser of the two values, component by component.
    pub open spec fn min(self, o: Point4) -> Point4 {
        Point4 { x: lesser(self.x, o.x), y: lesser(self.y, o.y), z: lesser(self.z, o.z), w: lesser(self.w, o.w) }
    }

    /// The greater of the two values, component by component.
    pub open spec fn max(self, o: Point4) -> Point4 {
        Point4 { x: greater(self.x, o.x), y: greater(self.y, o.y), z: greater(self.z, o.z), w: greater(self.w, o.w) }
    }

    /// `self + (o - self) * t`: `self` at `t == 0`, `o` at `t == 1`.
    pub open spec fn lerp<T: Scalar>(self, o: Point4, t: int) -> Point4 {
        self.add(o.sub(self).scale::<T>(t))
    }
}

/// A width and a height.
pub struct Size2 {
    pub width: int,
    pub height: int,
}

impl Size2 {
    /// Whether the scalar type `T` can hold every component.
    pub open spec fn fits<T: Scalar>(self) -> bool {
        fits::<T>(self.width) && fits::<T>(self.height)
    }

    pub open spec fn zero() -> Size2 {
        Size2 { width: 0, height: 0 }
    }

    pub open spec fn add(self, o: Size2) -> Size2 {
        Size2 { width: self.width + o.width, height: self.height + o.height }
    }

    pub open spec fn sub(self, o: Size2) -> Size2 {
        Size2 { width: self.width - o.width, height: self.height - o.height }
    }

    pub open spec fn neg(self) -> Size2 {
        Size2 { width: -self.width, height: -self.height }
    }

    /// Every component multiplied by `k`, as the scalar type `T` multiplies.
    pub open spec fn scale<T: Scalar>(self, k: int) -> Size2 {
        Size2 { width: T::mul_val(self.width, k), height: T::mul_val(self.height, k) }
    }

    /// Every component divided by `k`, as the scalar type `T` divides.
    pub open spec fn div<T: Scalar>(self, k: int) -> Size2 {
        Size2 { width: T::div_val(self.width, k), height: T::div_val(self.height, k) }
    }

    /// Every component rounded down to a whole scalar of `T`.
    pub open spec fn floor<T: Scalar>(self) -> Size2 {
        Size2 { width: T::floor_val(self.width), height: T::floor_val(self.height) }
    }

    /// Every component rounded up to a whole scalar of `T`.
    pub open spec fn ceil<T: Scalar>(self) -> Size2 {
        Size2 { width: T::ceil_val(self.width), height: T::ceil_val(self.height) }
    }

    /// Every component rounded to the nearest whole scalar of `T`, as the
    /// floor of the component plus one half.
    pub open spec fn round<T: Scalar>(self) -> Size2 {
        Size2 { width: T::round_val(self.width), height: T::round_val(self.height) }
    }

    /// Every component cast from the scalar type `T0` to `T1`.
    pub open spec fn cast<T0: Scalar, T1: Scalar>(self) -> Size2 {
        Size2 { width: cast_val::<T0, T1>(self.width), height: cast_val::<T0, T1>(self.height) }
    }

    /// The lesser of the two values, component by component.
    pub open spec fn min(self, o: Size2) -> Size2 {
        Size2 { width: lesser(self.width, o.width), height: lesser(self.height, o.height) }
    }

    /// The greater of the two values, component by component.
    pub open spec fn max(self, o: Size2) -> Size2 {
        Size2 { width: greater(self.width, o.width), height: greater(self.height, o.height) }
    }

    /// `self + (o - self) * t`: `self` at `t == 0`, `o` at `t == 1`.
    pub open spec fn lerp<T: Scalar>(self, o: Size2, t: int) -> Size2 {
        self.add(o.sub(self).scale::<T>(t))
    }

    pub open spec fn area<T: Scalar>(self) -> int {
        T::mul_val(self.width, self.height)
    }

    pub open spec fn to_vector(self) -> Point2 {
        Point2 { x: self.width, y: self.height }
    }

    /// Whether a region of this size holds no point: an extent is zero.
    pub open spec fn is_empty(self) -> bool {
        self.width == 0 || self.height == 0
    }
}

/// A width, a height and a depth.
pub struct Size3 {
    pub width: int,
    pub height: int,
    pub depth: int,
}

impl Size3 {
    /// Whether the scalar type `T` can hold every component.
    pub open spec fn fits<T: Scalar>(self) -> bool {
        fits::<T>(self.width) && fits::<T>(self.height) && fits::<T>(self.depth)
    }

    pub open spec fn zero() -> Size3 {
        Size3 { width: 0, height: 0, depth: 0 }
    }

    pub open spec fn add(self, o: Size3) -> Size3 {
        Size3 { width: self.width
            + o.width, height: self.height + o.height, depth: self.depth + o.depth }
    }

    pub open spec fn sub(self, o: Size3) -> Size3 {
        Size3 { width: self.width
            - o.width, height: self.height - o.height, depth: self.depth - o.depth }
    }

    pub open spec fn neg(self) -> Size3 {
        Size3 { width: -self.width, height: -self.height, depth: -self.depth }
    }

    /// Every component multiplied by `k`, as the scalar type `T` multiplies.
    pub open spec fn scale<T: Scalar>(self, k: int) -> Size3 {
        Size3 { width: T::mul_val(self.width, k), height: T::mul_val(self.height, k), depth: T::mul_val(self.depth, k) }
    }

    /// Every component divided by `k`, as the scalar type `T` divides.
    pub open spec fn div<T: Scalar>(self, k: int) -> Size3 {
        Size3 { width: T::div_val(self.width, k), height: T::div_val(self.height, k), depth: T::div_val(self.depth, k) }
    }

    /// Every component rounded down to a whole scalar of `T`.
    pub open spec fn floor<T: Scalar>(self) -> Size3 {
        Size3 { width: T::floor_val(self.width), height: T::floor_val(self.height), depth: T::floor_val(self.depth) }
    }

    /// Every component rounded up to a whole scalar of `T`.
    pub open spec fn ceil<T: Scalar>(self) -> Size3 {
        Size3 { width: T::ceil_val(self.width), height: T::ceil_val(self.height), depth: T::ceil_val(self.depth) }
    }

    /// Every component rounded to the nearest whole scalar of `T`, as the
    /// floor of the component plus one half.
    pub open spec fn round<T: Scalar>(self) -> Size3 {
        Size3 { width: T::round_val(self.width), height: T::round_val(self.height), depth: T::round_val(self.depth) }
    }

    /// Every component cast from the scalar type `T0` to `T1`.
    pub open spec fn cast<T0: Scalar, T1: Scalar>(self) -> Size3 {
        Size3 { width: cast_val::<T0, T1>(self.width), height: cast_val::<T0, T1>(self.height), depth: cast_val::<T0, T1>(self.depth) }
    }

    /// The lesser of the two values, component by component.
    pub open spec fn min(self, o: Size3) -> Size3 {
        Size3 { width: lesser(self.width, o.width), height: lesser(self.height, o.height), depth: lesser(self.depth, o.depth) }
    }

    /// The greater of the two values, component by component.
    pub open spec fn max(self, o: Size3) -> Size3 {
        Size3 { width: greater(self.width, o.width), height: greater(self.height, o.height), depth: greater(self.depth, o.depth) }
    }

    /// `self + (o - self) * t`: `self` at `t == 0`, `o` at `t == 1`.
    pub open spec fn lerp<T: Scalar>(self, o: Size3, t: int) -> Size3 {
        self.add(o.sub(self).scale::<T>(t))
    }

    pub open spec fn volume<T: Scalar>(self) -> int {
        T::mul_val(T::mul_val(self.width, self.height), self.depth)
    }

    pub open spec fn to_vector(self) -> Point3 {
        Point3 { x: self.width, y: self.height, z: self.depth }
    }

    /// Whether a region of this size holds no point: an extent is zero.
    pub open spec fn is_empty(self) -> bool {
        self.width == 0 || self.height == 0 || self.depth == 0
    }
}

/// Offsets from the four sides of a rectangle, as for borders and margins:
/// `y0` from the top, `x1` from the right, `y1` from the bottom, `x0` from the left.
pub struct Sides2 {
    pub y0: int,
    pub x1: int,
    pub y1: int,
    pub x0: int,
}

impl Sides2 {
    /// Whether the scalar type `T` can hold every offset.
    pub open spec fn fits<T: Scalar>(self) -> bool {
        fits::<T>(self.y0) && fits::<T>(self.x1) && fits::<T>(self.y1) && fits::<T>(self.x0)
    }

    pub open spec fn zero() -> Sides2 {
        Sides2 { y0: 0, x1: 0, y1: 0, x0: 0 }
    }

    pub open spec fn add(self, o: Sides2) -> Sides2 {
        Sides2 { y0: self.y0 + o.y0, x1: self.x1 + o.x1, y1: self.y1 + o.y1, x0: self.x0 + o.x0 }
    }

    /// The left and right offsets together.
    pub open spec fn horizontal(self) -> int {
        self.x0 + self.x1
    }

    /// The top and bottom offsets together.
    pub open spec fn vertical(self) -> int {
        self.y0 + self.y1
    }
}

/// Offsets from the six faces of a box.
pub struct Sides3 {
    pub top: int,
    pub right: int,
    pub bottom: int,
    pub left: int,
    pub front: int,
    pub back: int,
}

impl Sides3 {
    /// Whether the scalar type `T` can hold every offset.
    pub open spec fn fits<T: Scalar>(self) -> bool {
        &&& fits::<T>(self.top)
        &&& fits::<T>(self.right)
        &&& fits::<T>(self.bottom)
        &&& fits::<T>(self.left)
        &&& fits::<T>(self.front)
        &&& fits::<T>(self.back)
    }

    pub open spec fn zero() -> Sides3 {
        Sides3 { top: 0, right: 0, bottom: 0, left: 0, front: 0, back: 0 }
    }

    pub open spec fn add(self, o: Sides3) -> Sides3 {
        Sides3 {
            top: self.top + o.top,
            right: self.right + o.right,
            bottom: self.bottom + o.bottom,
            left: self.left + o.left,
            front: self.front + o.front,
            back: self.back + o.back,
        }
    }

    /// The left and right offsets together.
    pub open spec fn horizontal(self) -> int {
        self.left + self.right
    }

    /// The top and bottom offsets together.
    pub open spec fn vertical(self) -> int {
        self.top + self.bottom
    }

    /// The front and back offsets together.
    pub open spec fn applicate(self) -> int {
        self.front + self.back
    }
}

/// A rectangle of the plane, by its origin and its size: the half-open
/// region from `origin` up to, and without, `origin + size`.
pub struct Rect2 {
    pub origin: Point2,
    pub size: Size2,
}

impl Rect2 {
    pub open spec fn min_x(self) -> int {
        self.origin.x
    }

    pub open spec fn max_x(self) -> int {
        self.origin.x + self.size.width
    }

    pub open spec fn min_y(self) -> int {
        self.origin.y
    }

    pub open spec fn max_y(self) -> int {
        self.origin.y + self.size.height
    }

    /// Whether the scalar type `T` can hold the origin and the size.
    pub open spec fn fits<T: Scalar>(self) -> bool {
        self.origin.fits::<T>() && self.size.fits::<T>()
    }

    /// Whether the scalar type `T` can hold the far corner, `origin + size`.
    pub open spec fn spans<T: Scalar>(self) -> bool {
        fits::<T>(self.max_x()) && fits::<T>(self.max_y())
    }

    pub open spec fn zero() -> Rect2 {
        Rect2 { origin: Point2::zero(), size: Size2::zero() }
    }

    /// Whether the two rectangles overlap on both axes. Rectangles that only
    /// touch along an edge do not intersect.
    pub open spec fn intersects(self, o: Rect2) -> bool {
        &&& self.min_x() < o.max_x()
        &&& o.min_x() < self.max_x()
        &&& self.min_y() < o.max_y()
        &&& o.min_y() < self.max_y()
    }

    /// The rectangle between the greater of the near edges and the lesser of
    /// the far edges, on each axis.
    pub open spec fn overlap(self, o: Rect2) -> Rect2 {
        let x = greater(self.min_x(), o.min_x());
        let y = greater(self.min_y(), o.min_y());
        Rect2 {
            origin: Point2 { x, y },
            size: Size2 {
                width: lesser(self.max_x(), o.max_x()) - x,
                height: lesser(self.max_y(), o.max_y()) - y,
            },
        }
    }

    /// The overlap of two rectangles that intersect, and nothing otherwise.
    pub open spec fn intersection(self, o: Rect2) -> Option<Rect2> {
        if self.intersects(o) {
            Some(self.overlap(o))
        } else {
            None
        }
    }

    /// The rectangle between the lesser of the near edges and the greater of
    /// the far edges, on each axis.
    pub open spec fn envelope(self, o: Rect2) -> Rect2 {
        let x = lesser(self.min_x(), o.min_x());
        let y = lesser(self.min_y(), o.min_y());
        Rect2 {
            origin: Point2 { x, y },
            size: Size2 {
                width: greater(self.max_x(), o.max_x()) - x,
                height: greater(self.max_y(), o.max_y()) - y,
            },
        }
    }

    /// The envelope of the two rectangles, but that a rectangle whose size is
    /// zero is absorbed: the union is then the other rectangle, unchanged.
    pub open spec fn union(self, o: Rect2) -> Rect2 {
        if self.size == Size2::zero() {
            o
        } else if o.size == Size2::zero() {
            self
        } else {
            self.envelope(o)
        }
    }

    /// Whether the point lies in the rectangle. The near edges belong to the
    /// rectangle, the far edges do not.
    pub open spec fn contains(self, p: Point2) -> bool {
        &&& self.min_x() <= p.x < self.max_x()
        &&& self.min_y() <= p.y < self.max_y()
    }

    /// Whether an extent is zero.
    pub open spec fn is_empty(self) -> bool {
        self.size.is_empty()
    }

    /// Whether the edges of `o` lie within those of `self`.
    pub open spec fn encloses(self, o: Rect2) -> bool {
        &&& self.min_x() <= o.min_x()
        &&& o.max_x() <= self.max_x()
        &&& self.min_y() <= o.min_y()
        &&& o.max_y() <= self.max_y()
    }

    /// Whether `o` holds no point, or its edges lie within those of `self`.
    pub open spec fn contains_rect(self, o: Rect2) -> bool {
        o.is_empty() || self.encloses(o)
    }

    /// The rectangle grown by `width` to the left and to the right, and by
    /// `height` upward and downward.
    pub open spec fn inflate(self, width: int, height: int) -> Rect2 {
        Rect2 {
            origin: Point2 { x: self.origin.x - width, y: self.origin.y - height },
            size: Size2 {
                width: self.size.width + width + width,
                height: self.size.height + height + height,
            },
        }
    }

    pub open spec fn translate(self, by: Point2) -> Rect2 {
        Rect2 { origin: self.origin.add(by), size: self.size }
    }

    /// The origin and the size multiplied by `x` on the first axis and `y` on the second.
    pub open spec fn scale<T: Scalar>(self, x: int, y: int) -> Rect2 {
        Rect2 {
            origin: Point2 { x: T::mul_val(self.origin.x, x), y: T::mul_val(self.origin.y, y) },
            size: Size2 {
                width: T::mul_val(self.size.width, x),
                height: T::mul_val(self.size.height, y),
            },
        }
    }

    /// The origin and the size divided by `k`.
    pub open spec fn div<T: Scalar>(self, k: int) -> Rect2 {
        Rect2 { origin: self.origin.div::<T>(k), size: self.size.div::<T>(k) }
    }

    pub open spec fn lerp<T: Scalar>(self, o: Rect2, t: int) -> Rect2 {
        Rect2 { origin: self.origin.lerp::<T>(o.origin, t), size: self.size.lerp::<T>(o.size, t) }
    }

    /// The origin and the size cast from the scalar type `T0` to `T1`.
    pub open spec fn cast<T0: Scalar, T1: Scalar>(self) -> Rect2 {
        Rect2 { origin: self.origin.cast::<T0, T1>(), size: self.size.cast::<T0, T1>() }
    }

    /// The rectangle between the two corners `near` and `far`.
    pub open spec fn between(near: Point2, far: Point2) -> Rect2 {
        Rect2 { origin: near, size: far.sub(near).to_size() }
    }

    /// The rectangle with every edge rounded to the nearest whole scalar.
    pub open spec fn round<T: Scalar>(self) -> Rect2 {
        Rect2::between(self.origin.round::<T>(), self.bottom_right().round::<T>())
    }

    /// The rectangle with every edge rounded inward to a whole scalar.
    pub open spec fn round_in<T: Scalar>(self) -> Rect2 {
        Rect2::between(self.origin.ceil::<T>(), self.bottom_right().floor::<T>())
    }

    /// The rectangle with every edge rounded outward to a whole scalar.
    pub open spec fn round_out<T: Scalar>(self) -> Rect2 {
        Rect2::between(self.origin.floor::<T>(), self.bottom_right().ceil::<T>())
    }

    pub open spec fn top_right(self) -> Point2 {
        Point2 { x: self.max_x(), y: self.origin.y }
    }

    pub open spec fn bottom_left(self) -> Point2 {
        Point2 { x: self.origin.x, y: self.max_y() }
    }

    pub open spec fn bottom_right(self) -> Point2 {
        Point2 { x: self.max_x(), y: self.max_y() }
    }

    pub open spec fn to_box(self) -> Box2 {
        Box2 { min: self.origin, max: self.bottom_right() }
    }

    /// Whether `self` is the least rectangle whose closed extent holds every
    /// point of `points`: each edge passes through one of the points, and no
    /// point lies beyond an edge.
    pub open spec fn bounds(self, points: Seq<Point2>) -> bool {
        &&& forall|i: int|
            0 <= i < points.len() ==> self.min_x() <= (#[trigger] points[i]).x <= self.max_x()
                && self.min_y() <= points[i].y <= self.max_y()
        &&& exists|i: int| 0 <= i < points.len() && (#[trigger] points[i]).x == self.min_x()
        &&& exists|i: int| 0 <= i < points.len() && (#[trigger] points[i]).x == self.max_x()
        &&& exists|i: int| 0 <= i < points.len() && (#[trigger] points[i]).y == self.min_y()
        &&& exists|i: int| 0 <= i < points.len() && (#[trigger] points[i]).y == self.max_y()
    }
}

/// A rectangle of the plane, by its least and its greatest corner.
pub struct Box2 {
    pub min: Point2,
    pub max: Point2,
}

impl Box2 {
    /// Whether the scalar type `T` can hold both corners.
    pub open spec fn fits<T: Scalar>(self) -> bool {
        self.min.fits::<T>() && self.max.fits::<T>()
    }

    /// The extent of the box on each axis, negative where the corners are reversed.
    pub open spec fn size(self) -> Size2 {
        Size2 { width: self.max.x - self.min.x, height: self.max.y - self.min.y }
    }

    /// Whether an extent is zero or negative.
    pub open spec fn is_empty_or_negative(self) -> bool {
        self.size().width <= 0 || self.size().height <= 0
    }

    /// The rectangle with the same corners, for a box with positive extents.
    pub open spec fn to_rect(self) -> Option<Rect2> {
        if self.is_empty_or_negative() {
            None
        } else {
            Some(Rect2 { origin: self.min, size: self.size() })
        }
    }

    /// Whether the two boxes overlap on both axes.
    pub open spec fn intersects(self, o: Box2) -> bool {
        &&& self.min.x < o.max.x
        &&& o.min.x < self.max.x
        &&& self.min.y < o.max.y
        &&& o.min.y < self.max.y
    }

    /// The box between the greater of the least corners and the lesser of the
    /// greatest corners.
    pub open spec fn overlap(self, o: Box2) -> Box2 {
        Box2 { min: self.min.max(o.min), max: self.max.min(o.max) }
    }

    /// The overlap of two boxes that intersect, and nothing otherwise.
    pub open spec fn intersection(self, o: Box2) -> Option<Box2> {
        if self.intersects(o) {
            Some(self.overlap(o))
        } else {
            None
        }
    }

    /// The box between the lesser of the least corners and the greater of the
    /// greatest corners.
    pub open spec fn union(self, o: Box2) -> Box2 {
        Box2 { min: self.min.min(o.min), max: self.max.max(o.max) }
    }

    /// Whether the point lies in the box. The least edges belong to the box,
    /// the greatest edges do not.
    pub open spec fn contains(self, p: Point2) -> bool {
        &&& self.min.x <= p.x < self.max.x
        &&& self.min.y <= p.y < self.max.y
    }

    /// Whether the corners of `o` lie within those of `self`.
    pub open spec fn encloses(self, o: Box2) -> bool {
        &&& self.min.x <= o.min.x
        &&& o.max.x <= self.max.x
        &&& self.min.y <= o.min.y
        &&& o.max.y <= self.max.y
    }

    /// Whether `o` holds no point, or its corners lie within those of `self`.
    pub open spec fn contains_box(self, o: Box2) -> bool {
        o.is_empty_or_negative() || self.encloses(o)
    }

    pub open spec fn lerp<T: Scalar>(self, o: Box2, t: int) -> Box2 {
        Box2 { min: self.min.lerp::<T>(o.min, t), max: self.max.lerp::<T>(o.max, t) }
    }
}

/// A box of space by two corners: `a`, the upper left front corner, holds
/// the least `x` and the greatest `y` and `z`; `b`, the lower right back
/// corner, holds the greatest `x` and the least `y` and `z`.
pub struct Box3 {
    pub a: Point3,
    pub b: Point3,
}

impl Box3 {
    pub open spec fn min_x(self) -> int {
        self.a.x
    }

    pub open spec fn max_x(self) -> int {
        self.b.x
    }

    pub open spec fn min_y(self) -> int {
        self.b.y
    }

    pub open spec fn max_y(self) -> int {
        self.a.y
    }

    pub open spec fn min_z(self) -> int {
        self.b.z
    }

    pub open spec fn max_z(self) -> int {
        self.a.z
    }

    /// Whether the scalar type `T` can hold both corners.
    pub open spec fn fits<T: Scalar>(self) -> bool {
        self.a.fits::<T>() && self.b.fits::<T>()
    }

    pub open spec fn zero() -> Box3 {
        Box3 { a: Point3::zero(), b: Point3::zero() }
    }

    /// The box with the given least and greatest coordinate on each axis.
    pub open spec fn from_min_max(
        min_x: int,
        min_y: int,
        min_z: int,
        max_x: int,
        max_y: int,
        max_z: int,
    ) -> Box3 {
        Box3 {
            a: Point3 { x: min_x, y: max_y, z: max_z },
            b: Point3 { x: max_x, y: min_y, z: min_z },
        }
    }

    /// The box of the given size whose centre is the origin: each extent,
    /// or its negative, divided by two.
    pub open spec fn from_size<T: Scalar>(s: Size3) -> Box3 {
        Box3 {
            a: Point3 {
                x: T::div_val(-s.width, two_val::<T>()),
                y: T::div_val(s.height, two_val::<T>()),
                z: T::div_val(s.depth, two_val::<T>()),
            },
            b: Point3 {
                x: T::div_val(s.width, two_val::<T>()),
                y: T::div_val(-s.height, two_val::<T>()),
                z: T::div_val(-s.depth, two_val::<T>()),
            },
        }
    }

    /// The extent of the box on each axis, negative where the corners are reversed.
    pub open spec fn size(self) -> Size3 {
        Size3 {
            width: self.max_x() - self.min_x(),
            height: self.max_y() - self.min_y(),
            depth: self.max_z() - self.min_z(),
        }
    }

    /// Whether the two boxes overlap on all three axes.
    pub open spec fn intersects(self, o: Box3) -> bool {
        &&& self.min_x() < o.max_x()
        &&& self.max_x() > o.min_x()
        &&& self.min_y() < o.max_y()
        &&& self.max_y() > o.min_y()
        &&& self.min_z() < o.max_z()
        &&& self.max_z() > o.min_z()
    }

    /// The box between the greater of the least and the lesser of the
    /// greatest coordinates, on each axis.
    pub open spec fn overlap(self, o: Box3) -> Box3 {
        Box3::from_min_max(
            greater(self.min_x(), o.min_x()),
            greater(self.min_y(), o.min_y()),
            greater(self.min_z(), o.min_z()),
            lesser(self.max_x(), o.max_x()),
            lesser(self.max_y(), o.max_y()),
            lesser(self.max_z(), o.max_z()),
        )
    }

    /// The overlap of two boxes that intersect, and nothing otherwise.
    pub open spec fn intersection(self, o: Box3) -> Option<Box3> {
        if self.intersects(o) {
            Some(self.overlap(o))
        } else {
            None
        }
    }

    /// The box between the lesser of the least and the greater of the
    /// greatest coordinates, on each axis.
    pub open spec fn union(self, o: Box3) -> Box3 {
        Box3::from_min_max(
            lesser(self.min_x(), o.min_x()),
            lesser(self.min_y(), o.min_y()),
            lesser(self.min_z(), o.min_z()),
            greater(self.max_x(), o.max_x()),
            greater(self.max_y(), o.max_y()),
            greater(self.max_z(), o.max_z()),
        )
    }

    /// Whether the point lies in the box. On each axis the least face
    /// belongs to the box and the greatest face does not.
    pub open spec fn contains(self, p: Point3) -> bool {
        &&& self.min_x() <= p.x < self.max_x()
        &&& self.min_y() <= p.y < self.max_y()
        &&& self.min_z() <= p.z < self.max_z()
    }

    /// Whether an extent is zero.
    pub open spec fn is_empty(self) -> bool {
        self.size().is_empty()
    }

    /// Whether an extent is zero or negative.
    pub open spec fn is_empty_or_negative(self) -> bool {
        self.size().width <= 0 || self.size().height <= 0 || self.size().depth <= 0
    }

    /// Whether the faces of `o` lie within those of `self`.
    pub open spec fn encloses(self, o: Box3) -> bool {
        &&& self.min_x() <= o.min_x()
        &&& o.max_x() <= self.max_x()
        &&& self.min_y() <= o.min_y()
        &&& o.max_y() <= self.max_y()
        &&& self.min_z() <= o.min_z()
        &&& o.max_z() <= self.max_z()
    }

    /// Whether `o` holds no point, or its faces lie within those of `self`.
    pub open spec fn contains_box(self, o: Box3) -> bool {
        o.is_empty() || self.encloses(o)
    }

    /// The box grown by `width`, `height` and `depth` on either side of the
    /// respective axis: every face moved outward by the given amount.
    pub open spec fn inflate(self, width: int, height: int, depth: int) -> Box3 {
        Box3 {
            a: Point3 { x: self.a.x - width, y: self.a.y + height, z: self.a.z + depth },
            b: Point3 { x: self.b.x + width, y: self.b.y - height, z: self.b.z - depth },
        }
    }

    /// The box with every face moved inward by its offset.
    pub open spec fn inner_box(self, s: Sides3) -> Box3 {
        Box3 {
            a: Point3 { x: self.a.x + s.left, y: self.a.y - s.top, z: self.a.z - s.front },
            b: Point3 { x: self.b.x - s.right, y: self.b.y + s.bottom, z: self.b.z + s.back },
        }
    }

    /// The box with every face moved outward by its offset.
    pub open spec fn outer_box(self, s: Sides3) -> Box3 {
        Box3 {
            a: Point3 { x: self.a.x - s.left, y: self.a.y + s.top, z: self.a.z + s.front },
            b: Point3 { x: self.b.x + s.right, y: self.b.y - s.bottom, z: self.b.z - s.back },
        }
    }

    pub open spec fn translate(self, by: Point3) -> Box3 {
        Box3 { a: self.a.add(by), b: self.b.add(by) }
    }

    pub open spec fn lerp<T: Scalar>(self, o: Box3, t: int) -> Box3 {
        Box3 { a: self.a.lerp::<T>(o.a, t), b: self.b.lerp::<T>(o.b, t) }
    }

    /// The midpoint of the two corners: their sum divided by two.
    pub open spec fn center<T: Scalar>(self) -> Point3 {
        self.a.add(self.b).div::<T>(two_val::<T>())
    }

    /// Both corners multiplied by `x`, `y` and `z` on the respective axes.
    pub open spec fn scale<T: Scalar>(self, x: int, y: int, z: int) -> Box3 {
        Box3 {
            a: Point3 {
                x: T::mul_val(self.a.x, x),
                y: T::mul_val(self.a.y, y),
                z: T::mul_val(self.a.z, z),
            },
            b: Point3 {
                x: T::mul_val(self.b.x, x),
                y: T::mul_val(self.b.y, y),
                z: T::mul_val(self.b.z, z),
            },
        }
    }

    /// Both corners multiplied by `k`.
    pub open spec fn mul<T: Scalar>(self, k: int) -> Box3 {
        Box3 { a: self.a.scale::<T>(k), b: self.b.scale::<T>(k) }
    }

    /// Both corners divided by `k`.
    pub open spec fn div<T: Scalar>(self, k: int) -> Box3 {
        Box3 { a: self.a.div::<T>(k), b: self.b.div::<T>(k) }
    }

    /// Both corners cast from the scalar type `T0` to `T1`.
    pub open spec fn cast<T0: Scalar, T1: Scalar>(self) -> Box3 {
        Box3 { a: self.a.cast::<T0, T1>(), b: self.b.cast::<T0, T1>() }
    }

    pub open spec fn volume<T: Scalar>(self) -> int {
        self.size().volume::<T>()
    }

    pub open spec fn front_area<T: Scalar>(self) -> int {
        T::mul_val(self.size().width, self.size().height)
    }

    pub open spec fn left_area<T: Scalar>(self) -> int {
        T::mul_val(self.size().depth, self.size().height)
    }

    pub open spec fn top_area<T: Scalar>(self) -> int {
        T::mul_val(self.size().depth, self.size().width)
    }

    /// The box with every face rounded to the nearest whole scalar.
    pub open spec fn round<T: Scalar>(self) -> Box3 {
        Box3 { a: self.a.round::<T>(), b: self.b.round::<T>() }
    }

    /// The box with every face rounded inward to a whole scalar.
    pub open spec fn round_in<T: Scalar>(self) -> Box3 {
        Box3::from_min_max(
            T::ceil_val(self.min_x()),
            T::ceil_val(self.min_y()),
            T::ceil_val(self.min_z()),
            T::floor_val(self.max_x()),
            T::floor_val(self.max_y()),
            T::floor_val(self.max_z()),
        )
    }

    /// The box with every face rounded outward to a whole scalar.
    pub open spec fn round_out<T: Scalar>(self) -> Box3 {
        Box3::from_min_max(
            T::floor_val(self.min_x()),
            T::floor_val(self.min_y()),
            T::floor_val(self.min_z()),
            T::ceil_val(self.max_x()),
            T::ceil_val(self.max_y()),
            T::ceil_val(self.max_z()),
        )
    }

    /// Whether `self` is the least box whose closed extent holds every point
    /// of `points`: each face passes through one of the points, and no point
    /// lies beyond a face.
    pub open spec fn bounds(self, points: Seq<Point3>) -> bool {
        &&& forall|i: int|
            0 <= i < points.len() ==> self.min_x() <= (#[trigger] points[i]).x <= self.max_x()
                && self.min_y() <= points[i].y <= self.max_y() && self.min_z() <= points[i].z
                <= self.max_z()
        &&& exists|i: int| 0 <= i < points.len() && (#[trigger] points[i]).x == self.min_x()
        &&& exists|i: int| 0 <= i < points.len() && (#[trigger] points[i]).x == self.max_x()
        &&& exists|i: int| 0 <= i < points.len() && (#[trigger] points[i]).y == self.min_y()
        &&& exists|i: int| 0 <= i < points.len() && (#[trigger] points[i]).y == self.max_y()
        &&& exists|i: int| 0 <= i < points.len() && (#[trigger] points[i]).z == self.min_z()
        &&& exists|i: int| 0 <= i < points.len() && (#[trigger] points[i]).z == self.max_z()
    }
}

/// A box of space by its origin, the corner of least coordinates, and its
/// size: the half-open region from `origin` up to, and without, `origin + size`.
pub struct Cuboid3 {
    pub origin: Point3,
    pub size: Size3,
}

impl Cuboid3 {
    pub open spec fn min_x(self) -> int {
        self.origin.x
    }

    pub open spec fn max_x(self) -> int {
        self.origin.x + self.size.width
    }

    pub open spec fn min_y(self) -> int {
        self.origin.y
    }

    pub open spec fn max_y(self) -> int {
        self.origin.y + self.size.height
    }

    pub open spec fn min_z(self) -> int {
        self.origin.z
    }

    pub open spec fn max_z(self) -> int {
        self.origin.z + self.size.depth
    }

    /// Whether the scalar type `T` can hold the origin and the size.
    pub open spec fn fits<T: Scalar>(self) -> bool {
        self.origin.fits::<T>() && self.size.fits::<T>()
    }

    /// Whether the scalar type `T` can hold the far corner, `origin + size`.
    pub open spec fn spans<T: Scalar>(self) -> bool {
        fits::<T>(self.max_x()) && fits::<T>(self.max_y()) && fits::<T>(self.max_z())
    }

    pub open spec fn zero() -> Cuboid3 {
        Cuboid3 { origin: Point3::zero(), size: Size3::zero() }
    }

    /// Whether the two cuboids overlap on all three axes.
    pub open spec fn intersects(self, o: Cuboid3) -> bool {
        &&& self.min_x() < o.max_x()
        &&& o.min_x() < self.max_x()
        &&& self.min_y() < o.max_y()
        &&& o.min_y() < self.max_y()
        &&& self.min_z() < o.max_z()
        &&& o.min_z() < self.max_z()
    }

    /// The cuboid between the greater of the near faces and the lesser of the
    /// far faces, on each axis.
    pub open spec fn overlap(self, o: Cuboid3) -> Cuboid3 {
        let x = greater(self.min_x(), o.min_x());
        let y = greater(self.min_y(), o.min_y());
        let z = greater(self.min_z(), o.min_z());
        Cuboid3 {
            origin: Point3 { x, y, z },
            size: Size3 {
                width: lesser(self.max_x(), o.max_x()) - x,
                height: lesser(self.max_y(), o.max_y()) - y,
                depth: lesser(self.max_z(), o.max_z()) - z,
            },
        }
    }

    /// The overlap of two cuboids that intersect, and nothing otherwise.
    pub open spec fn intersection(self, o: Cuboid3) -> Option<Cuboid3> {
        if self.intersects(o) {
            Some(self.overlap(o))
        } else {
            None
        }
    }

    /// The cuboid between the lesser of the near faces and the greater of the
    /// far faces, on each axis.
    pub open spec fn envelope(self, o: Cuboid3) -> Cuboid3 {
        let x = lesser(self.min_x(), o.min_x());
        let y = lesser(self.min_y(), o.min_y());
        let z = lesser(self.min_z(), o.min_z());
        Cuboid3 {
            origin: Point3 { x, y, z },
            size: Size3 {
                width: greater(self.max_x(), o.max_x()) - x,
                height: greater(self.max_y(), o.max_y()) - y,
                depth: greater(self.max_z(), o.max_z()) - z,
            },
        }
    }

    /// The envelope of the two cuboids, but that a cuboid whose size is zero
    /// is absorbed: the union is then the other cuboid, unchanged.
    pub open spec fn union(self, o: Cuboid3) -> Cuboid3 {
        if self.size == Size3::zero() {
            o
        } else if o.size == Size3::zero() {
            self
        } else {
            self.envelope(o)
        }
    }

    /// Whether the point lies in the cuboid. The near faces belong to the
    /// cuboid, the far faces do not.
    pub open spec fn contains(self, p: Point3) -> bool {
        &&& self.min_x() <= p.x < self.max_x()
        &&& self.min_y() <= p.y < self.max_y()
        &&& self.min_z() <= p.z < self.max_z()
    }

    /// Whether an extent is zero.
    pub open spec fn is_empty(self) -> bool {
        self.size.is_empty()
    }

    /// Whether the faces of `o` lie within those of `self`.
    pub open spec fn encloses(self, o: Cuboid3) -> bool {
        &&& self.min_x() <= o.min_x()
        &&& o.max_x() <= self.max_x()
        &&& self.min_y() <= o.min_y()
        &&& o.max_y() <= self.max_y()
        &&& self.min_z() <= o.min_z()
        &&& o.max_z() <= self.max_z()
    }

    /// Whether `o` holds no point, or its faces lie within those of `self`.
    pub open spec fn contains_box(self, o: Cuboid3) -> bool {
        o.is_empty() || self.encloses(o)
    }

    /// The cuboid grown by `width`, `height` and `depth` on either side of
    /// the respective axis.
    pub open spec fn inflate(self, width: int, height: int, depth: int) -> Cuboid3 {
        Cuboid3 {
            origin: Point3 {
                x: self.origin.x - width,
                y: self.origin.y - height,
                z: self.origin.z - depth,
            },
            size: Size3 {
                width: self.size.width + width + width,
                height: self.size.height + height + height,
                depth: self.size.depth + depth + depth,
            },
        }
    }

    /// The cuboid with every face moved inward by its offset.
    pub open spec fn inner_box(self, s: Sides3) -> Cuboid3 {
        Cuboid3 {
            origin: Point3 {
                x: self.origin.x + s.left,
                y: self.origin.y + s.top,
                z: self.origin.z + s.front,
            },
            size: Size3 {
                width: self.size.width - s.horizontal(),
                height: self.size.height - s.vertical(),
                depth: self.size.depth - s.applicate(),
            },
        }
    }

    /// The cuboid with every face moved outward by its offset.
    pub open spec fn outer_box(self, s: Sides3) -> Cuboid3 {
        Cuboid3 {
            origin: Point3 {
                x: self.origin.x - s.left,
                y: self.origin.y - s.top,
                z: self.origin.z - s.front,
            },
            size: Size3 {
                width: self.size.width + s.horizontal(),
                height: self.size.height + s.vertical(),
                depth: self.size.depth + s.applicate(),
            },
        }
    }

    pub open spec fn translate(self, by: Point3) -> Cuboid3 {
        Cuboid3 { origin: self.origin.add(by), size: self.size }
    }

    pub open spec fn lerp<T: Scalar>(self, o: Cuboid3, t: int) -> Cuboid3 {
        Cuboid3 {
            origin: self.origin.lerp::<T>(o.origin, t),
            size: self.size.lerp::<T>(o.size, t),
        }
    }

    /// The origin moved by half the size.
    pub open spec fn center<T: Scalar>(self) -> Point3 {
        self.origin.add(self.size.to_vector().div::<T>(two_val::<T>()))
    }

    /// The origin and the size multiplied by `x`, `y` and `z` on the respective axes.
    pub open spec fn scale<T: Scalar>(self, x: int, y: int, z: int) -> Cuboid3 {
        Cuboid3 {
            origin: Point3 {
                x: T::mul_val(self.origin.x, x),
                y: T::mul_val(self.origin.y, y),
                z: T::mul_val(self.origin.z, z),
            },
            size: Size3 {
                width: T::mul_val(self.size.width, x),
                height: T::mul_val(self.size.height, y),
                depth: T::mul_val(self.size.depth, z),
            },
        }
    }

    /// The origin and the size multiplied by `k`.
    pub open spec fn mul<T: Scalar>(self, k: int) -> Cuboid3 {
        Cuboid3 { origin: self.origin.scale::<T>(k), size: self.size.scale::<T>(k) }
    }

    /// The origin and the size divided by `k`.
    pub open spec fn div<T: Scalar>(self, k: int) -> Cuboid3 {
        Cuboid3 { origin: self.origin.div::<T>(k), size: self.size.div::<T>(k) }
    }

    /// The origin and the size cast from the scalar type `T0` to `T1`.
    pub open spec fn cast<T0: Scalar, T1: Scalar>(self) -> Cuboid3 {
        Cuboid3 { origin: self.origin.cast::<T0, T1>(), size: self.size.cast::<T0, T1>() }
    }

    /// The corner opposite the origin.
    pub open spec fn far(self) -> Point3 {
        self.origin.add_size(self.size)
    }

    /// The cuboid between the two corners `near` and `far`.
    pub open spec fn between(near: Point3, far: Point3) -> Cuboid3 {
        Cuboid3 { origin: near, size: far.sub(near).to_size() }
    }

    /// The cuboid with every face rounded to the nearest whole scalar.
    pub open spec fn round<T: Scalar>(self) -> Cuboid3 {
        Cuboid3::between(self.origin.round::<T>(), self.far().round::<T>())
    }

    /// The cuboid with every face rounded inward to a whole scalar.
    pub open spec fn round_in<T: Scalar>(self) -> Cuboid3 {
        Cuboid3::between(self.origin.ceil::<T>(), self.far().floor::<T>())
    }

    /// The cuboid with every face rounded outward to a whole scalar.
    pub open spec fn round_out<T: Scalar>(self) -> Cuboid3 {
        Cuboid3::between(self.origin.floor::<T>(), self.far().ceil::<T>())
    }

    /// Whether `self` is the least cuboid whose closed extent holds every
    /// point of `points`: each face passes through one of the points, and no
    /// point lies beyond a face.
    pub open spec fn bounds(self, points: Seq<Point3>) -> bool {
        &&& forall|i: int|
            0 <= i < points.len() ==> self.min_x() <= (#[trigger] points[i]).x <= self.max_x()
                && self.min_y() <= points[i].y <= self.max_y() && self.min_z() <= points[i].z
                <= self.max_z()
        &&& exists|i: int| 0 <= i < points.len() && (#[trigger] points[i]).x == self.min_x()
        &&& exists|i: int| 0 <= i < points.len() && (#[trigger] points[i]).x == self.max_x()
        &&& exists|i: int| 0 <= i < points.len() && (#[trigger] points[i]).y == self.min_y()
        &&& exists|i: int| 0 <= i < points.len() && (#[trigger] points[i]).y == self.max_y()
        &&& exists|i: int| 0 <= i < points.len() && (#[trigger] points[i]).z == self.min_z()
        &&& exists|i: int| 0 <= i < points.len() && (#[trigger] points[i]).z == self.max_z()
    }
}

/// A 2d affine transformation as three rows of two: a point `(x, y)` goes
/// to `(x * m11 + y * m21 + m31, x * m12 + y * m22 + m32)`.
pub struct Mat2 {
    pub m11: int,
    pub m12: int,
    pub m21: int,
    pub m22: int,
    pub m31: int,
    pub m32: int,
}

impl Mat2 {
    /// Whether the scalar type `T` can hold every term.
    pub open spec fn fits<T: Scalar>(self) -> bool {
        fits::<T>(self.m11)
            && fits::<T>(self.m12) && fits::<T>(self.m21) && fits::<T>(self.m22)
            && fits::<T>(self.m31) && fits::<T>(self.m32)
    }

    /// Whether every term of `self` differs from that of `o` by less than
    /// the epsilon of the scalar type `T`.
    pub open spec fn approx_eq<T: Scalar>(self, o: Mat2) -> bool {
        near::<T>(self.m11, o.m11)
            && near::<T>(self.m12, o.m12) && near::<T>(self.m21, o.m21)
            && near::<T>(self.m22, o.m22) && near::<T>(self.m31, o.m31)
            && near::<T>(self.m32, o.m32)
    }

    /// The transformation that leaves every point where it is.
    pub open spec fn identity<T: Scalar>() -> Mat2 {
        Mat2 { m11: T::unit(), m12: 0, m21: 0, m22: T::unit(), m31: 0, m32: 0 }
    }

    /// The transformation that moves every point by `(x, y)`.
    pub open spec fn create_translation<T: Scalar>(x: int, y: int) -> Mat2 {
        Mat2 { m11: T::unit(), m12: 0, m21: 0, m22: T::unit(), m31: x, m32: y }
    }

    /// The transformation that multiplies the first coordinate by `x` and the second by `y`.
    pub open spec fn create_scale(x: int, y: int) -> Mat2 {
        Mat2 { m11: x, m12: 0, m21: 0, m22: y, m31: 0, m32: 0 }
    }

    /// The transformation that applies `self` first and `o` second.
    pub open spec fn post_mul<T: Scalar>(self, o: Mat2) -> Mat2 {
        Mat2 {
            m11: T::mul_val(self.m11, o.m11) + T::mul_val(self.m12, o.m21),
            m12: T::mul_val(self.m11, o.m12) + T::mul_val(self.m12, o.m22),
            m21: T::mul_val(self.m21, o.m11) + T::mul_val(self.m22, o.m21),
            m22: T::mul_val(self.m21, o.m12) + T::mul_val(self.m22, o.m22),
            m31: T::mul_val(self.m31, o.m11) + T::mul_val(self.m32, o.m21) + o.m31,
            m32: T::mul_val(self.m31, o.m12) + T::mul_val(self.m32, o.m22) + o.m32,
        }
    }

    /// Whether every step of computing `self.post_mul(o)` fits the scalar type `T`.
    pub open spec fn post_mul_fits<T: Scalar>(self, o: Mat2) -> bool {
        let t1 = T::mul_val(self.m11, o.m11);
        let t2 = T::mul_val(self.m12, o.m21);
        let t3 = t1 + t2;
        let t4 = T::mul_val(self.m11, o.m12);
        let t5 = T::mul_val(self.m12, o.m22);
        let t6 = t4 + t5;
        let t7 = T::mul_val(self.m21, o.m11);
        let t8 = T::mul_val(self.m22, o.m21);
        let t9 = t7 + t8;
        let t10 = T::mul_val(self.m21, o.m12);
        let t11 = T::mul_val(self.m22, o.m22);
        let t12 = t10 + t11;
        let t13 = T::mul_val(self.m31, o.m11);
        let t14 = T::mul_val(self.m32, o.m21);
        let t15 = t13 + t14;
        let t16 = t15 + o.m31;
        let t17 = T::mul_val(self.m31, o.m12);
        let t18 = T::mul_val(self.m32, o.m22);
        let t19 = t17 + t18;
        let t20 = t19 + o.m32;
        &&& fits::<T>(t1)
        &&& fits::<T>(t2)
        &&& fits::<T>(t3)
        &&& fits::<T>(t4)
        &&& fits::<T>(t5)
        &&& fits::<T>(t6)
        &&& fits::<T>(t7)
        &&& fits::<T>(t8)
        &&& fits::<T>(t9)
        &&& fits::<T>(t10)
        &&& fits::<T>(t11)
        &&& fits::<T>(t12)
        &&& fits::<T>(t13)
        &&& fits::<T>(t14)
        &&& fits::<T>(t15)
        &&& fits::<T>(t16)
        &&& fits::<T>(t17)
        &&& fits::<T>(t18)
        &&& fits::<T>(t19)
        &&& fits::<T>(t20)
    }

    /// The transformation that applies `o` first and `self` second.
    pub open spec fn pre_mul<T: Scalar>(self, o: Mat2) -> Mat2 {
        o.post_mul::<T>(self)
    }

    /// `self` with `m11` multiplied by `x` and `m22` by `y`.
    pub open spec fn pre_scaled<T: Scalar>(self, x: int, y: int) -> Mat2 {
        Mat2 {
            m11: T::mul_val(self.m11, x),
            m12: self.m12,
            m21: self.m21,
            m22: T::mul_val(self.m22, y),
            m31: self.m31,
            m32: self.m32,
        }
    }

    /// Whether every step of computing `self.pre_scaled(x, y)` fits the scalar type `T`.
    pub open spec fn pre_scaled_fits<T: Scalar>(self, x: int, y: int) -> bool {
        let t1 = T::mul_val(self.m11, x);
        let t2 = T::mul_val(self.m22, y);
        &&& fits::<T>(t1)
        &&& fits::<T>(t2)
    }

    /// Where the transformation takes the point `p`.
    pub open spec fn transform_point<T: Scalar>(self, p: Point2) -> Point2 {
        Point2 { x: T::mul_val(p.x, self.m11)
            + T::mul_val(p.y, self.m21) + self.m31, y: T::mul_val(p.x, self.m12)
            + T::mul_val(p.y, self.m22) + self.m32 }
    }

    /// Whether every step of transforming `p` fits the scalar type `T`.
    pub open spec fn transform_point_fits<T: Scalar>(self, p: Point2) -> bool {
        let t1 = T::mul_val(p.x, self.m11);
        let t2 = T::mul_val(p.y, self.m21);
        let t3 = t1 + t2;
        let t4 = t3 + self.m31;
        let t5 = T::mul_val(p.x, self.m12);
        let t6 = T::mul_val(p.y, self.m22);
        let t7 = t5 + t6;
        let t8 = t7 + self.m32;
        &&& fits::<T>(t1)
        &&& fits::<T>(t2)
        &&& fits::<T>(t3)
        &&& fits::<T>(t4)
        &&& fits::<T>(t5)
        &&& fits::<T>(t6)
        &&& fits::<T>(t7)
        &&& fits::<T>(t8)
    }

    /// Where the transformation takes the four corners of `r`: the origin,
    /// the top right, the bottom left and the bottom right corner, in this order.
    pub open spec fn transform_corners<T: Scalar>(self, r: Rect2) -> Seq<Point2> {
        seq![
            self.transform_point::<T>(r.origin),
            self.transform_point::<T>(r.top_right()),
            self.transform_point::<T>(r.bottom_left()),
            self.transform_point::<T>(r.bottom_right()),
        ]
    }

    pub open spec fn determinant<T: Scalar>(self) -> int {
        T::mul_val(self.m11, self.m22) - T::mul_val(self.m12, self.m21)
    }

    /// Whether every step of computing the determinant fits the scalar type `T`.
    pub open spec fn determinant_fits<T: Scalar>(self) -> bool {
        let t1 = T::mul_val(self.m11, self.m22);
        let t2 = T::mul_val(self.m12, self.m21);
        let t3 = t1 - t2;
        &&& fits::<T>(t1)
        &&& fits::<T>(t2)
        &&& fits::<T>(t3)
    }

    /// The adjugate multiplied by `1 / determinant`, as the scalar type `T`
    /// divides and multiplies.
    pub open spec fn inverse<T: Scalar>(self) -> Mat2 {
        Mat2 {
            m11: T::mul_val(T::div_val(T::unit(), self.determinant::<T>()), self.m22),
            m12: T::mul_val(T::div_val(T::unit(), self.determinant::<T>()), 0 - self.m12),
            m21: T::mul_val(T::div_val(T::unit(), self.determinant::<T>()), 0 - self.m21),
            m22: T::mul_val(T::div_val(T::unit(), self.determinant::<T>()), self.m11),
            m31: T::mul_val(T::div_val(T::unit(), self.determinant::<T>()), T::mul_val(
                self.m21, self.m32,
            )
                - T::mul_val(self.m22, self.m31)),
            m32: T::mul_val(T::div_val(T::unit(), self.determinant::<T>()), T::mul_val(
                self.m31, self.m12,
            )
                - T::mul_val(self.m11, self.m32)),
        }
    }

    /// Whether every step of computing the inverse fits the scalar type `T`.
    pub open spec fn inverse_fits<T: Scalar>(self) -> bool {
        let t1 = T::div_val(T::unit(), self.determinant::<T>());
        let t2 = T::mul_val(t1, self.m22);
        let t3 = 0 - self.m12;
        let t4 = T::mul_val(t1, t3);
        let t5 = 0 - self.m21;
        let t6 = T::mul_val(t1, t5);
        let t7 = T::mul_val(t1, self.m11);
        let t8 = T::mul_val(self.m21, self.m32);
        let t9 = T::mul_val(self.m22, self.m31);
        let t10 = t8 - t9;
        let t11 = T::mul_val(t1, t10);
        let t12 = T::mul_val(self.m31, self.m12);
        let t13 = T::mul_val(self.m11, self.m32);
        let t14 = t12 - t13;
        let t15 = T::mul_val(t1, t14);
        &&& self.determinant::<T>() != 0
        &&& fits::<T>(t1)
        &&& fits::<T>(t2)
        &&& fits::<T>(t3)
        &&& fits::<T>(t4)
        &&& fits::<T>(t5)
        &&& fits::<T>(t6)
        &&& fits::<T>(t7)
        &&& fits::<T>(t8)
        &&& fits::<T>(t9)
        &&& fits::<T>(t10)
        &&& fits::<T>(t11)
        &&& fits::<T>(t12)
        &&& fits::<T>(t13)
        &&& fits::<T>(t14)
        &&& fits::<T>(t15)
    }
}

/// A 3d homogeneous transformation as four rows of four. A point, taken as
/// the row `(x, y, z, w)`, is multiplied by the matrix from the right.
pub struct Mat4 {
    pub m11: int,
    pub m12: int,
    pub m13: int,
    pub m14: int,
    pub m21: int,
    pub m22: int,
    pub m23: int,
    pub m24: int,
    pub m31: int,
    pub m32: int,
    pub m33: int,
    pub m34: int,
    pub m41: int,
    pub m42: int,
    pub m43: int,
    pub m44: int,
}

impl Mat4 {
    /// Whether the scalar type `T` can hold every term.
    pub open spec fn fits<T: Scalar>(self) -> bool {
        &&& fits::<T>(self.m11)
        &&& fits::<T>(self.m12)
        &&& fits::<T>(self.m13)
        &&& fits::<T>(self.m14)
        &&& fits::<T>(self.m21)
        &&& fits::<T>(self.m22)
        &&& fits::<T>(self.m23)
        &&& fits::<T>(self.m24)
        &&& fits::<T>(self.m31)
        &&& fits::<T>(self.m32)
        &&& fits::<T>(self.m33)
        &&& fits::<T>(self.m34)
        &&& fits::<T>(self.m41)
        &&& fits::<T>(self.m42)
        &&& fits::<T>(self.m43)
        &&& fits::<T>(self.m44)
    }

    /// Whether every term of `self` differs from that of `o` by less than
    /// the epsilon of the scalar type `T`.
    pub open spec fn approx_eq<T: Scalar>(self, o: Mat4) -> bool {
        &&& near::<T>(self.m11, o.m11)
        &&& near::<T>(self.m12, o.m12)
        &&& near::<T>(self.m13, o.m13)
        &&& near::<T>(self.m14, o.m14)
        &&& near::<T>(self.m21, o.m21)
        &&& near::<T>(self.m22, o.m22)
        &&& near::<T>(self.m23, o.m23)
        &&& near::<T>(self.m24, o.m24)
        &&& near::<T>(self.m31, o.m31)
        &&& near::<T>(self.m32, o.m32)
        &&& near::<T>(self.m33, o.m33)
        &&& near::<T>(self.m34, o.m34)
        &&& near::<T>(self.m41, o.m41)
        &&& near::<T>(self.m42, o.m42)
        &&& near::<T>(self.m43, o.m43)
        &&& near::<T>(self.m44, o.m44)
    }

    /// The transformation that leaves every point where it is.
    pub open spec fn identity<T: Scalar>() -> Mat4 {
        Mat4 {
            m11: T::unit(),
            m12: 0,
            m13: 0,
            m14: 0,
            m21: 0,
            m22: T::unit(),
            m23: 0,
            m24: 0,
            m31: 0,
            m32: 0,
            m33: T::unit(),
            m34: 0,
            m41: 0,
            m42: 0,
            m43: 0,
            m44: T::unit(),
        }
    }

    /// The 2d affine transformation `m11 .. m42` as a 3d transformation that leaves `z` alone.
    pub open spec fn new_2d<T: Scalar>(m11: int, m12: int, m21: int, m22: int, m41: int, m42: int) -> Mat4 {
        Mat4 {
            m11: m11,
            m12: m12,
            m13: 0,
            m14: 0,
            m21: m21,
            m22: m22,
            m23: 0,
            m24: 0,
            m31: 0,
            m32: 0,
            m33: T::unit(),
            m34: 0,
            m41: m41,
            m42: m42,
            m43: 0,
            m44: T::unit(),
        }
    }

    /// The transformation that moves every point by `(x, y, z)`.
    pub open spec fn create_translation<T: Scalar>(x: int, y: int, z: int) -> Mat4 {
        Mat4 {
            m11: T::unit(),
            m12: 0,
            m13: 0,
            m14: 0,
            m21: 0,
            m22: T::unit(),
            m23: 0,
            m24: 0,
            m31: 0,
            m32: 0,
            m33: T::unit(),
            m34: 0,
            m41: x,
            m42: y,
            m43: z,
            m44: T::unit(),
        }
    }

    /// The transformation that multiplies the coordinates by `x`, `y` and `z`.
    pub open spec fn create_scale<T: Scalar>(x: int, y: int, z: int) -> Mat4 {
        Mat4 {
            m11: x,
            m12: 0,
            m13: 0,
            m14: 0,
            m21: 0,
            m22: y,
            m23: 0,
            m24: 0,
            m31: 0,
            m32: 0,
            m33: z,
            m34: 0,
            m41: 0,
            m42: 0,
            m43: 0,
            m44: T::unit(),
        }
    }

    /// The 2d skew with the tangents `tan_alpha` and `tan_beta` of its two angles.
    pub open spec fn create_skew<T: Scalar>(tan_alpha: int, tan_beta: int) -> Mat4 {
        Mat4 {
            m11: T::unit(),
            m12: tan_beta,
            m13: 0,
            m14: 0,
            m21: tan_alpha,
            m22: T::unit(),
            m23: 0,
            m24: 0,
            m31: 0,
            m32: 0,
            m33: T::unit(),
            m34: 0,
            m41: 0,
            m42: 0,
            m43: 0,
            m44: T::unit(),
        }
    }

    /// The perspective projection from the distance `d`.
    pub open spec fn create_perspective<T: Scalar>(d: int) -> Mat4 {
        Mat4 {
            m11: T::unit(),
            m12: 0,
            m13: 0,
            m14: 0,
            m21: 0,
            m22: T::unit(),
            m23: 0,
            m24: 0,
            m31: 0,
            m32: 0,
            m33: T::unit(),
            m34: T::div_val(-T::unit(), d),
            m41: 0,
            m42: 0,
            m43: 0,
            m44: T::unit(),
        }
    }

    /// Whether every step of computing the perspective projection fits the scalar type `T`.
    pub open spec fn perspective_fits<T: Scalar>(d: int) -> bool {
        let t1 = -T::unit();
        let t2 = T::div_val(t1, d);
        &&& fits::<T>(t1)
        &&& d != 0
        &&& fits::<T>(t2)
    }

    /// The orthographic projection of the box between the given planes.
    pub open spec fn ortho<T: Scalar>(left: int, right: int, bottom: int, top: int, near: int, far: int) -> Mat4 {
        Mat4 {
            m11: T::div_val(two_val::<T>(), right - left),
            m12: 0,
            m13: 0,
            m14: 0,
            m21: 0,
            m22: T::div_val(two_val::<T>(), top - bottom),
            m23: 0,
            m24: 0,
            m31: 0,
            m32: 0,
            m33: T::div_val(-two_val::<T>(), far - near),
            m34: 0,
            m41: -T::div_val(right + left, right - left),
            m42: -T::div_val(top + bottom, top - bottom),
            m43: -T::div_val(far + near, far - near),
            m44: T::unit(),
        }
    }

    /// Whether every step of computing the orthographic projection fits the scalar type `T`.
    pub open spec fn ortho_fits<T: Scalar>(left: int, right: int, bottom: int, top: int, near: int, far: int) -> bool {
        let t1 = right + left;
        let t2 = right - left;
        let t3 = T::div_val(t1, t2);
        let t4 = -t3;
        let t5 = top + bottom;
        let t6 = top - bottom;
        let t7 = T::div_val(t5, t6);
        let t8 = -t7;
        let t9 = far + near;
        let t10 = far - near;
        let t11 = T::div_val(t9, t10);
        let t12 = -t11;
        let t13 = T::div_val(two_val::<T>(), t2);
        let t14 = T::div_val(two_val::<T>(), t6);
        let t15 = -two_val::<T>();
        let t16 = T::div_val(t15, t10);
        &&& fits::<T>(two_val::<T>())
        &&& fits::<T>(t1)
        &&& fits::<T>(t2)
        &&& t2 != 0
        &&& fits::<T>(t3)
        &&& fits::<T>(t4)
        &&& fits::<T>(t5)
        &&& fits::<T>(t6)
        &&& t6 != 0
        &&& fits::<T>(t7)
        &&& fits::<T>(t8)
        &&& fits::<T>(t9)
        &&& fits::<T>(t10)
        &&& t10 != 0
        &&& fits::<T>(t11)
        &&& fits::<T>(t12)
        &&& t2 != 0
        &&& fits::<T>(t13)
        &&& t6 != 0
        &&& fits::<T>(t14)
        &&& fits::<T>(t15)
        &&& t10 != 0
        &&& fits::<T>(t16)
    }

    /// The rotation about the unit axis `(x, y, z)` by the angle whose half
    /// has the sine `s` and the cosine `c`, given `sin_cos = s * c` and
    /// `sin_sq = s * s`.
    pub open spec fn create_rotation<T: Scalar>(x: int, y: int, z: int, sin_cos: int, sin_sq: int) -> Mat4 {
        Mat4 {
            m11: T::unit()
               
                   
                        - T::mul_val(
                            T::mul_val(two_val::<T>(), T::mul_val(y, y) + T::mul_val(z, z)), sin_sq,
                        ),
            m12: T::mul_val(two_val::<T>(), prod3::<T>(x, y, sin_sq) - T::mul_val(z, sin_cos)),
            m13: T::mul_val(two_val::<T>(), prod3::<T>(x, z, sin_sq) + T::mul_val(y, sin_cos)),
            m14: 0,
            m21: T::mul_val(two_val::<T>(), prod3::<T>(x, y, sin_sq) + T::mul_val(z, sin_cos)),
            m22: T::unit()
               
                   
                        - T::mul_val(
                            T::mul_val(two_val::<T>(), T::mul_val(x, x) + T::mul_val(z, z)), sin_sq,
                        ),
            m23: T::mul_val(two_val::<T>(), prod3::<T>(y, z, sin_sq) - T::mul_val(x, sin_cos)),
            m24: 0,
            m31: T::mul_val(two_val::<T>(), prod3::<T>(x, z, sin_sq) - T::mul_val(y, sin_cos)),
            m32: T::mul_val(two_val::<T>(), prod3::<T>(y, z, sin_sq) + T::mul_val(x, sin_cos)),
            m33: T::unit()
               
                   
                        - T::mul_val(
                            T::mul_val(two_val::<T>(), T::mul_val(x, x) + T::mul_val(y, y)), sin_sq,
                        ),
            m34: 0,
            m41: 0,
            m42: 0,
            m43: 0,
            m44: T::unit(),
        }
    }

    /// Whether every step of computing the rotation fits the scalar type `T`.
    pub open spec fn rotation_fits<T: Scalar>(x: int, y: int, z: int, sin_cos: int, sin_sq: int) -> bool {
        let t1 = T::mul_val(x, x);
        let t2 = T::mul_val(y, y);
        let t3 = T::mul_val(z, z);
        let t4 = t2 + t3;
        let t5 = T::mul_val(two_val::<T>(), t4);
        let t6 = T::mul_val(t5, sin_sq);
        let t7 = T::unit() - t6;
        let t8 = T::mul_val(x, y);
        let t9 = T::mul_val(t8, sin_sq);
        let t10 = T::mul_val(z, sin_cos);
        let t11 = t9 - t10;
        let t12 = T::mul_val(two_val::<T>(), t11);
        let t13 = T::mul_val(x, z);
        let t14 = T::mul_val(t13, sin_sq);
        let t15 = T::mul_val(y, sin_cos);
        let t16 = t14 + t15;
        let t17 = T::mul_val(two_val::<T>(), t16);
        let t18 = t9 + t10;
        let t19 = T::mul_val(two_val::<T>(), t18);
        let t20 = t1 + t3;
        let t21 = T::mul_val(two_val::<T>(), t20);
        let t22 = T::mul_val(t21, sin_sq);
        let t23 = T::unit() - t22;
        let t24 = T::mul_val(y, z);
        let t25 = T::mul_val(t24, sin_sq);
        let t26 = T::mul_val(x, sin_cos);
        let t27 = t25 - t26;
        let t28 = T::mul_val(two_val::<T>(), t27);
        let t29 = t14 - t15;
        let t30 = T::mul_val(two_val::<T>(), t29);
        let t31 = t25 + t26;
        let t32 = T::mul_val(two_val::<T>(), t31);
        let t33 = t1 + t2;
        let t34 = T::mul_val(two_val::<T>(), t33);
        let t35 = T::mul_val(t34, sin_sq);
        let t36 = T::unit() - t35;
        &&& fits::<T>(two_val::<T>())
        &&& fits::<T>(t1)
        &&& fits::<T>(t2)
        &&& fits::<T>(t3)
        &&& fits::<T>(t4)
        &&& fits::<T>(t5)
        &&& fits::<T>(t6)
        &&& fits::<T>(t7)
        &&& fits::<T>(t8)
        &&& fits::<T>(t9)
        &&& fits::<T>(t10)
        &&& fits::<T>(t11)
        &&& fits::<T>(t12)
        &&& fits::<T>(t13)
        &&& fits::<T>(t14)
        &&& fits::<T>(t15)
        &&& fits::<T>(t16)
        &&& fits::<T>(t17)
        &&& fits::<T>(t18)
        &&& fits::<T>(t19)
        &&& fits::<T>(t20)
        &&& fits::<T>(t21)
        &&& fits::<T>(t22)
        &&& fits::<T>(t23)
        &&& fits::<T>(t24)
        &&& fits::<T>(t25)
        &&& fits::<T>(t26)
        &&& fits::<T>(t27)
        &&& fits::<T>(t28)
        &&& fits::<T>(t29)
        &&& fits::<T>(t30)
        &&& fits::<T>(t31)
        &&& fits::<T>(t32)
        &&& fits::<T>(t33)
        &&& fits::<T>(t34)
        &&& fits::<T>(t35)
        &&& fits::<T>(t36)
    }

    /// The matrix product `self * o`, row by column: as a transformation of
    /// row vectors it applies `self` first and `o` second.
    pub open spec fn product<T: Scalar>(self, o: Mat4) -> Mat4 {
        Mat4 {
            m11: T::mul_val(self.m11, o.m11)
                + T::mul_val(self.m12, o.m21) + T::mul_val(self.m13, o.m31)
                + T::mul_val(self.m14, o.m41),
            m12: T::mul_val(self.m11, o.m12)
                + T::mul_val(self.m12, o.m22) + T::mul_val(self.m13, o.m32)
                + T::mul_val(self.m14, o.m42),
            m13: T::mul_val(self.m11, o.m13)
                + T::mul_val(self.m12, o.m23) + T::mul_val(self.m13, o.m33)
                + T::mul_val(self.m14, o.m43),
            m14: T::mul_val(self.m11, o.m14)
                + T::mul_val(self.m12, o.m24) + T::mul_val(self.m13, o.m34)
                + T::mul_val(self.m14, o.m44),
            m21: T::mul_val(self.m21, o.m11)
                + T::mul_val(self.m22, o.m21) + T::mul_val(self.m23, o.m31)
                + T::mul_val(self.m24, o.m41),
            m22: T::mul_val(self.m21, o.m12)
                + T::mul_val(self.m22, o.m22) + T::mul_val(self.m23, o.m32)
                + T::mul_val(self.m24, o.m42),
            m23: T::mul_val(self.m21, o.m13)
                + T::mul_val(self.m22, o.m23) + T::mul_val(self.m23, o.m33)
                + T::mul_val(self.m24, o.m43),
            m24: T::mul_val(self.m21, o.m14)
                + T::mul_val(self.m22, o.m24) + T::mul_val(self.m23, o.m34)
                + T::mul_val(self.m24, o.m44),
            m31: T::mul_val(self.m31, o.m11)
                + T::mul_val(self.m32, o.m21) + T::mul_val(self.m33, o.m31)
                + T::mul_val(self.m34, o.m41),
            m32: T::mul_val(self.m31, o.m12)
                + T::mul_val(self.m32, o.m22) + T::mul_val(self.m33, o.m32)
                + T::mul_val(self.m34, o.m42),
            m33: T::mul_val(self.m31, o.m13)
                + T::mul_val(self.m32, o.m23) + T::mul_val(self.m33, o.m33)
                + T::mul_val(self.m34, o.m43),
            m34: T::mul_val(self.m31, o.m14)
                + T::mul_val(self.m32, o.m24) + T::mul_val(self.m33, o.m34)
                + T::mul_val(self.m34, o.m44),
            m41: T::mul_val(self.m41, o.m11)
                + T::mul_val(self.m42, o.m21) + T::mul_val(self.m43, o.m31)
                + T::mul_val(self.m44, o.m41),
            m42: T::mul_val(self.m41, o.m12)
                + T::mul_val(self.m42, o.m22) + T::mul_val(self.m43, o.m32)
                + T::mul_val(self.m44, o.m42),
            m43: T::mul_val(self.m41, o.m13)
                + T::mul_val(self.m42, o.m23) + T::mul_val(self.m43, o.m33)
                + T::mul_val(self.m44, o.m43),
            m44: T::mul_val(self.m41, o.m14)
                + T::mul_val(self.m42, o.m24) + T::mul_val(self.m43, o.m34)
                + T::mul_val(self.m44, o.m44),
        }
    }

    /// Whether every step of computing `self.product(o)` fits the scalar type `T`.
    pub open spec fn product_fits<T: Scalar>(self, o: Mat4) -> bool {
        let t1 = T::mul_val(self.m11, o.m11);
        let t2 = T::mul_val(self.m12, o.m21);
        let t3 = t1 + t2;
        let t4 = T::mul_val(self.m13, o.m31);
        let t5 = t3 + t4;
        let t6 = T::mul_val(self.m14, o.m41);
        let t7 = t5 + t6;
        let t8 = T::mul_val(self.m11, o.m12);
        let t9 = T::mul_val(self.m12, o.m22);
        let t10 = t8 + t9;
        let t11 = T::mul_val(self.m13, o.m32);
        let t12 = t10 + t11;
        let t13 = T::mul_val(self.m14, o.m42);
        let t14 = t12 + t13;
        let t15 = T::mul_val(self.m11, o.m13);
        let t16 = T::mul_val(self.m12, o.m23);
        let t17 = t15 + t16;
        let t18 = T::mul_val(self.m13, o.m33);
        let t19 = t17 + t18;
        let t20 = T::mul_val(self.m14, o.m43);
        let t21 = t19 + t20;
        let t22 = T::mul_val(self.m11, o.m14);
        let t23 = T::mul_val(self.m12, o.m24);
        let t24 = t22 + t23;
        let t25 = T::mul_val(self.m13, o.m34);
        let t26 = t24 + t25;
        let t27 = T::mul_val(self.m14, o.m44);
        let t28 = t26 + t27;
        let t29 = T::mul_val(self.m21, o.m11);
        let t30 = T::mul_val(self.m22, o.m21);
        let t31 = t29 + t30;
        let t32 = T::mul_val(self.m23, o.m31);
        let t33 = t31 + t32;
        let t34 = T::mul_val(self.m24, o.m41);
        let t35 = t33 + t34;
        let t36 = T::mul_val(self.m21, o.m12);
        let t37 = T::mul_val(self.m22, o.m22);
        let t38 = t36 + t37;
        let t39 = T::mul_val(self.m23, o.m32);
        let t40 = t38 + t39;
        let t41 = T::mul_val(self.m24, o.m42);
        let t42 = t40 + t41;
        let t43 = T::mul_val(self.m21, o.m13);
        let t44 = T::mul_val(self.m22, o.m23);
        let t45 = t43 + t44;
        let t46 = T::mul_val(self.m23, o.m33);
        let t47 = t45 + t46;
        let t48 = T::mul_val(self.m24, o.m43);
        let t49 = t47 + t48;
        let t50 = T::mul_val(self.m21, o.m14);
        let t51 = T::mul_val(self.m22, o.m24);
        let t52 = t50 + t51;
        let t53 = T::mul_val(self.m23, o.m34);
        let t54 = t52 + t53;
        let t55 = T::mul_val(self.m24, o.m44);
        let t56 = t54 + t55;
        let t57 = T::mul_val(self.m31, o.m11);
        let t58 = T::mul_val(self.m32, o.m21);
        let t59 = t57 + t58;
        let t60 = T::mul_val(self.m33, o.m31);
        let t61 = t59 + t60;
        let t62 = T::mul_val(self.m34, o.m41);
        let t63 = t61 + t62;
        let t64 = T::mul_val(self.m31, o.m12);
        let t65 = T::mul_val(self.m32, o.m22);
        let t66 = t64 + t65;
        let t67 = T::mul_val(self.m33, o.m32);
        let t68 = t66 + t67;
        let t69 = T::mul_val(self.m34, o.m42);
        let t70 = t68 + t69;
        let t71 = T::mul_val(self.m31, o.m13);
        let t72 = T::mul_val(self.m32, o.m23);
        let t73 = t71 + t72;
        let t74 = T::mul_val(self.m33, o.m33);
        let t75 = t73 + t74;
        let t76 = T::mul_val(self.m34, o.m43);
        let t77 = t75 + t76;
        let t78 = T::mul_val(self.m31, o.m14);
        let t79 = T::mul_val(self.m32, o.m24);
        let t80 = t78 + t79;
        let t81 = T::mul_val(self.m33, o.m34);
        let t82 = t80 + t81;
        let t83 = T::mul_val(self.m34, o.m44);
        let t84 = t82 + t83;
        let t85 = T::mul_val(self.m41, o.m11);
        let t86 = T::mul_val(self.m42, o.m21);
        let t87 = t85 + t86;
        let t88 = T::mul_val(self.m43, o.m31);
        let t89 = t87 + t88;
        let t90 = T::mul_val(self.m44, o.m41);
        let t91 = t89 + t90;
        let t92 = T::mul_val(self.m41, o.m12);
        let t93 = T::mul_val(self.m42, o.m22);
        let t94 = t92 + t93;
        let t95 = T::mul_val(self.m43, o.m32);
        let t96 = t94 + t95;
        let t97 = T::mul_val(self.m44, o.m42);
        let t98 = t96 + t97;
        let t99 = T::mul_val(self.m41, o.m13);
        let t100 = T::mul_val(self.m42, o.m23);
        let t101 = t99 + t100;
        let t102 = T::mul_val(self.m43, o.m33);
        let t103 = t101 + t102;
        let t104 = T::mul_val(self.m44, o.m43);
        let t105 = t103 + t104;
        let t106 = T::mul_val(self.m41, o.m14);
        let t107 = T::mul_val(self.m42, o.m24);
        let t108 = t106 + t107;
        let t109 = T::mul_val(self.m43, o.m34);
        let t110 = t108 + t109;
        let t111 = T::mul_val(self.m44, o.m44);
        let t112 = t110 + t111;
        &&& fits::<T>(t1)
        &&& fits::<T>(t2)
        &&& fits::<T>(t3)
        &&& fits::<T>(t4)
        &&& fits::<T>(t5)
        &&& fits::<T>(t6)
        &&& fits::<T>(t7)
        &&& fits::<T>(t8)
        &&& fits::<T>(t9)
        &&& fits::<T>(t10)
        &&& fits::<T>(t11)
        &&& fits::<T>(t12)
        &&& fits::<T>(t13)
        &&& fits::<T>(t14)
        &&& fits::<T>(t15)
        &&& fits::<T>(t16)
        &&& fits::<T>(t17)
        &&& fits::<T>(t18)
        &&& fits::<T>(t19)
        &&& fits::<T>(t20)
        &&& fits::<T>(t21)
        &&& fits::<T>(t22)
        &&& fits::<T>(t23)
        &&& fits::<T>(t24)
        &&& fits::<T>(t25)
        &&& fits::<T>(t26)
        &&& fits::<T>(t27)
        &&& fits::<T>(t28)
        &&& fits::<T>(t29)
        &&& fits::<T>(t30)
        &&& fits::<T>(t31)
        &&& fits::<T>(t32)
        &&& fits::<T>(t33)
        &&& fits::<T>(t34)
        &&& fits::<T>(t35)
        &&& fits::<T>(t36)
        &&& fits::<T>(t37)
        &&& fits::<T>(t38)
        &&& fits::<T>(t39)
        &&& fits::<T>(t40)
        &&& fits::<T>(t41)
        &&& fits::<T>(t42)
        &&& fits::<T>(t43)
        &&& fits::<T>(t44)
        &&& fits::<T>(t45)
        &&& fits::<T>(t46)
        &&& fits::<T>(t47)
        &&& fits::<T>(t48)
        &&& fits::<T>(t49)
        &&& fits::<T>(t50)
        &&& fits::<T>(t51)
        &&& fits::<T>(t52)
        &&& fits::<T>(t53)
        &&& fits::<T>(t54)
        &&& fits::<T>(t55)
        &&& fits::<T>(t56)
        &&& fits::<T>(t57)
        &&& fits::<T>(t58)
        &&& fits::<T>(t59)
        &&& fits::<T>(t60)
        &&& fits::<T>(t61)
        &&& fits::<T>(t62)
        &&& fits::<T>(t63)
        &&& fits::<T>(t64)
        &&& fits::<T>(t65)
        &&& fits::<T>(t66)
        &&& fits::<T>(t67)
        &&& fits::<T>(t68)
        &&& fits::<T>(t69)
        &&& fits::<T>(t70)
        &&& fits::<T>(t71)
        &&& fits::<T>(t72)
        &&& fits::<T>(t73)
        &&& fits::<T>(t74)
        &&& fits::<T>(t75)
        &&& fits::<T>(t76)
        &&& fits::<T>(t77)
        &&& fits::<T>(t78)
        &&& fits::<T>(t79)
        &&& fits::<T>(t80)
        &&& fits::<T>(t81)
        &&& fits::<T>(t82)
        &&& fits::<T>(t83)
        &&& fits::<T>(t84)
        &&& fits::<T>(t85)
        &&& fits::<T>(t86)
        &&& fits::<T>(t87)
        &&& fits::<T>(t88)
        &&& fits::<T>(t89)
        &&& fits::<T>(t90)
        &&& fits::<T>(t91)
        &&& fits::<T>(t92)
        &&& fits::<T>(t93)
        &&& fits::<T>(t94)
        &&& fits::<T>(t95)
        &&& fits::<T>(t96)
        &&& fits::<T>(t97)
        &&& fits::<T>(t98)
        &&& fits::<T>(t99)
        &&& fits::<T>(t100)
        &&& fits::<T>(t101)
        &&& fits::<T>(t102)
        &&& fits::<T>(t103)
        &&& fits::<T>(t104)
        &&& fits::<T>(t105)
        &&& fits::<T>(t106)
        &&& fits::<T>(t107)
        &&& fits::<T>(t108)
        &&& fits::<T>(t109)
        &&& fits::<T>(t110)
        &&& fits::<T>(t111)
        &&& fits::<T>(t112)
    }

    /// Every term multiplied by `k`.
    pub open spec fn mul_s<T: Scalar>(self, k: int) -> Mat4 {
        Mat4 {
            m11: T::mul_val(self.m11, k),
            m12: T::mul_val(self.m12, k),
            m13: T::mul_val(self.m13, k),
            m14: T::mul_val(self.m14, k),
            m21: T::mul_val(self.m21, k),
            m22: T::mul_val(self.m22, k),
            m23: T::mul_val(self.m23, k),
            m24: T::mul_val(self.m24, k),
            m31: T::mul_val(self.m31, k),
            m32: T::mul_val(self.m32, k),
            m33: T::mul_val(self.m33, k),
            m34: T::mul_val(self.m34, k),
            m41: T::mul_val(self.m41, k),
            m42: T::mul_val(self.m42, k),
            m43: T::mul_val(self.m43, k),
            m44: T::mul_val(self.m44, k),
        }
    }

    /// Whether every term multiplied by `k` fits the scalar type `T`.
    pub open spec fn mul_s_fits<T: Scalar>(self, k: int) -> bool {
        let t1 = T::mul_val(self.m11, k);
        let t2 = T::mul_val(self.m12, k);
        let t3 = T::mul_val(self.m13, k);
        let t4 = T::mul_val(self.m14, k);
        let t5 = T::mul_val(self.m21, k);
        let t6 = T::mul_val(self.m22, k);
        let t7 = T::mul_val(self.m23, k);
        let t8 = T::mul_val(self.m24, k);
        let t9 = T::mul_val(self.m31, k);
        let t10 = T::mul_val(self.m32, k);
        let t11 = T::mul_val(self.m33, k);
        let t12 = T::mul_val(self.m34, k);
        let t13 = T::mul_val(self.m41, k);
        let t14 = T::mul_val(self.m42, k);
        let t15 = T::mul_val(self.m43, k);
        let t16 = T::mul_val(self.m44, k);
        &&& fits::<T>(t1)
        &&& fits::<T>(t2)
        &&& fits::<T>(t3)
        &&& fits::<T>(t4)
        &&& fits::<T>(t5)
        &&& fits::<T>(t6)
        &&& fits::<T>(t7)
        &&& fits::<T>(t8)
        &&& fits::<T>(t9)
        &&& fits::<T>(t10)
        &&& fits::<T>(t11)
        &&& fits::<T>(t12)
        &&& fits::<T>(t13)
        &&& fits::<T>(t14)
        &&& fits::<T>(t15)
        &&& fits::<T>(t16)
    }

    /// `self` with `m11` multiplied by `x`, `m22` by `y` and `m33` by `z`.
    pub open spec fn scale<T: Scalar>(self, x: int, y: int, z: int) -> Mat4 {
        Mat4 {
            m11: T::mul_val(self.m11, x),
            m12: self.m12,
            m13: self.m13,
            m14: self.m14,
            m21: self.m21,
            m22: T::mul_val(self.m22, y),
            m23: self.m23,
            m24: self.m24,
            m31: self.m31,
            m32: self.m32,
            m33: T::mul_val(self.m33, z),
            m34: self.m34,
            m41: self.m41,
            m42: self.m42,
            m43: self.m43,
            m44: self.m44,
        }
    }

    /// Whether every step of computing `self.scale(x, y, z)` fits the scalar type `T`.
    pub open spec fn scale_fits<T: Scalar>(self, x: int, y: int, z: int) -> bool {
        let t1 = T::mul_val(self.m11, x);
        let t2 = T::mul_val(self.m22, y);
        let t3 = T::mul_val(self.m33, z);
        &&& fits::<T>(t1)
        &&& fits::<T>(t2)
        &&& fits::<T>(t3)
    }

    /// Whether the transformation is a 2d one: it leaves `z` and `w` alone and
    /// takes nothing from them.
    pub open spec fn is_2d<T: Scalar>(self) -> bool {
        &&& self.m31 == 0 && self.m32 == 0
        &&& self.m13 == 0 && self.m23 == 0
        &&& self.m43 == 0 && self.m14 == 0
        &&& self.m24 == 0 && self.m34 == 0
        &&& self.m33 == T::unit() && self.m44 == T::unit()
    }

    /// The 2d affine part of the transformation.
    pub open spec fn to_2d(self) -> Mat2 {
        Mat2 {
            m11: self.m11,
            m12: self.m12,
            m21: self.m21,
            m22: self.m22,
            m31: self.m41,
            m32: self.m42,
        }
    }

    /// Where the transformation takes the 2d point `p`, taken as `(x, y, 0, 1)`.
    pub open spec fn transform_point<T: Scalar>(self, p: Point2) -> Point2 {
        Point2 { x: T::mul_val(p.x, self.m11)
            + T::mul_val(p.y, self.m21) + self.m41, y: T::mul_val(p.x, self.m12)
            + T::mul_val(p.y, self.m22) + self.m42 }
    }

    /// Whether every step of transforming the 2d point `p` fits the scalar type `T`.
    pub open spec fn transform_point_fits<T: Scalar>(self, p: Point2) -> bool {
        let t1 = T::mul_val(p.x, self.m11);
        let t2 = T::mul_val(p.y, self.m21);
        let t3 = t1 + t2;
        let t4 = t3 + self.m41;
        let t5 = T::mul_val(p.x, self.m12);
        let t6 = T::mul_val(p.y, self.m22);
        let t7 = t5 + t6;
        let t8 = t7 + self.m42;
        &&& fits::<T>(t1)
        &&& fits::<T>(t2)
        &&& fits::<T>(t3)
        &&& fits::<T>(t4)
        &&& fits::<T>(t5)
        &&& fits::<T>(t6)
        &&& fits::<T>(t7)
        &&& fits::<T>(t8)
    }

    /// Where the transformation takes the point `(x, y, z, 1)`. The `w` of
    /// `p` takes no part, and the result is not divided by its own `w`.
    pub open spec fn transform_point4d<T: Scalar>(self, p: Point4) -> Point4 {
        Point4 {
            x: T::mul_val(p.x, self.m11)
                + T::mul_val(p.y, self.m21) + T::mul_val(p.z, self.m31) + self.m41,
            y: T::mul_val(p.x, self.m12)
                + T::mul_val(p.y, self.m22) + T::mul_val(p.z, self.m32) + self.m42,
            z: T::mul_val(p.x, self.m13)
                + T::mul_val(p.y, self.m23) + T::mul_val(p.z, self.m33) + self.m43,
            w: T::mul_val(p.x, self.m14)
                + T::mul_val(p.y, self.m24) + T::mul_val(p.z, self.m34) + self.m44,
        }
    }

    /// Whether every step of transforming `p` fits the scalar type `T`.
    pub open spec fn transform_point4d_fits<T: Scalar>(self, p: Point4) -> bool {
        let t1 = T::mul_val(p.x, self.m11);
        let t2 = T::mul_val(p.y, self.m21);
        let t3 = t1 + t2;
        let t4 = T::mul_val(p.z, self.m31);
        let t5 = t3 + t4;
        let t6 = t5 + self.m41;
        let t7 = T::mul_val(p.x, self.m12);
        let t8 = T::mul_val(p.y, self.m22);
        let t9 = t7 + t8;
        let t10 = T::mul_val(p.z, self.m32);
        let t11 = t9 + t10;
        let t12 = t11 + self.m42;
        let t13 = T::mul_val(p.x, self.m13);
        let t14 = T::mul_val(p.y, self.m23);
        let t15 = t13 + t14;
        let t16 = T::mul_val(p.z, self.m33);
        let t17 = t15 + t16;
        let t18 = t17 + self.m43;
        let t19 = T::mul_val(p.x, self.m14);
        let t20 = T::mul_val(p.y, self.m24);
        let t21 = t19 + t20;
        let t22 = T::mul_val(p.z, self.m34);
        let t23 = t21 + t22;
        let t24 = t23 + self.m44;
        &&& fits::<T>(t1)
        &&& fits::<T>(t2)
        &&& fits::<T>(t3)
        &&& fits::<T>(t4)
        &&& fits::<T>(t5)
        &&& fits::<T>(t6)
        &&& fits::<T>(t7)
        &&& fits::<T>(t8)
        &&& fits::<T>(t9)
        &&& fits::<T>(t10)
        &&& fits::<T>(t11)
        &&& fits::<T>(t12)
        &&& fits::<T>(t13)
        &&& fits::<T>(t14)
        &&& fits::<T>(t15)
        &&& fits::<T>(t16)
        &&& fits::<T>(t17)
        &&& fits::<T>(t18)
        &&& fits::<T>(t19)
        &&& fits::<T>(t20)
        &&& fits::<T>(t21)
        &&& fits::<T>(t22)
        &&& fits::<T>(t23)
        &&& fits::<T>(t24)
    }

    /// The determinant, by its expansion into twenty-four products.
    pub open spec fn determinant<T: Scalar>(self) -> int {
        prod4::<T>(self.m14, self.m23, self.m32, self.m41)
            - prod4::<T>(self.m13, self.m24, self.m32, self.m41)
            - prod4::<T>(self.m14, self.m22, self.m33, self.m41)
            + prod4::<T>(self.m12, self.m24, self.m33, self.m41)
            + prod4::<T>(self.m13, self.m22, self.m34, self.m41)
            - prod4::<T>(self.m12, self.m23, self.m34, self.m41)
            - prod4::<T>(self.m14, self.m23, self.m31, self.m42)
            + prod4::<T>(self.m13, self.m24, self.m31, self.m42)
            + prod4::<T>(self.m14, self.m21, self.m33, self.m42)
            - prod4::<T>(self.m11, self.m24, self.m33, self.m42)
            - prod4::<T>(self.m13, self.m21, self.m34, self.m42)
            + prod4::<T>(self.m11, self.m23, self.m34, self.m42)
            + prod4::<T>(self.m14, self.m22, self.m31, self.m43)
            - prod4::<T>(self.m12, self.m24, self.m31, self.m43)
            - prod4::<T>(self.m14, self.m21, self.m32, self.m43)
            + prod4::<T>(self.m11, self.m24, self.m32, self.m43)
            + prod4::<T>(self.m12, self.m21, self.m34, self.m43)
            - prod4::<T>(self.m11, self.m22, self.m34, self.m43)
            - prod4::<T>(self.m13, self.m22, self.m31, self.m44)
            + prod4::<T>(self.m12, self.m23, self.m31, self.m44)
            + prod4::<T>(self.m13, self.m21, self.m32, self.m44)
            - prod4::<T>(self.m11, self.m23, self.m32, self.m44)
            - prod4::<T>(self.m12, self.m21, self.m33, self.m44)
            + prod4::<T>(self.m11, self.m22, self.m33, self.m44)
    }

    /// Whether every step of computing the determinant fits the scalar type `T`.
    pub open spec fn determinant_fits<T: Scalar>(self) -> bool {
        let t1 = T::mul_val(self.m14, self.m23);
        let t2 = T::mul_val(t1, self.m32);
        let t3 = T::mul_val(t2, self.m41);
        let t4 = T::mul_val(self.m13, self.m24);
        let t5 = T::mul_val(t4, self.m32);
        let t6 = T::mul_val(t5, self.m41);
        let t7 = t3 - t6;
        let t8 = T::mul_val(self.m14, self.m22);
        let t9 = T::mul_val(t8, self.m33);
        let t10 = T::mul_val(t9, self.m41);
        let t11 = t7 - t10;
        let t12 = T::mul_val(self.m12, self.m24);
        let t13 = T::mul_val(t12, self.m33);
        let t14 = T::mul_val(t13, self.m41);
        let t15 = t11 + t14;
        let t16 = T::mul_val(self.m13, self.m22);
        let t17 = T::mul_val(t16, self.m34);
        let t18 = T::mul_val(t17, self.m41);
        let t19 = t15 + t18;
        let t20 = T::mul_val(self.m12, self.m23);
        let t21 = T::mul_val(t20, self.m34);
        let t22 = T::mul_val(t21, self.m41);
        let t23 = t19 - t22;
        let t24 = T::mul_val(t1, self.m31);
        let t25 = T::mul_val(t24, self.m42);
        let t26 = t23 - t25;
        let t27 = T::mul_val(t4, self.m31);
        let t28 = T::mul_val(t27, self.m42);
        let t29 = t26 + t28;
        let t30 = T::mul_val(self.m14, self.m21);
        let t31 = T::mul_val(t30, self.m33);
        let t32 = T::mul_val(t31, self.m42);
        let t33 = t29 + t32;
        let t34 = T::mul_val(self.m11, self.m24);
        let t35 = T::mul_val(t34, self.m33);
        let t36 = T::mul_val(t35, self.m42);
        let t37 = t33 - t36;
        let t38 = T::mul_val(self.m13, self.m21);
        let t39 = T::mul_val(t38, self.m34);
        let t40 = T::mul_val(t39, self.m42);
        let t41 = t37 - t40;
        let t42 = T::mul_val(self.m11, self.m23);
        let t43 = T::mul_val(t42, self.m34);
        let t44 = T::mul_val(t43, self.m42);
        let t45 = t41 + t44;
        let t46 = T::mul_val(t8, self.m31);
        let t47 = T::mul_val(t46, self.m43);
        let t48 = t45 + t47;
        let t49 = T::mul_val(t12, self.m31);
        let t50 = T::mul_val(t49, self.m43);
        let t51 = t48 - t50;
        let t52 = T::mul_val(t30, self.m32);
        let t53 = T::mul_val(t52, self.m43);
        let t54 = t51 - t53;
        let t55 = T::mul_val(t34, self.m32);
        let t56 = T::mul_val(t55, self.m43);
        let t57 = t54 + t56;
        let t58 = T::mul_val(self.m12, self.m21);
        let t59 = T::mul_val(t58, self.m34);
        let t60 = T::mul_val(t59, self.m43);
        let t61 = t57 + t60;
        let t62 = T::mul_val(self.m11, self.m22);
        let t63 = T::mul_val(t62, self.m34);
        let t64 = T::mul_val(t63, self.m43);
        let t65 = t61 - t64;
        let t66 = T::mul_val(t16, self.m31);
        let t67 = T::mul_val(t66, self.m44);
        let t68 = t65 - t67;
        let t69 = T::mul_val(t20, self.m31);
        let t70 = T::mul_val(t69, self.m44);
        let t71 = t68 + t70;
        let t72 = T::mul_val(t38, self.m32);
        let t73 = T::mul_val(t72, self.m44);
        let t74 = t71 + t73;
        let t75 = T::mul_val(t42, self.m32);
        let t76 = T::mul_val(t75, self.m44);
        let t77 = t74 - t76;
        let t78 = T::mul_val(t58, self.m33);
        let t79 = T::mul_val(t78, self.m44);
        let t80 = t77 - t79;
        let t81 = T::mul_val(t62, self.m33);
        let t82 = T::mul_val(t81, self.m44);
        let t83 = t80 + t82;
        &&& fits::<T>(t1)
        &&& fits::<T>(t2)
        &&& fits::<T>(t3)
        &&& fits::<T>(t4)
        &&& fits::<T>(t5)
        &&& fits::<T>(t6)
        &&& fits::<T>(t7)
        &&& fits::<T>(t8)
        &&& fits::<T>(t9)
        &&& fits::<T>(t10)
        &&& fits::<T>(t11)
        &&& fits::<T>(t12)
        &&& fits::<T>(t13)
        &&& fits::<T>(t14)
        &&& fits::<T>(t15)
        &&& fits::<T>(t16)
        &&& fits::<T>(t17)
        &&& fits::<T>(t18)
        &&& fits::<T>(t19)
        &&& fits::<T>(t20)
        &&& fits::<T>(t21)
        &&& fits::<T>(t22)
        &&& fits::<T>(t23)
        &&& fits::<T>(t24)
        &&& fits::<T>(t25)
        &&& fits::<T>(t26)
        &&& fits::<T>(t27)
        &&& fits::<T>(t28)
        &&& fits::<T>(t29)
        &&& fits::<T>(t30)
        &&& fits::<T>(t31)
        &&& fits::<T>(t32)
        &&& fits::<T>(t33)
        &&& fits::<T>(t34)
        &&& fits::<T>(t35)
        &&& fits::<T>(t36)
        &&& fits::<T>(t37)
        &&& fits::<T>(t38)
        &&& fits::<T>(t39)
        &&& fits::<T>(t40)
        &&& fits::<T>(t41)
        &&& fits::<T>(t42)
        &&& fits::<T>(t43)
        &&& fits::<T>(t44)
        &&& fits::<T>(t45)
        &&& fits::<T>(t46)
        &&& fits::<T>(t47)
        &&& fits::<T>(t48)
        &&& fits::<T>(t49)
        &&& fits::<T>(t50)
        &&& fits::<T>(t51)
        &&& fits::<T>(t52)
        &&& fits::<T>(t53)
        &&& fits::<T>(t54)
        &&& fits::<T>(t55)
        &&& fits::<T>(t56)
        &&& fits::<T>(t57)
        &&& fits::<T>(t58)
        &&& fits::<T>(t59)
        &&& fits::<T>(t60)
        &&& fits::<T>(t61)
        &&& fits::<T>(t62)
        &&& fits::<T>(t63)
        &&& fits::<T>(t64)
        &&& fits::<T>(t65)
        &&& fits::<T>(t66)
        &&& fits::<T>(t67)
        &&& fits::<T>(t68)
        &&& fits::<T>(t69)
        &&& fits::<T>(t70)
        &&& fits::<T>(t71)
        &&& fits::<T>(t72)
        &&& fits::<T>(t73)
        &&& fits::<T>(t74)
        &&& fits::<T>(t75)
        &&& fits::<T>(t76)
        &&& fits::<T>(t77)
        &&& fits::<T>(t78)
        &&& fits::<T>(t79)
        &&& fits::<T>(t80)
        &&& fits::<T>(t81)
        &&& fits::<T>(t82)
        &&& fits::<T>(t83)
    }

    /// The adjugate: the transposed matrix of cofactors, for which, over the
    /// integers, `self * adjugate == determinant * identity`.
    pub open spec fn adjugate<T: Scalar>(self) -> Mat4 {
        Mat4 {
            m11: prod3::<T>(self.m23, self.m34, self.m42)
                - prod3::<T>(self.m24, self.m33, self.m42)
                + prod3::<T>(self.m24, self.m32, self.m43)
                - prod3::<T>(self.m22, self.m34, self.m43)
                - prod3::<T>(self.m23, self.m32, self.m44)
                + prod3::<T>(self.m22, self.m33, self.m44),
            m12: prod3::<T>(self.m14, self.m33, self.m42)
                - prod3::<T>(self.m13, self.m34, self.m42)
                - prod3::<T>(self.m14, self.m32, self.m43)
                + prod3::<T>(self.m12, self.m34, self.m43)
                + prod3::<T>(self.m13, self.m32, self.m44)
                - prod3::<T>(self.m12, self.m33, self.m44),
            m13: prod3::<T>(self.m13, self.m24, self.m42)
                - prod3::<T>(self.m14, self.m23, self.m42)
                + prod3::<T>(self.m14, self.m22, self.m43)
                - prod3::<T>(self.m12, self.m24, self.m43)
                - prod3::<T>(self.m13, self.m22, self.m44)
                + prod3::<T>(self.m12, self.m23, self.m44),
            m14: prod3::<T>(self.m14, self.m23, self.m32)
                - prod3::<T>(self.m13, self.m24, self.m32)
                - prod3::<T>(self.m14, self.m22, self.m33)
                + prod3::<T>(self.m12, self.m24, self.m33)
                + prod3::<T>(self.m13, self.m22, self.m34)
                - prod3::<T>(self.m12, self.m23, self.m34),
            m21: prod3::<T>(self.m24, self.m33, self.m41)
                - prod3::<T>(self.m23, self.m34, self.m41)
                - prod3::<T>(self.m24, self.m31, self.m43)
                + prod3::<T>(self.m21, self.m34, self.m43)
                + prod3::<T>(self.m23, self.m31, self.m44)
                - prod3::<T>(self.m21, self.m33, self.m44),
            m22: prod3::<T>(self.m13, self.m34, self.m41)
                - prod3::<T>(self.m14, self.m33, self.m41)
                + prod3::<T>(self.m14, self.m31, self.m43)
                - prod3::<T>(self.m11, self.m34, self.m43)
                - prod3::<T>(self.m13, self.m31, self.m44)
                + prod3::<T>(self.m11, self.m33, self.m44),
            m23: prod3::<T>(self.m14, self.m23, self.m41)
                - prod3::<T>(self.m13, self.m24, self.m41)
                - prod3::<T>(self.m14, self.m21, self.m43)
                + prod3::<T>(self.m11, self.m24, self.m43)
                + prod3::<T>(self.m13, self.m21, self.m44)
                - prod3::<T>(self.m11, self.m23, self.m44),
            m24: prod3::<T>(self.m13, self.m24, self.m31)
                - prod3::<T>(self.m14, self.m23, self.m31)
                + prod3::<T>(self.m14, self.m21, self.m33)
                - prod3::<T>(self.m11, self.m24, self.m33)
                - prod3::<T>(self.m13, self.m21, self.m34)
                + prod3::<T>(self.m11, self.m23, self.m34),
            m31: prod3::<T>(self.m22, self.m34, self.m41)
                - prod3::<T>(self.m24, self.m32, self.m41)
                + prod3::<T>(self.m24, self.m31, self.m42)
                - prod3::<T>(self.m21, self.m34, self.m42)
                - prod3::<T>(self.m22, self.m31, self.m44)
                + prod3::<T>(self.m21, self.m32, self.m44),
            m32: prod3::<T>(self.m14, self.m32, self.m41)
                - prod3::<T>(self.m12, self.m34, self.m41)
                - prod3::<T>(self.m14, self.m31, self.m42)
                + prod3::<T>(self.m11, self.m34, self.m42)
                + prod3::<T>(self.m12, self.m31, self.m44)
                - prod3::<T>(self.m11, self.m32, self.m44),
            m33: prod3::<T>(self.m12, self.m24, self.m41)
                - prod3::<T>(self.m14, self.m22, self.m41)
                + prod3::<T>(self.m14, self.m21, self.m42)
                - prod3::<T>(self.m11, self.m24, self.m42)
                - prod3::<T>(self.m12, self.m21, self.m44)
                + prod3::<T>(self.m11, self.m22, self.m44),
            m34: prod3::<T>(self.m14, self.m22, self.m31)
                - prod3::<T>(self.m12, self.m24, self.m31)
                - prod3::<T>(self.m14, self.m21, self.m32)
                + prod3::<T>(self.m11, self.m24, self.m32)
                + prod3::<T>(self.m12, self.m21, self.m34)
                - prod3::<T>(self.m11, self.m22, self.m34),
            m41: prod3::<T>(self.m23, self.m32, self.m41)
                - prod3::<T>(self.m22, self.m33, self.m41)
                - prod3::<T>(self.m23, self.m31, self.m42)
                + prod3::<T>(self.m21, self.m33, self.m42)
                + prod3::<T>(self.m22, self.m31, self.m43)
                - prod3::<T>(self.m21, self.m32, self.m43),
            m42: prod3::<T>(self.m12, self.m33, self.m41)
                - prod3::<T>(self.m13, self.m32, self.m41)
                + prod3::<T>(self.m13, self.m31, self.m42)
                - prod3::<T>(self.m11, self.m33, self.m42)
                - prod3::<T>(self.m12, self.m31, self.m43)
                + prod3::<T>(self.m11, self.m32, self.m43),
            m43: prod3::<T>(self.m13, self.m22, self.m41)
                - prod3::<T>(self.m12, self.m23, self.m41)
                - prod3::<T>(self.m13, self.m21, self.m42)
                + prod3::<T>(self.m11, self.m23, self.m42)
                + prod3::<T>(self.m12, self.m21, self.m43)
                - prod3::<T>(self.m11, self.m22, self.m43),
            m44: prod3::<T>(self.m12, self.m23, self.m31)
                - prod3::<T>(self.m13, self.m22, self.m31)
                + prod3::<T>(self.m13, self.m21, self.m32)
                - prod3::<T>(self.m11, self.m23, self.m32)
                - prod3::<T>(self.m12, self.m21, self.m33)
                + prod3::<T>(self.m11, self.m22, self.m33),
        }
    }

    /// Whether every step of computing the adjugate fits the scalar type `T`.
    pub open spec fn adjugate_fits<T: Scalar>(self) -> bool {
        let t1 = T::mul_val(self.m23, self.m34);
        let t2 = T::mul_val(t1, self.m42);
        let t3 = T::mul_val(self.m24, self.m33);
        let t4 = T::mul_val(t3, self.m42);
        let t5 = t2 - t4;
        let t6 = T::mul_val(self.m24, self.m32);
        let t7 = T::mul_val(t6, self.m43);
        let t8 = t5 + t7;
        let t9 = T::mul_val(self.m22, self.m34);
        let t10 = T::mul_val(t9, self.m43);
        let t11 = t8 - t10;
        let t12 = T::mul_val(self.m23, self.m32);
        let t13 = T::mul_val(t12, self.m44);
        let t14 = t11 - t13;
        let t15 = T::mul_val(self.m22, self.m33);
        let t16 = T::mul_val(t15, self.m44);
        let t17 = t14 + t16;
        let t18 = T::mul_val(self.m14, self.m33);
        let t19 = T::mul_val(t18, self.m42);
        let t20 = T::mul_val(self.m13, self.m34);
        let t21 = T::mul_val(t20, self.m42);
        let t22 = t19 - t21;
        let t23 = T::mul_val(self.m14, self.m32);
        let t24 = T::mul_val(t23, self.m43);
        let t25 = t22 - t24;
        let t26 = T::mul_val(self.m12, self.m34);
        let t27 = T::mul_val(t26, self.m43);
        let t28 = t25 + t27;
        let t29 = T::mul_val(self.m13, self.m32);
        let t30 = T::mul_val(t29, self.m44);
        let t31 = t28 + t30;
        let t32 = T::mul_val(self.m12, self.m33);
        let t33 = T::mul_val(t32, self.m44);
        let t34 = t31 - t33;
        let t35 = T::mul_val(self.m13, self.m24);
        let t36 = T::mul_val(t35, self.m42);
        let t37 = T::mul_val(self.m14, self.m23);
        let t38 = T::mul_val(t37, self.m42);
        let t39 = t36 - t38;
        let t40 = T::mul_val(self.m14, self.m22);
        let t41 = T::mul_val(t40, self.m43);
        let t42 = t39 + t41;
        let t43 = T::mul_val(self.m12, self.m24);
        let t44 = T::mul_val(t43, self.m43);
        let t45 = t42 - t44;
        let t46 = T::mul_val(self.m13, self.m22);
        let t47 = T::mul_val(t46, self.m44);
        let t48 = t45 - t47;
        let t49 = T::mul_val(self.m12, self.m23);
        let t50 = T::mul_val(t49, self.m44);
        let t51 = t48 + t50;
        let t52 = T::mul_val(t37, self.m32);
        let t53 = T::mul_val(t35, self.m32);
        let t54 = t52 - t53;
        let t55 = T::mul_val(t40, self.m33);
        let t56 = t54 - t55;
        let t57 = T::mul_val(t43, self.m33);
        let t58 = t56 + t57;
        let t59 = T::mul_val(t46, self.m34);
        let t60 = t58 + t59;
        let t61 = T::mul_val(t49, self.m34);
        let t62 = t60 - t61;
        let t63 = T::mul_val(t3, self.m41);
        let t64 = T::mul_val(t1, self.m41);
        let t65 = t63 - t64;
        let t66 = T::mul_val(self.m24, self.m31);
        let t67 = T::mul_val(t66, self.m43);
        let t68 = t65 - t67;
        let t69 = T::mul_val(self.m21, self.m34);
        let t70 = T::mul_val(t69, self.m43);
        let t71 = t68 + t70;
        let t72 = T::mul_val(self.m23, self.m31);
        let t73 = T::mul_val(t72, self.m44);
        let t74 = t71 + t73;
        let t75 = T::mul_val(self.m21, self.m33);
        let t76 = T::mul_val(t75, self.m44);
        let t77 = t74 - t76;
        let t78 = T::mul_val(t20, self.m41);
        let t79 = T::mul_val(t18, self.m41);
        let t80 = t78 - t79;
        let t81 = T::mul_val(self.m14, self.m31);
        let t82 = T::mul_val(t81, self.m43);
        let t83 = t80 + t82;
        let t84 = T::mul_val(self.m11, self.m34);
        let t85 = T::mul_val(t84, self.m43);
        let t86 = t83 - t85;
        let t87 = T::mul_val(self.m13, self.m31);
        let t88 = T::mul_val(t87, self.m44);
        let t89 = t86 - t88;
        let t90 = T::mul_val(self.m11, self.m33);
        let t91 = T::mul_val(t90, self.m44);
        let t92 = t89 + t91;
        let t93 = T::mul_val(t37, self.m41);
        let t94 = T::mul_val(t35, self.m41);
        let t95 = t93 - t94;
        let t96 = T::mul_val(self.m14, self.m21);
        let t97 = T::mul_val(t96, self.m43);
        let t98 = t95 - t97;
        let t99 = T::mul_val(self.m11, self.m24);
        let t100 = T::mul_val(t99, self.m43);
        let t101 = t98 + t100;
        let t102 = T::mul_val(self.m13, self.m21);
        let t103 = T::mul_val(t102, self.m44);
        let t104 = t101 + t103;
        let t105 = T::mul_val(self.m11, self.m23);
        let t106 = T::mul_val(t105, self.m44);
        let t107 = t104 - t106;
        let t108 = T::mul_val(t35, self.m31);
        let t109 = T::mul_val(t37, self.m31);
        let t110 = t108 - t109;
        let t111 = T::mul_val(t96, self.m33);
        let t112 = t110 + t111;
        let t113 = T::mul_val(t99, self.m33);
        let t114 = t112 - t113;
        let t115 = T::mul_val(t102, self.m34);
        let t116 = t114 - t115;
        let t117 = T::mul_val(t105, self.m34);
        let t118 = t116 + t117;
        let t119 = T::mul_val(t9, self.m41);
        let t120 = T::mul_val(t6, self.m41);
        let t121 = t119 - t120;
        let t122 = T::mul_val(t66, self.m42);
        let t123 = t121 + t122;
        let t124 = T::mul_val(t69, self.m42);
        let t125 = t123 - t124;
        let t126 = T::mul_val(self.m22, self.m31);
        let t127 = T::mul_val(t126, self.m44);
        let t128 = t125 - t127;
        let t129 = T::mul_val(self.m21, self.m32);
        let t130 = T::mul_val(t129, self.m44);
        let t131 = t128 + t130;
        let t132 = T::mul_val(t23, self.m41);
        let t133 = T::mul_val(t26, self.m41);
        let t134 = t132 - t133;
        let t135 = T::mul_val(t81, self.m42);
        let t136 = t134 - t135;
        let t137 = T::mul_val(t84, self.m42);
        let t138 = t136 + t137;
        let t139 = T::mul_val(self.m12, self.m31);
        let t140 = T::mul_val(t139, self.m44);
        let t141 = t138 + t140;
        let t142 = T::mul_val(self.m11, self.m32);
        let t143 = T::mul_val(t142, self.m44);
        let t144 = t141 - t143;
        let t145 = T::mul_val(t43, self.m41);
        let t146 = T::mul_val(t40, self.m41);
        let t147 = t145 - t146;
        let t148 = T::mul_val(t96, self.m42);
        let t149 = t147 + t148;
        let t150 = T::mul_val(t99, self.m42);
        let t151 = t149 - t150;
        let t152 = T::mul_val(self.m12, self.m21);
        let t153 = T::mul_val(t152, self.m44);
        let t154 = t151 - t153;
        let t155 = T::mul_val(self.m11, self.m22);
        let t156 = T::mul_val(t155, self.m44);
        let t157 = t154 + t156;
        let t158 = T::mul_val(t40, self.m31);
        let t159 = T::mul_val(t43, self.m31);
        let t160 = t158 - t159;
        let t161 = T::mul_val(t96, self.m32);
        let t162 = t160 - t161;
        let t163 = T::mul_val(t99, self.m32);
        let t164 = t162 + t163;
        let t165 = T::mul_val(t152, self.m34);
        let t166 = t164 + t165;
        let t167 = T::mul_val(t155, self.m34);
        let t168 = t166 - t167;
        let t169 = T::mul_val(t12, self.m41);
        let t170 = T::mul_val(t15, self.m41);
        let t171 = t169 - t170;
        let t172 = T::mul_val(t72, self.m42);
        let t173 = t171 - t172;
        let t174 = T::mul_val(t75, self.m42);
        let t175 = t173 + t174;
        let t176 = T::mul_val(t126, self.m43);
        let t177 = t175 + t176;
        let t178 = T::mul_val(t129, self.m43);
        let t179 = t177 - t178;
        let t180 = T::mul_val(t32, self.m41);
        let t181 = T::mul_val(t29, self.m41);
        let t182 = t180 - t181;
        let t183 = T::mul_val(t87, self.m42);
        let t184 = t182 + t183;
        let t185 = T::mul_val(t90, self.m42);
        let t186 = t184 - t185;
        let t187 = T::mul_val(t139, self.m43);
        let t188 = t186 - t187;
        let t189 = T::mul_val(t142, self.m43);
        let t190 = t188 + t189;
        let t191 = T::mul_val(t46, self.m41);
        let t192 = T::mul_val(t49, self.m41);
        let t193 = t191 - t192;
        let t194 = T::mul_val(t102, self.m42);
        let t195 = t193 - t194;
        let t196 = T::mul_val(t105, self.m42);
        let t197 = t195 + t196;
        let t198 = T::mul_val(t152, self.m43);
        let t199 = t197 + t198;
        let t200 = T::mul_val(t155, self.m43);
        let t201 = t199 - t200;
        let t202 = T::mul_val(t49, self.m31);
        let t203 = T::mul_val(t46, self.m31);
        let t204 = t202 - t203;
        let t205 = T::mul_val(t102, self.m32);
        let t206 = t204 + t205;
        let t207 = T::mul_val(t105, self.m32);
        let t208 = t206 - t207;
        let t209 = T::mul_val(t152, self.m33);
        let t210 = t208 - t209;
        let t211 = T::mul_val(t155, self.m33);
        let t212 = t210 + t211;
        &&& fits::<T>(t1)
        &&& fits::<T>(t2)
        &&& fits::<T>(t3)
        &&& fits::<T>(t4)
        &&& fits::<T>(t5)
        &&& fits::<T>(t6)
        &&& fits::<T>(t7)
        &&& fits::<T>(t8)
        &&& fits::<T>(t9)
        &&& fits::<T>(t10)
        &&& fits::<T>(t11)
        &&& fits::<T>(t12)
        &&& fits::<T>(t13)
        &&& fits::<T>(t14)
        &&& fits::<T>(t15)
        &&& fits::<T>(t16)
        &&& fits::<T>(t17)
        &&& fits::<T>(t18)
        &&& fits::<T>(t19)
        &&& fits::<T>(t20)
        &&& fits::<T>(t21)
        &&& fits::<T>(t22)
        &&& fits::<T>(t23)
        &&& fits::<T>(t24)
        &&& fits::<T>(t25)
        &&& fits::<T>(t26)
        &&& fits::<T>(t27)
        &&& fits::<T>(t28)
        &&& fits::<T>(t29)
        &&& fits::<T>(t30)
        &&& fits::<T>(t31)
        &&& fits::<T>(t32)
        &&& fits::<T>(t33)
        &&& fits::<T>(t34)
        &&& fits::<T>(t35)
        &&& fits::<T>(t36)
        &&& fits::<T>(t37)
        &&& fits::<T>(t38)
        &&& fits::<T>(t39)
        &&& fits::<T>(t40)
        &&& fits::<T>(t41)
        &&& fits::<T>(t42)
        &&& fits::<T>(t43)
        &&& fits::<T>(t44)
        &&& fits::<T>(t45)
        &&& fits::<T>(t46)
        &&& fits::<T>(t47)
        &&& fits::<T>(t48)
        &&& fits::<T>(t49)
        &&& fits::<T>(t50)
        &&& fits::<T>(t51)
        &&& fits::<T>(t52)
        &&& fits::<T>(t53)
        &&& fits::<T>(t54)
        &&& fits::<T>(t55)
        &&& fits::<T>(t56)
        &&& fits::<T>(t57)
        &&& fits::<T>(t58)
        &&& fits::<T>(t59)
        &&& fits::<T>(t60)
        &&& fits::<T>(t61)
        &&& fits::<T>(t62)
        &&& fits::<T>(t63)
        &&& fits::<T>(t64)
        &&& fits::<T>(t65)
        &&& fits::<T>(t66)
        &&& fits::<T>(t67)
        &&& fits::<T>(t68)
        &&& fits::<T>(t69)
        &&& fits::<T>(t70)
        &&& fits::<T>(t71)
        &&& fits::<T>(t72)
        &&& fits::<T>(t73)
        &&& fits::<T>(t74)
        &&& fits::<T>(t75)
        &&& fits::<T>(t76)
        &&& fits::<T>(t77)
        &&& fits::<T>(t78)
        &&& fits::<T>(t79)
        &&& fits::<T>(t80)
        &&& fits::<T>(t81)
        &&& fits::<T>(t82)
        &&& fits::<T>(t83)
        &&& fits::<T>(t84)
        &&& fits::<T>(t85)
        &&& fits::<T>(t86)
        &&& fits::<T>(t87)
        &&& fits::<T>(t88)
        &&& fits::<T>(t89)
        &&& fits::<T>(t90)
        &&& fits::<T>(t91)
        &&& fits::<T>(t92)
        &&& fits::<T>(t93)
        &&& fits::<T>(t94)
        &&& fits::<T>(t95)
        &&& fits::<T>(t96)
        &&& fits::<T>(t97)
        &&& fits::<T>(t98)
        &&& fits::<T>(t99)
        &&& fits::<T>(t100)
        &&& fits::<T>(t101)
        &&& fits::<T>(t102)
        &&& fits::<T>(t103)
        &&& fits::<T>(t104)
        &&& fits::<T>(t105)
        &&& fits::<T>(t106)
        &&& fits::<T>(t107)
        &&& fits::<T>(t108)
        &&& fits::<T>(t109)
        &&& fits::<T>(t110)
        &&& fits::<T>(t111)
        &&& fits::<T>(t112)
        &&& fits::<T>(t113)
        &&& fits::<T>(t114)
        &&& fits::<T>(t115)
        &&& fits::<T>(t116)
        &&& fits::<T>(t117)
        &&& fits::<T>(t118)
        &&& fits::<T>(t119)
        &&& fits::<T>(t120)
        &&& fits::<T>(t121)
        &&& fits::<T>(t122)
        &&& fits::<T>(t123)
        &&& fits::<T>(t124)
        &&& fits::<T>(t125)
        &&& fits::<T>(t126)
        &&& fits::<T>(t127)
        &&& fits::<T>(t128)
        &&& fits::<T>(t129)
        &&& fits::<T>(t130)
        &&& fits::<T>(t131)
        &&& fits::<T>(t132)
        &&& fits::<T>(t133)
        &&& fits::<T>(t134)
        &&& fits::<T>(t135)
        &&& fits::<T>(t136)
        &&& fits::<T>(t137)
        &&& fits::<T>(t138)
        &&& fits::<T>(t139)
        &&& fits::<T>(t140)
        &&& fits::<T>(t141)
        &&& fits::<T>(t142)
        &&& fits::<T>(t143)
        &&& fits::<T>(t144)
        &&& fits::<T>(t145)
        &&& fits::<T>(t146)
        &&& fits::<T>(t147)
        &&& fits::<T>(t148)
        &&& fits::<T>(t149)
        &&& fits::<T>(t150)
        &&& fits::<T>(t151)
        &&& fits::<T>(t152)
        &&& fits::<T>(t153)
        &&& fits::<T>(t154)
        &&& fits::<T>(t155)
        &&& fits::<T>(t156)
        &&& fits::<T>(t157)
        &&& fits::<T>(t158)
        &&& fits::<T>(t159)
        &&& fits::<T>(t160)
        &&& fits::<T>(t161)
        &&& fits::<T>(t162)
        &&& fits::<T>(t163)
        &&& fits::<T>(t164)
        &&& fits::<T>(t165)
        &&& fits::<T>(t166)
        &&& fits::<T>(t167)
        &&& fits::<T>(t168)
        &&& fits::<T>(t169)
        &&& fits::<T>(t170)
        &&& fits::<T>(t171)
        &&& fits::<T>(t172)
        &&& fits::<T>(t173)
        &&& fits::<T>(t174)
        &&& fits::<T>(t175)
        &&& fits::<T>(t176)
        &&& fits::<T>(t177)
        &&& fits::<T>(t178)
        &&& fits::<T>(t179)
        &&& fits::<T>(t180)
        &&& fits::<T>(t181)
        &&& fits::<T>(t182)
        &&& fits::<T>(t183)
        &&& fits::<T>(t184)
        &&& fits::<T>(t185)
        &&& fits::<T>(t186)
        &&& fits::<T>(t187)
        &&& fits::<T>(t188)
        &&& fits::<T>(t189)
        &&& fits::<T>(t190)
        &&& fits::<T>(t191)
        &&& fits::<T>(t192)
        &&& fits::<T>(t193)
        &&& fits::<T>(t194)
        &&& fits::<T>(t195)
        &&& fits::<T>(t196)
        &&& fits::<T>(t197)
        &&& fits::<T>(t198)
        &&& fits::<T>(t199)
        &&& fits::<T>(t200)
        &&& fits::<T>(t201)
        &&& fits::<T>(t202)
        &&& fits::<T>(t203)
        &&& fits::<T>(t204)
        &&& fits::<T>(t205)
        &&& fits::<T>(t206)
        &&& fits::<T>(t207)
        &&& fits::<T>(t208)
        &&& fits::<T>(t209)
        &&& fits::<T>(t210)
        &&& fits::<T>(t211)
        &&& fits::<T>(t212)
    }

    /// The adjugate multiplied by `1 / determinant`, as the scalar type `T`
    /// divides and multiplies.
    pub open spec fn inverse<T: Scalar>(self) -> Mat4 {
        self.adjugate::<T>().mul_s::<T>(T::div_val(T::unit(), self.determinant::<T>()))
    }
}

impl Mat4 {
    /// Whether every step of computing the inverse, after the determinant, fits
    /// the scalar type `T`.
    pub open spec fn invert_fits<T: Scalar>(self) -> bool {
        &&& self.adjugate_fits::<T>()
        &&& fits::<T>(T::div_val(T::unit(), self.determinant::<T>()))
        &&& self.adjugate::<T>().mul_s_fits::<T>(T::div_val(T::unit(), self.determinant::<T>()))
    }
}

/// A rotation of space as a quaternion, `i`, `j` and `k` its vector part
/// and `r` its scalar part. It is a rotation where its norm is one.
pub struct Quat {
    pub i: int,
    pub j: int,
    pub k: int,
    pub r: int,
}

impl Quat {
    /// Whether the scalar type `T` can hold every part.
    pub open spec fn fits<T: Scalar>(self) -> bool {
        fits::<T>(self.i) && fits::<T>(self.j) && fits::<T>(self.k) && fits::<T>(self.r)
    }

    /// The rotation by no angle.
    pub open spec fn identity<T: Scalar>() -> Quat {
        Quat { i: 0, j: 0, k: 0, r: T::unit() }
    }

    /// The conjugate, which for a quaternion of norm one is the inverse rotation.
    pub open spec fn inverse(self) -> Quat {
        Quat { i: -self.i, j: -self.j, k: -self.k, r: self.r }
    }

    /// Where the rotation takes the point `p`: `p + 2 r (v x p) + 2 v x (v x p)`,
    /// with `v` the vector part.
    pub open spec fn rotate<T: Scalar>(self, p: Point3) -> Point3 {
        Point3 {
            x: p.x
               
                   
                        + T::mul_val(
                            self.r,
                            T::mul_val(T::mul_val(self.j, p.z)
                                - T::mul_val(self.k, p.y), two_val::<T>()),
                        )
               
                   
                        + T::mul_val(
                            self.j,
                            T::mul_val(T::mul_val(self.i, p.y)
                                - T::mul_val(self.j, p.x), two_val::<T>()),
                        )
               
                   
                        - T::mul_val(
                            self.k,
                            T::mul_val(T::mul_val(self.k, p.x)
                                - T::mul_val(self.i, p.z), two_val::<T>()),
                        ),
            y: p.y
               
                   
                        + T::mul_val(
                            self.r,
                            T::mul_val(T::mul_val(self.k, p.x)
                                - T::mul_val(self.i, p.z), two_val::<T>()),
                        )
               
                   
                        + T::mul_val(
                            self.k,
                            T::mul_val(T::mul_val(self.j, p.z)
                                - T::mul_val(self.k, p.y), two_val::<T>()),
                        )
               
                   
                        - T::mul_val(
                            self.i,
                            T::mul_val(T::mul_val(self.i, p.y)
                                - T::mul_val(self.j, p.x), two_val::<T>()),
                        ),
            z: p.z
               
                   
                        + T::mul_val(
                            self.r,
                            T::mul_val(T::mul_val(self.i, p.y)
                                - T::mul_val(self.j, p.x), two_val::<T>()),
                        )
               
                   
                        + T::mul_val(
                            self.i,
                            T::mul_val(T::mul_val(self.k, p.x)
                                - T::mul_val(self.i, p.z), two_val::<T>()),
                        )
               
                   
                        - T::mul_val(
                            self.j,
                            T::mul_val(T::mul_val(self.j, p.z)
                                - T::mul_val(self.k, p.y), two_val::<T>()),
                        ),
        }
    }

    /// Whether every step of rotating `p` fits the scalar type `T`.
    pub open spec fn rotate_fits<T: Scalar>(self, p: Point3) -> bool {
        let t1 = T::mul_val(self.j, p.z);
        let t2 = T::mul_val(self.k, p.y);
        let t3 = t1 - t2;
        let t4 = T::mul_val(t3, two_val::<T>());
        let t5 = T::mul_val(self.r, t4);
        let t6 = p.x + t5;
        let t7 = T::mul_val(self.i, p.y);
        let t8 = T::mul_val(self.j, p.x);
        let t9 = t7 - t8;
        let t10 = T::mul_val(t9, two_val::<T>());
        let t11 = T::mul_val(self.j, t10);
        let t12 = t6 + t11;
        let t13 = T::mul_val(self.k, p.x);
        let t14 = T::mul_val(self.i, p.z);
        let t15 = t13 - t14;
        let t16 = T::mul_val(t15, two_val::<T>());
        let t17 = T::mul_val(self.k, t16);
        let t18 = t12 - t17;
        let t19 = T::mul_val(self.r, t16);
        let t20 = p.y + t19;
        let t21 = T::mul_val(self.k, t4);
        let t22 = t20 + t21;
        let t23 = T::mul_val(self.i, t10);
        let t24 = t22 - t23;
        let t25 = T::mul_val(self.r, t10);
        let t26 = p.z + t25;
        let t27 = T::mul_val(self.i, t16);
        let t28 = t26 + t27;
        let t29 = T::mul_val(self.j, t4);
        let t30 = t28 - t29;
        &&& fits::<T>(two_val::<T>())
        &&& fits::<T>(t1)
        &&& fits::<T>(t2)
        &&& fits::<T>(t3)
        &&& fits::<T>(t4)
        &&& fits::<T>(t5)
        &&& fits::<T>(t6)
        &&& fits::<T>(t7)
        &&& fits::<T>(t8)
        &&& fits::<T>(t9)
        &&& fits::<T>(t10)
        &&& fits::<T>(t11)
        &&& fits::<T>(t12)
        &&& fits::<T>(t13)
        &&& fits::<T>(t14)
        &&& fits::<T>(t15)
        &&& fits::<T>(t16)
        &&& fits::<T>(t17)
        &&& fits::<T>(t18)
        &&& fits::<T>(t19)
        &&& fits::<T>(t20)
        &&& fits::<T>(t21)
        &&& fits::<T>(t22)
        &&& fits::<T>(t23)
        &&& fits::<T>(t24)
        &&& fits::<T>(t25)
        &&& fits::<T>(t26)
        &&& fits::<T>(t27)
        &&& fits::<T>(t28)
        &&& fits::<T>(t29)
        &&& fits::<T>(t30)
    }

    /// The rotation that applies `o` first and `self` second: the product
    /// `self * o` of the quaternions.
    pub open spec fn pre_rotate<T: Scalar>(self, o: Quat) -> Quat {
        Quat {
            i: T::mul_val(self.i, o.r)
                + T::mul_val(self.r, o.i) + T::mul_val(self.j, o.k) - T::mul_val(self.k, o.j),
            j: T::mul_val(self.j, o.r)
                + T::mul_val(self.r, o.j) + T::mul_val(self.k, o.i) - T::mul_val(self.i, o.k),
            k: T::mul_val(self.k, o.r)
                + T::mul_val(self.r, o.k) + T::mul_val(self.i, o.j) - T::mul_val(self.j, o.i),
            r: T::mul_val(self.r, o.r)
                - T::mul_val(self.i, o.i) - T::mul_val(self.j, o.j) - T::mul_val(self.k, o.k),
        }
    }

    /// Whether every step of computing `self.pre_rotate(o)` fits the scalar type `T`.
    pub open spec fn pre_rotate_fits<T: Scalar>(self, o: Quat) -> bool {
        let t1 = T::mul_val(self.i, o.r);
        let t2 = T::mul_val(self.r, o.i);
        let t3 = t1 + t2;
        let t4 = T::mul_val(self.j, o.k);
        let t5 = t3 + t4;
        let t6 = T::mul_val(self.k, o.j);
        let t7 = t5 - t6;
        let t8 = T::mul_val(self.j, o.r);
        let t9 = T::mul_val(self.r, o.j);
        let t10 = t8 + t9;
        let t11 = T::mul_val(self.k, o.i);
        let t12 = t10 + t11;
        let t13 = T::mul_val(self.i, o.k);
        let t14 = t12 - t13;
        let t15 = T::mul_val(self.k, o.r);
        let t16 = T::mul_val(self.r, o.k);
        let t17 = t15 + t16;
        let t18 = T::mul_val(self.i, o.j);
        let t19 = t17 + t18;
        let t20 = T::mul_val(self.j, o.i);
        let t21 = t19 - t20;
        let t22 = T::mul_val(self.r, o.r);
        let t23 = T::mul_val(self.i, o.i);
        let t24 = t22 - t23;
        let t25 = T::mul_val(self.j, o.j);
        let t26 = t24 - t25;
        let t27 = T::mul_val(self.k, o.k);
        let t28 = t26 - t27;
        &&& fits::<T>(t1)
        &&& fits::<T>(t2)
        &&& fits::<T>(t3)
        &&& fits::<T>(t4)
        &&& fits::<T>(t5)
        &&& fits::<T>(t6)
        &&& fits::<T>(t7)
        &&& fits::<T>(t8)
        &&& fits::<T>(t9)
        &&& fits::<T>(t10)
        &&& fits::<T>(t11)
        &&& fits::<T>(t12)
        &&& fits::<T>(t13)
        &&& fits::<T>(t14)
        &&& fits::<T>(t15)
        &&& fits::<T>(t16)
        &&& fits::<T>(t17)
        &&& fits::<T>(t18)
        &&& fits::<T>(t19)
        &&& fits::<T>(t20)
        &&& fits::<T>(t21)
        &&& fits::<T>(t22)
        &&& fits::<T>(t23)
        &&& fits::<T>(t24)
        &&& fits::<T>(t25)
        &&& fits::<T>(t26)
        &&& fits::<T>(t27)
        &&& fits::<T>(t28)
    }

    /// The rotation that applies `self` first and `o` second.
    pub open spec fn post_rotate<T: Scalar>(self, o: Quat) -> Quat {
        o.pre_rotate::<T>(self)
    }

    /// The rotation as a 3d transformation.
    pub open spec fn to_transform<T: Scalar>(self) -> Mat4 {
        Mat4 {
            m11: T::unit()
                - (T::mul_val(self.j, self.j + self.j) + T::mul_val(self.k, self.k + self.k)),
            m12: T::mul_val(self.i, self.j + self.j) + T::mul_val(self.r, self.k + self.k),
            m13: T::mul_val(self.i, self.k + self.k) - T::mul_val(self.r, self.j + self.j),
            m14: 0,
            m21: T::mul_val(self.i, self.j + self.j) - T::mul_val(self.r, self.k + self.k),
            m22: T::unit()
                - (T::mul_val(self.i, self.i + self.i) + T::mul_val(self.k, self.k + self.k)),
            m23: T::mul_val(self.j, self.k + self.k) + T::mul_val(self.r, self.i + self.i),
            m24: 0,
            m31: T::mul_val(self.i, self.k + self.k) + T::mul_val(self.r, self.j + self.j),
            m32: T::mul_val(self.j, self.k + self.k) - T::mul_val(self.r, self.i + self.i),
            m33: T::unit()
                - (T::mul_val(self.i, self.i + self.i) + T::mul_val(self.j, self.j + self.j)),
            m34: 0,
            m41: 0,
            m42: 0,
            m43: 0,
            m44: T::unit(),
        }
    }

    /// Whether every step of computing the matrix of the rotation fits the scalar type `T`.
    pub open spec fn to_transform_fits<T: Scalar>(self) -> bool {
        let t1 = self.j + self.j;
        let t2 = T::mul_val(self.j, t1);
        let t3 = self.k + self.k;
        let t4 = T::mul_val(self.k, t3);
        let t5 = t2 + t4;
        let t6 = T::unit() - t5;
        let t7 = T::mul_val(self.i, t1);
        let t8 = T::mul_val(self.r, t3);
        let t9 = t7 + t8;
        let t10 = T::mul_val(self.i, t3);
        let t11 = T::mul_val(self.r, t1);
        let t12 = t10 - t11;
        let t13 = t7 - t8;
        let t14 = self.i + self.i;
        let t15 = T::mul_val(self.i, t14);
        let t16 = t15 + t4;
        let t17 = T::unit() - t16;
        let t18 = T::mul_val(self.j, t3);
        let t19 = T::mul_val(self.r, t14);
        let t20 = t18 + t19;
        let t21 = t10 + t11;
        let t22 = t18 - t19;
        let t23 = t15 + t2;
        let t24 = T::unit() - t23;
        &&& fits::<T>(t1)
        &&& fits::<T>(t2)
        &&& fits::<T>(t3)
        &&& fits::<T>(t4)
        &&& fits::<T>(t5)
        &&& fits::<T>(t6)
        &&& fits::<T>(t7)
        &&& fits::<T>(t8)
        &&& fits::<T>(t9)
        &&& fits::<T>(t10)
        &&& fits::<T>(t11)
        &&& fits::<T>(t12)
        &&& fits::<T>(t13)
        &&& fits::<T>(t14)
        &&& fits::<T>(t15)
        &&& fits::<T>(t16)
        &&& fits::<T>(t17)
        &&& fits::<T>(t18)
        &&& fits::<T>(t19)
        &&& fits::<T>(t20)
        &&& fits::<T>(t21)
        &&& fits::<T>(t22)
        &&& fits::<T>(t23)
        &&& fits::<T>(t24)
    }
}

/// A rigid transformation of space: a rotation followed by a translation.
pub struct Rigid3 {
    pub rotation: Quat,
    pub translation: Point3,
}

impl Rigid3 {
    /// The transformation that leaves every point where it is.
    pub open spec fn identity<T: Scalar>() -> Rigid3 {
        Rigid3 { rotation: Quat::identity::<T>(), translation: Point3::zero() }
    }

    /// The rigid transformation that translates by `self.translation` first
    /// and rotates by `self.rotation` second: the same rotation, and the
    /// translation rotated by it.
    pub open spec fn reverse<T: Scalar>(self) -> Rigid3 {
        Rigid3 { rotation: self.rotation, translation: self.rotation.rotate::<T>(self.translation) }
    }

    /// Whether every step of computing `self.reverse()` fits the scalar type `T`.
    pub open spec fn reverse_fits<T: Scalar>(self) -> bool {
        self.rotation.rotate_fits::<T>(self.translation)
    }

    /// The translation that, applied before the rotation, gives the same
    /// transformation: the translation rotated by the inverse rotation.
    pub open spec fn reversed_translation<T: Scalar>(self) -> Point3 {
        self.rotation.inverse().rotate::<T>(self.translation)
    }

    /// Whether every step of computing `self.reversed_translation()` fits
    /// the scalar type `T`.
    pub open spec fn reversed_translation_fits<T: Scalar>(self) -> bool {
        self.rotation.inverse().fits::<T>() && self.rotation.inverse().rotate_fits::<T>(
            self.translation,
        )
    }

    /// The rotation of the transformation that applies `self` first and `o` second.
    pub open spec fn post_mul_rotation<T: Scalar>(self, o: Rigid3) -> Quat {
        self.rotation.post_rotate::<T>(o.rotation)
    }

    /// The transformation that applies `self` first and `o` second: the
    /// two rotations composed, and the translation of `self`, taken before
    /// its rotation and rotated by the composed rotation, plus that of `o`.
    pub open spec fn post_mul<T: Scalar>(self, o: Rigid3) -> Rigid3 {
        let r = self.post_mul_rotation::<T>(o);
        Rigid3 {
            rotation: r,
            translation: r.rotate::<T>(self.reversed_translation::<T>()).add(o.translation),
        }
    }

    /// Whether every step of computing `self.post_mul(o)` fits the scalar type `T`.
    pub open spec fn post_mul_fits<T: Scalar>(self, o: Rigid3) -> bool {
        let r = self.post_mul_rotation::<T>(o);
        &&& self.reversed_translation_fits::<T>()
        &&& o.rotation.pre_rotate_fits::<T>(self.rotation)
        &&& r.rotate_fits::<T>(self.reversed_translation::<T>())
        &&& self.post_mul::<T>(o).translation.fits::<T>()
    }

    /// The transformation with the inverse rotation that translates by the
    /// negative of the translation first and rotates second.
    pub open spec fn inverse<T: Scalar>(self) -> Rigid3 {
        (Rigid3 { rotation: self.rotation.inverse(), translation: self.translation.neg() }).reverse::<
            T,
        >()
    }

    /// Whether every step of computing `self.inverse()` fits the scalar type `T`.
    pub open spec fn inverse_fits<T: Scalar>(self) -> bool {
        &&& self.translation.neg().fits::<T>()
        &&& self.rotation.inverse().fits::<T>()
        &&& self.rotation.inverse().rotate_fits::<T>(self.translation.neg())
    }

    /// The transformation as a matrix: the matrix of the rotation times
    /// that of the translation, which rotates first.
    pub open spec fn to_transform<T: Scalar>(self) -> Mat4 {
        self.rotation.to_transform::<T>().product::<T>(
            Mat4::create_translation::<T>(
                self.translation.x,
                self.translation.y,
                self.translation.z,
            ),
        )
    }

    /// Whether every step of computing `self.to_transform()` fits the scalar type `T`.
    pub open spec fn to_transform_fits<T: Scalar>(self) -> bool {
        &&& self.rotation.to_transform_fits::<T>()
        &&& self.rotation.to_transform::<T>().product_fits::<T>(
            Mat4::create_translation::<T>(
                self.translation.x,
                self.translation.y,
                self.translation.z,
            ),
        )
    }
}

} // verus!
