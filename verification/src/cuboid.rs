use vstd::prelude::*;
use crate::box3d::views3;
use crate::length::{Length, UnknownUnit};
use crate::model::{Cuboid3, Point3, Size3};
use crate::num::{Scalar, fits, two, two_val};
use crate::point::TypedPoint3D;
use crate::rect::{max, min};
use crate::scale_factor::ScaleFactor;
use crate::side_offsets::TypedSideOffsets3D;
use crate::size::TypedSize3D;
use crate::vector::TypedVector3D;

verus! {

/// A 3d Cuboid optionally tagged with a unit: an origin, the corner of
/// least coordinates, and a size.
#[derive(Debug)]
pub struct TypedCuboid<T, U> {
    pub origin: TypedPoint3D<T, U>,
    pub size: TypedSize3D<T, U>,
}

/// `TypedCuboid` without a unit.
pub type Cuboid<T> = TypedCuboid<T, UnknownUnit>;

impl<T: Copy, U> Copy for TypedCuboid<T, U> {}

impl<T: Copy, U> Clone for TypedCuboid<T, U> {
    fn clone(&self) -> (r: Self)
        ensures
            r == *self,
    {
        *self
    }
}

impl<T: Scalar, U> View for TypedCuboid<T, U> {
    type V = Cuboid3;

    open spec fn view(&self) -> Cuboid3 {
        Cuboid3 { origin: self.origin@, size: self.size@ }
    }
}

impl<T: Scalar, U> PartialEq for TypedCuboid<T, U> {
    fn eq(&self, other: &TypedCuboid<T, U>) -> (b: bool) {
        self.origin.x.eq(other.origin.x)
            && self.origin.y.eq(other.origin.y)
            && self.origin.z.eq(other.origin.z)
            && self.size.width.eq(other.size.width)
            && self.size.height.eq(other.size.height)
            && self.size.depth.eq(other.size.depth)
    }
}

impl<T: Scalar, U> vstd::std_specs::cmp::PartialEqSpecImpl for TypedCuboid<T, U> {
    open spec fn obeys_eq_spec() -> bool {
        true
    }

    open spec fn eq_spec(&self, other: &TypedCuboid<T, U>) -> bool {
        self@ == other@
    }
}

impl<T, U> TypedCuboid<T, U> {
    /// Constructor.
    pub fn new(origin: TypedPoint3D<T, U>, size: TypedSize3D<T, U>) -> (r: Self)
        ensures
            r.origin == origin,
            r.size == size,
    {
        TypedCuboid { origin, size }
    }
}

impl<T: Scalar, U> TypedCuboid<T, U> {
    /// The cuboid that stands for `m`.
    pub open spec fn of(m: Cuboid3) -> Self {
        TypedCuboid { origin: TypedPoint3D::of(m.origin), size: TypedSize3D::of(m.size) }
    }

    /// A cuboid is the one cuboid with its view, and its view fits `T`.
    pub proof fn lemma_view(self)
        ensures
            Self::of(self@) == self,
            self@.fits::<T>(),
    {
        self.origin.lemma_view();
        self.size.lemma_view();
    }

    /// Creates a cuboid of the given size, at offset zero.
    pub fn from_size(size: TypedSize3D<T, U>) -> (r: Self)
        ensures
            r@ == (Cuboid3 { origin: Point3::zero(), size: size@ }),
    {
        TypedCuboid { origin: TypedPoint3D::zero(), size }
    }

    /// Whether the two cuboids overlap. Cuboids that only touch along a face
    /// do not intersect.
    pub fn intersects(&self, other: &Self) -> (b: bool)
        requires
            self@.spans::<T>(),
            other@.spans::<T>(),
        ensures
            b == self@.intersects(other@),
    {
        self.origin.x.lt(other.origin.x.add(other.size.width)) && other.origin.x.lt(
            self.origin.x.add(self.size.width),
        ) && self.origin.y.lt(other.origin.y.add(other.size.height)) && other.origin.y.lt(
            self.origin.y.add(self.size.height),
        ) && self.origin.z.lt(other.origin.z.add(other.size.depth)) && other.origin.z.lt(
            self.origin.z.add(self.size.depth),
        )
    }

    pub fn max_x(&self) -> (r: T)
        requires
            fits::<T>(self@.max_x()),
        ensures
            r.val() == self@.max_x(),
    {
        self.origin.x.add(self.size.width)
    }

    pub fn min_x(&self) -> (r: T)
        ensures
            r == self.origin.x,
            r.val() == self@.min_x(),
    {
        self.origin.x
    }

    pub fn max_y(&self) -> (r: T)
        requires
            fits::<T>(self@.max_y()),
        ensures
            r.val() == self@.max_y(),
    {
        self.origin.y.add(self.size.height)
    }

    pub fn min_y(&self) -> (r: T)
        ensures
            r == self.origin.y,
            r.val() == self@.min_y(),
    {
        self.origin.y
    }

    pub fn max_z(&self) -> (r: T)
        requires
            fits::<T>(self@.max_z()),
        ensures
            r.val() == self@.max_z(),
    {
        self.origin.z.add(self.size.depth)
    }

    pub fn min_z(&self) -> (r: T)
        ensures
            r == self.origin.z,
            r.val() == self@.min_z(),
    {
        self.origin.z
    }

    pub fn max_x_typed(&self) -> (r: Length<U, T>)
        requires
            fits::<T>(self@.max_x()),
        ensures
            r@ == self@.max_x(),
    {
        Length::new(self.max_x())
    }

    pub fn min_x_typed(&self) -> (r: Length<U, T>)
        ensures
            r@ == self@.min_x(),
    {
        Length::new(self.min_x())
    }

    pub fn max_y_typed(&self) -> (r: Length<U, T>)
        requires
            fits::<T>(self@.max_y()),
        ensures
            r@ == self@.max_y(),
    {
        Length::new(self.max_y())
    }

    pub fn min_y_typed(&self) -> (r: Length<U, T>)
        ensures
            r@ == self@.min_y(),
    {
        Length::new(self.min_y())
    }

    pub fn max_z_typed(&self) -> (r: Length<U, T>)
        requires
            fits::<T>(self@.max_z()),
        ensures
            r@ == self@.max_z(),
    {
        Length::new(self.max_z())
    }

    pub fn min_z_typed(&self) -> (r: Length<U, T>)
        ensures
            r@ == self@.min_z(),
    {
        Length::new(self.min_z())
    }

    /// The overlap of the two cuboids, if they intersect.
    pub fn intersection(&self, other: &Self) -> (r: Option<Self>)
        requires
            self@.spans::<T>(),
            other@.spans::<T>(),
        ensures
            r.is_some() == self@.intersects(other@),
            match r {
                Some(i) => Some(i@) == self@.intersection(other@),
                None => self@.intersection(other@).is_none(),
            },
    {
        if !self.intersects(other) {
            return None;
        }
        proof {
            T::lemma_units();
            self.lemma_view();
            other.lemma_view();
        }
        let upper_left_front = TypedPoint3D::new(
            max(self.min_x(), other.min_x()),
            max(self.min_y(), other.min_y()),
            max(self.min_z(), other.min_z()),
        );
        let lower_right_back_x = min(self.max_x(), other.max_x());
        let lower_right_back_y = min(self.max_y(), other.max_y());
        let lower_right_back_z = min(self.max_z(), other.max_z());
        Some(
            TypedCuboid::new(
                upper_left_front,
                TypedSize3D::new(
                    lower_right_back_x.sub(upper_left_front.x),
                    lower_right_back_y.sub(upper_left_front.y),
                    lower_right_back_z.sub(upper_left_front.z),
                ),
            ),
        )
    }

    /// Returns the same cuboid, translated by a vector.
    pub fn translate(&self, by: &TypedVector3D<T, U>) -> (r: Self)
        requires
            self@.origin.add(by@).fits::<T>(),
        ensures
            r@ == self@.translate(by@),
    {
        Self::new(
            TypedPoint3D::new(
                self.origin.x.add(by.x),
                self.origin.y.add(by.y),
                self.origin.z.add(by.z),
            ),
            self.size,
        )
    }

    /// Returns true if this cuboid contains the point. Points are considered
    /// in the cuboid if they are on the front, left or top faces, but outside if they
    /// are on the back, right or bottom faces.
    pub fn contains(&self, other: &TypedPoint3D<T, U>) -> (b: bool)
        requires
            self@.spans::<T>(),
        ensures
            b == self@.contains(other@),
    {
        self.origin.x.le(other.x) && other.x.lt(self.origin.x.add(self.size.width))
            && self.origin.y.le(other.y) && other.y.lt(self.origin.y.add(self.size.height))
            && self.origin.z.le(other.z) && other.z.lt(self.origin.z.add(self.size.depth))
    }

    /// Returns true if this cuboid contains the interior of the other cuboid:
    /// if other is empty, or its faces lie within those of this cuboid.
    pub fn contains_box(&self, other: &Self) -> (b: bool)
        requires
            !other@.is_empty() ==> self@.spans::<T>() && other@.spans::<T>(),
        ensures
            b == self@.contains_box(other@),
    {
        other.is_empty() || (self.min_x().le(other.min_x()) && other.max_x().le(self.max_x())
            && self.min_y().le(other.min_y()) && other.max_y().le(self.max_y())
            && self.min_z().le(other.min_z()) && other.max_z().le(self.max_z()))
    }

    /// The cuboid grown by `width`, `height` and `depth` on either side of
    /// the respective axis.
    pub fn inflate(&self, width: T, height: T, depth: T) -> (r: Self)
        requires
            fits::<T>(self@.size.width + width.val()),
            fits::<T>(self@.size.height + height.val()),
            fits::<T>(self@.size.depth + depth.val()),
            self@.inflate(width.val(), height.val(), depth.val()).fits::<T>(),
        ensures
            r@ == self@.inflate(width.val(), height.val(), depth.val()),
    {
        TypedCuboid::new(
            TypedPoint3D::new(
                self.origin.x.sub(width),
                self.origin.y.sub(height),
                self.origin.z.sub(depth),
            ),
            TypedSize3D::new(
                self.size.width.add(width).add(width),
                self.size.height.add(height).add(height),
                self.size.depth.add(depth).add(depth),
            ),
        )
    }

    pub fn inflate_typed(
        &self,
        width: Length<U, T>,
        height: Length<U, T>,
        depth: Length<U, T>,
    ) -> (r: Self)
        requires
            fits::<T>(self@.size.width + width@),
            fits::<T>(self@.size.height + height@),
            fits::<T>(self@.size.depth + depth@),
            self@.inflate(width@, height@, depth@).fits::<T>(),
        ensures
            r@ == self@.inflate(width@, height@, depth@),
    {
        self.inflate(width.get(), height.get(), depth.get())
    }

    pub fn top_left_back(&self) -> (r: TypedPoint3D<T, U>)
        requires
            fits::<T>(self@.max_z()),
        ensures
            r@ == (Point3 { x: self@.min_x(), y: self@.min_y(), z: self@.max_z() }),
    {
        TypedPoint3D::new(self.min_x(), self.min_y(), self.max_z())
    }

    pub fn top_right_front(&self) -> (r: TypedPoint3D<T, U>)
        requires
            fits::<T>(self@.max_x()),
        ensures
            r@ == (Point3 { x: self@.max_x(), y: self@.min_y(), z: self@.min_z() }),
    {
        TypedPoint3D::new(self.max_x(), self.min_y(), self.min_z())
    }

    pub fn top_right_back(&self) -> (r: TypedPoint3D<T, U>)
        requires
            fits::<T>(self@.max_x()),
            fits::<T>(self@.max_z()),
        ensures
            r@ == (Point3 { x: self@.max_x(), y: self@.min_y(), z: self@.max_z() }),
    {
        TypedPoint3D::new(self.max_x(), self.min_y(), self.max_z())
    }

    pub fn bottom_left_front(&self) -> (r: TypedPoint3D<T, U>)
        requires
            fits::<T>(self@.max_y()),
        ensures
            r@ == (Point3 { x: self@.min_x(), y: self@.max_y(), z: self@.min_z() }),
    {
        TypedPoint3D::new(self.min_x(), self.max_y(), self.min_z())
    }

    pub fn bottom_left_back(&self) -> (r: TypedPoint3D<T, U>)
        requires
            fits::<T>(self@.max_y()),
            fits::<T>(self@.max_z()),
        ensures
            r@ == (Point3 { x: self@.min_x(), y: self@.max_y(), z: self@.max_z() }),
    {
        TypedPoint3D::new(self.min_x(), self.max_y(), self.max_z())
    }

    pub fn bottom_right_front(&self) -> (r: TypedPoint3D<T, U>)
        requires
            fits::<T>(self@.max_x()),
            fits::<T>(self@.max_y()),
        ensures
            r@ == (Point3 { x: self@.max_x(), y: self@.max_y(), z: self@.min_z() }),
    {
        TypedPoint3D::new(self.max_x(), self.max_y(), self.min_z())
    }

    pub fn bottom_right_back(&self) -> (r: TypedPoint3D<T, U>)
        requires
            fits::<T>(self@.max_x()),
            fits::<T>(self@.max_y()),
            fits::<T>(self@.max_z()),
        ensures
            r@ == (Point3 { x: self@.max_x(), y: self@.max_y(), z: self@.max_z() }),
    {
        TypedPoint3D::new(self.max_x(), self.max_y(), self.max_z())
    }

    /// Returns the same cuboid, translated by the coordinates of a point.
    pub fn translate_by_size(&self, size: &TypedPoint3D<T, U>) -> (r: Self)
        requires
            self@.origin.add(size@).fits::<T>(),
        ensures
            r@ == self@.translate(size@),
    {
        self.translate(&size.to_vector())
    }

    /// Calculate the size and position of an inner cuboid.
    ///
    /// Subtracts the side offsets from all sides. The horizontal and vertical
    /// offsets are meant not to be larger than the side length.
    pub fn inner_box(&self, offsets: TypedSideOffsets3D<T, U>) -> (r: Self)
        requires
            fits::<T>(offsets@.horizontal()),
            fits::<T>(offsets@.vertical()),
            fits::<T>(offsets@.applicate()),
            self@.inner_box(offsets@).fits::<T>(),
        ensures
            r@ == self@.inner_box(offsets@),
    {
        TypedCuboid::new(
            TypedPoint3D::new(
                self.origin.x.add(offsets.left),
                self.origin.y.add(offsets.top),
                self.origin.z.add(offsets.front),
            ),
            TypedSize3D::new(
                self.size.width.sub(offsets.horizontal()),
                self.size.height.sub(offsets.vertical()),
                self.size.depth.sub(offsets.applicate()),
            ),
        )
    }

    /// Calculate the size and position of an outer cuboid.
    ///
    /// Add the offsets to all sides. The expanded cuboid is returned.
    pub fn outer_box(&self, offsets: TypedSideOffsets3D<T, U>) -> (r: Self)
        requires
            fits::<T>(offsets@.horizontal()),
            fits::<T>(offsets@.vertical()),
            fits::<T>(offsets@.applicate()),
            self@.outer_box(offsets@).fits::<T>(),
        ensures
            r@ == self@.outer_box(offsets@),
    {
        TypedCuboid::new(
            TypedPoint3D::new(
                self.origin.x.sub(offsets.left),
                self.origin.y.sub(offsets.top),
                self.origin.z.sub(offsets.front),
            ),
            TypedSize3D::new(
                self.size.width.add(offsets.horizontal()),
                self.size.height.add(offsets.vertical()),
                self.size.depth.add(offsets.applicate()),
            ),
        )
    }

    /// Returns the smallest cuboid that holds all of the provided points:
    /// the zero cuboid where there is none.
    pub fn from_points(points: &[TypedPoint3D<T, U>]) -> (r: Self)
        requires
            forall|i: int, j: int|
                0 <= i < points@.len() && 0 <= j < points@.len() && points@[i]@.x >= points@[j]@.x
                    ==> fits::<T>(#[trigger] points@[i]@.x - #[trigger] points@[j]@.x),
            forall|i: int, j: int|
                0 <= i < points@.len() && 0 <= j < points@.len() && points@[i]@.y >= points@[j]@.y
                    ==> fits::<T>(#[trigger] points@[i]@.y - #[trigger] points@[j]@.y),
            forall|i: int, j: int|
                0 <= i < points@.len() && 0 <= j < points@.len() && points@[i]@.z >= points@[j]@.z
                    ==> fits::<T>(#[trigger] points@[i]@.z - #[trigger] points@[j]@.z),
        ensures
            points@.len() == 0 ==> r@ == Cuboid3::zero(),
            points@.len() > 0 ==> r@.bounds(views3(points@)),
    {
        if points.len() == 0 {
            return TypedCuboid::zero();
        }
        let (mut min_x, mut min_y, mut min_z) = (points[0].x, points[0].y, points[0].z);
        let (mut max_x, mut max_y, mut max_z) = (min_x, min_y, min_z);
        let ghost mut at_min_x: int = 0;
        let ghost mut at_max_x: int = 0;
        let ghost mut at_min_y: int = 0;
        let ghost mut at_max_y: int = 0;
        let ghost mut at_min_z: int = 0;
        let ghost mut at_max_z: int = 0;
        let mut k: usize = 1;
        while k < points.len()
            invariant
                1 <= k <= points@.len(),
                0 <= at_min_x < k && points@[at_min_x].x == min_x,
                0 <= at_max_x < k && points@[at_max_x].x == max_x,
                0 <= at_min_y < k && points@[at_min_y].y == min_y,
                0 <= at_max_y < k && points@[at_max_y].y == max_y,
                0 <= at_min_z < k && points@[at_min_z].z == min_z,
                0 <= at_max_z < k && points@[at_max_z].z == max_z,
                forall|i: int|
                    0 <= i < k ==> min_x.val() <= (#[trigger] points@[i]).x.val() <= max_x.val()
                        && min_y.val() <= points@[i].y.val() <= max_y.val() && min_z.val()
                        <= points@[i].z.val() <= max_z.val(),
            decreases points@.len() - k,
        {
            let p = &points[k];
            if p.x.lt(min_x) {
                min_x = p.x;
                proof {
                    at_min_x = k as int;
                }
            }
            if p.x.gt(max_x) {
                max_x = p.x;
                proof {
                    at_max_x = k as int;
                }
            }
            if p.y.lt(min_y) {
                min_y = p.y;
                proof {
                    at_min_y = k as int;
                }
            }
            if p.y.gt(max_y) {
                max_y = p.y;
                proof {
                    at_max_y = k as int;
                }
            }
            if p.z.lt(min_z) {
                min_z = p.z;
                proof {
                    at_min_z = k as int;
                }
            }
            if p.z.gt(max_z) {
                max_z = p.z;
                proof {
                    at_max_z = k as int;
                }
            }
            k = k + 1;
        }
        proof {
            assert(fits::<T>(points@[at_max_x]@.x - points@[at_min_x]@.x));
            assert(fits::<T>(points@[at_max_y]@.y - points@[at_min_y]@.y));
            assert(fits::<T>(points@[at_max_z]@.z - points@[at_min_z]@.z));
        }
        let r = TypedCuboid::new(
            TypedPoint3D::new(min_x, min_y, min_z),
            TypedSize3D::new(max_x.sub(min_x), max_y.sub(min_y), max_z.sub(min_z)),
        );
        proof {
            let vs = views3(points@);
            assert(vs[at_min_x].x == r@.min_x());
            assert(vs[at_max_x].x == r@.max_x());
            assert(vs[at_min_y].y == r@.min_y());
            assert(vs[at_max_y].y == r@.max_y());
            assert(vs[at_min_z].z == r@.min_z());
            assert(vs[at_max_z].z == r@.max_z());
            assert forall|i: int| 0 <= i < vs.len() implies r@.min_x() <= (#[trigger] vs[i]).x
                <= r@.max_x() && r@.min_y() <= vs[i].y <= r@.max_y() && r@.min_z() <= vs[i].z
                <= r@.max_z() by {
                assert(vs[i] == points@[i]@);
            }
        }
        r
    }

    /// Linearly interpolate between this cuboid and another cuboid.
    /// `t` is expected between zero and one, and is not clamped.
    pub fn lerp(&self, other: Self, t: T) -> (r: Self)
        requires
            other@.origin.sub(self@.origin).fits::<T>(),
            other@.origin.sub(self@.origin).scale::<T>(t.val()).fits::<T>(),
            other@.size.sub(self@.size).fits::<T>(),
            other@.size.sub(self@.size).scale::<T>(t.val()).fits::<T>(),
            self@.lerp::<T>(other@, t.val()).fits::<T>(),
        ensures
            r@ == self@.lerp::<T>(other@, t.val()),
    {
        Self::new(self.origin.lerp(other.origin, t), self.size.lerp(other.size, t))
    }

    /// The origin moved by half the size.
    pub fn center(&self) -> (r: TypedPoint3D<T, U>)
        requires
            fits::<T>(two_val::<T>()),
            self@.size.to_vector().div::<T>(two_val::<T>()).fits::<T>(),
            self@.center::<T>().fits::<T>(),
        ensures
            r@ == self@.center::<T>(),
    {
        proof {
            T::lemma_units();
        }
        let two = two::<T>();
        TypedPoint3D::new(
            self.origin.x.add(self.size.width.div(two)),
            self.origin.y.add(self.size.height.div(two)),
            self.origin.z.add(self.size.depth.div(two)),
        )
    }

    /// The smallest cuboid that holds both cuboids. A cuboid whose size is
    /// zero is absorbed: the union is then the other cuboid.
    pub fn union(&self, other: &Self) -> (r: Self)
        requires
            self@.size != Size3::zero() && other@.size != Size3::zero() ==> self@.spans::<T>()
                && other@.spans::<T>() && self@.union(other@).fits::<T>(),
        ensures
            r@ == self@.union(other@),
    {
        proof {
            T::lemma_units();
        }
        if self.size.width.eq(T::zero()) && self.size.height.eq(T::zero()) && self.size.depth.eq(
            T::zero(),
        ) {
            return *other;
        }
        if other.size.width.eq(T::zero()) && other.size.height.eq(T::zero())
            && other.size.depth.eq(T::zero()) {
            return *self;
        }
        let upper_left_front = TypedPoint3D::new(
            min(self.min_x(), other.min_x()),
            min(self.min_y(), other.min_y()),
            min(self.min_z(), other.min_z()),
        );
        let lower_right_back_x = max(self.max_x(), other.max_x());
        let lower_right_back_y = max(self.max_y(), other.max_y());
        let lower_right_back_z = max(self.max_z(), other.max_z());
        TypedCuboid::new(
            upper_left_front,
            TypedSize3D::new(
                lower_right_back_x.sub(upper_left_front.x),
                lower_right_back_y.sub(upper_left_front.y),
                lower_right_back_z.sub(upper_left_front.z),
            ),
        )
    }

    /// The origin and the size multiplied by `x`, `y` and `z` along the
    /// respective axes.
    pub fn scale(&self, x: T, y: T, z: T) -> (r: Self)
        requires
            self@.scale::<T>(x.val(), y.val(), z.val()).fits::<T>(),
        ensures
            r@ == self@.scale::<T>(x.val(), y.val(), z.val()),
    {
        TypedCuboid::new(
            TypedPoint3D::new(self.origin.x.mul(x), self.origin.y.mul(y), self.origin.z.mul(z)),
            TypedSize3D::new(
                self.size.width.mul(x), self.size.height.mul(y), self.size.depth.mul(z),
            ),
        )
    }

    pub fn volume(&self) -> (r: T)
        requires
            fits::<T>(T::mul_val(self@.size.width, self@.size.height)),
            fits::<T>(self@.size.volume::<T>()),
        ensures
            r.val() == self@.size.volume::<T>(),
    {
        self.size.volume()
    }

    /// Constructor, setting all sides to zero.
    pub fn zero() -> (r: Self)
        ensures
            r@ == Cuboid3::zero(),
    {
        TypedCuboid::new(TypedPoint3D::origin(), TypedSize3D::zero())
    }

    /// Returns true if the size is zero, regardless of the origin's value.
    pub fn is_empty(&self) -> (b: bool)
        ensures
            b == self@.is_empty(),
    {
        self.size.is_empty()
    }

    /// Drop the units, preserving only the numeric value.
    pub fn to_untyped(&self) -> (r: Cuboid<T>)
        ensures
            r@ == self@,
    {
        TypedCuboid::new(self.origin.to_untyped(), self.size.to_untyped())
    }

    /// Tag a unitless value with units.
    pub fn from_untyped(c: &Cuboid<T>) -> (r: TypedCuboid<T, U>)
        ensures
            r@ == c@,
    {
        TypedCuboid::new(TypedPoint3D::from_untyped(&c.origin), TypedSize3D::from_untyped(&c.size))
    }

    /// Cast from one numeric representation to another, preserving the
    /// units, for a cuboid that `T1` can hold.
    ///
    /// A value that `T1` cannot hold exactly is rounded toward zero, which
    /// does not always make sense geometrically: consider `round`, `round_in`
    /// or `round_out` before casting.
    pub fn cast<T1: Scalar>(&self) -> (r: TypedCuboid<T1, U>)
        requires
            self@.cast::<T, T1>().fits::<T1>(),
        ensures
            r@ == self@.cast::<T, T1>(),
    {
        TypedCuboid::new(self.origin.cast().unwrap(), self.size.cast().unwrap())
    }

    /// Fallible cast from one numeric representation to another, preserving
    /// the units. A value that `T1` cannot hold exactly is rounded toward
    /// zero. The cast succeeds exactly when `T1` can hold the cuboid so rounded.
    pub fn try_cast<T1: Scalar>(&self) -> (r: Option<TypedCuboid<T1, U>>)
        ensures
            self@.cast::<T, T1>().fits::<T1>() ==> r.is_some() && r.unwrap()@ == self@.cast::<
                T,
                T1,
            >(),
            !self@.cast::<T, T1>().fits::<T1>() ==> r.is_none(),
    {
        match (self.origin.cast(), self.size.cast()) {
            (Some(origin), Some(size)) => Some(TypedCuboid::new(origin, size)),
            _ => None,
        }
    }

    /// Cast into an `usize` cuboid, for a cuboid that `usize` can hold.
    pub fn to_usize(&self) -> (r: TypedCuboid<usize, U>)
        requires
            self@.cast::<T, usize>().fits::<usize>(),
        ensures
            r@ == self@.cast::<T, usize>(),
    {
        self.cast()
    }

    /// Cast into an `u32` cuboid, for a cuboid that `u32` can hold.
    pub fn to_u32(&self) -> (r: TypedCuboid<u32, U>)
        requires
            self@.cast::<T, u32>().fits::<u32>(),
        ensures
            r@ == self@.cast::<T, u32>(),
    {
        self.cast()
    }

    /// Cast into an `i32` cuboid, for a cuboid that `i32` can hold.
    pub fn to_i32(&self) -> (r: TypedCuboid<i32, U>)
        requires
            self@.cast::<T, i32>().fits::<i32>(),
        ensures
            r@ == self@.cast::<T, i32>(),
    {
        self.cast()
    }

    /// Cast into an `i64` cuboid, for a cuboid that `i64` can hold.
    pub fn to_i64(&self) -> (r: TypedCuboid<i64, U>)
        requires
            self@.cast::<T, i64>().fits::<i64>(),
        ensures
            r@ == self@.cast::<T, i64>(),
    {
        self.cast()
    }

    /// Return a cuboid with edges rounded to integer coordinates, such that
    /// the returned cuboid has the same set of pixel centers as this one. A coordinate is rounded as `floor(n + 1/2)`: one half way
    /// between two integers goes to the greater, also where it is negative.
    pub fn round(&self) -> (r: Self)
        requires
            self@.spans::<T>(),
            self@.origin.round::<T>().fits::<T>(),
            self@.far().round::<T>().fits::<T>(),
            self@.round::<T>().fits::<T>(),
        ensures
            r@ == self@.round::<T>(),
    {
        let origin = self.origin.round();
        let far = TypedPoint3D::<T, U>::new(
            self.origin.x.add(self.size.width),
            self.origin.y.add(self.size.height),
            self.origin.z.add(self.size.depth),
        ).round();
        TypedCuboid::new(
            origin,
            TypedSize3D::new(far.x.sub(origin.x), far.y.sub(origin.y), far.z.sub(origin.z)),
        )
    }

    /// Return a cuboid with faces/edges rounded to integer coordinates, such that
    /// this cuboid contains the resulting cuboid.
    pub fn round_in(&self) -> (r: Self)
        requires
            self@.spans::<T>(),
            self@.origin.ceil::<T>().fits::<T>(),
            self@.far().floor::<T>().fits::<T>(),
            self@.round_in::<T>().fits::<T>(),
        ensures
            r@ == self@.round_in::<T>(),
    {
        let origin = self.origin.ceil();
        let far = TypedPoint3D::<T, U>::new(
            self.origin.x.add(self.size.width),
            self.origin.y.add(self.size.height),
            self.origin.z.add(self.size.depth),
        ).floor();
        TypedCuboid::new(
            origin,
            TypedSize3D::new(far.x.sub(origin.x), far.y.sub(origin.y), far.z.sub(origin.z)),
        )
    }

    /// Return a cuboid with faces/edges rounded to integer coordinates, such that
    /// this cuboid is contained in the resulting cuboid.
    pub fn round_out(&self) -> (r: Self)
        requires
            self@.spans::<T>(),
            self@.origin.floor::<T>().fits::<T>(),
            self@.far().ceil::<T>().fits::<T>(),
            self@.round_out::<T>().fits::<T>(),
        ensures
            r@ == self@.round_out::<T>(),
    {
        let origin = self.origin.floor();
        let far = TypedPoint3D::<T, U>::new(
            self.origin.x.add(self.size.width),
            self.origin.y.add(self.size.height),
            self.origin.z.add(self.size.depth),
        ).ceil();
        TypedCuboid::new(
            origin,
            TypedSize3D::new(far.x.sub(origin.x), far.y.sub(origin.y), far.z.sub(origin.z)),
        )
    }
}

impl<T: Scalar, U> core::ops::Mul<T> for TypedCuboid<T, U> {
    type Output = TypedCuboid<T, U>;

    fn mul(self, scale: T) -> (r: TypedCuboid<T, U>)
        ensures
            r@ == self@.mul::<T>(scale.val()),
    {
        let k = scale;
        let r = TypedCuboid::new(
            TypedPoint3D::new(self.origin.x.mul(k), self.origin.y.mul(k), self.origin.z.mul(k)),
            TypedSize3D::new(
                self.size.width.mul(k), self.size.height.mul(k), self.size.depth.mul(k),
            ),
        );
        proof {
            r.lemma_view();
        }
        r
    }
}

impl<T: Scalar, U> vstd::std_specs::ops::MulSpecImpl<T> for TypedCuboid<T, U> {
    open spec fn obeys_mul_spec() -> bool {
        true
    }

    open spec fn mul_req(self, scale: T) -> bool {
        self@.mul::<T>(scale.val()).fits::<T>()
    }

    open spec fn mul_spec(self, scale: T) -> TypedCuboid<T, U> {
        TypedCuboid::of(self@.mul::<T>(scale.val()))
    }
}

impl<T: Scalar, U1, U2> core::ops::Mul<ScaleFactor<U1, U2, T>> for TypedCuboid<T, U1> {
    type Output = TypedCuboid<T, U2>;

    fn mul(self, scale: ScaleFactor<U1, U2, T>) -> (r: TypedCuboid<T, U2>)
        ensures
            r@ == self@.mul::<T>(scale@),
    {
        let k = scale.get();
        let r = TypedCuboid::new(
            TypedPoint3D::new(self.origin.x.mul(k), self.origin.y.mul(k), self.origin.z.mul(k)),
            TypedSize3D::new(
                self.size.width.mul(k), self.size.height.mul(k), self.size.depth.mul(k),
            ),
        );
        proof {
            r.lemma_view();
        }
        r
    }
}

impl<T: Scalar, U1, U2> vstd::std_specs::ops::MulSpecImpl<ScaleFactor<U1, U2, T>> for TypedCuboid<T, U1> {
    open spec fn obeys_mul_spec() -> bool {
        true
    }

    open spec fn mul_req(self, scale: ScaleFactor<U1, U2, T>) -> bool {
        self@.mul::<T>(scale@).fits::<T>()
    }

    open spec fn mul_spec(self, scale: ScaleFactor<U1, U2, T>) -> TypedCuboid<T, U2> {
        TypedCuboid::of(self@.mul::<T>(scale@))
    }
}

impl<T: Scalar, U> core::ops::Div<T> for TypedCuboid<T, U> {
    type Output = TypedCuboid<T, U>;

    fn div(self, scale: T) -> (r: TypedCuboid<T, U>)
        ensures
            r@ == self@.div::<T>(scale.val()),
    {
        let k = scale;
        let r = TypedCuboid::new(
            TypedPoint3D::new(self.origin.x.div(k), self.origin.y.div(k), self.origin.z.div(k)),
            TypedSize3D::new(
                self.size.width.div(k), self.size.height.div(k), self.size.depth.div(k),
            ),
        );
        proof {
            r.lemma_view();
        }
        r
    }
}

impl<T: Scalar, U> vstd::std_specs::ops::DivSpecImpl<T> for TypedCuboid<T, U> {
    open spec fn obeys_div_spec() -> bool {
        true
    }

    open spec fn div_req(self, scale: T) -> bool {
        scale.val() != 0 && self@.div::<T>(scale.val()).fits::<T>()
    }

    open spec fn div_spec(self, scale: T) -> TypedCuboid<T, U> {
        TypedCuboid::of(self@.div::<T>(scale.val()))
    }
}

impl<T: Scalar, U1, U2> core::ops::Div<ScaleFactor<U1, U2, T>> for TypedCuboid<T, U2> {
    type Output = TypedCuboid<T, U1>;

    fn div(self, scale: ScaleFactor<U1, U2, T>) -> (r: TypedCuboid<T, U1>)
        ensures
            r@ == self@.div::<T>(scale@),
    {
        let k = scale.get();
        let r = TypedCuboid::new(
            TypedPoint3D::new(self.origin.x.div(k), self.origin.y.div(k), self.origin.z.div(k)),
            TypedSize3D::new(
                self.size.width.div(k), self.size.height.div(k), self.size.depth.div(k),
            ),
        );
        proof {
            r.lemma_view();
        }
        r
    }
}

impl<T: Scalar, U1, U2> vstd::std_specs::ops::DivSpecImpl<ScaleFactor<U1, U2, T>> for TypedCuboid<T, U2> {
    open spec fn obeys_div_spec() -> bool {
        true
    }

    open spec fn div_req(self, scale: ScaleFactor<U1, U2, T>) -> bool {
        scale@ != 0 && self@.div::<T>(scale@).fits::<T>()
    }

    open spec fn div_spec(self, scale: ScaleFactor<U1, U2, T>) -> TypedCuboid<T, U1> {
        TypedCuboid::of(self@.div::<T>(scale@))
    }
}

/// Shorthand for `TypedCuboid::new(TypedPoint3D::new(x, y, z), TypedSize3D::new(w, h, d))`.
pub fn cuboid<T: Copy, U>(x: T, y: T, z: T, w: T, h: T, d: T) -> (r: TypedCuboid<T, U>)
    ensures
        r.origin.x == x,
        r.origin.y == y,
        r.origin.z == z,
        r.size.width == w,
        r.size.height == h,
        r.size.depth == d,
{
    TypedCuboid::new(TypedPoint3D::new(x, y, z), TypedSize3D::new(w, h, d))
}

} // verus!
