use vstd::prelude::*;
use crate::length::{Length, UnknownUnit};
use crate::model::{Box3, Point3};
use crate::num::{Scalar, fits, two, two_val};
use crate::point::TypedPoint3D;
use crate::rect::{max, min};
use crate::scale_factor::ScaleFactor;
use crate::side_offsets::TypedSideOffsets3D;
use crate::size::TypedSize3D;
use crate::vector::TypedVector3D;

verus! {

/// A 3d box optionally tagged with a unit.
///
/// `a` is the upper left front corner position.
/// `b` is the lower right back corner position.
///
/// Axis directions: x axis positive going left to right.
///                  y axis positive going bottom to top.
///                  z axis positive going from back to front (out of the page).
#[derive(Debug)]
pub struct TypedBox3D<T, U> {
    pub a: TypedPoint3D<T, U>,
    pub b: TypedPoint3D<T, U>,
}

/// `TypedBox3D` without a unit.
pub type Box3D<T> = TypedBox3D<T, UnknownUnit>;

impl<T: Copy, U> Copy for TypedBox3D<T, U> {}

impl<T: Copy, U> Clone for TypedBox3D<T, U> {
    fn clone(&self) -> (r: Self)
        ensures
            r == *self,
    {
        *self
    }
}

impl<T: Scalar, U> View for TypedBox3D<T, U> {
    type V = Box3;

    open spec fn view(&self) -> Box3 {
        Box3 { a: self.a@, b: self.b@ }
    }
}

impl<T: Scalar, U> PartialEq for TypedBox3D<T, U> {
    fn eq(&self, other: &TypedBox3D<T, U>) -> (b: bool) {
        self.a.x.eq(other.a.x)
            && self.a.y.eq(other.a.y)
            && self.a.z.eq(other.a.z)
            && self.b.x.eq(other.b.x)
            && self.b.y.eq(other.b.y)
            && self.b.z.eq(other.b.z)
    }
}

impl<T: Scalar, U> vstd::std_specs::cmp::PartialEqSpecImpl for TypedBox3D<T, U> {
    open spec fn obeys_eq_spec() -> bool {
        true
    }

    open spec fn eq_spec(&self, other: &TypedBox3D<T, U>) -> bool {
        self@ == other@
    }
}

impl<T, U> TypedBox3D<T, U> {
    /// Constructor.
    pub fn new(a: TypedPoint3D<T, U>, b: TypedPoint3D<T, U>) -> (r: Self)
        ensures
            r.a == a,
            r.b == b,
    {
        TypedBox3D { a, b }
    }
}

/// The views of a sequence of points, in the same order.
pub open spec fn views3<T: Scalar, U>(points: Seq<TypedPoint3D<T, U>>) -> Seq<Point3> {
    Seq::new(points.len(), |i: int| points[i]@)
}

impl<T: Scalar, U> TypedBox3D<T, U> {
    /// The box that stands for `m`.
    pub open spec fn of(m: Box3) -> Self {
        TypedBox3D { a: TypedPoint3D::of(m.a), b: TypedPoint3D::of(m.b) }
    }

    /// A box is the one box with its view, and its view fits `T`.
    pub proof fn lemma_view(self)
        ensures
            Self::of(self@) == self,
            self@.fits::<T>(),
    {
        self.a.lemma_view();
        self.b.lemma_view();
    }

    /// Creates a box3d of the given size, so that the centroid is at zero origin.
    pub fn from_size(size: TypedSize3D<T, U>) -> (r: Self)
        requires
            fits::<T>(two_val::<T>()),
            size@.neg().fits::<T>(),
            Box3::from_size::<T>(size@).fits::<T>(),
        ensures
            r@ == Box3::from_size::<T>(size@),
    {
        proof {
            T::lemma_units();
        }
        let two = two::<T>();
        TypedBox3D {
            a: TypedPoint3D::new(
                size.width.neg().div(two),
                size.height.div(two),
                size.depth.div(two),
            ),
            b: TypedPoint3D::new(
                size.width.div(two),
                size.height.neg().div(two),
                size.depth.neg().div(two),
            ),
        }
    }

    pub fn max_x(&self) -> (r: T)
        ensures
            r == self.b.x,
            r.val() == self@.max_x(),
    {
        self.b.x
    }

    pub fn min_x(&self) -> (r: T)
        ensures
            r == self.a.x,
            r.val() == self@.min_x(),
    {
        self.a.x
    }

    pub fn max_y(&self) -> (r: T)
        ensures
            r == self.a.y,
            r.val() == self@.max_y(),
    {
        self.a.y
    }

    pub fn min_y(&self) -> (r: T)
        ensures
            r == self.b.y,
            r.val() == self@.min_y(),
    {
        self.b.y
    }

    pub fn max_z(&self) -> (r: T)
        ensures
            r == self.a.z,
            r.val() == self@.max_z(),
    {
        self.a.z
    }

    pub fn min_z(&self) -> (r: T)
        ensures
            r == self.b.z,
            r.val() == self@.min_z(),
    {
        self.b.z
    }

    pub fn top_left_front(&self) -> (r: TypedPoint3D<T, U>)
        ensures
            r@ == (Point3 { x: self@.min_x(), y: self@.max_y(), z: self@.max_z() }),
    {
        TypedPoint3D::new(self.min_x(), self.max_y(), self.max_z())
    }

    pub fn top_left_back(&self) -> (r: TypedPoint3D<T, U>)
        ensures
            r@ == (Point3 { x: self@.min_x(), y: self@.max_y(), z: self@.min_z() }),
    {
        TypedPoint3D::new(self.min_x(), self.max_y(), self.min_z())
    }

    pub fn top_right_front(&self) -> (r: TypedPoint3D<T, U>)
        ensures
            r@ == (Point3 { x: self@.max_x(), y: self@.max_y(), z: self@.max_z() }),
    {
        TypedPoint3D::new(self.max_x(), self.max_y(), self.max_z())
    }

    pub fn top_right_back(&self) -> (r: TypedPoint3D<T, U>)
        ensures
            r@ == (Point3 { x: self@.max_x(), y: self@.max_y(), z: self@.min_z() }),
    {
        TypedPoint3D::new(self.max_x(), self.max_y(), self.min_z())
    }

    pub fn bottom_left_front(&self) -> (r: TypedPoint3D<T, U>)
        ensures
            r@ == (Point3 { x: self@.min_x(), y: self@.min_y(), z: self@.max_z() }),
    {
        TypedPoint3D::new(self.min_x(), self.min_y(), self.max_z())
    }

    pub fn bottom_left_back(&self) -> (r: TypedPoint3D<T, U>)
        ensures
            r@ == (Point3 { x: self@.min_x(), y: self@.min_y(), z: self@.min_z() }),
    {
        TypedPoint3D::new(self.min_x(), self.min_y(), self.min_z())
    }

    pub fn bottom_right_front(&self) -> (r: TypedPoint3D<T, U>)
        ensures
            r@ == (Point3 { x: self@.max_x(), y: self@.min_y(), z: self@.max_z() }),
    {
        TypedPoint3D::new(self.max_x(), self.min_y(), self.max_z())
    }

    pub fn bottom_right_back(&self) -> (r: TypedPoint3D<T, U>)
        ensures
            r@ == (Point3 { x: self@.max_x(), y: self@.min_y(), z: self@.min_z() }),
    {
        TypedPoint3D::new(self.max_x(), self.min_y(), self.min_z())
    }

    pub fn max_x_typed(&self) -> (r: Length<U, T>)
        ensures
            r@ == self@.max_x(),
    {
        Length::new(self.max_x())
    }

    pub fn min_x_typed(&self) -> (r: Length<U, T>)
        ensures
            r@ == self@.min_x(),
    {
        Length::new(self.min_x())
    }

    pub fn max_y_typed(&self) -> (r: Length<U, T>)
        ensures
            r@ == self@.max_y(),
    {
        Length::new(self.max_y())
    }

    pub fn min_y_typed(&self) -> (r: Length<U, T>)
        ensures
            r@ == self@.min_y(),
    {
        Length::new(self.min_y())
    }

    pub fn max_z_typed(&self) -> (r: Length<U, T>)
        ensures
            r@ == self@.max_z(),
    {
        Length::new(self.max_z())
    }

    pub fn min_z_typed(&self) -> (r: Length<U, T>)
        ensures
            r@ == self@.min_z(),
    {
        Length::new(self.min_z())
    }

    /// Whether the two boxes overlap. Boxes that only touch along a face do
    /// not intersect.
    pub fn intersects(&self, other: &Self) -> (b: bool)
        ensures
            b == self@.intersects(other@),
    {
        self.min_x().lt(other.max_x()) && self.max_x().gt(other.min_x()) && self.min_y().lt(
            other.max_y(),
        ) && self.max_y().gt(other.min_y()) && self.min_z().lt(other.max_z()) && self.max_z().gt(
            other.min_z(),
        )
    }

    /// The overlap of the two boxes, if they intersect.
    pub fn intersection(&self, other: &Self) -> (r: Option<Self>)
        ensures
            r.is_some() == self@.intersects(other@),
            match r {
                Some(i) => Some(i@) == self@.intersection(other@),
                None => self@.intersection(other@).is_none(),
            },
    {
        if !self.intersects(other) {
            return None;
        }
        let intersection_a = TypedPoint3D::new(
            max(self.min_x(), other.min_x()),
            min(self.max_y(), other.max_y()),
            min(self.max_z(), other.max_z()),
        );
        let intersection_b = TypedPoint3D::new(
            min(self.max_x(), other.max_x()),
            max(self.min_y(), other.min_y()),
            max(self.min_z(), other.min_z()),
        );
        Some(TypedBox3D::new(intersection_a, intersection_b))
    }

    /// Returns the same box3d, translated by a vector.
    pub fn translate(&self, by: &TypedVector3D<T, U>) -> (r: Self)
        requires
            self@.translate(by@).fits::<T>(),
        ensures
            r@ == self@.translate(by@),
    {
        Self::new(
            TypedPoint3D::new(self.a.x.add(by.x), self.a.y.add(by.y), self.a.z.add(by.z)),
            TypedPoint3D::new(self.b.x.add(by.x), self.b.y.add(by.y), self.b.z.add(by.z)),
        )
    }

    /// Returns the same box3d, translated by the coordinates of a point.
    pub fn translate_by_size(&self, b: &TypedPoint3D<T, U>) -> (r: Self)
        requires
            self@.translate(b@).fits::<T>(),
        ensures
            r@ == self@.translate(b@),
    {
        self.translate(&b.to_vector())
    }

    /// Returns true if this box3d contains the point. On each axis a point
    /// on the face of least coordinate is in the box, and a point on the
    /// face of greatest coordinate is not.
    pub fn contains(&self, other: &TypedPoint3D<T, U>) -> (b: bool)
        ensures
            b == self@.contains(other@),
    {
        self.min_x().le(other.x) && other.x.lt(self.max_x()) && self.min_y().le(other.y)
            && other.y.lt(self.max_y()) && self.min_z().le(other.z) && other.z.lt(self.max_z())
    }

    /// Returns true if this box3d contains the interior of the other box3d:
    /// if other is empty, or its faces lie within those of this box3d.
    pub fn contains_box(&self, other: &Self) -> (b: bool)
        ensures
            b == self@.contains_box(other@),
    {
        other.is_empty() || (self.min_x().le(other.min_x()) && other.max_x().le(self.max_x())
            && self.min_y().le(other.min_y()) && other.max_y().le(self.max_y())
            && self.min_z().le(other.min_z()) && other.max_z().le(self.max_z()))
    }

    /// The extent of the box on each axis.
    pub fn size(&self) -> (r: TypedSize3D<T, U>)
        requires
            self@.size().fits::<T>(),
        ensures
            r@ == self@.size(),
    {
        TypedSize3D::new(
            self.max_x().sub(self.min_x()),
            self.max_y().sub(self.min_y()),
            self.max_z().sub(self.min_z()),
        )
    }

    /// The box grown by `width`, `height` and `depth` on either side of the
    /// respective axis: every face is moved outward by the given amount, so
    /// that the box becomes wider by twice `width`, higher by twice `height`
    /// and deeper by twice `depth` about the same centre.
    pub fn inflate(&self, width: T, height: T, depth: T) -> (r: Self)
        requires
            self@.inflate(width.val(), height.val(), depth.val()).fits::<T>(),
        ensures
            r@ == self@.inflate(width.val(), height.val(), depth.val()),
    {
        TypedBox3D::new(
            TypedPoint3D::new(self.a.x.sub(width), self.a.y.add(height), self.a.z.add(depth)),
            TypedPoint3D::new(self.b.x.add(width), self.b.y.sub(height), self.b.z.sub(depth)),
        )
    }

    /// The box grown by the lengths `width`, `height` and `depth` on either
    /// side of the respective axis.
    pub fn inflate_typed(
        &self,
        width: Length<U, T>,
        height: Length<U, T>,
        depth: Length<U, T>,
    ) -> (r: Self)
        requires
            self@.inflate(width@, height@, depth@).fits::<T>(),
        ensures
            r@ == self@.inflate(width@, height@, depth@),
    {
        self.inflate(width.get(), height.get(), depth.get())
    }

    /// Calculate the size and position of an inner box3d.
    ///
    /// Subtracts the side offsets from all sides. The horizontal, vertical
    /// and applicate offsets are meant not to be larger than the side length.
    pub fn inner_box(&self, offsets: TypedSideOffsets3D<T, U>) -> (r: Self)
        requires
            self@.inner_box(offsets@).fits::<T>(),
        ensures
            r@ == self@.inner_box(offsets@),
    {
        TypedBox3D::new(
            TypedPoint3D::new(
                self.a.x.add(offsets.left),
                self.a.y.sub(offsets.top),
                self.a.z.sub(offsets.front),
            ),
            TypedPoint3D::new(
                self.b.x.sub(offsets.right),
                self.b.y.add(offsets.bottom),
                self.b.z.add(offsets.back),
            ),
        )
    }

    /// Calculate the size and position of an outer box3d.
    ///
    /// Add the offsets to all sides. The expanded box3d is returned.
    pub fn outer_box(&self, offsets: TypedSideOffsets3D<T, U>) -> (r: Self)
        requires
            self@.outer_box(offsets@).fits::<T>(),
        ensures
            r@ == self@.outer_box(offsets@),
    {
        TypedBox3D::new(
            TypedPoint3D::new(
                self.a.x.sub(offsets.left),
                self.a.y.add(offsets.top),
                self.a.z.add(offsets.front),
            ),
            TypedPoint3D::new(
                self.b.x.add(offsets.right),
                self.b.y.sub(offsets.bottom),
                self.b.z.sub(offsets.back),
            ),
        )
    }

    /// Returns the smallest box containing all of the provided points: the
    /// zero box where there is none.
    pub fn from_points(points: &[TypedPoint3D<T, U>]) -> (r: Self)
        ensures
            points@.len() == 0 ==> r@ == Box3::zero(),
            points@.len() > 0 ==> r@.bounds(views3(points@)),
    {
        if points.len() == 0 {
            return TypedBox3D::zero();
        }
        let (mut min_x, mut min_y, mut min_z) = (points[0].x, points[0].y, points[0].z);
        let (mut max_x, mut max_y, mut max_z) = (min_x, min_y, min_z);
        let ghost mut at_min_x: int = 0;
        let ghost mut at_max_x: int = 0;
        let ghost mut at_min_y: int = 0;
        let ghost mut at_max_y: int = 0;
        let ghost mut at_min_z: int = 0;
        let ghost mut at_max_z: int = 0;
        let mut k: usize = 1;
        while k < points.len()
            invariant
                1 <= k <= points@.len(),
                0 <= at_min_x < k && points@[at_min_x].x == min_x,
                0 <= at_max_x < k && points@[at_max_x].x == max_x,
                0 <= at_min_y < k && points@[at_min_y].y == min_y,
                0 <= at_max_y < k && points@[at_max_y].y == max_y,
                0 <= at_min_z < k && points@[at_min_z].z == min_z,
                0 <= at_max_z < k && points@[at_max_z].z == max_z,
                forall|i: int|
                    0 <= i < k ==> min_x.val() <= (#[trigger] points@[i]).x.val() <= max_x.val()
                        && min_y.val() <= points@[i].y.val() <= max_y.val() && min_z.val()
                        <= points@[i].z.val() <= max_z.val(),
            decreases points@.len() - k,
        {
            let p = &points[k];
            if p.x.lt(min_x) {
                min_x = p.x;
                proof {
                    at_min_x = k as int;
                }
            }
            if p.x.gt(max_x) {
                max_x = p.x;
                proof {
                    at_max_x = k as int;
                }
            }
            if p.y.lt(min_y) {
                min_y = p.y;
                proof {
                    at_min_y = k as int;
                }
            }
            if p.y.gt(max_y) {
                max_y = p.y;
                proof {
                    at_max_y = k as int;
                }
            }
            if p.z.lt(min_z) {
                min_z = p.z;
                proof {
                    at_min_z = k as int;
                }
            }
            if p.z.gt(max_z) {
                max_z = p.z;
                proof {
                    at_max_z = k as int;
                }
            }
            k = k + 1;
        }
        let r = Self::from_min_max(min_x, min_y, min_z, max_x, max_y, max_z);
        proof {
            let vs = views3(points@);
            assert(vs[at_min_x].x == r@.min_x());
            assert(vs[at_max_x].x == r@.max_x());
            assert(vs[at_min_y].y == r@.min_y());
            assert(vs[at_max_y].y == r@.max_y());
            assert(vs[at_min_z].z == r@.min_z());
            assert(vs[at_max_z].z == r@.max_z());
            assert forall|i: int| 0 <= i < vs.len() implies r@.min_x() <= (#[trigger] vs[i]).x
                <= r@.max_x() && r@.min_y() <= vs[i].y <= r@.max_y() && r@.min_z() <= vs[i].z
                <= r@.max_z() by {
                assert(vs[i] == points@[i]@);
            }
        }
        r
    }

    /// The box with the given least and greatest coordinate on each axis.
    pub fn from_min_max(min_x: T, min_y: T, min_z: T, max_x: T, max_y: T, max_z: T) -> (r: Self)
        ensures
            r@ == Box3::from_min_max(
                min_x.val(),
                min_y.val(),
                min_z.val(),
                max_x.val(),
                max_y.val(),
                max_z.val(),
            ),
    {
        Self::new(TypedPoint3D::new(min_x, max_y, max_z), TypedPoint3D::new(max_x, min_y, min_z))
    }

    /// Linearly interpolate between this box3d and another box3d.
    /// `t` is expected between zero and one, and is not clamped.
    pub fn lerp(&self, other: Self, t: T) -> (r: Self)
        requires
            other@.a.sub(self@.a).fits::<T>(),
            other@.a.sub(self@.a).scale::<T>(t.val()).fits::<T>(),
            other@.b.sub(self@.b).fits::<T>(),
            other@.b.sub(self@.b).scale::<T>(t.val()).fits::<T>(),
            self@.lerp::<T>(other@, t.val()).fits::<T>(),
        ensures
            r@ == self@.lerp::<T>(other@, t.val()),
    {
        Self::new(self.a.lerp(other.a, t), self.b.lerp(other.b, t))
    }

    /// The midpoint of the two corners.
    pub fn center(&self) -> (r: TypedPoint3D<T, U>)
        requires
            fits::<T>(two_val::<T>()),
            self@.a.add(self@.b).fits::<T>(),
            self@.center::<T>().fits::<T>(),
        ensures
            r@ == self@.center::<T>(),
    {
        proof {
            T::lemma_units();
        }
        let two = two::<T>();
        let x = self.a.x.add(self.b.x);
        let y = self.a.y.add(self.b.y);
        let z = self.a.z.add(self.b.z);
        TypedPoint3D::new(x.div(two), y.div(two), z.div(two))
    }

    /// The smallest box that holds both boxes.
    pub fn union(&self, other: &Self) -> (r: Self)
        ensures
            r@ == self@.union(other@),
    {
        TypedBox3D::from_min_max(
            min(self.min_x(), other.min_x()),
            min(self.min_y(), other.min_y()),
            min(self.min_z(), other.min_z()),
            max(self.max_x(), other.max_x()),
            max(self.max_y(), other.max_y()),
            max(self.max_z(), other.max_z()),
        )
    }

    /// Both corners multiplied by `x`, `y` and `z` along the respective axes.
    pub fn scale(&self, x: T, y: T, z: T) -> (r: Self)
        requires
            self@.scale::<T>(x.val(), y.val(), z.val()).fits::<T>(),
        ensures
            r@ == self@.scale::<T>(x.val(), y.val(), z.val()),
    {
        TypedBox3D::new(
            TypedPoint3D::new(self.a.x.mul(x), self.a.y.mul(y), self.a.z.mul(z)),
            TypedPoint3D::new(self.b.x.mul(x), self.b.y.mul(y), self.b.z.mul(z)),
        )
    }

    pub fn volume(&self) -> (r: T)
        requires
            self@.size().fits::<T>(),
            fits::<T>(T::mul_val(self@.size().width, self@.size().height)),
            fits::<T>(self@.volume::<T>()),
        ensures
            r.val() == self@.volume::<T>(),
    {
        let size = self.size();
        size.width.mul(size.height).mul(size.depth)
    }

    pub fn front_area(&self) -> (r: T)
        requires
            self@.size().fits::<T>(),
            fits::<T>(self@.front_area::<T>()),
        ensures
            r.val() == self@.front_area::<T>(),
    {
        let size = self.size();
        size.width.mul(size.height)
    }

    pub fn left_area(&self) -> (r: T)
        requires
            self@.size().fits::<T>(),
            fits::<T>(self@.left_area::<T>()),
        ensures
            r.val() == self@.left_area::<T>(),
    {
        let size = self.size();
        size.depth.mul(size.height)
    }

    pub fn top_area(&self) -> (r: T)
        requires
            self@.size().fits::<T>(),
            fits::<T>(self@.top_area::<T>()),
        ensures
            r.val() == self@.top_area::<T>(),
    {
        let size = self.size();
        size.depth.mul(size.width)
    }

    pub fn back_area(&self) -> (r: T)
        requires
            self@.size().fits::<T>(),
            fits::<T>(self@.front_area::<T>()),
        ensures
            r.val() == self@.front_area::<T>(),
    {
        self.front_area()
    }

    pub fn right_area(&self) -> (r: T)
        requires
            self@.size().fits::<T>(),
            fits::<T>(self@.left_area::<T>()),
        ensures
            r.val() == self@.left_area::<T>(),
    {
        self.left_area()
    }

    pub fn bottom_area(&self) -> (r: T)
        requires
            self@.size().fits::<T>(),
            fits::<T>(self@.top_area::<T>()),
        ensures
            r.val() == self@.top_area::<T>(),
    {
        self.top_area()
    }

    /// Constructor, setting all sides to zero.
    pub fn zero() -> (r: Self)
        ensures
            r@ == Box3::zero(),
    {
        TypedBox3D::new(TypedPoint3D::zero(), TypedPoint3D::zero())
    }

    /// Returns true if the size is zero, regardless of a or b's value: if
    /// the two faces across an axis coincide.
    pub fn is_empty(&self) -> (b: bool)
        ensures
            b == self@.is_empty(),
    {
        self.max_x().eq(self.min_x()) || self.max_y().eq(self.min_y()) || self.max_z().eq(
            self.min_z(),
        )
    }

    /// Whether an extent of the box is zero or negative.
    pub fn is_empty_or_negative(&self) -> (b: bool)
        ensures
            b == self@.is_empty_or_negative(),
    {
        self.max_x().le(self.min_x()) || self.max_y().le(self.min_y()) || self.max_z().le(
            self.min_z(),
        )
    }

    /// Drop the units, preserving only the numeric value.
    pub fn to_untyped(&self) -> (r: Box3D<T>)
        ensures
            r@ == self@,
    {
        TypedBox3D::new(self.a.to_untyped(), self.b.to_untyped())
    }

    /// Tag a unitless value with units.
    pub fn from_untyped(c: &Box3D<T>) -> (r: TypedBox3D<T, U>)
        ensures
            r@ == c@,
    {
        TypedBox3D::new(TypedPoint3D::from_untyped(&c.a), TypedPoint3D::from_untyped(&c.b))
    }

    /// Cast from one numeric representation to another, preserving the
    /// units, for a box3d that `T1` can hold.
    ///
    /// A value that `T1` cannot hold exactly is rounded toward zero, which
    /// does not always make sense geometrically: consider `round`, `round_in`
    /// or `round_out` before casting.
    pub fn cast<T1: Scalar>(&self) -> (r: TypedBox3D<T1, U>)
        requires
            self@.cast::<T, T1>().fits::<T1>(),
        ensures
            r@ == self@.cast::<T, T1>(),
    {
        TypedBox3D::new(self.a.cast().unwrap(), self.b.cast().unwrap())
    }

    /// Fallible cast from one numeric representation to another, preserving
    /// the units. A value that `T1` cannot hold exactly is rounded toward
    /// zero. The cast succeeds exactly when `T1` can hold the box3d so rounded.
    pub fn try_cast<T1: Scalar>(&self) -> (r: Option<TypedBox3D<T1, U>>)
        ensures
            self@.cast::<T, T1>().fits::<T1>() ==> r.is_some() && r.unwrap()@ == self@.cast::<
                T,
                T1,
            >(),
            !self@.cast::<T, T1>().fits::<T1>() ==> r.is_none(),
    {
        match (self.a.cast(), self.b.cast()) {
            (Some(a), Some(b)) => Some(TypedBox3D::new(a, b)),
            _ => None,
        }
    }

    /// Cast into an `usize` box3d, for a box3d that `usize` can hold.
    pub fn to_usize(&self) -> (r: TypedBox3D<usize, U>)
        requires
            self@.cast::<T, usize>().fits::<usize>(),
        ensures
            r@ == self@.cast::<T, usize>(),
    {
        self.cast()
    }

    /// Cast into an `u32` box3d, for a box3d that `u32` can hold.
    pub fn to_u32(&self) -> (r: TypedBox3D<u32, U>)
        requires
            self@.cast::<T, u32>().fits::<u32>(),
        ensures
            r@ == self@.cast::<T, u32>(),
    {
        self.cast()
    }

    /// Cast into an `i32` box3d, for a box3d that `i32` can hold.
    pub fn to_i32(&self) -> (r: TypedBox3D<i32, U>)
        requires
            self@.cast::<T, i32>().fits::<i32>(),
        ensures
            r@ == self@.cast::<T, i32>(),
    {
        self.cast()
    }

    /// Cast into an `i64` box3d, for a box3d that `i64` can hold.
    pub fn to_i64(&self) -> (r: TypedBox3D<i64, U>)
        requires
            self@.cast::<T, i64>().fits::<i64>(),
        ensures
            r@ == self@.cast::<T, i64>(),
    {
        self.cast()
    }

    /// Return a box3d with edges rounded to integer coordinates, such that
    /// the returned box3d has the same set of pixel centers as this one. A coordinate is rounded as `floor(n + 1/2)`: one half way
    /// between two integers goes to the greater, also where it is negative.
    pub fn round(&self) -> (r: Self)
        requires
            self@.round::<T>().fits::<T>(),
        ensures
            r@ == self@.round::<T>(),
    {
        TypedBox3D::new(self.a.round(), self.b.round())
    }

    /// Return a box3d with faces/edges rounded to integer coordinates, such that
    /// this box3d contains the resulting box3d.
    pub fn round_in(&self) -> (r: Self)
        requires
            self@.round_in::<T>().fits::<T>(),
        ensures
            r@ == self@.round_in::<T>(),
    {
        let a_x = self.a.x.ceil();
        let a_y = self.a.y.floor();
        let a_z = self.a.z.floor();
        let b_x = self.b.x.floor();
        let b_y = self.b.y.ceil();
        let b_z = self.b.z.ceil();
        TypedBox3D::new(TypedPoint3D::new(a_x, a_y, a_z), TypedPoint3D::new(b_x, b_y, b_z))
    }

    /// Return a box3d with faces/edges rounded to integer coordinates, such that
    /// this box3d is contained in the resulting box3d.
    pub fn round_out(&self) -> (r: Self)
        requires
            self@.round_out::<T>().fits::<T>(),
        ensures
            r@ == self@.round_out::<T>(),
    {
        let a_x = self.a.x.floor();
        let a_y = self.a.y.ceil();
        let a_z = self.a.z.ceil();
        let b_x = self.b.x.ceil();
        let b_y = self.b.y.floor();
        let b_z = self.b.z.floor();
        TypedBox3D::new(TypedPoint3D::new(a_x, a_y, a_z), TypedPoint3D::new(b_x, b_y, b_z))
    }
}

impl<T: Scalar, U> core::ops::Mul<T> for TypedBox3D<T, U> {
    type Output = TypedBox3D<T, U>;

    fn mul(self, scale: T) -> (r: TypedBox3D<T, U>)
        ensures
            r@ == self@.mul::<T>(scale.val()),
    {
        let k = scale;
        let r = TypedBox3D::new(
            TypedPoint3D::new(self.a.x.mul(k), self.a.y.mul(k), self.a.z.mul(k)),
            TypedPoint3D::new(self.b.x.mul(k), self.b.y.mul(k), self.b.z.mul(k)),
        );
        proof {
            r.lemma_view();
        }
        r
    }
}

impl<T: Scalar, U> vstd::std_specs::ops::MulSpecImpl<T> for TypedBox3D<T, U> {
    open spec fn obeys_mul_spec() -> bool {
        true
    }

    open spec fn mul_req(self, scale: T) -> bool {
        self@.mul::<T>(scale.val()).fits::<T>()
    }

    open spec fn mul_spec(self, scale: T) -> TypedBox3D<T, U> {
        TypedBox3D::of(self@.mul::<T>(scale.val()))
    }
}

impl<T: Scalar, U1, U2> core::ops::Mul<ScaleFactor<U1, U2, T>> for TypedBox3D<T, U1> {
    type Output = TypedBox3D<T, U2>;

    fn mul(self, scale: ScaleFactor<U1, U2, T>) -> (r: TypedBox3D<T, U2>)
        ensures
            r@ == self@.mul::<T>(scale@),
    {
        let k = scale.get();
        let r = TypedBox3D::new(
            TypedPoint3D::new(self.a.x.mul(k), self.a.y.mul(k), self.a.z.mul(k)),
            TypedPoint3D::new(self.b.x.mul(k), self.b.y.mul(k), self.b.z.mul(k)),
        );
        proof {
            r.lemma_view();
        }
        r
    }
}

impl<T: Scalar, U1, U2> vstd::std_specs::ops::MulSpecImpl<ScaleFactor<U1, U2, T>> for TypedBox3D<T, U1> {
    open spec fn obeys_mul_spec() -> bool {
        true
    }

    open spec fn mul_req(self, scale: ScaleFactor<U1, U2, T>) -> bool {
        self@.mul::<T>(scale@).fits::<T>()
    }

    open spec fn mul_spec(self, scale: ScaleFactor<U1, U2, T>) -> TypedBox3D<T, U2> {
        TypedBox3D::of(self@.mul::<T>(scale@))
    }
}

impl<T: Scalar, U> core::ops::Div<T> for TypedBox3D<T, U> {
    type Output = TypedBox3D<T, U>;

    fn div(self, scale: T) -> (r: TypedBox3D<T, U>)
        ensures
            r@ == self@.div::<T>(scale.val()),
    {
        let k = scale;
        let r = TypedBox3D::new(
            TypedPoint3D::new(self.a.x.div(k), self.a.y.div(k), self.a.z.div(k)),
            TypedPoint3D::new(self.b.x.div(k), self.b.y.div(k), self.b.z.div(k)),
        );
        proof {
            r.lemma_view();
        }
        r
    }
}

impl<T: Scalar, U> vstd::std_specs::ops::DivSpecImpl<T> for TypedBox3D<T, U> {
    open spec fn obeys_div_spec() -> bool {
        true
    }

    open spec fn div_req(self, scale: T) -> bool {
        scale.val() != 0 && self@.div::<T>(scale.val()).fits::<T>()
    }

    open spec fn div_spec(self, scale: T) -> TypedBox3D<T, U> {
        TypedBox3D::of(self@.div::<T>(scale.val()))
    }
}

impl<T: Scalar, U1, U2> core::ops::Div<ScaleFactor<U1, U2, T>> for TypedBox3D<T, U2> {
    type Output = TypedBox3D<T, U1>;

    fn div(self, scale: ScaleFactor<U1, U2, T>) -> (r: TypedBox3D<T, U1>)
        ensures
            r@ == self@.div::<T>(scale@),
    {
        let k = scale.get();
        let r = TypedBox3D::new(
            TypedPoint3D::new(self.a.x.div(k), self.a.y.div(k), self.a.z.div(k)),
            TypedPoint3D::new(self.b.x.div(k), self.b.y.div(k), self.b.z.div(k)),
        );
        proof {
            r.lemma_view();
        }
        r
    }
}

impl<T: Scalar, U1, U2> vstd::std_specs::ops::DivSpecImpl<ScaleFactor<U1, U2, T>> for TypedBox3D<T, U2> {
    open spec fn obeys_div_spec() -> bool {
        true
    }

    open spec fn div_req(self, scale: ScaleFactor<U1, U2, T>) -> bool {
        scale@ != 0 && self@.div::<T>(scale@).fits::<T>()
    }

    open spec fn div_spec(self, scale: ScaleFactor<U1, U2, T>) -> TypedBox3D<T, U1> {
        TypedBox3D::of(self@.div::<T>(scale@))
    }
}

/// Shorthand for `TypedBox3D::new(TypedPoint3D::new(x1, y1, z1), TypedPoint3D::new(x2, y2, z2))`.
pub fn box3d<T: Copy, U>(tlf_x: T, tlf_y: T, tlf_z: T, brb_x: T, brb_y: T, brb_z: T) -> (r:
    TypedBox3D<T, U>)
    ensures
        r.a.x == tlf_x,
        r.a.y == tlf_y,
        r.a.z == tlf_z,
        r.b.x == brb_x,
        r.b.y == brb_y,
        r.b.z == brb_z,
{
    TypedBox3D::new(TypedPoint3D::new(tlf_x, tlf_y, tlf_z), TypedPoint3D::new(brb_x, brb_y, brb_z))
}

} // verus!
