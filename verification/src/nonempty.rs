use vstd::prelude::*;
use crate::box3d::TypedBox3D;
use crate::num::Scalar;
use crate::point::{point2, point3};
use crate::rect::{TypedBox2D, TypedRect, max, min};
use crate::size::size2;

verus! {

/// A region of the plane or of space, which may hold points or none.
pub trait Region: Copy {
    /// Whether every extent of the region is positive, so that it holds a point.
    spec fn has_extent(&self) -> bool;
}

impl<T: Scalar, U> Region for TypedRect<T, U> {
    open spec fn has_extent(&self) -> bool {
        self@.size.width > 0 && self@.size.height > 0
    }
}

impl<T: Scalar, U> Region for TypedBox2D<T, U> {
    open spec fn has_extent(&self) -> bool {
        !self@.is_empty_or_negative()
    }
}

impl<T: Scalar, U> Region for TypedBox3D<T, U> {
    open spec fn has_extent(&self) -> bool {
        !self@.is_empty_or_negative()
    }
}

/// A region known to hold a point: every extent of it is positive.
///
/// A value is made by `to_non_empty`, which tells a region with points from
/// one without, and by the union of two values.
#[derive(Debug)]
pub struct NonEmpty<T: Region>(pub(crate) T);

impl<T: Region> Copy for NonEmpty<T> {}

impl<T: Region> Clone for NonEmpty<T> {
    fn clone(&self) -> (r: Self)
        ensures
            r == *self,
    {
        *self
    }
}

impl<T: Region> NonEmpty<T> {
    #[verifier::type_invariant]
    spec fn holds_a_point(self) -> bool {
        self.0.has_extent()
    }

    /// The region itself.
    pub closed spec fn region(self) -> T {
        self.0
    }

    /// The region, which has a positive extent on every axis.
    pub fn get(&self) -> (r: &T)
        ensures
            *r == self.region(),
            r.has_extent(),
    {
        proof {
            use_type_invariant(self);
        }
        &self.0
    }
}

impl<T: Scalar, U> TypedRect<T, U> {
    /// The rectangle as one known to hold a point, if its extents are positive.
    pub fn to_non_empty(&self) -> (r: Option<NonEmpty<TypedRect<T, U>>>)
        ensures
            r.is_some() == self.has_extent(),
            r.is_some() ==> r.unwrap().region() == *self,
    {
        proof {
            T::lemma_units();
        }
        if self.size.width.le(T::zero()) || self.size.height.le(T::zero()) {
            return None;
        }
        Some(NonEmpty(*self))
    }
}

impl<T: Scalar, U> TypedBox2D<T, U> {
    /// The box as one known to hold a point, if its extents are positive.
    pub fn to_non_empty(&self) -> (r: Option<NonEmpty<TypedBox2D<T, U>>>)
        ensures
            r.is_some() == self.has_extent(),
            r.is_some() ==> r.unwrap().region() == *self,
    {
        if self.min.x.ge(self.max.x) || self.min.y.ge(self.max.y) {
            return None;
        }
        Some(NonEmpty(*self))
    }
}

impl<T: Scalar, U> TypedBox3D<T, U> {
    /// The box as one known to hold a point, if its extents are positive.
    pub fn to_non_empty(&self) -> (r: Option<NonEmpty<TypedBox3D<T, U>>>)
        ensures
            r.is_some() == self.has_extent(),
            r.is_some() ==> r.unwrap().region() == *self,
    {
        if self.is_empty_or_negative() {
            return None;
        }
        Some(NonEmpty(*self))
    }
}

impl<T: Scalar, U> NonEmpty<TypedRect<T, U>> {
    /// The smallest rectangle that holds both rectangles.
    pub fn union(&self, other: &NonEmpty<TypedRect<T, U>>) -> (r: NonEmpty<TypedRect<T, U>>)
        requires
            self.region()@.spans::<T>(),
            other.region()@.spans::<T>(),
            self.region()@.envelope(other.region()@).fits::<T>(),
        ensures
            r.region()@ == self.region()@.envelope(other.region()@),
            r.region()@ == self.region()@.union(other.region()@),
    {
        proof {
            use_type_invariant(self);
            use_type_invariant(other);
        }
        let a = &self.0;
        let b = &other.0;
        let origin = point2(min(a.min_x(), b.min_x()), min(a.min_y(), b.min_y()));
        let lower_right_x = max(a.max_x(), b.max_x());
        let lower_right_y = max(a.max_y(), b.max_y());
        NonEmpty(
            TypedRect {
                origin,
                size: size2(lower_right_x.sub(origin.x), lower_right_y.sub(origin.y)),
            },
        )
    }

    /// Whether the edges of `rect` lie within those of this rectangle.
    pub fn contains_rect(&self, rect: &Self) -> (b: bool)
        requires
            self.region()@.spans::<T>(),
            rect.region()@.spans::<T>(),
        ensures
            b == self.region()@.encloses(rect.region()@),
            b == self.region()@.contains_rect(rect.region()@),
    {
        proof {
            use_type_invariant(rect);
        }
        let a = &self.0;
        let b = &rect.0;
        a.min_x().le(b.min_x()) && b.max_x().le(a.max_x()) && a.min_y().le(b.min_y())
            && b.max_y().le(a.max_y())
    }
}

impl<T: Scalar, U> NonEmpty<TypedBox2D<T, U>> {
    /// The smallest box that holds both boxes.
    pub fn union(&self, other: &NonEmpty<TypedBox2D<T, U>>) -> (r: NonEmpty<TypedBox2D<T, U>>)
        ensures
            r.region()@ == self.region()@.union(other.region()@),
    {
        proof {
            use_type_invariant(self);
            use_type_invariant(other);
        }
        let a = &self.0;
        let b = &other.0;
        NonEmpty(
            TypedBox2D {
                min: point2(min(a.min.x, b.min.x), min(a.min.y, b.min.y)),
                max: point2(max(a.max.x, b.max.x), max(a.max.y, b.max.y)),
            },
        )
    }

    /// Returns true if this box contains the interior of the other box.
    pub fn contains_box(&self, other: &Self) -> (b: bool)
        ensures
            b == self.region()@.encloses(other.region()@),
            b == self.region()@.contains_box(other.region()@),
    {
        proof {
            use_type_invariant(other);
        }
        let a = &self.0;
        let b = &other.0;
        a.min.x.le(b.min.x) && b.max.x.le(a.max.x) && a.min.y.le(b.min.y) && b.max.y.le(a.max.y)
    }
}

impl<T: Scalar, U> NonEmpty<TypedBox3D<T, U>> {
    /// The smallest box that holds both boxes.
    pub fn union(&self, other: &NonEmpty<TypedBox3D<T, U>>) -> (r: NonEmpty<TypedBox3D<T, U>>)
        ensures
            r.region()@ == self.region()@.union(other.region()@),
    {
        proof {
            use_type_invariant(self);
            use_type_invariant(other);
        }
        let a = &self.0;
        let b = &other.0;
        NonEmpty(
            TypedBox3D {
                a: point3(
                    min(a.min_x(), b.min_x()),
                    max(a.max_y(), b.max_y()),
                    max(a.max_z(), b.max_z()),
                ),
                b: point3(
                    max(a.max_x(), b.max_x()),
                    min(a.min_y(), b.min_y()),
                    min(a.min_z(), b.min_z()),
                ),
            },
        )
    }

    /// Returns true if this box contains the interior of the other box.
    pub fn contains_box(&self, other: &Self) -> (b: bool)
        ensures
            b == self.region()@.encloses(other.region()@),
            b == self.region()@.contains_box(other.region()@),
    {
        proof {
            use_type_invariant(other);
        }
        let a = &self.0;
        let b = &other.0;
        a.min_x().le(b.min_x()) && b.max_x().le(a.max_x()) && a.min_y().le(b.min_y())
            && b.max_y().le(a.max_y()) && a.min_z().le(b.min_z()) && b.max_z().le(a.max_z())
    }
}

} // verus!
