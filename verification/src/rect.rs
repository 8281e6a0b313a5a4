use vstd::prelude::*;
use crate::length::{Length, UnknownUnit};
use crate::model::{Box2, Point2, Rect2, Size2, greater, lesser};
use crate::num::{Scalar, fits};
use crate::point::{TypedPoint2D, point2};
use crate::scale_factor::ScaleFactor;
use crate::size::{TypedSize2D, size2};
use crate::vector::TypedVector2D;

verus! {

/// A 2d Rectangle represented using a point and a size, optionally tagged with a unit.
#[derive(Debug)]
pub struct TypedRect<T, U> {
    pub origin: TypedPoint2D<T, U>,
    pub size: TypedSize2D<T, U>,
}

/// The default rectangle type with no unit.
pub type Rect<T> = TypedRect<T, UnknownUnit>;

impl<T: Copy, U> Copy for TypedRect<T, U> {}

impl<T: Copy, U> Clone for TypedRect<T, U> {
    fn clone(&self) -> (r: Self)
        ensures
            r == *self,
    {
        *self
    }
}

impl<T: Scalar, U> View for TypedRect<T, U> {
    type V = Rect2;

    open spec fn view(&self) -> Rect2 {
        Rect2 { origin: self.origin@, size: self.size@ }
    }
}

impl<T: Scalar, U> PartialEq for TypedRect<T, U> {
    fn eq(&self, other: &TypedRect<T, U>) -> (b: bool) {
        self.origin.x.eq(other.origin.x) && self.origin.y.eq(other.origin.y) && self.size.width.eq(
            other.size.width,
        ) && self.size.height.eq(other.size.height)
    }
}

impl<T: Scalar, U> vstd::std_specs::cmp::PartialEqSpecImpl for TypedRect<T, U> {
    open spec fn obeys_eq_spec() -> bool {
        true
    }

    open spec fn eq_spec(&self, other: &TypedRect<T, U>) -> bool {
        self@ == other@
    }
}

/// The views of a sequence of points, in the same order.
pub open spec fn views2<T: Scalar, U>(points: Seq<TypedPoint2D<T, U>>) -> Seq<Point2> {
    Seq::new(points.len(), |i: int| points[i]@)
}

impl<T, U> TypedRect<T, U> {
    /// Constructor.
    pub fn new(origin: TypedPoint2D<T, U>, size: TypedSize2D<T, U>) -> (r: Self)
        ensures
            r.origin == origin,
            r.size == size,
    {
        TypedRect { origin, size }
    }
}

impl<T: Scalar, U> TypedRect<T, U> {
    /// The rectangle that stands for `m`.
    pub open spec fn of(m: Rect2) -> Self {
        TypedRect { origin: TypedPoint2D::of(m.origin), size: TypedSize2D::of(m.size) }
    }

    /// A rectangle is the one rectangle with its view, and its view fits `T`.
    pub proof fn lemma_view(self)
        ensures
            Self::of(self@) == self,
            self@.fits::<T>(),
    {
        self.origin.lemma_view();
        self.size.lemma_view();
    }

    /// Whether the two rectangles overlap. Rectangles that only touch along
    /// an edge do not intersect.
    pub fn intersects(&self, other: &Self) -> (b: bool)
        requires
            self@.spans::<T>(),
            other@.spans::<T>(),
        ensures
            b == self@.intersects(other@),
    {
        self.origin.x.lt(other.origin.x.add(other.size.width)) && other.origin.x.lt(
            self.origin.x.add(self.size.width),
        ) && self.origin.y.lt(other.origin.y.add(other.size.height)) && other.origin.y.lt(
            self.origin.y.add(self.size.height),
        )
    }

    pub fn max_x(&self) -> (r: T)
        requires
            fits::<T>(self@.max_x()),
        ensures
            r.val() == self@.max_x(),
    {
        self.origin.x.add(self.size.width)
    }

    pub fn min_x(&self) -> (r: T)
        ensures
            r == self.origin.x,
            r.val() == self@.min_x(),
    {
        self.origin.x
    }

    pub fn max_y(&self) -> (r: T)
        requires
            fits::<T>(self@.max_y()),
        ensures
            r.val() == self@.max_y(),
    {
        self.origin.y.add(self.size.height)
    }

    pub fn min_y(&self) -> (r: T)
        ensures
            r == self.origin.y,
            r.val() == self@.min_y(),
    {
        self.origin.y
    }

    pub fn max_x_typed(&self) -> (r: Length<U, T>)
        requires
            fits::<T>(self@.max_x()),
        ensures
            r@ == self@.max_x(),
    {
        Length::new(self.max_x())
    }

    pub fn min_x_typed(&self) -> (r: Length<U, T>)
        ensures
            r@ == self@.min_x(),
    {
        Length::new(self.min_x())
    }

    pub fn max_y_typed(&self) -> (r: Length<U, T>)
        requires
            fits::<T>(self@.max_y()),
        ensures
            r@ == self@.max_y(),
    {
        Length::new(self.max_y())
    }

    pub fn min_y_typed(&self) -> (r: Length<U, T>)
        ensures
            r@ == self@.min_y(),
    {
        Length::new(self.min_y())
    }

    /// The overlap of the two rectangles, if they intersect.
    pub fn intersection(&self, other: &Self) -> (r: Option<Self>)
        requires
            self@.spans::<T>(),
            other@.spans::<T>(),
        ensures
            r.is_some() == self@.intersects(other@),
            match r {
                Some(i) => Some(i@) == self@.intersection(other@),
                None => self@.intersection(other@).is_none(),
            },
    {
        if !self.intersects(other) {
            return None;
        }
        proof {
            T::lemma_units();
            self.lemma_view();
            other.lemma_view();
        }
        let upper_left = TypedPoint2D::new(
            max(self.min_x(), other.min_x()),
            max(self.min_y(), other.min_y()),
        );
        let lower_right_x = min(self.max_x(), other.max_x());
        let lower_right_y = min(self.max_y(), other.max_y());
        Some(
            TypedRect::new(
                upper_left,
                TypedSize2D::new(
                    lower_right_x.sub(upper_left.x),
                    lower_right_y.sub(upper_left.y),
                ),
            ),
        )
    }

    /// The box with the same corners.
    pub fn to_box(&self) -> (r: TypedBox2D<T, U>)
        requires
            self@.spans::<T>(),
        ensures
            r@ == self@.to_box(),
    {
        TypedBox2D::new(self.origin, point2(self.max_x(), self.max_y()))
    }

    /// Returns the same rectangle, translated by a vector.
    pub fn translate(&self, by: &TypedVector2D<T, U>) -> (r: Self)
        requires
            self@.origin.add(by@).fits::<T>(),
        ensures
            r@ == self@.translate(by@),
    {
        Self::new(
            TypedPoint2D::new(self.origin.x.add(by.x), self.origin.y.add(by.y)),
            self.size,
        )
    }

    /// Returns true if this rectangle contains the point. Points are considered
    /// in the rectangle if they are on the left or top edge, but outside if they
    /// are on the right or bottom edge.
    pub fn contains(&self, other: &TypedPoint2D<T, U>) -> (b: bool)
        requires
            self@.spans::<T>(),
        ensures
            b == self@.contains(other@),
    {
        self.origin.x.le(other.x) && other.x.lt(self.origin.x.add(self.size.width))
            && self.origin.y.le(other.y) && other.y.lt(self.origin.y.add(self.size.height))
    }

    /// Returns true if this rectangle contains the interior of rect: if rect
    /// is empty, or its edges lie within those of this rectangle.
    pub fn contains_rect(&self, rect: &Self) -> (b: bool)
        requires
            !rect@.is_empty() ==> self@.spans::<T>() && rect@.spans::<T>(),
        ensures
            b == self@.contains_rect(rect@),
    {
        rect.is_empty() || (self.min_x().le(rect.min_x()) && rect.max_x().le(self.max_x())
            && self.min_y().le(rect.min_y()) && rect.max_y().le(self.max_y()))
    }

    /// The rectangle grown by `width` on its left and right, and by `height`
    /// above and below.
    pub fn inflate(&self, width: T, height: T) -> (r: Self)
        requires
            fits::<T>(self@.size.width + width.val()),
            fits::<T>(self@.size.height + height.val()),
            self@.inflate(width.val(), height.val()).fits::<T>(),
        ensures
            r@ == self@.inflate(width.val(), height.val()),
    {
        TypedRect::new(
            TypedPoint2D::new(self.origin.x.sub(width), self.origin.y.sub(height)),
            TypedSize2D::new(
                self.size.width.add(width).add(width),
                self.size.height.add(height).add(height),
            ),
        )
    }

    pub fn inflate_typed(&self, width: Length<U, T>, height: Length<U, T>) -> (r: Self)
        requires
            fits::<T>(self@.size.width + width@),
            fits::<T>(self@.size.height + height@),
            self@.inflate(width@, height@).fits::<T>(),
        ensures
            r@ == self@.inflate(width@, height@),
    {
        self.inflate(width.get(), height.get())
    }

    pub fn top_right(&self) -> (r: TypedPoint2D<T, U>)
        requires
            fits::<T>(self@.max_x()),
        ensures
            r@ == self@.top_right(),
    {
        TypedPoint2D::new(self.max_x(), self.origin.y)
    }

    pub fn bottom_left(&self) -> (r: TypedPoint2D<T, U>)
        requires
            fits::<T>(self@.max_y()),
        ensures
            r@ == self@.bottom_left(),
    {
        TypedPoint2D::new(self.origin.x, self.max_y())
    }

    pub fn bottom_right(&self) -> (r: TypedPoint2D<T, U>)
        requires
            self@.spans::<T>(),
        ensures
            r@ == self@.bottom_right(),
    {
        TypedPoint2D::new(self.max_x(), self.max_y())
    }

    /// Returns the same rectangle, translated by the width and height of a size.
    pub fn translate_by_size(&self, size: &TypedSize2D<T, U>) -> (r: Self)
        requires
            self@.origin.add(size@.to_vector()).fits::<T>(),
        ensures
            r@ == self@.translate(size@.to_vector()),
    {
        self.translate(&size.to_vector())
    }

    /// Returns the smallest rectangle containing all of the points: the zero
    /// rectangle where there is none.
    pub fn from_points(points: &[TypedPoint2D<T, U>]) -> (r: Self)
        requires
            forall|i: int, j: int|
                0 <= i < points@.len() && 0 <= j < points@.len() && points@[i]@.x >= points@[j]@.x
                    ==> fits::<T>(#[trigger] points@[i]@.x - #[trigger] points@[j]@.x),
            forall|i: int, j: int|
                0 <= i < points@.len() && 0 <= j < points@.len() && points@[i]@.y >= points@[j]@.y
                    ==> fits::<T>(#[trigger] points@[i]@.y - #[trigger] points@[j]@.y),
        ensures
            points@.len() == 0 ==> r@ == Rect2::zero(),
            points@.len() > 0 ==> r@.bounds(views2(points@)),
    {
        if points.len() == 0 {
            return TypedRect::zero();
        }
        let (mut min_x, mut min_y) = (points[0].x, points[0].y);
        let (mut max_x, mut max_y) = (min_x, min_y);
        let ghost mut at_min_x: int = 0;
        let ghost mut at_max_x: int = 0;
        let ghost mut at_min_y: int = 0;
        let ghost mut at_max_y: int = 0;
        let mut k: usize = 1;
        while k < points.len()
            invariant
                1 <= k <= points@.len(),
                0 <= at_min_x < k && points@[at_min_x].x == min_x,
                0 <= at_max_x < k && points@[at_max_x].x == max_x,
                0 <= at_min_y < k && points@[at_min_y].y == min_y,
                0 <= at_max_y < k && points@[at_max_y].y == max_y,
                forall|i: int|
                    0 <= i < k ==> min_x.val() <= (#[trigger] points@[i]).x.val() <= max_x.val()
                        && min_y.val() <= points@[i].y.val() <= max_y.val(),
            decreases points@.len() - k,
        {
            let point = &points[k];
            if point.x.lt(min_x) {
                min_x = point.x;
                proof {
                    at_min_x = k as int;
                }
            }
            if point.x.gt(max_x) {
                max_x = point.x;
                proof {
                    at_max_x = k as int;
                }
            }
            if point.y.lt(min_y) {
                min_y = point.y;
                proof {
                    at_min_y = k as int;
                }
            }
            if point.y.gt(max_y) {
                max_y = point.y;
                proof {
                    at_max_y = k as int;
                }
            }
            k = k + 1;
        }
        proof {
            assert(fits::<T>(points@[at_max_x]@.x - points@[at_min_x]@.x));
            assert(fits::<T>(points@[at_max_y]@.y - points@[at_min_y]@.y));
        }
        let r = TypedRect::new(
            TypedPoint2D::new(min_x, min_y),
            TypedSize2D::new(max_x.sub(min_x), max_y.sub(min_y)),
        );
        proof {
            let vs = views2(points@);
            assert(vs[at_min_x].x == r@.min_x());
            assert(vs[at_max_x].x == r@.max_x());
            assert(vs[at_min_y].y == r@.min_y());
            assert(vs[at_max_y].y == r@.max_y());
            assert forall|i: int| 0 <= i < vs.len() implies r@.min_x() <= (#[trigger] vs[i]).x
                <= r@.max_x() && r@.min_y() <= vs[i].y <= r@.max_y() by {
                assert(vs[i] == points@[i]@);
            }
        }
        r
    }

    /// Linearly interpolate between this rectangle and another rectangle.
    /// `t` is expected between zero and one, and is not clamped.
    pub fn lerp(&self, other: Self, t: T) -> (r: Self)
        requires
            other@.origin.sub(self@.origin).fits::<T>(),
            other@.origin.sub(self@.origin).scale::<T>(t.val()).fits::<T>(),
            other@.size.sub(self@.size).fits::<T>(),
            other@.size.sub(self@.size).scale::<T>(t.val()).fits::<T>(),
            self@.lerp::<T>(other@, t.val()).fits::<T>(),
        ensures
            r@ == self@.lerp::<T>(other@, t.val()),
    {
        Self::new(self.origin.lerp(other.origin, t), self.size.lerp(other.size, t))
    }

    /// The smallest rectangle that holds both rectangles. A rectangle whose
    /// size is zero is absorbed: the union is then the other rectangle.
    pub fn union(&self, other: &Self) -> (r: Self)
        requires
            self@.size != Size2::zero() && other@.size != Size2::zero() ==> self@.spans::<T>()
                && other@.spans::<T>() && self@.union(other@).fits::<T>(),
        ensures
            r@ == self@.union(other@),
    {
        proof {
            T::lemma_units();
        }
        if self.size.width.eq(T::zero()) && self.size.height.eq(T::zero()) {
            return *other;
        }
        if other.size.width.eq(T::zero()) && other.size.height.eq(T::zero()) {
            return *self;
        }
        let upper_left = TypedPoint2D::new(
            min(self.min_x(), other.min_x()),
            min(self.min_y(), other.min_y()),
        );
        let lower_right_x = max(self.max_x(), other.max_x());
        let lower_right_y = max(self.max_y(), other.max_y());
        TypedRect::new(
            upper_left,
            TypedSize2D::new(lower_right_x.sub(upper_left.x), lower_right_y.sub(upper_left.y)),
        )
    }

    /// The origin and the size multiplied by `x` along the first axis and by
    /// `y` along the second.
    pub fn scale(&self, x: T, y: T) -> (r: Self)
        requires
            self@.scale::<T>(x.val(), y.val()).fits::<T>(),
        ensures
            r@ == self@.scale::<T>(x.val(), y.val()),
    {
        TypedRect::new(
            TypedPoint2D::new(self.origin.x.mul(x), self.origin.y.mul(y)),
            TypedSize2D::new(self.size.width.mul(x), self.size.height.mul(y)),
        )
    }

    /// Constructor, setting all sides to zero.
    pub fn zero() -> (r: Self)
        ensures
            r@ == Rect2::zero(),
    {
        TypedRect::new(TypedPoint2D::origin(), TypedSize2D::zero())
    }

    /// Returns true if the size is zero, regardless of the origin's value.
    pub fn is_empty(&self) -> (b: bool)
        ensures
            b == self@.is_empty(),
    {
        proof {
            T::lemma_units();
        }
        self.size.width.eq(T::zero()) || self.size.height.eq(T::zero())
    }

    /// Drop the units, preserving only the numeric value.
    pub fn to_untyped(&self) -> (r: Rect<T>)
        ensures
            r@ == self@,
    {
        TypedRect::new(self.origin.to_untyped(), self.size.to_untyped())
    }

    /// Tag a unitless value with units.
    pub fn from_untyped(r: &Rect<T>) -> (t: TypedRect<T, U>)
        ensures
            t@ == r@,
    {
        TypedRect::new(TypedPoint2D::from_untyped(&r.origin), TypedSize2D::from_untyped(&r.size))
    }

    /// Cast from one numeric representation to another, preserving the units.
    ///
    /// A value that `T1` cannot hold exactly is rounded toward zero, which
    /// does not always make sense geometrically: consider `round`, `round_in`
    /// or `round_out` before casting. The cast succeeds exactly when `T1` can
    /// hold the origin and the size so rounded.
    pub fn cast<T1: Scalar>(&self) -> (r: Option<TypedRect<T1, U>>)
        ensures
            self@.cast::<T, T1>().fits::<T1>() ==> r.is_some() && r.unwrap()@ == self@.cast::<
                T,
                T1,
            >(),
            !self@.cast::<T, T1>().fits::<T1>() ==> r.is_none(),
    {
        match (self.origin.cast(), self.size.cast()) {
            (Some(origin), Some(size)) => Some(TypedRect::new(origin, size)),
            _ => None,
        }
    }

    /// Return a rectangle with edges rounded to integer coordinates, such that
    /// the returned rectangle has the same set of pixel centers as this one. An edge is rounded as `floor(n + 1/2)`: an edge half way between
    /// two integers goes to the greater, also where it is negative.
    pub fn round(&self) -> (r: Self)
        requires
            self@.spans::<T>(),
            self@.origin.round::<T>().fits::<T>(),
            self@.bottom_right().round::<T>().fits::<T>(),
            self@.round::<T>().fits::<T>(),
        ensures
            r@ == self@.round::<T>(),
    {
        let origin = self.origin.round();
        let far = self.origin.add_size(&self.size).round();
        TypedRect::new(origin, TypedSize2D::new(far.x.sub(origin.x), far.y.sub(origin.y)))
    }

    /// Return a rectangle with edges rounded to integer coordinates, such that
    /// this rectangle contains the resulting rectangle.
    pub fn round_in(&self) -> (r: Self)
        requires
            self@.spans::<T>(),
            self@.origin.ceil::<T>().fits::<T>(),
            self@.bottom_right().floor::<T>().fits::<T>(),
            self@.round_in::<T>().fits::<T>(),
        ensures
            r@ == self@.round_in::<T>(),
    {
        let origin = self.origin.ceil();
        let far = self.origin.add_size(&self.size).floor();
        TypedRect::new(origin, TypedSize2D::new(far.x.sub(origin.x), far.y.sub(origin.y)))
    }

    /// Return a rectangle with edges rounded to integer coordinates, such that
    /// this rectangle is contained in the resulting rectangle.
    pub fn round_out(&self) -> (r: Self)
        requires
            self@.spans::<T>(),
            self@.origin.floor::<T>().fits::<T>(),
            self@.bottom_right().ceil::<T>().fits::<T>(),
            self@.round_out::<T>().fits::<T>(),
        ensures
            r@ == self@.round_out::<T>(),
    {
        let origin = self.origin.floor();
        let far = self.origin.add_size(&self.size).ceil();
        TypedRect::new(origin, TypedSize2D::new(far.x.sub(origin.x), far.y.sub(origin.y)))
    }

    /// Cast into an `usize` rectangle, for a rectangle that `usize` can hold.
    pub fn to_usize(&self) -> (r: TypedRect<usize, U>)
        requires
            self@.cast::<T, usize>().fits::<usize>(),
        ensures
            r@ == self@.cast::<T, usize>(),
    {
        self.cast().unwrap()
    }

    /// Cast into an `usize` rectangle, for a rectangle that `usize` can hold.
    pub fn as_uint(&self) -> (r: TypedRect<usize, U>)
        requires
            self@.cast::<T, usize>().fits::<usize>(),
        ensures
            r@ == self@.cast::<T, usize>(),
    {
        self.cast().unwrap()
    }

    /// Cast into an `i32` rectangle, for a rectangle that `i32` can hold.
    pub fn to_i32(&self) -> (r: TypedRect<i32, U>)
        requires
            self@.cast::<T, i32>().fits::<i32>(),
        ensures
            r@ == self@.cast::<T, i32>(),
    {
        self.cast().unwrap()
    }

    /// Cast into an `i64` rectangle, for a rectangle that `i64` can hold.
    pub fn to_i64(&self) -> (r: TypedRect<i64, U>)
        requires
            self@.cast::<T, i64>().fits::<i64>(),
        ensures
            r@ == self@.cast::<T, i64>(),
    {
        self.cast().unwrap()
    }
}

/// The lesser of two scalars; `x` where they are equal.
pub fn min<T: Scalar>(x: T, y: T) -> (r: T)
    ensures
        r == (if x.val() <= y.val() {
            x
        } else {
            y
        }),
        r.val() == lesser(x.val(), y.val()),
{
    if x.le(y) {
        x
    } else {
        y
    }
}

/// The greater of two scalars; `x` where they are equal.
pub fn max<T: Scalar>(x: T, y: T) -> (r: T)
    ensures
        r == (if x.val() >= y.val() {
            x
        } else {
            y
        }),
        r.val() == greater(x.val(), y.val()),
{
    if x.ge(y) {
        x
    } else {
        y
    }
}

impl<T: Scalar, U> core::ops::Mul<T> for TypedRect<T, U> {
    type Output = TypedRect<T, U>;

    fn mul(self, scale: T) -> (r: TypedRect<T, U>)
        ensures
            r@ == self@.scale::<T>(scale.val(), scale.val()),
    {
        let r = self.scale(scale, scale);
        proof {
            r.lemma_view();
        }
        r
    }
}

impl<T: Scalar, U> vstd::std_specs::ops::MulSpecImpl<T> for TypedRect<T, U> {
    open spec fn obeys_mul_spec() -> bool {
        true
    }

    open spec fn mul_req(self, scale: T) -> bool {
        self@.scale::<T>(scale.val(), scale.val()).fits::<T>()
    }

    open spec fn mul_spec(self, scale: T) -> TypedRect<T, U> {
        TypedRect::of(self@.scale::<T>(scale.val(), scale.val()))
    }
}

impl<T: Scalar, U> core::ops::Div<T> for TypedRect<T, U> {
    type Output = TypedRect<T, U>;

    fn div(self, scale: T) -> (r: TypedRect<T, U>)
        ensures
            r@ == self@.div::<T>(scale.val()),
    {
        let r = TypedRect::new(
            TypedPoint2D::new(self.origin.x.div(scale), self.origin.y.div(scale)),
            TypedSize2D::new(self.size.width.div(scale), self.size.height.div(scale)),
        );
        proof {
            r.lemma_view();
        }
        r
    }
}

impl<T: Scalar, U> vstd::std_specs::ops::DivSpecImpl<T> for TypedRect<T, U> {
    open spec fn obeys_div_spec() -> bool {
        true
    }

    open spec fn div_req(self, scale: T) -> bool {
        scale.val() != 0 && self@.div::<T>(scale.val()).fits::<T>()
    }

    open spec fn div_spec(self, scale: T) -> TypedRect<T, U> {
        TypedRect::of(self@.div::<T>(scale.val()))
    }
}

impl<T: Scalar, U1, U2> core::ops::Mul<ScaleFactor<U1, U2, T>> for TypedRect<T, U1> {
    type Output = TypedRect<T, U2>;

    fn mul(self, scale: ScaleFactor<U1, U2, T>) -> (r: TypedRect<T, U2>)
        ensures
            r@ == self@.scale::<T>(scale@, scale@),
    {
        let k = scale.get();
        let r = TypedRect::new(
            TypedPoint2D::new(self.origin.x.mul(k), self.origin.y.mul(k)),
            TypedSize2D::new(self.size.width.mul(k), self.size.height.mul(k)),
        );
        proof {
            r.lemma_view();
        }
        r
    }
}

impl<T: Scalar, U1, U2> vstd::std_specs::ops::MulSpecImpl<ScaleFactor<U1, U2, T>> for TypedRect<T, U1> {
    open spec fn obeys_mul_spec() -> bool {
        true
    }

    open spec fn mul_req(self, scale: ScaleFactor<U1, U2, T>) -> bool {
        self@.scale::<T>(scale@, scale@).fits::<T>()
    }

    open spec fn mul_spec(self, scale: ScaleFactor<U1, U2, T>) -> TypedRect<T, U2> {
        TypedRect::of(self@.scale::<T>(scale@, scale@))
    }
}

impl<T: Scalar, U1, U2> core::ops::Div<ScaleFactor<U1, U2, T>> for TypedRect<T, U2> {
    type Output = TypedRect<T, U1>;

    fn div(self, scale: ScaleFactor<U1, U2, T>) -> (r: TypedRect<T, U1>)
        ensures
            r@ == self@.div::<T>(scale@),
    {
        let k = scale.get();
        let r = TypedRect::new(
            TypedPoint2D::new(self.origin.x.div(k), self.origin.y.div(k)),
            TypedSize2D::new(self.size.width.div(k), self.size.height.div(k)),
        );
        proof {
            r.lemma_view();
        }
        r
    }
}

impl<T: Scalar, U1, U2> vstd::std_specs::ops::DivSpecImpl<ScaleFactor<U1, U2, T>> for TypedRect<T, U2> {
    open spec fn obeys_div_spec() -> bool {
        true
    }

    open spec fn div_req(self, scale: ScaleFactor<U1, U2, T>) -> bool {
        scale@ != 0 && self@.div::<T>(scale@).fits::<T>()
    }

    open spec fn div_spec(self, scale: ScaleFactor<U1, U2, T>) -> TypedRect<T, U1> {
        TypedRect::of(self@.div::<T>(scale@))
    }
}

/// A 2d Rectangle represented using two points, optionally tagged with a unit.
#[derive(Debug)]
pub struct TypedBox2D<T, U> {
    pub min: TypedPoint2D<T, U>,
    pub max: TypedPoint2D<T, U>,
}

/// The default box type with no unit.
pub type Box2D<T> = TypedBox2D<T, UnknownUnit>;

impl<T: Copy, U> Copy for TypedBox2D<T, U> {}

impl<T: Copy, U> Clone for TypedBox2D<T, U> {
    fn clone(&self) -> (r: Self)
        ensures
            r == *self,
    {
        *self
    }
}

impl<T: Scalar, U> View for TypedBox2D<T, U> {
    type V = Box2;

    open spec fn view(&self) -> Box2 {
        Box2 { min: self.min@, max: self.max@ }
    }
}

impl<T: Scalar, U> PartialEq for TypedBox2D<T, U> {
    fn eq(&self, other: &TypedBox2D<T, U>) -> (b: bool) {
        self.min.x.eq(other.min.x) && self.min.y.eq(other.min.y) && self.max.x.eq(other.max.x)
            && self.max.y.eq(other.max.y)
    }
}

impl<T: Scalar, U> vstd::std_specs::cmp::PartialEqSpecImpl for TypedBox2D<T, U> {
    open spec fn obeys_eq_spec() -> bool {
        true
    }

    open spec fn eq_spec(&self, other: &TypedBox2D<T, U>) -> bool {
        self@ == other@
    }
}

impl<T, U> TypedBox2D<T, U> {
    pub fn new(min: TypedPoint2D<T, U>, max: TypedPoint2D<T, U>) -> (r: Self)
        ensures
            r.min == min,
            r.max == max,
    {
        TypedBox2D { min, max }
    }
}

impl<T: Scalar, U> TypedBox2D<T, U> {
    /// The rectangle with the same corners, for a box with positive extents.
    pub fn to_rect(&self) -> (r: Option<TypedRect<T, U>>)
        requires
            !self@.is_empty_or_negative() ==> self@.size().fits::<T>(),
        ensures
            r.is_some() == !self@.is_empty_or_negative(),
            match r {
                Some(rect) => Some(rect@) == self@.to_rect(),
                None => self@.to_rect().is_none(),
            },
    {
        if self.is_empty_or_negative() {
            return None;
        }
        Some(TypedRect { origin: self.min, size: self.size() })
    }

    /// The extent of the box on each axis.
    pub fn size(&self) -> (r: TypedSize2D<T, U>)
        requires
            self@.size().fits::<T>(),
        ensures
            r@ == self@.size(),
    {
        TypedSize2D::new(self.max.x.sub(self.min.x), self.max.y.sub(self.min.y))
    }

    /// Whether an extent of the box is zero or negative: whether on an
    /// axis the greatest corner is not beyond the least.
    pub fn is_empty_or_negative(&self) -> (b: bool)
        ensures
            b == self@.is_empty_or_negative(),
    {
        self.max.x.le(self.min.x) || self.max.y.le(self.min.y)
    }

    /// Whether the two boxes overlap. Boxes that only touch along an edge do
    /// not intersect.
    pub fn intersects(&self, other: &Self) -> (b: bool)
        ensures
            b == self@.intersects(other@),
    {
        self.min.x.lt(other.max.x) && other.min.x.lt(self.max.x) && self.min.y.lt(other.max.y)
            && other.min.y.lt(self.max.y)
    }

    /// The overlap of the two boxes, if they intersect.
    pub fn intersection(&self, other: &Self) -> (r: Option<Self>)
        ensures
            r.is_some() == self@.intersects(other@),
            match r {
                Some(i) => Some(i@) == self@.intersection(other@),
                None => self@.intersection(other@).is_none(),
            },
    {
        if !self.intersects(other) {
            return None;
        }
        Some(self.intersection_unchecked(other))
    }

    /// The box between the greater of the least corners and the lesser of
    /// the greatest corners: the overlap where the boxes intersect, and a
    /// box that is empty or negative where boxes of positive extents do not.
    pub fn intersection_unchecked(&self, other: &Self) -> (r: Self)
        ensures
            r@ == self@.overlap(other@),
    {
        let min_point = point2(max(self.min.x, other.min.x), max(self.min.y, other.min.y));
        let max_point = point2(min(self.max.x, other.max.x), min(self.max.y, other.max.y));
        Self::new(min_point, max_point)
    }

    /// The smallest box that holds both boxes.
    pub fn union(&self, other: &Self) -> (r: Self)
        ensures
            r@ == self@.union(other@),
    {
        let min_point = point2(min(self.min.x, other.min.x), min(self.min.y, other.min.y));
        let max_point = point2(max(self.max.x, other.max.x), max(self.max.y, other.max.y));
        Self::new(min_point, max_point)
    }

    /// Returns true if this box contains the point. Points are considered
    /// in the box if they are on the left or top edge, but outside if they
    /// are on the right or bottom edge.
    pub fn contains(&self, point: &TypedPoint2D<T, U>) -> (b: bool)
        ensures
            b == self@.contains(point@),
    {
        self.min.x.le(point.x) && point.x.lt(self.max.x) && self.min.y.le(point.y) && point.y.lt(
            self.max.y,
        )
    }

    /// Returns true if this box contains the interior of the other box: if
    /// the other box is empty or negative, or its corners lie within those
    /// of this box.
    pub fn contains_box(&self, other: &Self) -> (b: bool)
        ensures
            b == self@.contains_box(other@),
    {
        other.is_empty_or_negative() || (self.min.x.le(other.min.x) && other.max.x.le(self.max.x)
            && self.min.y.le(other.min.y) && other.max.y.le(self.max.y))
    }

    /// Linearly interpolate between this box and another box.
    /// `t` is expected between zero and one, and is not clamped.
    pub fn lerp(&self, other: Self, t: T) -> (r: Self)
        requires
            other@.min.sub(self@.min).fits::<T>(),
            other@.min.sub(self@.min).scale::<T>(t.val()).fits::<T>(),
            other@.max.sub(self@.max).fits::<T>(),
            other@.max.sub(self@.max).scale::<T>(t.val()).fits::<T>(),
            self@.lerp::<T>(other@, t.val()).fits::<T>(),
        ensures
            r@ == self@.lerp::<T>(other@, t.val()),
    {
        Self::new(self.min.lerp(other.min, t), self.max.lerp(other.max, t))
    }
}

/// Shorthand for `TypedRect::new(TypedPoint2D::new(x, y), TypedSize2D::new(w, h))`.
pub fn rect<T: Copy, U>(x: T, y: T, w: T, h: T) -> (r: TypedRect<T, U>)
    ensures
        r.origin.x == x,
        r.origin.y == y,
        r.size.width == w,
        r.size.height == h,
{
    TypedRect::new(point2(x, y), size2(w, h))
}

/// Shorthand for `TypedBox2D::new(TypedPoint2D::new(min_x, min_y), TypedPoint2D::new(max_x, max_y))`.
pub fn box2<T: Copy, U>(min_x: T, min_y: T, max_x: T, max_y: T) -> (r: TypedBox2D<T, U>)
    ensures
        r.min.x == min_x,
        r.min.y == min_y,
        r.max.x == max_x,
        r.max.y == max_y,
{
    TypedBox2D::new(point2(min_x, min_y), point2(max_x, max_y))
}

/// The untyped rectangle at `origin` of the size `size`.
#[allow(non_snake_case)]
pub fn Rect<T: Copy>(origin: TypedPoint2D<T, UnknownUnit>, size: TypedSize2D<T, UnknownUnit>) -> (r:
    Rect<T>)
    ensures
        r.origin == origin,
        r.size == size,
{
    TypedRect::new(origin, size)
}

} // verus!
