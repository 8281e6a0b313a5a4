use vstd::prelude::*;
use core::marker::PhantomData;
use crate::length::{Length, UnknownUnit};
use crate::model::{Point2, Point3, Point4};
use crate::num::{Scalar, cast_scalar, fits};
use crate::scale_factor::ScaleFactor;
use crate::size::TypedSize2D;
use crate::vector::{TypedVector2D, TypedVector3D};

verus! {

/// A 2d point tagged with a unit.
#[derive(Debug)]
pub struct TypedPoint2D<T, U> {
    pub x: T,
    pub y: T,
    pub _unit: PhantomData<U>,
}

/// `TypedPoint2D` without a unit.
pub type Point2D<T> = TypedPoint2D<T, UnknownUnit>;

impl<T: Copy, U> Copy for TypedPoint2D<T, U> {}

impl<T: Copy, U> Clone for TypedPoint2D<T, U> {
    fn clone(&self) -> (r: Self)
        ensures
            r == *self,
    {
        *self
    }
}

impl<T: Scalar, U> View for TypedPoint2D<T, U> {
    type V = Point2;

    open spec fn view(&self) -> Point2 {
        Point2 { x: self.x.val(), y: self.y.val() }
    }
}

impl<T: Scalar, U> PartialEq for TypedPoint2D<T, U> {
    fn eq(&self, other: &TypedPoint2D<T, U>) -> (b: bool) {
        self.x.eq(other.x) && self.y.eq(other.y)
    }
}

impl<T: Scalar, U> vstd::std_specs::cmp::PartialEqSpecImpl for TypedPoint2D<T, U> {
    open spec fn obeys_eq_spec() -> bool {
        true
    }

    open spec fn eq_spec(&self, other: &TypedPoint2D<T, U>) -> bool {
        self@ == other@
    }
}

impl<T, U> TypedPoint2D<T, U> {
    pub fn new(x: T, y: T) -> (r: TypedPoint2D<T, U>)
        ensures
            r.x == x,
            r.y == y,
    {
        TypedPoint2D { x, y, _unit: PhantomData }
    }
}

impl<T: Scalar, U> TypedPoint2D<T, U> {
    /// The value whose components stand for those of `m`.
    pub open spec fn of(m: Point2) -> Self {
        TypedPoint2D { x: T::of(m.x), y: T::of(m.y), _unit: PhantomData }
    }

    /// A value is the one value with its view, and its view fits `T`.
    pub proof fn lemma_view(self)
        ensures
            Self::of(self@) == self,
            self@.fits::<T>(),
    {
        T::lemma_val(self.x);
        T::lemma_val(self.y);
    }

    pub fn zero() -> (r: TypedPoint2D<T, U>)
        ensures
            r@ == Point2::zero(),
    {
        proof {
            T::lemma_units();
        }
        TypedPoint2D::new(T::zero(), T::zero())
    }

    pub fn from_lengths(x: Length<U, T>, y: Length<U, T>) -> (r: TypedPoint2D<T, U>)
        ensures
            r.x == x.0,
            r.y == y.0,
    {
        TypedPoint2D::new(x.get(), y.get())
    }

    pub fn x_typed(&self) -> (r: Length<U, T>)
        ensures
            r.0 == self.x,
    {
        Length::new(self.x)
    }

    pub fn y_typed(&self) -> (r: Length<U, T>)
        ensures
            r.0 == self.y,
    {
        Length::new(self.y)
    }

    /// Drop the units, preserving only the numeric value.
    pub fn to_untyped(&self) -> (r: Point2D<T>)
        ensures
            r.x == self.x,
            r.y == self.y,
            r@ == self@,
    {
        TypedPoint2D::new(self.x, self.y)
    }

    /// Tag a unitless value with units.
    pub fn from_untyped(p: &Point2D<T>) -> (r: TypedPoint2D<T, U>)
        ensures
            r.x == p.x,
            r.y == p.y,
            r@ == p@,
    {
        TypedPoint2D::new(p.x, p.y)
    }

    /// Cast from one numeric representation to another, preserving the units.
    /// A component that `T1` cannot hold exactly is rounded toward zero. The
    /// cast succeeds exactly when `T1` can hold every component so rounded.
    pub fn cast<T1: Scalar>(&self) -> (r: Option<TypedPoint2D<T1, U>>)
        ensures
            self@.cast::<T, T1>().fits::<T1>() ==> r.is_some() && r.unwrap()@ == self@.cast::<
                T,
                T1,
            >(),
            !self@.cast::<T, T1>().fits::<T1>() ==> r.is_none(),
    {
        let x = match cast_scalar::<T, T1>(self.x) {
            Some(v) => v,
            None => {
                return None;
            },
        };
        let y = match cast_scalar::<T, T1>(self.y) {
            Some(v) => v,
            None => {
                return None;
            },
        };
        Some(TypedPoint2D::new(x, y))
    }

    /// The value cast to `usize`, for a value that `usize` can hold.
    pub fn as_uint(&self) -> (r: TypedPoint2D<usize, U>)
        requires
            self@.cast::<T, usize>().fits::<usize>(),
        ensures
            r@ == self@.cast::<T, usize>(),
    {
        self.cast().unwrap()
    }

    /// The lesser of the two values, component by component.
    pub fn min(self, other: TypedPoint2D<T, U>) -> (r: TypedPoint2D<T, U>)
        ensures
            r@ == self@.min(other@),
    {
        TypedPoint2D::new(crate::rect::min(self.x, other.x), crate::rect::min(self.y, other.y))
    }

    /// The greater of the two values, component by component.
    pub fn max(self, other: TypedPoint2D<T, U>) -> (r: TypedPoint2D<T, U>)
        ensures
            r@ == self@.max(other@),
    {
        TypedPoint2D::new(crate::rect::max(self.x, other.x), crate::rect::max(self.y, other.y))
    }

    /// Linearly interpolate between this value and another: `self + (other - self) * t`.
    /// `t` is expected between zero and one, and is not clamped.
    pub fn lerp(&self, other: TypedPoint2D<T, U>, t: T) -> (r: TypedPoint2D<T, U>)
        requires
            other@.sub(self@).fits::<T>(),
            other@.sub(self@).scale::<T>(t.val()).fits::<T>(),
            self@.lerp::<T>(other@, t.val()).fits::<T>(),
        ensures
            r@ == self@.lerp::<T>(other@, t.val()),
    {
        TypedPoint2D::new(
            self.x.add(other.x.sub(self.x).mul(t)), self.y.add(other.y.sub(self.y).mul(t)),
        )
    }

    /// Every component rounded to the nearest whole scalar, as
    /// `floor(n + 1/2)`: half way between two it goes to the greater.
    pub fn round(&self) -> (r: TypedPoint2D<T, U>)
        requires
            self@.round::<T>().fits::<T>(),
        ensures
            r@ == self@.round::<T>(),
    {
        TypedPoint2D::new(self.x.round(), self.y.round())
    }

    /// Every component rounded up to a whole scalar.
    pub fn ceil(&self) -> (r: TypedPoint2D<T, U>)
        requires
            self@.ceil::<T>().fits::<T>(),
        ensures
            r@ == self@.ceil::<T>(),
    {
        TypedPoint2D::new(self.x.ceil(), self.y.ceil())
    }

    /// Every component rounded down to a whole scalar.
    pub fn floor(&self) -> (r: TypedPoint2D<T, U>)
        requires
            self@.floor::<T>().fits::<T>(),
        ensures
            r@ == self@.floor::<T>(),
    {
        TypedPoint2D::new(self.x.floor(), self.y.floor())
    }
}

/// Shorthand for `TypedPoint2D::new`.
pub fn point2<T: Copy, U>(x: T, y: T) -> (r: TypedPoint2D<T, U>)
    ensures
        r.x == x,
        r.y == y,
{
    TypedPoint2D::new(x, y)
}

impl<T: Scalar, U> core::ops::Add for TypedPoint2D<T, U> {
    type Output = TypedPoint2D<T, U>;

    fn add(self, other: TypedPoint2D<T, U>) -> (r: TypedPoint2D<T, U>)
        ensures
            r@ == self@.add(other@),
    {
        let r = TypedPoint2D::new(self.x.add(other.x), self.y.add(other.y));
        proof {
            r.lemma_view();
        }
        r
    }
}

impl<T: Scalar, U> vstd::std_specs::ops::AddSpecImpl for TypedPoint2D<T, U> {
    open spec fn obeys_add_spec() -> bool {
        true
    }

    open spec fn add_req(self, other: TypedPoint2D<T, U>) -> bool {
        self@.add(other@).fits::<T>()
    }

    open spec fn add_spec(self, other: TypedPoint2D<T, U>) -> TypedPoint2D<T, U> {
        TypedPoint2D::of(self@.add(other@))
    }
}

impl<T: Scalar, U> core::ops::Sub for TypedPoint2D<T, U> {
    type Output = TypedPoint2D<T, U>;

    fn sub(self, other: TypedPoint2D<T, U>) -> (r: TypedPoint2D<T, U>)
        ensures
            r@ == self@.sub(other@),
    {
        let r = TypedPoint2D::new(self.x.sub(other.x), self.y.sub(other.y));
        proof {
            r.lemma_view();
        }
        r
    }
}

impl<T: Scalar, U> vstd::std_specs::ops::SubSpecImpl for TypedPoint2D<T, U> {
    open spec fn obeys_sub_spec() -> bool {
        true
    }

    open spec fn sub_req(self, other: TypedPoint2D<T, U>) -> bool {
        self@.sub(other@).fits::<T>()
    }

    open spec fn sub_spec(self, other: TypedPoint2D<T, U>) -> TypedPoint2D<T, U> {
        TypedPoint2D::of(self@.sub(other@))
    }
}

impl<T: Scalar, U> core::ops::Neg for TypedPoint2D<T, U> {
    type Output = TypedPoint2D<T, U>;

    fn neg(self) -> (r: TypedPoint2D<T, U>)
        ensures
            r@ == self@.neg(),
    {
        let r = TypedPoint2D::new(self.x.neg(), self.y.neg());
        proof {
            r.lemma_view();
        }
        r
    }
}

impl<T: Scalar, U> vstd::std_specs::ops::NegSpecImpl for TypedPoint2D<T, U> {
    open spec fn obeys_neg_spec() -> bool {
        true
    }

    open spec fn neg_req(self) -> bool {
        self@.neg().fits::<T>()
    }

    open spec fn neg_spec(self) -> TypedPoint2D<T, U> {
        TypedPoint2D::of(self@.neg())
    }
}

impl<T: Scalar, U> core::ops::Mul<T> for TypedPoint2D<T, U> {
    type Output = TypedPoint2D<T, U>;

    fn mul(self, scale: T) -> (r: TypedPoint2D<T, U>)
        ensures
            r@ == self@.scale::<T>(scale.val()),
    {
        let r = TypedPoint2D::new(self.x.mul(scale), self.y.mul(scale));
        proof {
            r.lemma_view();
        }
        r
    }
}

impl<T: Scalar, U> vstd::std_specs::ops::MulSpecImpl<T> for TypedPoint2D<T, U> {
    open spec fn obeys_mul_spec() -> bool {
        true
    }

    open spec fn mul_req(self, scale: T) -> bool {
        self@.scale::<T>(scale.val()).fits::<T>()
    }

    open spec fn mul_spec(self, scale: T) -> TypedPoint2D<T, U> {
        TypedPoint2D::of(self@.scale::<T>(scale.val()))
    }
}

impl<T: Scalar, U> core::ops::Div<T> for TypedPoint2D<T, U> {
    type Output = TypedPoint2D<T, U>;

    fn div(self, scale: T) -> (r: TypedPoint2D<T, U>)
        ensures
            r@ == self@.div::<T>(scale.val()),
    {
        let r = TypedPoint2D::new(self.x.div(scale), self.y.div(scale));
        proof {
            r.lemma_view();
        }
        r
    }
}

impl<T: Scalar, U> vstd::std_specs::ops::DivSpecImpl<T> for TypedPoint2D<T, U> {
    open spec fn obeys_div_spec() -> bool {
        true
    }

    open spec fn div_req(self, scale: T) -> bool {
        scale.val() != 0 && self@.div::<T>(scale.val()).fits::<T>()
    }

    open spec fn div_spec(self, scale: T) -> TypedPoint2D<T, U> {
        TypedPoint2D::of(self@.div::<T>(scale.val()))
    }
}

impl<T: Scalar, U1, U2> core::ops::Mul<ScaleFactor<U1, U2, T>> for TypedPoint2D<T, U1> {
    type Output = TypedPoint2D<T, U2>;

    fn mul(self, scale: ScaleFactor<U1, U2, T>) -> (r: TypedPoint2D<T, U2>)
        ensures
            r@ == self@.scale::<T>(scale@),
    {
        let r = TypedPoint2D::new(self.x.mul(scale.get()), self.y.mul(scale.get()));
        proof {
            r.lemma_view();
        }
        r
    }
}

impl<T: Scalar, U1, U2> vstd::std_specs::ops::MulSpecImpl<ScaleFactor<U1, U2, T>> for TypedPoint2D<T, U1> {
    open spec fn obeys_mul_spec() -> bool {
        true
    }

    open spec fn mul_req(self, scale: ScaleFactor<U1, U2, T>) -> bool {
        self@.scale::<T>(scale@).fits::<T>()
    }

    open spec fn mul_spec(self, scale: ScaleFactor<U1, U2, T>) -> TypedPoint2D<T, U2> {
        TypedPoint2D::of(self@.scale::<T>(scale@))
    }
}

impl<T: Scalar, U1, U2> core::ops::Div<ScaleFactor<U1, U2, T>> for TypedPoint2D<T, U2> {
    type Output = TypedPoint2D<T, U1>;

    fn div(self, scale: ScaleFactor<U1, U2, T>) -> (r: TypedPoint2D<T, U1>)
        ensures
            r@ == self@.div::<T>(scale@),
    {
        let r = TypedPoint2D::new(self.x.div(scale.get()), self.y.div(scale.get()));
        proof {
            r.lemma_view();
        }
        r
    }
}

impl<T: Scalar, U1, U2> vstd::std_specs::ops::DivSpecImpl<ScaleFactor<U1, U2, T>> for TypedPoint2D<T, U2> {
    open spec fn obeys_div_spec() -> bool {
        true
    }

    open spec fn div_req(self, scale: ScaleFactor<U1, U2, T>) -> bool {
        scale@ != 0 && self@.div::<T>(scale@).fits::<T>()
    }

    open spec fn div_spec(self, scale: ScaleFactor<U1, U2, T>) -> TypedPoint2D<T, U1> {
        TypedPoint2D::of(self@.div::<T>(scale@))
    }
}

impl<T: Scalar, U> TypedPoint2D<T, U> {
    /// The point `(0, 0)`.
    pub fn origin() -> (r: TypedPoint2D<T, U>)
        ensures
            r@ == Point2::zero(),
    {
        TypedPoint2D::zero()
    }

    pub fn dot(self, other: TypedPoint2D<T, U>) -> (r: T)
        requires
            fits::<T>(T::mul_val(self@.x, other@.x)),
            fits::<T>(T::mul_val(self@.y, other@.y)),
            fits::<T>(self@.dot::<T>(other@)),
        ensures
            r.val() == self@.dot::<T>(other@),
    {
        self.x.mul(other.x).add(self.y.mul(other.y))
    }

    /// The signed area of the parallelogram that the two vectors span.
    pub fn cross(self, other: TypedPoint2D<T, U>) -> (r: T)
        requires
            fits::<T>(T::mul_val(self@.x, other@.y)),
            fits::<T>(T::mul_val(self@.y, other@.x)),
            fits::<T>(self@.cross::<T>(other@)),
        ensures
            r.val() == self@.cross::<T>(other@),
    {
        self.x.mul(other.y).sub(self.y.mul(other.x))
    }

    pub fn add_size(&self, other: &TypedSize2D<T, U>) -> (r: TypedPoint2D<T, U>)
        requires
            self@.add_size(other@).fits::<T>(),
        ensures
            r@ == self@.add_size(other@),
    {
        TypedPoint2D::new(self.x.add(other.width), self.y.add(other.height))
    }

    /// The vector from the origin to this point.
    pub fn to_vector(&self) -> (r: TypedVector2D<T, U>)
        ensures
            r@ == self@,
    {
        TypedVector2D::new(self.x, self.y)
    }
}

impl<T: Scalar, U> core::ops::Add<TypedSize2D<T, U>> for TypedPoint2D<T, U> {
    type Output = TypedPoint2D<T, U>;

    fn add(self, other: TypedSize2D<T, U>) -> (r: TypedPoint2D<T, U>)
        ensures
            r@ == self@.add_size(other@),
    {
        let r = self.add_size(&other);
        proof {
            r.lemma_view();
        }
        r
    }
}

impl<T: Scalar, U> vstd::std_specs::ops::AddSpecImpl<TypedSize2D<T, U>> for TypedPoint2D<T, U> {
    open spec fn obeys_add_spec() -> bool {
        true
    }

    open spec fn add_req(self, other: TypedSize2D<T, U>) -> bool {
        self@.add_size(other@).fits::<T>()
    }

    open spec fn add_spec(self, other: TypedSize2D<T, U>) -> TypedPoint2D<T, U> {
        TypedPoint2D::of(self@.add_size(other@))
    }
}

impl<T: Scalar, U> core::ops::Add<TypedVector2D<T, U>> for TypedPoint2D<T, U> {
    type Output = TypedPoint2D<T, U>;

    fn add(self, other: TypedVector2D<T, U>) -> (r: TypedPoint2D<T, U>)
        ensures
            r@ == self@.add(other@),
    {
        let r = TypedPoint2D::new(self.x.add(other.x), self.y.add(other.y));
        proof {
            r.lemma_view();
        }
        r
    }
}

impl<T: Scalar, U> vstd::std_specs::ops::AddSpecImpl<TypedVector2D<T, U>> for TypedPoint2D<T, U> {
    open spec fn obeys_add_spec() -> bool {
        true
    }

    open spec fn add_req(self, other: TypedVector2D<T, U>) -> bool {
        self@.add(other@).fits::<T>()
    }

    open spec fn add_spec(self, other: TypedVector2D<T, U>) -> TypedPoint2D<T, U> {
        TypedPoint2D::of(self@.add(other@))
    }
}

/// A 3d point tagged with a unit.
#[derive(Debug)]
pub struct TypedPoint3D<T, U> {
    pub x: T,
    pub y: T,
    pub z: T,
    pub _unit: PhantomData<U>,
}

/// `TypedPoint3D` without a unit.
pub type Point3D<T> = TypedPoint3D<T, UnknownUnit>;

impl<T: Copy, U> Copy for TypedPoint3D<T, U> {}

impl<T: Copy, U> Clone for TypedPoint3D<T, U> {
    fn clone(&self) -> (r: Self)
        ensures
            r == *self,
    {
        *self
    }
}

impl<T: Scalar, U> View for TypedPoint3D<T, U> {
    type V = Point3;

    open spec fn view(&self) -> Point3 {
        Point3 { x: self.x.val(), y: self.y.val(), z: self.z.val() }
    }
}

impl<T: Scalar, U> PartialEq for TypedPoint3D<T, U> {
    fn eq(&self, other: &TypedPoint3D<T, U>) -> (b: bool) {
        self.x.eq(other.x) && self.y.eq(other.y) && self.z.eq(other.z)
    }
}

impl<T: Scalar, U> vstd::std_specs::cmp::PartialEqSpecImpl for TypedPoint3D<T, U> {
    open spec fn obeys_eq_spec() -> bool {
        true
    }

    open spec fn eq_spec(&self, other: &TypedPoint3D<T, U>) -> bool {
        self@ == other@
    }
}

impl<T, U> TypedPoint3D<T, U> {
    pub fn new(x: T, y: T, z: T) -> (r: TypedPoint3D<T, U>)
        ensures
            r.x == x,
            r.y == y,
            r.z == z,
    {
        TypedPoint3D { x, y, z, _unit: PhantomData }
    }
}

impl<T: Scalar, U> TypedPoint3D<T, U> {
    /// The value whose components stand for those of `m`.
    pub open spec fn of(m: Point3) -> Self {
        TypedPoint3D { x: T::of(m.x), y: T::of(m.y), z: T::of(m.z), _unit: PhantomData }
    }

    /// A value is the one value with its view, and its view fits `T`.
    pub proof fn lemma_view(self)
        ensures
            Self::of(self@) == self,
            self@.fits::<T>(),
    {
        T::lemma_val(self.x);
        T::lemma_val(self.y);
        T::lemma_val(self.z);
    }

    pub fn zero() -> (r: TypedPoint3D<T, U>)
        ensures
            r@ == Point3::zero(),
    {
        proof {
            T::lemma_units();
        }
        TypedPoint3D::new(T::zero(), T::zero(), T::zero())
    }

    pub fn from_lengths(x: Length<U, T>, y: Length<U, T>, z: Length<U, T>) -> (r: TypedPoint3D<T, U>)
        ensures
            r.x == x.0,
            r.y == y.0,
            r.z == z.0,
    {
        TypedPoint3D::new(x.get(), y.get(), z.get())
    }

    pub fn x_typed(&self) -> (r: Length<U, T>)
        ensures
            r.0 == self.x,
    {
        Length::new(self.x)
    }

    pub fn y_typed(&self) -> (r: Length<U, T>)
        ensures
            r.0 == self.y,
    {
        Length::new(self.y)
    }

    pub fn z_typed(&self) -> (r: Length<U, T>)
        ensures
            r.0 == self.z,
    {
        Length::new(self.z)
    }

    /// Drop the units, preserving only the numeric value.
    pub fn to_untyped(&self) -> (r: Point3D<T>)
        ensures
            r.x == self.x,
            r.y == self.y,
            r.z == self.z,
            r@ == self@,
    {
        TypedPoint3D::new(self.x, self.y, self.z)
    }

    /// Tag a unitless value with units.
    pub fn from_untyped(p: &Point3D<T>) -> (r: TypedPoint3D<T, U>)
        ensures
            r.x == p.x,
            r.y == p.y,
            r.z == p.z,
            r@ == p@,
    {
        TypedPoint3D::new(p.x, p.y, p.z)
    }

    /// Cast from one numeric representation to another, preserving the units.
    /// A component that `T1` cannot hold exactly is rounded toward zero. The
    /// cast succeeds exactly when `T1` can hold every component so rounded.
    pub fn cast<T1: Scalar>(&self) -> (r: Option<TypedPoint3D<T1, U>>)
        ensures
            self@.cast::<T, T1>().fits::<T1>() ==> r.is_some() && r.unwrap()@ == self@.cast::<
                T,
                T1,
            >(),
            !self@.cast::<T, T1>().fits::<T1>() ==> r.is_none(),
    {
        let x = match cast_scalar::<T, T1>(self.x) {
            Some(v) => v,
            None => {
                return None;
            },
        };
        let y = match cast_scalar::<T, T1>(self.y) {
            Some(v) => v,
            None => {
                return None;
            },
        };
        let z = match cast_scalar::<T, T1>(self.z) {
            Some(v) => v,
            None => {
                return None;
            },
        };
        Some(TypedPoint3D::new(x, y, z))
    }

    /// The value cast to `usize`, for a value that `usize` can hold.
    pub fn as_uint(&self) -> (r: TypedPoint3D<usize, U>)
        requires
            self@.cast::<T, usize>().fits::<usize>(),
        ensures
            r@ == self@.cast::<T, usize>(),
    {
        self.cast().unwrap()
    }

    /// The lesser of the two values, component by component.
    pub fn min(self, other: TypedPoint3D<T, U>) -> (r: TypedPoint3D<T, U>)
        ensures
            r@ == self@.min(other@),
    {
        TypedPoint3D::new(
            crate::rect::min(self.x, other.x), crate::rect::min(self.y, other.y),
            crate::rect::min(self.z, other.z),
        )
    }

    /// The greater of the two values, component by component.
    pub fn max(self, other: TypedPoint3D<T, U>) -> (r: TypedPoint3D<T, U>)
        ensures
            r@ == self@.max(other@),
    {
        TypedPoint3D::new(
            crate::rect::max(self.x, other.x), crate::rect::max(self.y, other.y),
            crate::rect::max(self.z, other.z),
        )
    }

    /// Linearly interpolate between this value and another: `self + (other - self) * t`.
    /// `t` is expected between zero and one, and is not clamped.
    pub fn lerp(&self, other: TypedPoint3D<T, U>, t: T) -> (r: TypedPoint3D<T, U>)
        requires
            other@.sub(self@).fits::<T>(),
            other@.sub(self@).scale::<T>(t.val()).fits::<T>(),
            self@.lerp::<T>(other@, t.val()).fits::<T>(),
        ensures
            r@ == self@.lerp::<T>(other@, t.val()),
    {
        TypedPoint3D::new(
            self.x.add(other.x.sub(self.x).mul(t)), self.y.add(other.y.sub(self.y).mul(t)),
            self.z.add(other.z.sub(self.z).mul(t)),
        )
    }

    /// Every component rounded to the nearest whole scalar, as
    /// `floor(n + 1/2)`: half way between two it goes to the greater.
    pub fn round(&self) -> (r: TypedPoint3D<T, U>)
        requires
            self@.round::<T>().fits::<T>(),
        ensures
            r@ == self@.round::<T>(),
    {
        TypedPoint3D::new(self.x.round(), self.y.round(), self.z.round())
    }

    /// Every component rounded up to a whole scalar.
    pub fn ceil(&self) -> (r: TypedPoint3D<T, U>)
        requires
            self@.ceil::<T>().fits::<T>(),
        ensures
            r@ == self@.ceil::<T>(),
    {
        TypedPoint3D::new(self.x.ceil(), self.y.ceil(), self.z.ceil())
    }

    /// Every component rounded down to a whole scalar.
    pub fn floor(&self) -> (r: TypedPoint3D<T, U>)
        requires
            self@.floor::<T>().fits::<T>(),
        ensures
            r@ == self@.floor::<T>(),
    {
        TypedPoint3D::new(self.x.floor(), self.y.floor(), self.z.floor())
    }
}

/// Shorthand for `TypedPoint3D::new`.
pub fn point3<T: Copy, U>(x: T, y: T, z: T) -> (r: TypedPoint3D<T, U>)
    ensures
        r.x == x,
        r.y == y,
        r.z == z,
{
    TypedPoint3D::new(x, y, z)
}

impl<T: Scalar, U> core::ops::Add for TypedPoint3D<T, U> {
    type Output = TypedPoint3D<T, U>;

    fn add(self, other: TypedPoint3D<T, U>) -> (r: TypedPoint3D<T, U>)
        ensures
            r@ == self@.add(other@),
    {
        let r = TypedPoint3D::new(self.x.add(other.x), self.y.add(other.y), self.z.add(other.z));
        proof {
            r.lemma_view();
        }
        r
    }
}

impl<T: Scalar, U> vstd::std_specs::ops::AddSpecImpl for TypedPoint3D<T, U> {
    open spec fn obeys_add_spec() -> bool {
        true
    }

    open spec fn add_req(self, other: TypedPoint3D<T, U>) -> bool {
        self@.add(other@).fits::<T>()
    }

    open spec fn add_spec(self, other: TypedPoint3D<T, U>) -> TypedPoint3D<T, U> {
        TypedPoint3D::of(self@.add(other@))
    }
}

impl<T: Scalar, U> core::ops::Sub for TypedPoint3D<T, U> {
    type Output = TypedPoint3D<T, U>;

    fn sub(self, other: TypedPoint3D<T, U>) -> (r: TypedPoint3D<T, U>)
        ensures
            r@ == self@.sub(other@),
    {
        let r = TypedPoint3D::new(self.x.sub(other.x), self.y.sub(other.y), self.z.sub(other.z));
        proof {
            r.lemma_view();
        }
        r
    }
}

impl<T: Scalar, U> vstd::std_specs::ops::SubSpecImpl for TypedPoint3D<T, U> {
    open spec fn obeys_sub_spec() -> bool {
        true
    }

    open spec fn sub_req(self, other: TypedPoint3D<T, U>) -> bool {
        self@.sub(other@).fits::<T>()
    }

    open spec fn sub_spec(self, other: TypedPoint3D<T, U>) -> TypedPoint3D<T, U> {
        TypedPoint3D::of(self@.sub(other@))
    }
}

impl<T: Scalar, U> core::ops::Neg for TypedPoint3D<T, U> {
    type Output = TypedPoint3D<T, U>;

    fn neg(self) -> (r: TypedPoint3D<T, U>)
        ensures
            r@ == self@.neg(),
    {
        let r = TypedPoint3D::new(self.x.neg(), self.y.neg(), self.z.neg());
        proof {
            r.lemma_view();
        }
        r
    }
}

impl<T: Scalar, U> vstd::std_specs::ops::NegSpecImpl for TypedPoint3D<T, U> {
    open spec fn obeys_neg_spec() -> bool {
        true
    }

    open spec fn neg_req(self) -> bool {
        self@.neg().fits::<T>()
    }

    open spec fn neg_spec(self) -> TypedPoint3D<T, U> {
        TypedPoint3D::of(self@.neg())
    }
}

impl<T: Scalar, U> core::ops::Mul<T> for TypedPoint3D<T, U> {
    type Output = TypedPoint3D<T, U>;

    fn mul(self, scale: T) -> (r: TypedPoint3D<T, U>)
        ensures
            r@ == self@.scale::<T>(scale.val()),
    {
        let r = TypedPoint3D::new(self.x.mul(scale), self.y.mul(scale), self.z.mul(scale));
        proof {
            r.lemma_view();
        }
        r
    }
}

impl<T: Scalar, U> vstd::std_specs::ops::MulSpecImpl<T> for TypedPoint3D<T, U> {
    open spec fn obeys_mul_spec() -> bool {
        true
    }

    open spec fn mul_req(self, scale: T) -> bool {
        self@.scale::<T>(scale.val()).fits::<T>()
    }

    open spec fn mul_spec(self, scale: T) -> TypedPoint3D<T, U> {
        TypedPoint3D::of(self@.scale::<T>(scale.val()))
    }
}

impl<T: Scalar, U> core::ops::Div<T> for TypedPoint3D<T, U> {
    type Output = TypedPoint3D<T, U>;

    fn div(self, scale: T) -> (r: TypedPoint3D<T, U>)
        ensures
            r@ == self@.div::<T>(scale.val()),
    {
        let r = TypedPoint3D::new(self.x.div(scale), self.y.div(scale), self.z.div(scale));
        proof {
            r.lemma_view();
        }
        r
    }
}

impl<T: Scalar, U> vstd::std_specs::ops::DivSpecImpl<T> for TypedPoint3D<T, U> {
    open spec fn obeys_div_spec() -> bool {
        true
    }

    open spec fn div_req(self, scale: T) -> bool {
        scale.val() != 0 && self@.div::<T>(scale.val()).fits::<T>()
    }

    open spec fn div_spec(self, scale: T) -> TypedPoint3D<T, U> {
        TypedPoint3D::of(self@.div::<T>(scale.val()))
    }
}

impl<T: Scalar, U> TypedPoint3D<T, U> {
    /// The point `(0, 0, 0)`.
    pub fn origin() -> (r: TypedPoint3D<T, U>)
        ensures
            r@ == Point3::zero(),
    {
        TypedPoint3D::zero()
    }

    pub fn dot(self, other: TypedPoint3D<T, U>) -> (r: T)
        requires
            fits::<T>(T::mul_val(self@.x, other@.x)),
            fits::<T>(T::mul_val(self@.y, other@.y)),
            fits::<T>(T::mul_val(self@.z, other@.z)),
            fits::<T>(T::mul_val(self@.x, other@.x) + T::mul_val(self@.y, other@.y)),
            fits::<T>(self@.dot::<T>(other@)),
        ensures
            r.val() == self@.dot::<T>(other@),
    {
        self.x.mul(other.x).add(self.y.mul(other.y)).add(self.z.mul(other.z))
    }

    pub fn cross(self, other: TypedPoint3D<T, U>) -> (r: TypedPoint3D<T, U>)
        requires
            fits::<T>(T::mul_val(self@.y, other@.z)),
            fits::<T>(T::mul_val(self@.z, other@.y)),
            fits::<T>(T::mul_val(self@.z, other@.x)),
            fits::<T>(T::mul_val(self@.x, other@.z)),
            fits::<T>(T::mul_val(self@.x, other@.y)),
            fits::<T>(T::mul_val(self@.y, other@.x)),
            self@.cross::<T>(other@).fits::<T>(),
        ensures
            r@ == self@.cross::<T>(other@),
    {
        TypedPoint3D::new(
            self.y.mul(other.z).sub(self.z.mul(other.y)),
            self.z.mul(other.x).sub(self.x.mul(other.z)),
            self.x.mul(other.y).sub(self.y.mul(other.x)),
        )
    }

    /// The vector from the origin to this point.
    pub fn to_vector(&self) -> (r: TypedVector3D<T, U>)
        ensures
            r@ == self@,
    {
        TypedVector3D::new(self.x, self.y, self.z)
    }
}

impl<T: Scalar, U> core::ops::Add<TypedVector3D<T, U>> for TypedPoint3D<T, U> {
    type Output = TypedPoint3D<T, U>;

    fn add(self, other: TypedVector3D<T, U>) -> (r: TypedPoint3D<T, U>)
        ensures
            r@ == self@.add(other@),
    {
        let r = TypedPoint3D::new(self.x.add(other.x), self.y.add(other.y), self.z.add(other.z));
        proof {
            r.lemma_view();
        }
        r
    }
}

impl<T: Scalar, U> vstd::std_specs::ops::AddSpecImpl<TypedVector3D<T, U>> for TypedPoint3D<T, U> {
    open spec fn obeys_add_spec() -> bool {
        true
    }

    open spec fn add_req(self, other: TypedVector3D<T, U>) -> bool {
        self@.add(other@).fits::<T>()
    }

    open spec fn add_spec(self, other: TypedVector3D<T, U>) -> TypedPoint3D<T, U> {
        TypedPoint3D::of(self@.add(other@))
    }
}

/// A 4d point tagged with a unit.
#[derive(Debug)]
pub struct TypedPoint4D<T, U> {
    pub x: T,
    pub y: T,
    pub z: T,
    pub w: T,
    pub _unit: PhantomData<U>,
}

/// `TypedPoint4D` without a unit.
pub type Point4D<T> = TypedPoint4D<T, UnknownUnit>;

impl<T: Copy, U> Copy for TypedPoint4D<T, U> {}

impl<T: Copy, U> Clone for TypedPoint4D<T, U> {
    fn clone(&self) -> (r: Self)
        ensures
            r == *self,
    {
        *self
    }
}

impl<T: Scalar, U> View for TypedPoint4D<T, U> {
    type V = Point4;

    open spec fn view(&self) -> Point4 {
        Point4 { x: self.x.val(), y: self.y.val(), z: self.z.val(), w: self.w.val() }
    }
}

impl<T: Scalar, U> PartialEq for TypedPoint4D<T, U> {
    fn eq(&self, other: &TypedPoint4D<T, U>) -> (b: bool) {
        self.x.eq(other.x) && self.y.eq(other.y) && self.z.eq(other.z) && self.w.eq(other.w)
    }
}

impl<T: Scalar, U> vstd::std_specs::cmp::PartialEqSpecImpl for TypedPoint4D<T, U> {
    open spec fn obeys_eq_spec() -> bool {
        true
    }

    open spec fn eq_spec(&self, other: &TypedPoint4D<T, U>) -> bool {
        self@ == other@
    }
}

impl<T, U> TypedPoint4D<T, U> {
    pub fn new(x: T, y: T, z: T, w: T) -> (r: TypedPoint4D<T, U>)
        ensures
            r.x == x,
            r.y == y,
            r.z == z,
            r.w == w,
    {
        TypedPoint4D { x, y, z, w, _unit: PhantomData }
    }
}

impl<T: Scalar, U> TypedPoint4D<T, U> {
    /// The value whose components stand for those of `m`.
    pub open spec fn of(m: Point4) -> Self {
        TypedPoint4D { x: T::of(m.x), y: T::of(m.y), z: T::of(m.z), w: T::of(m.w), _unit: PhantomData }
    }

    /// A value is the one value with its view, and its view fits `T`.
    pub proof fn lemma_view(self)
        ensures
            Self::of(self@) == self,
            self@.fits::<T>(),
    {
        T::lemma_val(self.x);
        T::lemma_val(self.y);
        T::lemma_val(self.z);
        T::lemma_val(self.w);
    }

    pub fn zero() -> (r: TypedPoint4D<T, U>)
        ensures
            r@ == Point4::zero(),
    {
        proof {
            T::lemma_units();
        }
        TypedPoint4D::new(T::zero(), T::zero(), T::zero(), T::zero())
    }

    pub fn from_lengths(x: Length<U, T>, y: Length<U, T>, z: Length<U, T>, w: Length<U, T>) -> (r: TypedPoint4D<T, U>)
        ensures
            r.x == x.0,
            r.y == y.0,
            r.z == z.0,
            r.w == w.0,
    {
        TypedPoint4D::new(x.get(), y.get(), z.get(), w.get())
    }

    pub fn x_typed(&self) -> (r: Length<U, T>)
        ensures
            r.0 == self.x,
    {
        Length::new(self.x)
    }

    pub fn y_typed(&self) -> (r: Length<U, T>)
        ensures
            r.0 == self.y,
    {
        Length::new(self.y)
    }

    pub fn z_typed(&self) -> (r: Length<U, T>)
        ensures
            r.0 == self.z,
    {
        Length::new(self.z)
    }

    pub fn w_typed(&self) -> (r: Length<U, T>)
        ensures
            r.0 == self.w,
    {
        Length::new(self.w)
    }

    /// Drop the units, preserving only the numeric value.
    pub fn to_untyped(&self) -> (r: Point4D<T>)
        ensures
            r.x == self.x,
            r.y == self.y,
            r.z == self.z,
            r.w == self.w,
            r@ == self@,
    {
        TypedPoint4D::new(self.x, self.y, self.z, self.w)
    }

    /// Tag a unitless value with units.
    pub fn from_untyped(p: &Point4D<T>) -> (r: TypedPoint4D<T, U>)
        ensures
            r.x == p.x,
            r.y == p.y,
            r.z == p.z,
            r.w == p.w,
            r@ == p@,
    {
        TypedPoint4D::new(p.x, p.y, p.z, p.w)
    }

    /// Cast from one numeric representation to another, preserving the units.
    /// A component that `T1` cannot hold exactly is rounded toward zero. The
    /// cast succeeds exactly when `T1` can hold every component so rounded.
    pub fn cast<T1: Scalar>(&self) -> (r: Option<TypedPoint4D<T1, U>>)
        ensures
            self@.cast::<T, T1>().fits::<T1>() ==> r.is_some() && r.unwrap()@ == self@.cast::<
                T,
                T1,
            >(),
            !self@.cast::<T, T1>().fits::<T1>() ==> r.is_none(),
    {
        let x = match cast_scalar::<T, T1>(self.x) {
            Some(v) => v,
            None => {
                return None;
            },
        };
        let y = match cast_scalar::<T, T1>(self.y) {
            Some(v) => v,
            None => {
                return None;
            },
        };
        let z = match cast_scalar::<T, T1>(self.z) {
            Some(v) => v,
            None => {
                return None;
            },
        };
        let w = match cast_scalar::<T, T1>(self.w) {
            Some(v) => v,
            None => {
                return None;
            },
        };
        Some(TypedPoint4D::new(x, y, z, w))
    }

    /// The value cast to `usize`, for a value that `usize` can hold.
    pub fn as_uint(&self) -> (r: TypedPoint4D<usize, U>)
        requires
            self@.cast::<T, usize>().fits::<usize>(),
        ensures
            r@ == self@.cast::<T, usize>(),
    {
        self.cast().unwrap()
    }

    /// The lesser of the two values, component by component.
    pub fn min(self, other: TypedPoint4D<T, U>) -> (r: TypedPoint4D<T, U>)
        ensures
            r@ == self@.min(other@),
    {
        TypedPoint4D::new(
            crate::rect::min(self.x, other.x), crate::rect::min(self.y, other.y),
            crate::rect::min(self.z, other.z), crate::rect::min(self.w, other.w),
        )
    }

    /// The greater of the two values, component by component.
    pub fn max(self, other: TypedPoint4D<T, U>) -> (r: TypedPoint4D<T, U>)
        ensures
            r@ == self@.max(other@),
    {
        TypedPoint4D::new(
            crate::rect::max(self.x, other.x), crate::rect::max(self.y, other.y),
            crate::rect::max(self.z, other.z), crate::rect::max(self.w, other.w),
        )
    }

    /// Linearly interpolate between this value and another: `self + (other - self) * t`.
    /// `t` is expected between zero and one, and is not clamped.
    pub fn lerp(&self, other: TypedPoint4D<T, U>, t: T) -> (r: TypedPoint4D<T, U>)
        requires
            other@.sub(self@).fits::<T>(),
            other@.sub(self@).scale::<T>(t.val()).fits::<T>(),
            self@.lerp::<T>(other@, t.val()).fits::<T>(),
        ensures
            r@ == self@.lerp::<T>(other@, t.val()),
    {
        TypedPoint4D::new(
            self.x.add(other.x.sub(self.x).mul(t)), self.y.add(other.y.sub(self.y).mul(t)),
            self.z.add(other.z.sub(self.z).mul(t)), self.w.add(other.w.sub(self.w).mul(t)),
        )
    }

    /// Every component rounded to the nearest whole scalar, as
    /// `floor(n + 1/2)`: half way between two it goes to the greater.
    pub fn round(&self) -> (r: TypedPoint4D<T, U>)
        requires
            self@.round::<T>().fits::<T>(),
        ensures
            r@ == self@.round::<T>(),
    {
        TypedPoint4D::new(self.x.round(), self.y.round(), self.z.round(), self.w.round())
    }

    /// Every component rounded up to a whole scalar.
    pub fn ceil(&self) -> (r: TypedPoint4D<T, U>)
        requires
            self@.ceil::<T>().fits::<T>(),
        ensures
            r@ == self@.ceil::<T>(),
    {
        TypedPoint4D::new(self.x.ceil(), self.y.ceil(), self.z.ceil(), self.w.ceil())
    }

    /// Every component rounded down to a whole scalar.
    pub fn floor(&self) -> (r: TypedPoint4D<T, U>)
        requires
            self@.floor::<T>().fits::<T>(),
        ensures
            r@ == self@.floor::<T>(),
    {
        TypedPoint4D::new(self.x.floor(), self.y.floor(), self.z.floor(), self.w.floor())
    }
}

impl<T: Scalar, U> core::ops::Add for TypedPoint4D<T, U> {
    type Output = TypedPoint4D<T, U>;

    fn add(self, other: TypedPoint4D<T, U>) -> (r: TypedPoint4D<T, U>)
        ensures
            r@ == self@.add(other@),
    {
        let r = TypedPoint4D::new(
            self.x.add(other.x), self.y.add(other.y), self.z.add(other.z), self.w.add(other.w),
        );
        proof {
            r.lemma_view();
        }
        r
    }
}

impl<T: Scalar, U> vstd::std_specs::ops::AddSpecImpl for TypedPoint4D<T, U> {
    open spec fn obeys_add_spec() -> bool {
        true
    }

    open spec fn add_req(self, other: TypedPoint4D<T, U>) -> bool {
        self@.add(other@).fits::<T>()
    }

    open spec fn add_spec(self, other: TypedPoint4D<T, U>) -> TypedPoint4D<T, U> {
        TypedPoint4D::of(self@.add(other@))
    }
}

impl<T: Scalar, U> core::ops::Sub for TypedPoint4D<T, U> {
    type Output = TypedPoint4D<T, U>;

    fn sub(self, other: TypedPoint4D<T, U>) -> (r: TypedPoint4D<T, U>)
        ensures
            r@ == self@.sub(other@),
    {
        let r = TypedPoint4D::new(
            self.x.sub(other.x), self.y.sub(other.y), self.z.sub(other.z), self.w.sub(other.w),
        );
        proof {
            r.lemma_view();
        }
        r
    }
}

impl<T: Scalar, U> vstd::std_specs::ops::SubSpecImpl for TypedPoint4D<T, U> {
    open spec fn obeys_sub_spec() -> bool {
        true
    }

    open spec fn sub_req(self, other: TypedPoint4D<T, U>) -> bool {
        self@.sub(other@).fits::<T>()
    }

    open spec fn sub_spec(self, other: TypedPoint4D<T, U>) -> TypedPoint4D<T, U> {
        TypedPoint4D::of(self@.sub(other@))
    }
}

impl<T: Scalar, U> core::ops::Neg for TypedPoint4D<T, U> {
    type Output = TypedPoint4D<T, U>;

    fn neg(self) -> (r: TypedPoint4D<T, U>)
        ensures
            r@ == self@.neg(),
    {
        let r = TypedPoint4D::new(self.x.neg(), self.y.neg(), self.z.neg(), self.w.neg());
        proof {
            r.lemma_view();
        }
        r
    }
}

impl<T: Scalar, U> vstd::std_specs::ops::NegSpecImpl for TypedPoint4D<T, U> {
    open spec fn obeys_neg_spec() -> bool {
        true
    }

    open spec fn neg_req(self) -> bool {
        self@.neg().fits::<T>()
    }

    open spec fn neg_spec(self) -> TypedPoint4D<T, U> {
        TypedPoint4D::of(self@.neg())
    }
}

/// The untyped point `(x, y)`.
#[allow(non_snake_case)]
pub fn Point2D<T: Copy>(x: T, y: T) -> (r: Point2D<T>)
    ensures
        r.x == x,
        r.y == y,
{
    TypedPoint2D::new(x, y)
}

/// The point `(x, y)` in the unit `U`.
#[allow(non_snake_case)]
pub fn TypedPoint2D<T: Copy, U>(x: T, y: T) -> (r: TypedPoint2D<T, U>)
    ensures
        r.x == x,
        r.y == y,
{
    TypedPoint2D::new(x, y)
}

} // verus!
