use vstd::prelude::*;
use core::marker::PhantomData;
use crate::length::UnknownUnit;
use crate::model::{Point2, Point3};
use crate::num::{Scalar, cast_scalar, fits};
use crate::point::{TypedPoint2D, TypedPoint3D};
use crate::size::{TypedSize2D, TypedSize3D};

verus! {

/// A 2d displacement tagged with a unit.
#[derive(Debug)]
pub struct TypedVector2D<T, U> {
    pub x: T,
    pub y: T,
    pub _unit: PhantomData<U>,
}

/// `TypedVector2D` without a unit.
pub type Vector2D<T> = TypedVector2D<T, UnknownUnit>;

impl<T: Copy, U> Copy for TypedVector2D<T, U> {}

impl<T: Copy, U> Clone for TypedVector2D<T, U> {
    fn clone(&self) -> (r: Self)
        ensures
            r == *self,
    {
        *self
    }
}

impl<T: Scalar, U> View for TypedVector2D<T, U> {
    type V = Point2;

    open spec fn view(&self) -> Point2 {
        Point2 { x: self.x.val(), y: self.y.val() }
    }
}

impl<T: Scalar, U> PartialEq for TypedVector2D<T, U> {
    fn eq(&self, other: &TypedVector2D<T, U>) -> (b: bool) {
        self.x.eq(other.x) && self.y.eq(other.y)
    }
}

impl<T: Scalar, U> vstd::std_specs::cmp::PartialEqSpecImpl for TypedVector2D<T, U> {
    open spec fn obeys_eq_spec() -> bool {
        true
    }

    open spec fn eq_spec(&self, other: &TypedVector2D<T, U>) -> bool {
        self@ == other@
    }
}

impl<T, U> TypedVector2D<T, U> {
    pub fn new(x: T, y: T) -> (r: TypedVector2D<T, U>)
        ensures
            r.x == x,
            r.y == y,
    {
        TypedVector2D { x, y, _unit: PhantomData }
    }
}

impl<T: Scalar, U> TypedVector2D<T, U> {
    /// The value whose components stand for those of `m`.
    pub open spec fn of(m: Point2) -> Self {
        TypedVector2D { x: T::of(m.x), y: T::of(m.y), _unit: PhantomData }
    }

    /// A value is the one value with its view, and its view fits `T`.
    pub proof fn lemma_view(self)
        ensures
            Self::of(self@) == self,
            self@.fits::<T>(),
    {
        T::lemma_val(self.x);
        T::lemma_val(self.y);
    }

    pub fn zero() -> (r: TypedVector2D<T, U>)
        ensures
            r@ == Point2::zero(),
    {
        proof {
            T::lemma_units();
        }
        TypedVector2D::new(T::zero(), T::zero())
    }

    /// Drop the units, preserving only the numeric value.
    pub fn to_untyped(&self) -> (r: Vector2D<T>)
        ensures
            r.x == self.x,
            r.y == self.y,
            r@ == self@,
    {
        TypedVector2D::new(self.x, self.y)
    }

    /// Tag a unitless value with units.
    pub fn from_untyped(p: &Vector2D<T>) -> (r: TypedVector2D<T, U>)
        ensures
            r.x == p.x,
            r.y == p.y,
            r@ == p@,
    {
        TypedVector2D::new(p.x, p.y)
    }

    /// Cast from one numeric representation to another, preserving the units.
    /// A component that `T1` cannot hold exactly is rounded toward zero. The
    /// cast succeeds exactly when `T1` can hold every component so rounded.
    pub fn cast<T1: Scalar>(&self) -> (r: Option<TypedVector2D<T1, U>>)
        ensures
            self@.cast::<T, T1>().fits::<T1>() ==> r.is_some() && r.unwrap()@ == self@.cast::<
                T,
                T1,
            >(),
            !self@.cast::<T, T1>().fits::<T1>() ==> r.is_none(),
    {
        let x = match cast_scalar::<T, T1>(self.x) {
            Some(v) => v,
            None => {
                return None;
            },
        };
        let y = match cast_scalar::<T, T1>(self.y) {
            Some(v) => v,
            None => {
                return None;
            },
        };
        Some(TypedVector2D::new(x, y))
    }

    /// The value cast to `usize`, for a value that `usize` can hold.
    pub fn as_uint(&self) -> (r: TypedVector2D<usize, U>)
        requires
            self@.cast::<T, usize>().fits::<usize>(),
        ensures
            r@ == self@.cast::<T, usize>(),
    {
        self.cast().unwrap()
    }

    /// The lesser of the two values, component by component.
    pub fn min(self, other: TypedVector2D<T, U>) -> (r: TypedVector2D<T, U>)
        ensures
            r@ == self@.min(other@),
    {
        TypedVector2D::new(crate::rect::min(self.x, other.x), crate::rect::min(self.y, other.y))
    }

    /// The greater of the two values, component by component.
    pub fn max(self, other: TypedVector2D<T, U>) -> (r: TypedVector2D<T, U>)
        ensures
            r@ == self@.max(other@),
    {
        TypedVector2D::new(crate::rect::max(self.x, other.x), crate::rect::max(self.y, other.y))
    }

    /// Linearly interpolate between this value and another: `self + (other - self) * t`.
    /// `t` is expected between zero and one, and is not clamped.
    pub fn lerp(&self, other: TypedVector2D<T, U>, t: T) -> (r: TypedVector2D<T, U>)
        requires
            other@.sub(self@).fits::<T>(),
            other@.sub(self@).scale::<T>(t.val()).fits::<T>(),
            self@.lerp::<T>(other@, t.val()).fits::<T>(),
        ensures
            r@ == self@.lerp::<T>(other@, t.val()),
    {
        TypedVector2D::new(
            self.x.add(other.x.sub(self.x).mul(t)), self.y.add(other.y.sub(self.y).mul(t)),
        )
    }

    /// Every component rounded to the nearest whole scalar, as
    /// `floor(n + 1/2)`: half way between two it goes to the greater.
    pub fn round(&self) -> (r: TypedVector2D<T, U>)
        requires
            self@.round::<T>().fits::<T>(),
        ensures
            r@ == self@.round::<T>(),
    {
        TypedVector2D::new(self.x.round(), self.y.round())
    }

    /// Every component rounded up to a whole scalar.
    pub fn ceil(&self) -> (r: TypedVector2D<T, U>)
        requires
            self@.ceil::<T>().fits::<T>(),
        ensures
            r@ == self@.ceil::<T>(),
    {
        TypedVector2D::new(self.x.ceil(), self.y.ceil())
    }

    /// Every component rounded down to a whole scalar.
    pub fn floor(&self) -> (r: TypedVector2D<T, U>)
        requires
            self@.floor::<T>().fits::<T>(),
        ensures
            r@ == self@.floor::<T>(),
    {
        TypedVector2D::new(self.x.floor(), self.y.floor())
    }
}

/// Shorthand for `TypedVector2D::new`.
pub fn vec2<T: Copy, U>(x: T, y: T) -> (r: TypedVector2D<T, U>)
    ensures
        r.x == x,
        r.y == y,
{
    TypedVector2D::new(x, y)
}

impl<T: Scalar, U> core::ops::Add for TypedVector2D<T, U> {
    type Output = TypedVector2D<T, U>;

    fn add(self, other: TypedVector2D<T, U>) -> (r: TypedVector2D<T, U>)
        ensures
            r@ == self@.add(other@),
    {
        let r = TypedVector2D::new(self.x.add(other.x), self.y.add(other.y));
        proof {
            r.lemma_view();
        }
        r
    }
}

impl<T: Scalar, U> vstd::std_specs::ops::AddSpecImpl for TypedVector2D<T, U> {
    open spec fn obeys_add_spec() -> bool {
        true
    }

    open spec fn add_req(self, other: TypedVector2D<T, U>) -> bool {
        self@.add(other@).fits::<T>()
    }

    open spec fn add_spec(self, other: TypedVector2D<T, U>) -> TypedVector2D<T, U> {
        TypedVector2D::of(self@.add(other@))
    }
}

impl<T: Scalar, U> core::ops::Sub for TypedVector2D<T, U> {
    type Output = TypedVector2D<T, U>;

    fn sub(self, other: TypedVector2D<T, U>) -> (r: TypedVector2D<T, U>)
        ensures
            r@ == self@.sub(other@),
    {
        let r = TypedVector2D::new(self.x.sub(other.x), self.y.sub(other.y));
        proof {
            r.lemma_view();
        }
        r
    }
}

impl<T: Scalar, U> vstd::std_specs::ops::SubSpecImpl for TypedVector2D<T, U> {
    open spec fn obeys_sub_spec() -> bool {
        true
    }

    open spec fn sub_req(self, other: TypedVector2D<T, U>) -> bool {
        self@.sub(other@).fits::<T>()
    }

    open spec fn sub_spec(self, other: TypedVector2D<T, U>) -> TypedVector2D<T, U> {
        TypedVector2D::of(self@.sub(other@))
    }
}

impl<T: Scalar, U> core::ops::Neg for TypedVector2D<T, U> {
    type Output = TypedVector2D<T, U>;

    fn neg(self) -> (r: TypedVector2D<T, U>)
        ensures
            r@ == self@.neg(),
    {
        let r = TypedVector2D::new(self.x.neg(), self.y.neg());
        proof {
            r.lemma_view();
        }
        r
    }
}

impl<T: Scalar, U> vstd::std_specs::ops::NegSpecImpl for TypedVector2D<T, U> {
    open spec fn obeys_neg_spec() -> bool {
        true
    }

    open spec fn neg_req(self) -> bool {
        self@.neg().fits::<T>()
    }

    open spec fn neg_spec(self) -> TypedVector2D<T, U> {
        TypedVector2D::of(self@.neg())
    }
}

impl<T: Scalar, U> TypedVector2D<T, U> {
    /// The point at this displacement from the origin.
    pub fn to_point(&self) -> (r: TypedPoint2D<T, U>)
        ensures
            r@ == self@,
    {
        TypedPoint2D::new(self.x, self.y)
    }

    /// The size with this vector's components as width and height.
    pub fn to_size(&self) -> (r: TypedSize2D<T, U>)
        ensures
            r@ == self@.to_size(),
    {
        TypedSize2D::new(self.x, self.y)
    }
}

/// A 3d displacement tagged with a unit.
#[derive(Debug)]
pub struct TypedVector3D<T, U> {
    pub x: T,
    pub y: T,
    pub z: T,
    pub _unit: PhantomData<U>,
}

/// `TypedVector3D` without a unit.
pub type Vector3D<T> = TypedVector3D<T, UnknownUnit>;

impl<T: Copy, U> Copy for TypedVector3D<T, U> {}

impl<T: Copy, U> Clone for TypedVector3D<T, U> {
    fn clone(&self) -> (r: Self)
        ensures
            r == *self,
    {
        *self
    }
}

impl<T: Scalar, U> View for TypedVector3D<T, U> {
    type V = Point3;

    open spec fn view(&self) -> Point3 {
        Point3 { x: self.x.val(), y: self.y.val(), z: self.z.val() }
    }
}

impl<T: Scalar, U> PartialEq for TypedVector3D<T, U> {
    fn eq(&self, other: &TypedVector3D<T, U>) -> (b: bool) {
        self.x.eq(other.x) && self.y.eq(other.y) && self.z.eq(other.z)
    }
}

impl<T: Scalar, U> vstd::std_specs::cmp::PartialEqSpecImpl for TypedVector3D<T, U> {
    open spec fn obeys_eq_spec() -> bool {
        true
    }

    open spec fn eq_spec(&self, other: &TypedVector3D<T, U>) -> bool {
        self@ == other@
    }
}

impl<T, U> TypedVector3D<T, U> {
    pub fn new(x: T, y: T, z: T) -> (r: TypedVector3D<T, U>)
        ensures
            r.x == x,
            r.y == y,
            r.z == z,
    {
        TypedVector3D { x, y, z, _unit: PhantomData }
    }
}

impl<T: Scalar, U> TypedVector3D<T, U> {
    /// The value whose components stand for those of `m`.
    pub open spec fn of(m: Point3) -> Self {
        TypedVector3D { x: T::of(m.x), y: T::of(m.y), z: T::of(m.z), _unit: PhantomData }
    }

    /// A value is the one value with its view, and its view fits `T`.
    pub proof fn lemma_view(self)
        ensures
            Self::of(self@) == self,
            self@.fits::<T>(),
    {
        T::lemma_val(self.x);
        T::lemma_val(self.y);
        T::lemma_val(self.z);
    }

    pub fn zero() -> (r: TypedVector3D<T, U>)
        ensures
            r@ == Point3::zero(),
    {
        proof {
            T::lemma_units();
        }
        TypedVector3D::new(T::zero(), T::zero(), T::zero())
    }

    /// Drop the units, preserving only the numeric value.
    pub fn to_untyped(&self) -> (r: Vector3D<T>)
        ensures
            r.x == self.x,
            r.y == self.y,
            r.z == self.z,
            r@ == self@,
    {
        TypedVector3D::new(self.x, self.y, self.z)
    }

    /// Tag a unitless value with units.
    pub fn from_untyped(p: &Vector3D<T>) -> (r: TypedVector3D<T, U>)
        ensures
            r.x == p.x,
            r.y == p.y,
            r.z == p.z,
            r@ == p@,
    {
        TypedVector3D::new(p.x, p.y, p.z)
    }

    /// Cast from one numeric representation to another, preserving the units.
    /// A component that `T1` cannot hold exactly is rounded toward zero. The
    /// cast succeeds exactly when `T1` can hold every component so rounded.
    pub fn cast<T1: Scalar>(&self) -> (r: Option<TypedVector3D<T1, U>>)
        ensures
            self@.cast::<T, T1>().fits::<T1>() ==> r.is_some() && r.unwrap()@ == self@.cast::<
                T,
                T1,
            >(),
            !self@.cast::<T, T1>().fits::<T1>() ==> r.is_none(),
    {
        let x = match cast_scalar::<T, T1>(self.x) {
            Some(v) => v,
            None => {
                return None;
            },
        };
        let y = match cast_scalar::<T, T1>(self.y) {
            Some(v) => v,
            None => {
                return None;
            },
        };
        let z = match cast_scalar::<T, T1>(self.z) {
            Some(v) => v,
            None => {
                return None;
            },
        };
        Some(TypedVector3D::new(x, y, z))
    }

    /// The value cast to `usize`, for a value that `usize` can hold.
    pub fn as_uint(&self) -> (r: TypedVector3D<usize, U>)
        requires
            self@.cast::<T, usize>().fits::<usize>(),
        ensures
            r@ == self@.cast::<T, usize>(),
    {
        self.cast().unwrap()
    }

    /// The lesser of the two values, component by component.
    pub fn min(self, other: TypedVector3D<T, U>) -> (r: TypedVector3D<T, U>)
        ensures
            r@ == self@.min(other@),
    {
        TypedVector3D::new(
            crate::rect::min(self.x, other.x), crate::rect::min(self.y, other.y),
            crate::rect::min(self.z, other.z),
        )
    }

    /// The greater of the two values, component by component.
    pub fn max(self, other: TypedVector3D<T, U>) -> (r: TypedVector3D<T, U>)
        ensures
            r@ == self@.max(other@),
    {
        TypedVector3D::new(
            crate::rect::max(self.x, other.x), crate::rect::max(self.y, other.y),
            crate::rect::max(self.z, other.z),
        )
    }

    /// Linearly interpolate between this value and another: `self + (other - self) * t`.
    /// `t` is expected between zero and one, and is not clamped.
    pub fn lerp(&self, other: TypedVector3D<T, U>, t: T) -> (r: TypedVector3D<T, U>)
        requires
            other@.sub(self@).fits::<T>(),
            other@.sub(self@).scale::<T>(t.val()).fits::<T>(),
            self@.lerp::<T>(other@, t.val()).fits::<T>(),
        ensures
            r@ == self@.lerp::<T>(other@, t.val()),
    {
        TypedVector3D::new(
            self.x.add(other.x.sub(self.x).mul(t)), self.y.add(other.y.sub(self.y).mul(t)),
            self.z.add(other.z.sub(self.z).mul(t)),
        )
    }

    /// Every component rounded to the nearest whole scalar, as
    /// `floor(n + 1/2)`: half way between two it goes to the greater.
    pub fn round(&self) -> (r: TypedVector3D<T, U>)
        requires
            self@.round::<T>().fits::<T>(),
        ensures
            r@ == self@.round::<T>(),
    {
        TypedVector3D::new(self.x.round(), self.y.round(), self.z.round())
    }

    /// Every component rounded up to a whole scalar.
    pub fn ceil(&self) -> (r: TypedVector3D<T, U>)
        requires
            self@.ceil::<T>().fits::<T>(),
        ensures
            r@ == self@.ceil::<T>(),
    {
        TypedVector3D::new(self.x.ceil(), self.y.ceil(), self.z.ceil())
    }

    /// Every component rounded down to a whole scalar.
    pub fn floor(&self) -> (r: TypedVector3D<T, U>)
        requires
            self@.floor::<T>().fits::<T>(),
        ensures
            r@ == self@.floor::<T>(),
    {
        TypedVector3D::new(self.x.floor(), self.y.floor(), self.z.floor())
    }
}

/// Shorthand for `TypedVector3D::new`.
pub fn vec3<T: Copy, U>(x: T, y: T, z: T) -> (r: TypedVector3D<T, U>)
    ensures
        r.x == x,
        r.y == y,
        r.z == z,
{
    TypedVector3D::new(x, y, z)
}

impl<T: Scalar, U> core::ops::Add for TypedVector3D<T, U> {
    type Output = TypedVector3D<T, U>;

    fn add(self, other: TypedVector3D<T, U>) -> (r: TypedVector3D<T, U>)
        ensures
            r@ == self@.add(other@),
    {
        let r = TypedVector3D::new(self.x.add(other.x), self.y.add(other.y), self.z.add(other.z));
        proof {
            r.lemma_view();
        }
        r
    }
}

impl<T: Scalar, U> vstd::std_specs::ops::AddSpecImpl for TypedVector3D<T, U> {
    open spec fn obeys_add_spec() -> bool {
        true
    }

    open spec fn add_req(self, other: TypedVector3D<T, U>) -> bool {
        self@.add(other@).fits::<T>()
    }

    open spec fn add_spec(self, other: TypedVector3D<T, U>) -> TypedVector3D<T, U> {
        TypedVector3D::of(self@.add(other@))
    }
}

impl<T: Scalar, U> core::ops::Sub for TypedVector3D<T, U> {
    type Output = TypedVector3D<T, U>;

    fn sub(self, other: TypedVector3D<T, U>) -> (r: TypedVector3D<T, U>)
        ensures
            r@ == self@.sub(other@),
    {
        let r = TypedVector3D::new(self.x.sub(other.x), self.y.sub(other.y), self.z.sub(other.z));
        proof {
            r.lemma_view();
        }
        r
    }
}

impl<T: Scalar, U> vstd::std_specs::ops::SubSpecImpl for TypedVector3D<T, U> {
    open spec fn obeys_sub_spec() -> bool {
        true
    }

    open spec fn sub_req(self, other: TypedVector3D<T, U>) -> bool {
        self@.sub(other@).fits::<T>()
    }

    open spec fn sub_spec(self, other: TypedVector3D<T, U>) -> TypedVector3D<T, U> {
        TypedVector3D::of(self@.sub(other@))
    }
}

impl<T: Scalar, U> core::ops::Neg for TypedVector3D<T, U> {
    type Output = TypedVector3D<T, U>;

    fn neg(self) -> (r: TypedVector3D<T, U>)
        ensures
            r@ == self@.neg(),
    {
        let r = TypedVector3D::new(self.x.neg(), self.y.neg(), self.z.neg());
        proof {
            r.lemma_view();
        }
        r
    }
}

impl<T: Scalar, U> vstd::std_specs::ops::NegSpecImpl for TypedVector3D<T, U> {
    open spec fn obeys_neg_spec() -> bool {
        true
    }

    open spec fn neg_req(self) -> bool {
        self@.neg().fits::<T>()
    }

    open spec fn neg_spec(self) -> TypedVector3D<T, U> {
        TypedVector3D::of(self@.neg())
    }
}

impl<T: Scalar, U> TypedVector3D<T, U> {
    /// The point at this displacement from the origin.
    pub fn to_point(&self) -> (r: TypedPoint3D<T, U>)
        ensures
            r@ == self@,
    {
        TypedPoint3D::new(self.x, self.y, self.z)
    }

    /// The size with this vector's components as width, height and depth.
    pub fn to_size(&self) -> (r: TypedSize3D<T, U>)
        ensures
            r@ == self@.to_size(),
    {
        TypedSize3D::new(self.x, self.y, self.z)
    }
}

} // verus!
