use vstd::prelude::*;
use core::marker::PhantomData;
use crate::length::{Length, UnknownUnit};
use crate::model::{Size2, Size3};
use crate::num::{Scalar, Zero, cast_scalar, fits};
use crate::scale_factor::ScaleFactor;
use crate::vector::{TypedVector2D, TypedVector3D};

verus! {

/// A 2d size tagged with a unit.
#[derive(Debug)]
pub struct TypedSize2D<T, U> {
    pub width: T,
    pub height: T,
    pub _unit: PhantomData<U>,
}

/// `TypedSize2D` without a unit.
pub type Size2D<T> = TypedSize2D<T, UnknownUnit>;

impl<T: Copy, U> Copy for TypedSize2D<T, U> {}

impl<T: Copy, U> Clone for TypedSize2D<T, U> {
    fn clone(&self) -> (r: Self)
        ensures
            r == *self,
    {
        *self
    }
}

impl<T: Scalar, U> View for TypedSize2D<T, U> {
    type V = Size2;

    open spec fn view(&self) -> Size2 {
        Size2 { width: self.width.val(), height: self.height.val() }
    }
}

impl<T: Scalar, U> PartialEq for TypedSize2D<T, U> {
    fn eq(&self, other: &TypedSize2D<T, U>) -> (b: bool) {
        self.width.eq(other.width) && self.height.eq(other.height)
    }
}

impl<T: Scalar, U> vstd::std_specs::cmp::PartialEqSpecImpl for TypedSize2D<T, U> {
    open spec fn obeys_eq_spec() -> bool {
        true
    }

    open spec fn eq_spec(&self, other: &TypedSize2D<T, U>) -> bool {
        self@ == other@
    }
}

impl<T, U> TypedSize2D<T, U> {
    pub fn new(width: T, height: T) -> (r: TypedSize2D<T, U>)
        ensures
            r.width == width,
            r.height == height,
    {
        TypedSize2D { width, height, _unit: PhantomData }
    }
}

impl<T: Scalar, U> TypedSize2D<T, U> {
    /// The value whose components stand for those of `m`.
    pub open spec fn of(m: Size2) -> Self {
        TypedSize2D { width: T::of(m.width), height: T::of(m.height), _unit: PhantomData }
    }

    /// A value is the one value with its view, and its view fits `T`.
    pub proof fn lemma_view(self)
        ensures
            Self::of(self@) == self,
            self@.fits::<T>(),
    {
        T::lemma_val(self.width);
        T::lemma_val(self.height);
    }

    pub fn zero() -> (r: TypedSize2D<T, U>)
        ensures
            r@ == Size2::zero(),
    {
        proof {
            T::lemma_units();
        }
        TypedSize2D::new(T::zero(), T::zero())
    }

    pub fn from_lengths(width: Length<U, T>, height: Length<U, T>) -> (r: TypedSize2D<T, U>)
        ensures
            r.width == width.0,
            r.height == height.0,
    {
        TypedSize2D::new(width.get(), height.get())
    }

    /// Drop the units, preserving only the numeric value.
    pub fn to_untyped(&self) -> (r: Size2D<T>)
        ensures
            r.width == self.width,
            r.height == self.height,
            r@ == self@,
    {
        TypedSize2D::new(self.width, self.height)
    }

    /// Tag a unitless value with units.
    pub fn from_untyped(p: &Size2D<T>) -> (r: TypedSize2D<T, U>)
        ensures
            r.width == p.width,
            r.height == p.height,
            r@ == p@,
    {
        TypedSize2D::new(p.width, p.height)
    }

    /// Cast from one numeric representation to another, preserving the units.
    /// A component that `T1` cannot hold exactly is rounded toward zero. The
    /// cast succeeds exactly when `T1` can hold every component so rounded.
    pub fn cast<T1: Scalar>(&self) -> (r: Option<TypedSize2D<T1, U>>)
        ensures
            self@.cast::<T, T1>().fits::<T1>() ==> r.is_some() && r.unwrap()@ == self@.cast::<
                T,
                T1,
            >(),
            !self@.cast::<T, T1>().fits::<T1>() ==> r.is_none(),
    {
        let width = match cast_scalar::<T, T1>(self.width) {
            Some(v) => v,
            None => {
                return None;
            },
        };
        let height = match cast_scalar::<T, T1>(self.height) {
            Some(v) => v,
            None => {
                return None;
            },
        };
        Some(TypedSize2D::new(width, height))
    }

    /// The value cast to `usize`, for a value that `usize` can hold.
    pub fn as_uint(&self) -> (r: TypedSize2D<usize, U>)
        requires
            self@.cast::<T, usize>().fits::<usize>(),
        ensures
            r@ == self@.cast::<T, usize>(),
    {
        self.cast().unwrap()
    }

    /// The lesser of the two values, component by component.
    pub fn min(self, other: TypedSize2D<T, U>) -> (r: TypedSize2D<T, U>)
        ensures
            r@ == self@.min(other@),
    {
        TypedSize2D::new(
            crate::rect::min(self.width, other.width), crate::rect::min(self.height, other.height),
        )
    }

    /// The greater of the two values, component by component.
    pub fn max(self, other: TypedSize2D<T, U>) -> (r: TypedSize2D<T, U>)
        ensures
            r@ == self@.max(other@),
    {
        TypedSize2D::new(
            crate::rect::max(self.width, other.width), crate::rect::max(self.height, other.height),
        )
    }

    /// Linearly interpolate between this value and another: `self + (other - self) * t`.
    /// `t` is expected between zero and one, and is not clamped.
    pub fn lerp(&self, other: TypedSize2D<T, U>, t: T) -> (r: TypedSize2D<T, U>)
        requires
            other@.sub(self@).fits::<T>(),
            other@.sub(self@).scale::<T>(t.val()).fits::<T>(),
            self@.lerp::<T>(other@, t.val()).fits::<T>(),
        ensures
            r@ == self@.lerp::<T>(other@, t.val()),
    {
        TypedSize2D::new(
            self.width.add(other.width.sub(self.width).mul(t)),
            self.height.add(other.height.sub(self.height).mul(t)),
        )
    }

    /// Every component rounded to the nearest whole scalar, as
    /// `floor(n + 1/2)`: half way between two it goes to the greater.
    pub fn round(&self) -> (r: TypedSize2D<T, U>)
        requires
            self@.round::<T>().fits::<T>(),
        ensures
            r@ == self@.round::<T>(),
    {
        TypedSize2D::new(self.width.round(), self.height.round())
    }

    /// Every component rounded up to a whole scalar.
    pub fn ceil(&self) -> (r: TypedSize2D<T, U>)
        requires
            self@.ceil::<T>().fits::<T>(),
        ensures
            r@ == self@.ceil::<T>(),
    {
        TypedSize2D::new(self.width.ceil(), self.height.ceil())
    }

    /// Every component rounded down to a whole scalar.
    pub fn floor(&self) -> (r: TypedSize2D<T, U>)
        requires
            self@.floor::<T>().fits::<T>(),
        ensures
            r@ == self@.floor::<T>(),
    {
        TypedSize2D::new(self.width.floor(), self.height.floor())
    }
}

/// Shorthand for `TypedSize2D::new`.
pub fn size2<T: Copy, U>(width: T, height: T) -> (r: TypedSize2D<T, U>)
    ensures
        r.width == width,
        r.height == height,
{
    TypedSize2D::new(width, height)
}

impl<T: Scalar, U> core::ops::Mul<T> for TypedSize2D<T, U> {
    type Output = TypedSize2D<T, U>;

    fn mul(self, scale: T) -> (r: TypedSize2D<T, U>)
        ensures
            r@ == self@.scale::<T>(scale.val()),
    {
        let r = TypedSize2D::new(self.width.mul(scale), self.height.mul(scale));
        proof {
            r.lemma_view();
        }
        r
    }
}

impl<T: Scalar, U> vstd::std_specs::ops::MulSpecImpl<T> for TypedSize2D<T, U> {
    open spec fn obeys_mul_spec() -> bool {
        true
    }

    open spec fn mul_req(self, scale: T) -> bool {
        self@.scale::<T>(scale.val()).fits::<T>()
    }

    open spec fn mul_spec(self, scale: T) -> TypedSize2D<T, U> {
        TypedSize2D::of(self@.scale::<T>(scale.val()))
    }
}

impl<T: Scalar, U> core::ops::Div<T> for TypedSize2D<T, U> {
    type Output = TypedSize2D<T, U>;

    fn div(self, scale: T) -> (r: TypedSize2D<T, U>)
        ensures
            r@ == self@.div::<T>(scale.val()),
    {
        let r = TypedSize2D::new(self.width.div(scale), self.height.div(scale));
        proof {
            r.lemma_view();
        }
        r
    }
}

impl<T: Scalar, U> vstd::std_specs::ops::DivSpecImpl<T> for TypedSize2D<T, U> {
    open spec fn obeys_div_spec() -> bool {
        true
    }

    open spec fn div_req(self, scale: T) -> bool {
        scale.val() != 0 && self@.div::<T>(scale.val()).fits::<T>()
    }

    open spec fn div_spec(self, scale: T) -> TypedSize2D<T, U> {
        TypedSize2D::of(self@.div::<T>(scale.val()))
    }
}

impl<T: Scalar, U1, U2> core::ops::Mul<ScaleFactor<U1, U2, T>> for TypedSize2D<T, U1> {
    type Output = TypedSize2D<T, U2>;

    fn mul(self, scale: ScaleFactor<U1, U2, T>) -> (r: TypedSize2D<T, U2>)
        ensures
            r@ == self@.scale::<T>(scale@),
    {
        let r = TypedSize2D::new(self.width.mul(scale.get()), self.height.mul(scale.get()));
        proof {
            r.lemma_view();
        }
        r
    }
}

impl<T: Scalar, U1, U2> vstd::std_specs::ops::MulSpecImpl<ScaleFactor<U1, U2, T>> for TypedSize2D<T, U1> {
    open spec fn obeys_mul_spec() -> bool {
        true
    }

    open spec fn mul_req(self, scale: ScaleFactor<U1, U2, T>) -> bool {
        self@.scale::<T>(scale@).fits::<T>()
    }

    open spec fn mul_spec(self, scale: ScaleFactor<U1, U2, T>) -> TypedSize2D<T, U2> {
        TypedSize2D::of(self@.scale::<T>(scale@))
    }
}

impl<T: Scalar, U1, U2> core::ops::Div<ScaleFactor<U1, U2, T>> for TypedSize2D<T, U2> {
    type Output = TypedSize2D<T, U1>;

    fn div(self, scale: ScaleFactor<U1, U2, T>) -> (r: TypedSize2D<T, U1>)
        ensures
            r@ == self@.div::<T>(scale@),
    {
        let r = TypedSize2D::new(self.width.div(scale.get()), self.height.div(scale.get()));
        proof {
            r.lemma_view();
        }
        r
    }
}

impl<T: Scalar, U1, U2> vstd::std_specs::ops::DivSpecImpl<ScaleFactor<U1, U2, T>> for TypedSize2D<T, U2> {
    open spec fn obeys_div_spec() -> bool {
        true
    }

    open spec fn div_req(self, scale: ScaleFactor<U1, U2, T>) -> bool {
        scale@ != 0 && self@.div::<T>(scale@).fits::<T>()
    }

    open spec fn div_spec(self, scale: ScaleFactor<U1, U2, T>) -> TypedSize2D<T, U1> {
        TypedSize2D::of(self@.div::<T>(scale@))
    }
}

impl<T: Scalar, U> TypedSize2D<T, U> {
    pub fn area(&self) -> (r: T)
        requires
            fits::<T>(self@.area::<T>()),
        ensures
            r.val() == self@.area::<T>(),
    {
        self.width.mul(self.height)
    }

    /// Whether an extent is zero.
    pub fn is_empty(&self) -> (b: bool)
        ensures
            b == self@.is_empty(),
    {
        proof {
            T::lemma_units();
        }
        self.width.eq(T::zero()) || self.height.eq(T::zero())
    }

    /// The vector with this size's width and height as components.
    pub fn to_vector(&self) -> (r: TypedVector2D<T, U>)
        ensures
            r@ == self@.to_vector(),
    {
        TypedVector2D::new(self.width, self.height)
    }
}

impl<T: Scalar, U> Zero for TypedSize2D<T, U> {
    open spec fn zero_spec() -> Self {
        TypedSize2D::of(Size2::zero())
    }

    fn zero() -> (r: TypedSize2D<T, U>) {
        let r = TypedSize2D::new(T::zero(), T::zero());
        proof {
            T::lemma_units();
            r.lemma_view();
        }
        r
    }
}

/// A 3d size tagged with a unit.
#[derive(Debug)]
pub struct TypedSize3D<T, U> {
    pub width: T,
    pub height: T,
    pub depth: T,
    pub _unit: PhantomData<U>,
}

/// `TypedSize3D` without a unit.
pub type Size3D<T> = TypedSize3D<T, UnknownUnit>;

impl<T: Copy, U> Copy for TypedSize3D<T, U> {}

impl<T: Copy, U> Clone for TypedSize3D<T, U> {
    fn clone(&self) -> (r: Self)
        ensures
            r == *self,
    {
        *self
    }
}

impl<T: Scalar, U> View for TypedSize3D<T, U> {
    type V = Size3;

    open spec fn view(&self) -> Size3 {
        Size3 { width: self.width.val(), height: self.height.val(), depth: self.depth.val() }
    }
}

impl<T: Scalar, U> PartialEq for TypedSize3D<T, U> {
    fn eq(&self, other: &TypedSize3D<T, U>) -> (b: bool) {
        self.width.eq(other.width) && self.height.eq(other.height) && self.depth.eq(other.depth)
    }
}

impl<T: Scalar, U> vstd::std_specs::cmp::PartialEqSpecImpl for TypedSize3D<T, U> {
    open spec fn obeys_eq_spec() -> bool {
        true
    }

    open spec fn eq_spec(&self, other: &TypedSize3D<T, U>) -> bool {
        self@ == other@
    }
}

impl<T, U> TypedSize3D<T, U> {
    pub fn new(width: T, height: T, depth: T) -> (r: TypedSize3D<T, U>)
        ensures
            r.width == width,
            r.height == height,
            r.depth == depth,
    {
        TypedSize3D { width, height, depth, _unit: PhantomData }
    }
}

impl<T: Scalar, U> TypedSize3D<T, U> {
    /// The value whose components stand for those of `m`.
    pub open spec fn of(m: Size3) -> Self {
        TypedSize3D { width: T::of(m.width), height: T::of(m.height), depth: T::of(m.depth), _unit: PhantomData }
    }

    /// A value is the one value with its view, and its view fits `T`.
    pub proof fn lemma_view(self)
        ensures
            Self::of(self@) == self,
            self@.fits::<T>(),
    {
        T::lemma_val(self.width);
        T::lemma_val(self.height);
        T::lemma_val(self.depth);
    }

    pub fn zero() -> (r: TypedSize3D<T, U>)
        ensures
            r@ == Size3::zero(),
    {
        proof {
            T::lemma_units();
        }
        TypedSize3D::new(T::zero(), T::zero(), T::zero())
    }

    pub fn from_lengths(width: Length<U, T>, height: Length<U, T>, depth: Length<U, T>) -> (r: TypedSize3D<T, U>)
        ensures
            r.width == width.0,
            r.height == height.0,
            r.depth == depth.0,
    {
        TypedSize3D::new(width.get(), height.get(), depth.get())
    }

    /// Drop the units, preserving only the numeric value.
    pub fn to_untyped(&self) -> (r: Size3D<T>)
        ensures
            r.width == self.width,
            r.height == self.height,
            r.depth == self.depth,
            r@ == self@,
    {
        TypedSize3D::new(self.width, self.height, self.depth)
    }

    /// Tag a unitless value with units.
    pub fn from_untyped(p: &Size3D<T>) -> (r: TypedSize3D<T, U>)
        ensures
            r.width == p.width,
            r.height == p.height,
            r.depth == p.depth,
            r@ == p@,
    {
        TypedSize3D::new(p.width, p.height, p.depth)
    }

    /// Cast from one numeric representation to another, preserving the units.
    /// A component that `T1` cannot hold exactly is rounded toward zero. The
    /// cast succeeds exactly when `T1` can hold every component so rounded.
    pub fn cast<T1: Scalar>(&self) -> (r: Option<TypedSize3D<T1, U>>)
        ensures
            self@.cast::<T, T1>().fits::<T1>() ==> r.is_some() && r.unwrap()@ == self@.cast::<
                T,
                T1,
            >(),
            !self@.cast::<T, T1>().fits::<T1>() ==> r.is_none(),
    {
        let width = match cast_scalar::<T, T1>(self.width) {
            Some(v) => v,
            None => {
                return None;
            },
        };
        let height = match cast_scalar::<T, T1>(self.height) {
            Some(v) => v,
            None => {
                return None;
            },
        };
        let depth = match cast_scalar::<T, T1>(self.depth) {
            Some(v) => v,
            None => {
                return None;
            },
        };
        Some(TypedSize3D::new(width, height, depth))
    }

    /// The value cast to `usize`, for a value that `usize` can hold.
    pub fn as_uint(&self) -> (r: TypedSize3D<usize, U>)
        requires
            self@.cast::<T, usize>().fits::<usize>(),
        ensures
            r@ == self@.cast::<T, usize>(),
    {
        self.cast().unwrap()
    }

    /// The lesser of the two values, component by component.
    pub fn min(self, other: TypedSize3D<T, U>) -> (r: TypedSize3D<T, U>)
        ensures
            r@ == self@.min(other@),
    {
        TypedSize3D::new(
            crate::rect::min(self.width, other.width), crate::rect::min(self.height, other.height),
            crate::rect::min(self.depth, other.depth),
        )
    }

    /// The greater of the two values, component by component.
    pub fn max(self, other: TypedSize3D<T, U>) -> (r: TypedSize3D<T, U>)
        ensures
            r@ == self@.max(other@),
    {
        TypedSize3D::new(
            crate::rect::max(self.width, other.width), crate::rect::max(self.height, other.height),
            crate::rect::max(self.depth, other.depth),
        )
    }

    /// Linearly interpolate between this value and another: `self + (other - self) * t`.
    /// `t` is expected between zero and one, and is not clamped.
    pub fn lerp(&self, other: TypedSize3D<T, U>, t: T) -> (r: TypedSize3D<T, U>)
        requires
            other@.sub(self@).fits::<T>(),
            other@.sub(self@).scale::<T>(t.val()).fits::<T>(),
            self@.lerp::<T>(other@, t.val()).fits::<T>(),
        ensures
            r@ == self@.lerp::<T>(other@, t.val()),
    {
        TypedSize3D::new(
            self.width.add(other.width.sub(self.width).mul(t)),
            self.height.add(other.height.sub(self.height).mul(t)),
            self.depth.add(other.depth.sub(self.depth).mul(t)),
        )
    }

    /// Every component rounded to the nearest whole scalar, as
    /// `floor(n + 1/2)`: half way between two it goes to the greater.
    pub fn round(&self) -> (r: TypedSize3D<T, U>)
        requires
            self@.round::<T>().fits::<T>(),
        ensures
            r@ == self@.round::<T>(),
    {
        TypedSize3D::new(self.width.round(), self.height.round(), self.depth.round())
    }

    /// Every component rounded up to a whole scalar.
    pub fn ceil(&self) -> (r: TypedSize3D<T, U>)
        requires
            self@.ceil::<T>().fits::<T>(),
        ensures
            r@ == self@.ceil::<T>(),
    {
        TypedSize3D::new(self.width.ceil(), self.height.ceil(), self.depth.ceil())
    }

    /// Every component rounded down to a whole scalar.
    pub fn floor(&self) -> (r: TypedSize3D<T, U>)
        requires
            self@.floor::<T>().fits::<T>(),
        ensures
            r@ == self@.floor::<T>(),
    {
        TypedSize3D::new(self.width.floor(), self.height.floor(), self.depth.floor())
    }
}

/// Shorthand for `TypedSize3D::new`.
pub fn size3<T: Copy, U>(width: T, height: T, depth: T) -> (r: TypedSize3D<T, U>)
    ensures
        r.width == width,
        r.height == height,
        r.depth == depth,
{
    TypedSize3D::new(width, height, depth)
}

impl<T: Scalar, U> TypedSize3D<T, U> {
    pub fn volume(&self) -> (r: T)
        requires
            fits::<T>(T::mul_val(self@.width, self@.height)),
            fits::<T>(self@.volume::<T>()),
        ensures
            r.val() == self@.volume::<T>(),
    {
        self.width.mul(self.height).mul(self.depth)
    }

    /// Whether an extent is zero.
    pub fn is_empty(&self) -> (b: bool)
        ensures
            b == self@.is_empty(),
    {
        proof {
            T::lemma_units();
        }
        self.width.eq(T::zero()) || self.height.eq(T::zero()) || self.depth.eq(T::zero())
    }

    /// The vector with this size's extents as components.
    pub fn to_vector(&self) -> (r: TypedVector3D<T, U>)
        ensures
            r@ == self@.to_vector(),
    {
        TypedVector3D::new(self.width, self.height, self.depth)
    }
}

/// The untyped size `width` by `height`.
#[allow(non_snake_case)]
pub fn Size2D<T: Copy>(width: T, height: T) -> (r: Size2D<T>)
    ensures
        r.width == width,
        r.height == height,
{
    TypedSize2D::new(width, height)
}

/// The size `width` by `height` in the unit `U`.
#[allow(non_snake_case)]
pub fn TypedSize2D<T: Copy, U>(width: T, height: T) -> (r: TypedSize2D<T, U>)
    ensures
        r.width == width,
        r.height == height,
{
    TypedSize2D::new(width, height)
}

} // verus!
