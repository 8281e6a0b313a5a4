//! A group of side offsets, which correspond to y0/x0/y1/x1 for borders, padding,
//! and margins in CSS.
use vstd::prelude::*;
use core::marker::PhantomData;
use crate::length::{Length, UnknownUnit};
use crate::model::{Sides2, Sides3};
use crate::num::{Scalar, fits};

verus! {

/// A group of 2D side offsets, which correspond to top/right/bottom/left for
/// borders, padding, and margins in CSS, optionally tagged with a unit.
///
/// When the y-axis points downward `y0` is the top, `x1` the right, `y1` the
/// bottom and `x0` the left.
#[derive(Debug)]
pub struct SideOffsets2D<T, U> {
    pub y0: T,
    pub x1: T,
    pub y1: T,
    pub x0: T,
    pub _unit: PhantomData<U>,
}

impl<T: Copy, U> Copy for SideOffsets2D<T, U> {}

impl<T: Copy, U> Clone for SideOffsets2D<T, U> {
    fn clone(&self) -> (r: Self)
        ensures
            r == *self,
    {
        *self
    }
}

impl<T: Scalar, U> View for SideOffsets2D<T, U> {
    type V = Sides2;

    open spec fn view(&self) -> Sides2 {
        Sides2 { y0: self.y0.val(), x1: self.x1.val(), y1: self.y1.val(), x0: self.x0.val() }
    }
}

impl<T: Scalar, U> PartialEq for SideOffsets2D<T, U> {
    fn eq(&self, other: &SideOffsets2D<T, U>) -> (b: bool) {
        self.y0.eq(other.y0) && self.x1.eq(other.x1) && self.y1.eq(other.y1) && self.x0.eq(
            other.x0,
        )
    }
}

impl<T: Scalar, U> vstd::std_specs::cmp::PartialEqSpecImpl for SideOffsets2D<T, U> {
    open spec fn obeys_eq_spec() -> bool {
        true
    }

    open spec fn eq_spec(&self, other: &SideOffsets2D<T, U>) -> bool {
        self@ == other@
    }
}

impl<T: Copy, U> SideOffsets2D<T, U> {
    /// Constructor taking a scalar for each side.
    pub fn new(y0: T, x1: T, y1: T, x0: T) -> (r: Self)
        ensures
            r.y0 == y0,
            r.x1 == x1,
            r.y1 == y1,
            r.x0 == x0,
    {
        SideOffsets2D { y0, x1, y1, x0, _unit: PhantomData }
    }

    /// Constructor taking a typed Length for each side. The lengths are
    /// handed on in the order left, top, right, bottom: `x0` becomes the
    /// first side, `y0` the second, `x1` the third and `y1` the fourth.
    pub fn from_lengths(
        y0: Length<U, T>,
        x1: Length<U, T>,
        y1: Length<U, T>,
        x0: Length<U, T>,
    ) -> (r: Self)
        ensures
            r.y0 == x0.0,
            r.x1 == y0.0,
            r.y1 == x1.0,
            r.x0 == y1.0,
    {
        SideOffsets2D::new(x0.0, y0.0, x1.0, y1.0)
    }

    /// Constructor setting the same value to all sides, taking a scalar value directly.
    pub fn new_all_same(all: T) -> (r: Self)
        ensures
            r.y0 == all,
            r.x1 == all,
            r.y1 == all,
            r.x0 == all,
    {
        SideOffsets2D::new(all, all, all, all)
    }

    /// Constructor setting the same value to all sides, taking a typed Length.
    pub fn from_length_all_same(all: Length<U, T>) -> (r: Self)
        ensures
            r.y0 == all.0,
            r.x1 == all.0,
            r.y1 == all.0,
            r.x0 == all.0,
    {
        SideOffsets2D::new_all_same(all.0)
    }
}

impl<T: Scalar, U> SideOffsets2D<T, U> {
    /// The offsets that stand for those of `m`.
    pub open spec fn of(m: Sides2) -> Self {
        SideOffsets2D {
            y0: T::of(m.y0),
            x1: T::of(m.x1),
            y1: T::of(m.y1),
            x0: T::of(m.x0),
            _unit: PhantomData,
        }
    }

    /// A value is the one value with its view, and its view fits `T`.
    pub proof fn lemma_view(self)
        ensures
            Self::of(self@) == self,
            self@.fits::<T>(),
    {
        T::lemma_val(self.y0);
        T::lemma_val(self.x1);
        T::lemma_val(self.y1);
        T::lemma_val(self.x0);
    }

    /// The left and right offsets together.
    pub fn horizontal(&self) -> (r: T)
        requires
            fits::<T>(self@.horizontal()),
        ensures
            r.val() == self@.horizontal(),
    {
        self.x0.add(self.x1)
    }

    /// The top and bottom offsets together.
    pub fn vertical(&self) -> (r: T)
        requires
            fits::<T>(self@.vertical()),
        ensures
            r.val() == self@.vertical(),
    {
        self.y0.add(self.y1)
    }

    /// Constructor, setting all sides to zero.
    pub fn zero() -> (r: Self)
        ensures
            r@ == Sides2::zero(),
    {
        proof {
            T::lemma_units();
        }
        SideOffsets2D::new(T::zero(), T::zero(), T::zero(), T::zero())
    }
}

impl<T: Scalar, U> core::ops::Add for SideOffsets2D<T, U> {
    type Output = SideOffsets2D<T, U>;

    fn add(self, other: SideOffsets2D<T, U>) -> (r: SideOffsets2D<T, U>)
        ensures
            r@ == self@.add(other@),
    {
        let r = SideOffsets2D::new(
            self.y0.add(other.y0),
            self.x1.add(other.x1),
            self.y1.add(other.y1),
            self.x0.add(other.x0),
        );
        proof {
            r.lemma_view();
        }
        r
    }
}

impl<T: Scalar, U> vstd::std_specs::ops::AddSpecImpl for SideOffsets2D<T, U> {
    open spec fn obeys_add_spec() -> bool {
        true
    }

    open spec fn add_req(self, other: SideOffsets2D<T, U>) -> bool {
        self@.add(other@).fits::<T>()
    }

    open spec fn add_spec(self, other: SideOffsets2D<T, U>) -> SideOffsets2D<T, U> {
        Self::of(self@.add(other@))
    }
}

/// A group of 3D side offsets: one for each face of a box.
#[derive(Debug)]
pub struct TypedSideOffsets3D<T, U> {
    pub top: T,
    pub right: T,
    pub bottom: T,
    pub left: T,
    pub front: T,
    pub back: T,
    pub _unit: PhantomData<U>,
}

/// `TypedSideOffsets3D` without a unit.
pub type SideOffsets3D<T> = TypedSideOffsets3D<T, UnknownUnit>;

impl<T: Copy, U> Copy for TypedSideOffsets3D<T, U> {}

impl<T: Copy, U> Clone for TypedSideOffsets3D<T, U> {
    fn clone(&self) -> (r: Self)
        ensures
            r == *self,
    {
        *self
    }
}

impl<T: Scalar, U> View for TypedSideOffsets3D<T, U> {
    type V = Sides3;

    open spec fn view(&self) -> Sides3 {
        Sides3 {
            top: self.top.val(),
            right: self.right.val(),
            bottom: self.bottom.val(),
            left: self.left.val(),
            front: self.front.val(),
            back: self.back.val(),
        }
    }
}

impl<T: Copy, U> TypedSideOffsets3D<T, U> {
    /// Constructor taking a scalar for each side.
    pub fn new(top: T, right: T, bottom: T, left: T, front: T, back: T) -> (r: Self)
        ensures
            r.top == top,
            r.right == right,
            r.bottom == bottom,
            r.left == left,
            r.front == front,
            r.back == back,
    {
        TypedSideOffsets3D { top, right, bottom, left, front, back, _unit: PhantomData }
    }

    /// Constructor setting the same value to all sides.
    pub fn new_all_same(all: T) -> (r: Self)
        ensures
            r.top == all,
            r.right == all,
            r.bottom == all,
            r.left == all,
            r.front == all,
            r.back == all,
    {
        TypedSideOffsets3D::new(all, all, all, all, all, all)
    }
}

impl<T: Scalar, U> TypedSideOffsets3D<T, U> {
    /// The left and right offsets together.
    pub fn horizontal(&self) -> (r: T)
        requires
            fits::<T>(self@.horizontal()),
        ensures
            r.val() == self@.horizontal(),
    {
        self.left.add(self.right)
    }

    /// The top and bottom offsets together.
    pub fn vertical(&self) -> (r: T)
        requires
            fits::<T>(self@.vertical()),
        ensures
            r.val() == self@.vertical(),
    {
        self.top.add(self.bottom)
    }

    /// The front and back offsets together.
    pub fn applicate(&self) -> (r: T)
        requires
            fits::<T>(self@.applicate()),
        ensures
            r.val() == self@.applicate(),
    {
        self.front.add(self.back)
    }

    /// Constructor, setting all sides to zero.
    pub fn zero() -> (r: Self)
        ensures
            r@ == Sides3::zero(),
    {
        proof {
            T::lemma_units();
        }
        TypedSideOffsets3D::new(T::zero(), T::zero(), T::zero(), T::zero(), T::zero(), T::zero())
    }
}

/// `SideOffsets2D` over 32-bit integers, laid out for SIMD: top, bottom, right, left.
#[derive(Debug, Clone, Copy, PartialEq, Eq, Structural)]
pub struct SideOffsets2DSimdI32 {
    pub top: i32,
    pub bottom: i32,
    pub right: i32,
    pub left: i32,
}

impl SideOffsets2DSimdI32 {
    pub fn new(top: i32, right: i32, bottom: i32, left: i32) -> (r: SideOffsets2DSimdI32)
        ensures
            r == (SideOffsets2DSimdI32 { top, bottom, right, left }),
    {
        SideOffsets2DSimdI32 { top, bottom, right, left }
    }

    pub fn new_all_same(all: i32) -> (r: SideOffsets2DSimdI32)
        ensures
            r == (SideOffsets2DSimdI32 { top: all, bottom: all, right: all, left: all }),
    {
        SideOffsets2DSimdI32::new(all, all, all, all)
    }

    /// The left and right offsets together.
    pub fn horizontal(&self) -> (r: i32)
        requires
            i32::MIN <= self.left + self.right <= i32::MAX,
        ensures
            r == self.left + self.right,
    {
        self.left + self.right
    }

    /// The top and bottom offsets together.
    pub fn vertical(&self) -> (r: i32)
        requires
            i32::MIN <= self.top + self.bottom <= i32::MAX,
        ensures
            r == self.top + self.bottom,
    {
        self.top + self.bottom
    }

    /// Constructor, setting all sides to zero.
    pub fn zero() -> (r: SideOffsets2DSimdI32)
        ensures
            r == (SideOffsets2DSimdI32 { top: 0, bottom: 0, right: 0, left: 0 }),
    {
        SideOffsets2DSimdI32::new(0, 0, 0, 0)
    }

    /// Whether every side is zero.
    pub fn is_zero(&self) -> (b: bool)
        ensures
            b == (self.top == 0 && self.right == 0 && self.bottom == 0 && self.left == 0),
    {
        self.top == 0 && self.right == 0 && self.bottom == 0 && self.left == 0
    }

    /// The sum of the two groups, side by side.
    pub fn add(&self, other: &SideOffsets2DSimdI32) -> (r: SideOffsets2DSimdI32)
        requires
            i32::MIN <= self.top + other.top <= i32::MAX,
            i32::MIN <= self.right + other.right <= i32::MAX,
            i32::MIN <= self.bottom + other.bottom <= i32::MAX,
            i32::MIN <= self.left + other.left <= i32::MAX,
        ensures
            r.top == self.top + other.top,
            r.right == self.right + other.right,
            r.bottom == self.bottom + other.bottom,
            r.left == self.left + other.left,
    {
        SideOffsets2DSimdI32 {
            top: self.top + other.top,
            right: self.right + other.right,
            bottom: self.bottom + other.bottom,
            left: self.left + other.left,
        }
    }
}

} // verus!
