use vstd::prelude::*;
use core::cmp::Ordering;
use core::marker::PhantomData;
use crate::num::{Scalar, Zero, cast_scalar, cast_val, fits};
use crate::scale_factor::ScaleFactor;

verus! {

/// The unit of values that carry no unit.
#[derive(Debug, Clone, Copy, PartialEq, Eq, Hash)]
pub struct UnknownUnit;

/// Another name for the unit of values that carry no unit.
pub type Untyped = UnknownUnit;

/// A one-dimensional distance: the scalar `T`, tagged with the unit `Unit`.
///
/// `Unit` takes no part in the value. It keeps lengths of different units
/// apart until a `ScaleFactor` converts one into the other.
#[derive(Debug)]
pub struct Length<Unit, T>(pub T, pub PhantomData<Unit>);

impl<Unit, T: Copy> Copy for Length<Unit, T> {}

impl<Unit, T: Copy> Clone for Length<Unit, T> {
    fn clone(&self) -> (r: Self)
        ensures
            r == *self,
    {
        *self
    }
}

impl<Unit, T: Scalar> View for Length<Unit, T> {
    type V = int;

    open spec fn view(&self) -> int {
        self.0.val()
    }
}

impl<Unit, T> Length<Unit, T> {
    pub fn new(x: T) -> (r: Length<Unit, T>)
        ensures
            r.0 == x,
    {
        Length(x, PhantomData)
    }
}

impl<Unit, T: Copy> Length<Unit, T> {
    pub fn get(&self) -> (x: T)
        ensures
            x == self.0,
    {
        self.0
    }
}

impl<Unit, T: Scalar> Length<Unit, T> {
    /// The length that stands for `v` in the unit `Unit`.
    pub open spec fn of(v: int) -> Self {
        Length(T::of(v), PhantomData)
    }

    /// A length is the one length with its view, and its view fits `T`.
    pub proof fn lemma_view(self)
        ensures
            Self::of(self@) == self,
            fits::<T>(self@),
    {
        T::lemma_val(self.0);
    }

    /// Cast from one numeric representation to another, preserving the units.
    /// A value that `T1` cannot hold exactly is rounded toward zero. The cast
    /// succeeds exactly when `T1` can hold the value so rounded.
    pub fn cast<T1: Scalar>(&self) -> (r: Option<Length<Unit, T1>>)
        ensures
            fits::<T1>(cast_val::<T, T1>(self@)) ==> r.is_some() && r.unwrap()@ == cast_val::<
                T,
                T1,
            >(self@),
            !fits::<T1>(cast_val::<T, T1>(self@)) ==> r.is_none(),
    {
        match cast_scalar::<T, T1>(self.0) {
            Some(x) => Some(Length::new(x)),
            None => None,
        }
    }
}

// length + length
impl<U, T: Scalar> core::ops::Add for Length<U, T> {
    type Output = Length<U, T>;

    fn add(self, other: Length<U, T>) -> (r: Length<U, T>)
        ensures
            r@ == self@ + other@,
    {
        let r = Length::new(self.0.add(other.0));
        proof {
            r.lemma_view();
        }
        r
    }
}

impl<U, T: Scalar> vstd::std_specs::ops::AddSpecImpl for Length<U, T> {
    open spec fn obeys_add_spec() -> bool {
        true
    }

    open spec fn add_req(self, other: Length<U, T>) -> bool {
        fits::<T>(self@ + other@)
    }

    open spec fn add_spec(self, other: Length<U, T>) -> Length<U, T> {
        Self::of(self@ + other@)
    }
}

// length += length
impl<U, T: Scalar> core::ops::AddAssign for Length<U, T> {
    fn add_assign(&mut self, other: Length<U, T>)
        requires
            fits::<T>(old(self)@ + other@),
        ensures
            final(self)@ == old(self)@ + other@,
    {
        self.0 = self.0.add(other.0);
    }
}

// length - length
impl<U, T: Scalar> core::ops::Sub for Length<U, T> {
    type Output = Length<U, T>;

    fn sub(self, other: Length<U, T>) -> (r: Length<U, T>)
        ensures
            r@ == self@ - other@,
    {
        let r = Length::new(self.0.sub(other.0));
        proof {
            r.lemma_view();
        }
        r
    }
}

impl<U, T: Scalar> vstd::std_specs::ops::SubSpecImpl for Length<U, T> {
    open spec fn obeys_sub_spec() -> bool {
        true
    }

    open spec fn sub_req(self, other: Length<U, T>) -> bool {
        fits::<T>(self@ - other@)
    }

    open spec fn sub_spec(self, other: Length<U, T>) -> Length<U, T> {
        Self::of(self@ - other@)
    }
}

// length -= length
impl<U, T: Scalar> core::ops::SubAssign for Length<U, T> {
    fn sub_assign(&mut self, other: Length<U, T>)
        requires
            fits::<T>(old(self)@ - other@),
        ensures
            final(self)@ == old(self)@ - other@,
    {
        self.0 = self.0.sub(other.0);
    }
}

// length / length
impl<Src, Dst, T: Scalar> core::ops::Div<Length<Src, T>> for Length<Dst, T> {
    type Output = ScaleFactor<Src, Dst, T>;

    fn div(self, other: Length<Src, T>) -> (r: ScaleFactor<Src, Dst, T>)
        ensures
            r@ == T::div_val(self@, other@),
    {
        let r = ScaleFactor::new(self.0.div(other.0));
        proof {
            r.lemma_view();
        }
        r
    }
}

impl<Src, Dst, T: Scalar> vstd::std_specs::ops::DivSpecImpl<Length<Src, T>> for Length<Dst, T> {
    open spec fn obeys_div_spec() -> bool {
        true
    }

    open spec fn div_req(self, other: Length<Src, T>) -> bool {
        other@ != 0 && fits::<T>(T::div_val(self@, other@))
    }

    open spec fn div_spec(self, other: Length<Src, T>) -> ScaleFactor<Src, Dst, T> {
        ScaleFactor::of(T::div_val(self@, other@))
    }
}

// length * scaleFactor
impl<Src, Dst, T: Scalar> core::ops::Mul<ScaleFactor<Src, Dst, T>> for Length<Src, T> {
    type Output = Length<Dst, T>;

    fn mul(self, scale: ScaleFactor<Src, Dst, T>) -> (r: Length<Dst, T>)
        ensures
            r@ == T::mul_val(self@, scale@),
    {
        let r = Length::new(self.0.mul(scale.0));
        proof {
            r.lemma_view();
        }
        r
    }
}

impl<Src, Dst, T: Scalar> vstd::std_specs::ops::MulSpecImpl<ScaleFactor<Src, Dst, T>> for Length<Src, T> {
    open spec fn obeys_mul_spec() -> bool {
        true
    }

    open spec fn mul_req(self, scale: ScaleFactor<Src, Dst, T>) -> bool {
        fits::<T>(T::mul_val(self@, scale@))
    }

    open spec fn mul_spec(self, scale: ScaleFactor<Src, Dst, T>) -> Length<Dst, T> {
        Length::of(T::mul_val(self@, scale@))
    }
}

// length / scaleFactor
impl<Src, Dst, T: Scalar> core::ops::Div<ScaleFactor<Src, Dst, T>> for Length<Dst, T> {
    type Output = Length<Src, T>;

    fn div(self, scale: ScaleFactor<Src, Dst, T>) -> (r: Length<Src, T>)
        ensures
            r@ == T::div_val(self@, scale@),
    {
        let r = Length::new(self.0.div(scale.0));
        proof {
            r.lemma_view();
        }
        r
    }
}

impl<Src, Dst, T: Scalar> vstd::std_specs::ops::DivSpecImpl<ScaleFactor<Src, Dst, T>> for Length<Dst, T> {
    open spec fn obeys_div_spec() -> bool {
        true
    }

    open spec fn div_req(self, scale: ScaleFactor<Src, Dst, T>) -> bool {
        scale@ != 0 && fits::<T>(T::div_val(self@, scale@))
    }

    open spec fn div_spec(self, scale: ScaleFactor<Src, Dst, T>) -> Length<Src, T> {
        Length::of(T::div_val(self@, scale@))
    }
}

// -length
impl<U, T: Scalar> core::ops::Neg for Length<U, T> {
    type Output = Length<U, T>;

    fn neg(self) -> (r: Length<U, T>)
        ensures
            r@ == -self@,
    {
        let r = Length::new(self.0.neg());
        proof {
            r.lemma_view();
        }
        r
    }
}

impl<U, T: Scalar> vstd::std_specs::ops::NegSpecImpl for Length<U, T> {
    open spec fn obeys_neg_spec() -> bool {
        true
    }

    open spec fn neg_req(self) -> bool {
        fits::<T>(-self@)
    }

    open spec fn neg_spec(self) -> Length<U, T> {
        Self::of(-self@)
    }
}

impl<Unit, T: Scalar> PartialEq for Length<Unit, T> {
    fn eq(&self, other: &Length<Unit, T>) -> (b: bool) {
        self.0.eq(other.0)
    }
}

impl<Unit, T: Scalar> vstd::std_specs::cmp::PartialEqSpecImpl for Length<Unit, T> {
    open spec fn obeys_eq_spec() -> bool {
        true
    }

    open spec fn eq_spec(&self, other: &Length<Unit, T>) -> bool {
        self@ == other@
    }
}

impl<Unit, T: Scalar> PartialOrd for Length<Unit, T> {
    fn partial_cmp(&self, other: &Length<Unit, T>) -> (r: Option<Ordering>) {
        if self.0.lt(other.0) {
            Some(Ordering::Less)
        } else if self.0.gt(other.0) {
            Some(Ordering::Greater)
        } else {
            Some(Ordering::Equal)
        }
    }
}

impl<Unit, T: Scalar> vstd::std_specs::cmp::PartialOrdSpecImpl for Length<Unit, T> {
    open spec fn obeys_partial_cmp_spec() -> bool {
        true
    }

    /// Lengths of one unit are ordered as their values are.
    open spec fn partial_cmp_spec(&self, other: &Length<Unit, T>) -> Option<Ordering> {
        if self@ < other@ {
            Some(Ordering::Less)
        } else if self@ > other@ {
            Some(Ordering::Greater)
        } else {
            Some(Ordering::Equal)
        }
    }
}

impl<Unit, T: Scalar> Zero for Length<Unit, T> {
    open spec fn zero_spec() -> Self {
        Length(T::zero_spec(), PhantomData)
    }

    fn zero() -> Length<Unit, T> {
        Length::new(T::zero())
    }
}

} // verus!
