use vstd::prelude::*;
use core::marker::PhantomData;
use crate::num::{Scalar, cast_scalar, cast_val, fits};

verus! {

/// A scaling factor between two units of measurement: what a length in the
/// unit `Src` is multiplied by to give the same length in the unit `Dst`.
#[derive(Debug)]
pub struct ScaleFactor<Src, Dst, T>(pub T, pub PhantomData<(Src, Dst)>);

impl<Src, Dst, T: Copy> Copy for ScaleFactor<Src, Dst, T> {}

impl<Src, Dst, T: Copy> Clone for ScaleFactor<Src, Dst, T> {
    fn clone(&self) -> (r: Self)
        ensures
            r == *self,
    {
        *self
    }
}

impl<Src, Dst, T: Scalar> View for ScaleFactor<Src, Dst, T> {
    type V = int;

    open spec fn view(&self) -> int {
        self.0.val()
    }
}

impl<Src, Dst, T> ScaleFactor<Src, Dst, T> {
    pub fn new(x: T) -> (r: ScaleFactor<Src, Dst, T>)
        ensures
            r.0 == x,
    {
        ScaleFactor(x, PhantomData)
    }
}

impl<Src, Dst, T: Copy> ScaleFactor<Src, Dst, T> {
    pub fn get(&self) -> (x: T)
        ensures
            x == self.0,
    {
        self.0
    }
}

impl<Src, Dst, T: Scalar> ScaleFactor<Src, Dst, T> {
    /// The factor that stands for `v`.
    pub open spec fn of(v: int) -> Self {
        ScaleFactor(T::of(v), PhantomData)
    }

    /// A factor is the one factor with its view, and its view fits `T`.
    pub proof fn lemma_view(self)
        ensures
            Self::of(self@) == self,
            fits::<T>(self@),
    {
        T::lemma_val(self.0);
    }

    /// The inverse factor, `1 / self`, which converts from `Dst` back to `Src`.
    /// The factor must not be zero.
    pub fn inv(&self) -> (r: ScaleFactor<Dst, Src, T>)
        requires
            self@ != 0,
            fits::<T>(T::div_val(T::unit(), self@)),
        ensures
            r@ == T::div_val(T::unit(), self@),
    {
        proof {
            T::lemma_units();
        }
        let one: T = T::one();
        ScaleFactor::new(one.div(self.get()))
    }

    /// Cast from one numeric representation to another, preserving the units.
    /// A value that `T1` cannot hold exactly is rounded toward zero. The cast
    /// succeeds exactly when `T1` can hold the value so rounded.
    pub fn cast<T1: Scalar>(&self) -> (r: Option<ScaleFactor<Src, Dst, T1>>)
        ensures
            fits::<T1>(cast_val::<T, T1>(self@)) ==> r.is_some() && r.unwrap()@ == cast_val::<
                T,
                T1,
            >(self@),
            !fits::<T1>(cast_val::<T, T1>(self@)) ==> r.is_none(),
    {
        match cast_scalar::<T, T1>(self.0) {
            Some(x) => Some(ScaleFactor::new(x)),
            None => None,
        }
    }
}

// scale0 * scale1
impl<A, B, C, T: Scalar> core::ops::Mul<ScaleFactor<B, C, T>> for ScaleFactor<A, B, T> {
    type Output = ScaleFactor<A, C, T>;

    fn mul(self, other: ScaleFactor<B, C, T>) -> (r: ScaleFactor<A, C, T>)
        ensures
            r@ == T::mul_val(self@, other@),
    {
        let r = ScaleFactor::new(self.0.mul(other.0));
        proof {
            r.lemma_view();
        }
        r
    }
}

impl<A, B, C, T: Scalar> vstd::std_specs::ops::MulSpecImpl<ScaleFactor<B, C, T>> for ScaleFactor<A, B, T> {
    open spec fn obeys_mul_spec() -> bool {
        true
    }

    open spec fn mul_req(self, other: ScaleFactor<B, C, T>) -> bool {
        fits::<T>(T::mul_val(self@, other@))
    }

    open spec fn mul_spec(self, other: ScaleFactor<B, C, T>) -> ScaleFactor<A, C, T> {
        ScaleFactor::of(T::mul_val(self@, other@))
    }
}

// scale0 + scale1
impl<Src, Dst, T: Scalar> core::ops::Add for ScaleFactor<Src, Dst, T> {
    type Output = ScaleFactor<Src, Dst, T>;

    fn add(self, other: ScaleFactor<Src, Dst, T>) -> (r: ScaleFactor<Src, Dst, T>)
        ensures
            r@ == self@ + other@,
    {
        let r = ScaleFactor::new(self.0.add(other.0));
        proof {
            r.lemma_view();
        }
        r
    }
}

impl<Src, Dst, T: Scalar> vstd::std_specs::ops::AddSpecImpl for ScaleFactor<Src, Dst, T> {
    open spec fn obeys_add_spec() -> bool {
        true
    }

    open spec fn add_req(self, other: ScaleFactor<Src, Dst, T>) -> bool {
        fits::<T>(self@ + other@)
    }

    open spec fn add_spec(self, other: ScaleFactor<Src, Dst, T>) -> ScaleFactor<Src, Dst, T> {
        Self::of(self@ + other@)
    }
}

// scale0 - scale1
impl<Src, Dst, T: Scalar> core::ops::Sub for ScaleFactor<Src, Dst, T> {
    type Output = ScaleFactor<Src, Dst, T>;

    fn sub(self, other: ScaleFactor<Src, Dst, T>) -> (r: ScaleFactor<Src, Dst, T>)
        ensures
            r@ == self@ - other@,
    {
        let r = ScaleFactor::new(self.0.sub(other.0));
        proof {
            r.lemma_view();
        }
        r
    }
}

impl<Src, Dst, T: Scalar> vstd::std_specs::ops::SubSpecImpl for ScaleFactor<Src, Dst, T> {
    open spec fn obeys_sub_spec() -> bool {
        true
    }

    open spec fn sub_req(self, other: ScaleFactor<Src, Dst, T>) -> bool {
        fits::<T>(self@ - other@)
    }

    open spec fn sub_spec(self, other: ScaleFactor<Src, Dst, T>) -> ScaleFactor<Src, Dst, T> {
        Self::of(self@ - other@)
    }
}

impl<Src, Dst, T: Scalar> PartialEq for ScaleFactor<Src, Dst, T> {
    fn eq(&self, other: &ScaleFactor<Src, Dst, T>) -> (b: bool) {
        self.0.eq(other.0)
    }
}

impl<Src, Dst, T: Scalar> vstd::std_specs::cmp::PartialEqSpecImpl for ScaleFactor<Src, Dst, T> {
    open spec fn obeys_eq_spec() -> bool {
        true
    }

    open spec fn eq_spec(&self, other: &ScaleFactor<Src, Dst, T>) -> bool {
        self@ == other@
    }
}

} // verus!
