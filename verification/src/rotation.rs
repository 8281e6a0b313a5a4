use vstd::prelude::*;
use core::marker::PhantomData;
use crate::length::UnknownUnit;
use crate::matrix4d::TypedMatrix4D;
use crate::model::Quat;
use crate::num::Scalar;
use crate::point::TypedPoint3D;
use crate::vector::TypedVector3D;

verus! {

/// A transform that can represent rotations in 3d, represented as a quaternion.
///
/// Most methods expect the quaternion to be normalized: `i`, `j`, `k` and
/// `r` are the sine of half the angle times the unit axis, and the cosine
/// of half the angle.
#[derive(Debug)]
pub struct TypedRotation3D<T, Src, Dst> {
    pub i: T,
    pub j: T,
    pub k: T,
    pub r: T,
    pub _unit: PhantomData<(Src, Dst)>,
}

/// The default 3d rotation type with no units.
pub type Rotation3D<T> = TypedRotation3D<T, UnknownUnit, UnknownUnit>;

impl<T: Copy, Src, Dst> Copy for TypedRotation3D<T, Src, Dst> {}

impl<T: Copy, Src, Dst> Clone for TypedRotation3D<T, Src, Dst> {
    fn clone(&self) -> (r: Self)
        ensures
            r == *self,
    {
        *self
    }
}

impl<T: Scalar, Src, Dst> View for TypedRotation3D<T, Src, Dst> {
    type V = Quat;

    open spec fn view(&self) -> Quat {
        Quat { i: self.i.val(), j: self.j.val(), k: self.k.val(), r: self.r.val() }
    }
}

impl<T: Scalar, Src, Dst> PartialEq for TypedRotation3D<T, Src, Dst> {
    fn eq(&self, other: &TypedRotation3D<T, Src, Dst>) -> (b: bool) {
        self.i.eq(other.i) && self.j.eq(other.j) && self.k.eq(other.k) && self.r.eq(other.r)
    }
}

impl<T: Scalar, Src, Dst> vstd::std_specs::cmp::PartialEqSpecImpl for TypedRotation3D<T, Src, Dst> {
    open spec fn obeys_eq_spec() -> bool {
        true
    }

    open spec fn eq_spec(&self, other: &TypedRotation3D<T, Src, Dst>) -> bool {
        self@ == other@
    }
}

impl<T, Src, Dst> TypedRotation3D<T, Src, Dst> {
    /// Creates a rotation from the four parts of a quaternion, which are
    /// taken as they are: for a rotation the quaternion has the norm one.
    pub fn quaternion(a: T, b: T, c: T, r: T) -> (q: Self)
        ensures
            q.i == a,
            q.j == b,
            q.k == c,
            q.r == r,
    {
        TypedRotation3D { i: a, j: b, k: c, r, _unit: PhantomData }
    }
}

impl<T: Scalar, Src, Dst> TypedRotation3D<T, Src, Dst> {
    /// Creates the identity rotation.
    pub fn identity() -> (q: Self)
        ensures
            q@ == Quat::identity::<T>(),
    {
        proof {
            T::lemma_units();
        }
        Self::quaternion(T::zero(), T::zero(), T::zero(), T::one())
    }

    /// The vector part of the quaternion.
    pub fn vector_part(&self) -> (v: TypedVector3D<T, UnknownUnit>)
        ensures
            v.x == self.i,
            v.y == self.j,
            v.z == self.k,
    {
        TypedVector3D::new(self.i, self.j, self.k)
    }

    /// Returns the inverse of this rotation.
    pub fn inverse(&self) -> (q: TypedRotation3D<T, Dst, Src>)
        requires
            self@.inverse().fits::<T>(),
        ensures
            q@ == self@.inverse(),
    {
        TypedRotation3D::quaternion(self.i.neg(), self.j.neg(), self.k.neg(), self.r)
    }

    /// Returns the given 3d point transformed by this rotation.
    pub fn rotate_point3d(&self, point: &TypedPoint3D<T, Src>) -> (p: TypedPoint3D<T, Dst>)
        requires
            self@.rotate_fits::<T>(point@),
        ensures
            p@ == self@.rotate::<T>(point@),
    {
        proof {
            T::lemma_units();
        }
        let _1 = T::one();
        let _2 = _1.add(_1);
        let t1 = self.j.mul(point.z);
        let t2 = self.k.mul(point.y);
        let t3 = t1.sub(t2);
        let t4 = t3.mul(_2);
        let t5 = self.r.mul(t4);
        let t6 = point.x.add(t5);
        let t7 = self.i.mul(point.y);
        let t8 = self.j.mul(point.x);
        let t9 = t7.sub(t8);
        let t10 = t9.mul(_2);
        let t11 = self.j.mul(t10);
        let t12 = t6.add(t11);
        let t13 = self.k.mul(point.x);
        let t14 = self.i.mul(point.z);
        let t15 = t13.sub(t14);
        let t16 = t15.mul(_2);
        let t17 = self.k.mul(t16);
        let t18 = t12.sub(t17);
        let t19 = self.r.mul(t16);
        let t20 = point.y.add(t19);
        let t21 = self.k.mul(t4);
        let t22 = t20.add(t21);
        let t23 = self.i.mul(t10);
        let t24 = t22.sub(t23);
        let t25 = self.r.mul(t10);
        let t26 = point.z.add(t25);
        let t27 = self.i.mul(t16);
        let t28 = t26.add(t27);
        let t29 = self.j.mul(t4);
        let t30 = t28.sub(t29);
        TypedPoint3D::new(t18, t24, t30)
    }

    /// Returns the given 3d vector transformed by this rotation.
    pub fn rotate_vector3d(&self, vector: &TypedVector3D<T, Src>) -> (v: TypedVector3D<T, Dst>)
        requires
            self@.rotate_fits::<T>(vector@),
        ensures
            v@ == self@.rotate::<T>(vector@),
    {
        self.rotate_point3d(&vector.to_point()).to_vector()
    }

    /// Returns a rotation representing the other rotation followed by this rotation.
    pub fn pre_rotate<NewSrc>(&self, other: &TypedRotation3D<T, NewSrc, Src>) -> (q:
        TypedRotation3D<T, NewSrc, Dst>)
        requires
            self@.pre_rotate_fits::<T>(other@),
        ensures
            q@ == self@.pre_rotate::<T>(other@),
    {
        let t1 = self.i.mul(other.r);
        let t2 = self.r.mul(other.i);
        let t3 = t1.add(t2);
        let t4 = self.j.mul(other.k);
        let t5 = t3.add(t4);
        let t6 = self.k.mul(other.j);
        let t7 = t5.sub(t6);
        let t8 = self.j.mul(other.r);
        let t9 = self.r.mul(other.j);
        let t10 = t8.add(t9);
        let t11 = self.k.mul(other.i);
        let t12 = t10.add(t11);
        let t13 = self.i.mul(other.k);
        let t14 = t12.sub(t13);
        let t15 = self.k.mul(other.r);
        let t16 = self.r.mul(other.k);
        let t17 = t15.add(t16);
        let t18 = self.i.mul(other.j);
        let t19 = t17.add(t18);
        let t20 = self.j.mul(other.i);
        let t21 = t19.sub(t20);
        let t22 = self.r.mul(other.r);
        let t23 = self.i.mul(other.i);
        let t24 = t22.sub(t23);
        let t25 = self.j.mul(other.j);
        let t26 = t24.sub(t25);
        let t27 = self.k.mul(other.k);
        let t28 = t26.sub(t27);
        TypedRotation3D::quaternion(t7, t14, t21, t28)
    }

    /// Returns a rotation representing this rotation followed by the other rotation.
    pub fn post_rotate<NewDst>(&self, other: &TypedRotation3D<T, Dst, NewDst>) -> (q:
        TypedRotation3D<T, Src, NewDst>)
        requires
            other@.pre_rotate_fits::<T>(self@),
        ensures
            q@ == self@.post_rotate::<T>(other@),
    {
        other.pre_rotate(self)
    }

    /// Returns the matrix representation of this rotation.
    pub fn to_transform(&self) -> (m: TypedMatrix4D<T, Src, Dst>)
        requires
            self@.to_transform_fits::<T>(),
        ensures
            m@ == self@.to_transform::<T>(),
    {
        proof {
            T::lemma_units();
        }
        let _0 = T::zero();
        let _1 = T::one();
        let t1 = self.j.add(self.j);
        let t2 = self.j.mul(t1);
        let t3 = self.k.add(self.k);
        let t4 = self.k.mul(t3);
        let t5 = t2.add(t4);
        let t6 = _1.sub(t5);
        let t7 = self.i.mul(t1);
        let t8 = self.r.mul(t3);
        let t9 = t7.add(t8);
        let t10 = self.i.mul(t3);
        let t11 = self.r.mul(t1);
        let t12 = t10.sub(t11);
        let t13 = t7.sub(t8);
        let t14 = self.i.add(self.i);
        let t15 = self.i.mul(t14);
        let t16 = t15.add(t4);
        let t17 = _1.sub(t16);
        let t18 = self.j.mul(t3);
        let t19 = self.r.mul(t14);
        let t20 = t18.add(t19);
        let t21 = t10.add(t11);
        let t22 = t18.sub(t19);
        let t23 = t15.add(t2);
        let t24 = _1.sub(t23);
        TypedMatrix4D::new(t6, t9, t12, _0, t13, t17, t20, _0, t21, t22, t24, _0, _0, _0, _0, _1)
    }
}

} // verus!
