use vstd::prelude::*;
use crate::length::UnknownUnit;
use crate::matrix4d::TypedMatrix4D;
use crate::model::{Mat4, Point3, Quat, Rigid3};
use crate::num::Scalar;
use crate::rotation::TypedRotation3D;
use crate::vector::TypedVector3D;

verus! {

/// A 3d transformation.
pub type TypedTransform3D<T, Src, Dst> = TypedMatrix4D<T, Src, Dst>;

impl<T: Scalar, U> TypedVector3D<T, U> {
    /// The translation by this vector, as a matrix.
    pub fn to_transform(&self) -> (m: TypedMatrix4D<T, U, U>)
        ensures
            m@ == Mat4::create_translation::<T>(self@.x, self@.y, self@.z),
    {
        TypedMatrix4D::create_translation(self.x, self.y, self.z)
    }
}

/// A rigid transformation. All lengths are preserved under such a transformation.
///
/// Internally, this is a rotation and a translation, with the rotation
/// applied first (i.e. `Translation * Rotation`).
///
/// This can be more efficient to use over full matrices, especially if you
/// have to deal with the decomposed quantities often.
#[derive(Debug)]
pub struct TypedRigidTransform3D<T, U> {
    pub rotation: TypedRotation3D<T, U, U>,
    pub translation: TypedVector3D<T, U>,
}

/// The default rigid transformation type with no units.
pub type RigidTransform3D<T> = TypedRigidTransform3D<T, UnknownUnit>;

impl<T: Copy, U> Copy for TypedRigidTransform3D<T, U> {}

impl<T: Copy, U> Clone for TypedRigidTransform3D<T, U> {
    fn clone(&self) -> (r: Self)
        ensures
            r == *self,
    {
        *self
    }
}

impl<T: Scalar, U> View for TypedRigidTransform3D<T, U> {
    type V = Rigid3;

    open spec fn view(&self) -> Rigid3 {
        Rigid3 { rotation: self.rotation@, translation: self.translation@ }
    }
}

impl<T: Scalar, U> PartialEq for TypedRigidTransform3D<T, U> {
    fn eq(&self, other: &TypedRigidTransform3D<T, U>) -> (b: bool) {
        self.rotation.i.eq(other.rotation.i) && self.rotation.j.eq(other.rotation.j)
            && self.rotation.k.eq(other.rotation.k) && self.rotation.r.eq(other.rotation.r)
            && self.translation.x.eq(other.translation.x) && self.translation.y.eq(
            other.translation.y,
        ) && self.translation.z.eq(other.translation.z)
    }
}

impl<T: Scalar, U> vstd::std_specs::cmp::PartialEqSpecImpl for TypedRigidTransform3D<T, U> {
    open spec fn obeys_eq_spec() -> bool {
        true
    }

    open spec fn eq_spec(&self, other: &TypedRigidTransform3D<T, U>) -> bool {
        self@ == other@
    }
}

impl<T: Scalar, U> TypedRigidTransform3D<T, U> {
    /// Construct a new rigid transformation, where the `rotation` applies first
    pub fn new(rotation: TypedRotation3D<T, U, U>, translation: TypedVector3D<T, U>) -> (r: Self)
        ensures
            r.rotation == rotation,
            r.translation == translation,
    {
        Self { rotation, translation }
    }

    /// Construct an identity transform
    pub fn identity() -> (r: Self)
        ensures
            r@ == Rigid3::identity::<T>(),
    {
        Self { rotation: TypedRotation3D::identity(), translation: TypedVector3D::zero() }
    }

    /// Construct a new rigid transformation, where the `translation` applies first
    pub fn new_from_reversed(
        translation: TypedVector3D<T, U>,
        rotation: TypedRotation3D<T, U, U>,
    ) -> (r: Self)
        requires
            (Rigid3 { rotation: rotation@, translation: translation@ }).reverse_fits::<T>(),
        ensures
            r@ == (Rigid3 { rotation: rotation@, translation: translation@ }).reverse::<T>(),
    {
        (Self { rotation, translation }).reverse()
    }

    pub fn from_rotation(rotation: TypedRotation3D<T, U, U>) -> (r: Self)
        ensures
            r.rotation == rotation,
            r.translation@ == Point3::zero(),
            r@ == (Rigid3 { rotation: rotation@, translation: Point3::zero() }),
    {
        Self { rotation, translation: TypedVector3D::zero() }
    }

    pub fn from_translation(translation: TypedVector3D<T, U>) -> (r: Self)
        ensures
            r.translation == translation,
            r.rotation@ == Quat::identity::<T>(),
            r@ == (Rigid3 { rotation: Quat::identity::<T>(), translation: translation@ }),
    {
        Self { translation, rotation: TypedRotation3D::identity() }
    }

    /// Provide the equivalent rigid transformation obtained by applying self's translation first
    /// and rotation second
    pub fn reverse(&self) -> (r: Self)
        requires
            self@.reverse_fits::<T>(),
        ensures
            r@ == self@.reverse::<T>(),
    {
        // R * T
        //   = R * T * (R^-1 * R)
        //   = (R * T * R^-1) * R
        //   = T' * R
        //
        // T' = (R * T * R^-1) is also a translation matrix
        // It is equivalent to the translation matrix obtained by rotating the
        // translation by R
        let translation = self.rotation.rotate_vector3d(&self.translation);
        Self { rotation: self.rotation, translation }
    }

    /// Decompose this into a position and an orientation to be applied in the opposite order
    pub fn decompose_reversed(&self) -> (r: (TypedVector3D<T, U>, TypedRotation3D<T, U, U>))
        requires
            self@.reversed_translation_fits::<T>(),
        ensures
            r.0@ == self@.reversed_translation::<T>(),
            r.1 == self.rotation,
    {
        // self = T * R
        //      = R * R^-1 * T * R
        //      = R * (R^-1 * T * R)
        //      = R * T'
        //
        // T' = (R^-1 * T * R) is T rotated by R^-1
        let translation = self.rotation.inverse().rotate_vector3d(&self.translation);
        (translation, self.rotation)
    }

    /// Returns the multiplication of the two transforms such that
    /// other's transformation applies after self's transformation.
    ///
    /// i.e., this produces `other * self`, postmultiplying self to other
    pub fn post_mul(&self, other: &Self) -> (r: Self)
        requires
            self@.post_mul_fits::<T>(other@),
        ensures
            r@ == self@.post_mul::<T>(other@),
    {
        // self = T1 * R1
        // other = T2 * R2
        // result = T2 * R2 * T1 * R1
        //        = T2 * R2 * R1 * R1^-1 * T1 * R1
        //        = T2 * R2 * R1 * (R1^-1 * T1 * R1)
        //        = T2 * R' * T'
        //        = T2 * R' * T' * R'^-1 * R'
        //        = T2 * (R' * T' * R'^-1) * R'
        //        = T2 * T'' * R'
        //        = T'' * R'
        //
        // (R1^-1 * T1 * R1) = T' = T1 rotated by R1^-1
        // R2 * R1  = R'
        // (R' * T' * R'^-1) = T'' = T' rotated by R'
        // T2 * T'' = T''' = T2 + T'
        let t_prime = self.rotation.inverse().rotate_vector3d(&self.translation);
        let r_prime = self.rotation.post_rotate(&other.rotation);
        let t_prime2 = r_prime.rotate_vector3d(&t_prime);
        let t_prime3 = TypedVector3D::new(
            t_prime2.x.add(other.translation.x),
            t_prime2.y.add(other.translation.y),
            t_prime2.z.add(other.translation.z),
        );
        Self { rotation: r_prime, translation: t_prime3 }
    }

    /// Returns the multiplication of the two transforms such that
    /// self's transformation applies after other's transformation.
    ///
    /// i.e., this produces `self * other`, premultiplying self to other
    pub fn pre_mul(&self, other: &Self) -> (r: Self)
        requires
            other@.post_mul_fits::<T>(self@),
        ensures
            r@ == other@.post_mul::<T>(self@),
    {
        other.post_mul(&self)
    }

    /// Inverts the transformation
    pub fn inverse(&self) -> (r: Self)
        requires
            self@.inverse_fits::<T>(),
        ensures
            r@ == self@.inverse::<T>(),
    {
        // result = (self)^-1
        //        = (T * R)^-1
        //        = R^-1 * T^-1
        //        = R^-1 * T^-1 * R * R^-1
        //        = (R^-1 * T^-1 * R) * R^-1
        //        = T' * R'
        //
        // T' = (R^-1 * T^-1 * R) = (-T) rotated by R^-1
        // R' = R^-1
        //
        // An easier way of writing this is to use new_from_reversed() with R^-1 and T^-1
        let negated = TypedVector3D::new(
            self.translation.x.neg(),
            self.translation.y.neg(),
            self.translation.z.neg(),
        );
        Self::new_from_reversed(negated, self.rotation.inverse())
    }

    /// The transformation as a matrix, which rotates first and translates second.
    pub fn to_transform(&self) -> (m: TypedTransform3D<T, U, U>)
        requires
            self@.to_transform_fits::<T>(),
        ensures
            m@ == self@.to_transform::<T>(),
    {
        self.translation.to_transform().pre_mul(&self.rotation.to_transform())
    }
}

impl<T: Scalar, U> From<TypedRotation3D<T, U, U>> for TypedRigidTransform3D<T, U> {
    fn from(rot: TypedRotation3D<T, U, U>) -> (r: Self) {
        let r = Self::from_rotation(rot);
        proof {
            r.translation.lemma_view();
        }
        r
    }
}

impl<T: Scalar, U> vstd::std_specs::convert::FromSpecImpl<TypedRotation3D<T, U, U>> for TypedRigidTransform3D<T, U> {
    open spec fn obeys_from_spec() -> bool {
        true
    }

    /// The rotation, with no translation.
    open spec fn from_spec(rot: TypedRotation3D<T, U, U>) -> Self {
        TypedRigidTransform3D { rotation: rot, translation: TypedVector3D::of(Point3::zero()) }
    }
}

impl<T: Scalar, U> From<TypedVector3D<T, U>> for TypedRigidTransform3D<T, U> {
    fn from(t: TypedVector3D<T, U>) -> (r: Self) {
        let r = Self::from_translation(t);
        proof {
            T::lemma_val(r.rotation.i);
            T::lemma_val(r.rotation.j);
            T::lemma_val(r.rotation.k);
            T::lemma_val(r.rotation.r);
        }
        r
    }
}

impl<T: Scalar, U> vstd::std_specs::convert::FromSpecImpl<TypedVector3D<T, U>> for TypedRigidTransform3D<T, U> {
    open spec fn obeys_from_spec() -> bool {
        true
    }

    /// The translation, with no rotation.
    open spec fn from_spec(t: TypedVector3D<T, U>) -> Self {
        TypedRigidTransform3D {
            rotation: TypedRotation3D {
                i: T::of(0),
                j: T::of(0),
                k: T::of(0),
                r: T::of(T::unit()),
                _unit: core::marker::PhantomData,
            },
            translation: t,
        }
    }
}

} // verus!
