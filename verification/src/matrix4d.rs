use vstd::prelude::*;
use core::marker::PhantomData;
use crate::length::UnknownUnit;
use crate::matrix2d::TypedMatrix2D;
use crate::model::Mat4;
use crate::num::Scalar;
use crate::point::{TypedPoint2D, TypedPoint4D};
use crate::scale_factor::ScaleFactor;

verus! {

/// A 3d transform stored as a 4 by 4 matrix in row-major order in memory,
/// parametrized over the source and destination units: a point is a row
/// vector, multiplied by the matrix from the right.
#[derive(Debug)]
pub struct TypedMatrix4D<T, Src, Dst> {
    pub m11: T,
    pub m12: T,
    pub m13: T,
    pub m14: T,
    pub m21: T,
    pub m22: T,
    pub m23: T,
    pub m24: T,
    pub m31: T,
    pub m32: T,
    pub m33: T,
    pub m34: T,
    pub m41: T,
    pub m42: T,
    pub m43: T,
    pub m44: T,
    pub _unit: PhantomData<(Src, Dst)>,
}

/// The default 4d matrix type with no units.
pub type Matrix4D<T> = TypedMatrix4D<T, UnknownUnit, UnknownUnit>;

impl<T: Copy, Src, Dst> Copy for TypedMatrix4D<T, Src, Dst> {}

impl<T: Copy, Src, Dst> Clone for TypedMatrix4D<T, Src, Dst> {
    fn clone(&self) -> (r: Self)
        ensures
            r == *self,
    {
        *self
    }
}

impl<T: Scalar, Src, Dst> View for TypedMatrix4D<T, Src, Dst> {
    type V = Mat4;

    open spec fn view(&self) -> Mat4 {
        Mat4 {
            m11: self.m11.val(),
            m12: self.m12.val(),
            m13: self.m13.val(),
            m14: self.m14.val(),
            m21: self.m21.val(),
            m22: self.m22.val(),
            m23: self.m23.val(),
            m24: self.m24.val(),
            m31: self.m31.val(),
            m32: self.m32.val(),
            m33: self.m33.val(),
            m34: self.m34.val(),
            m41: self.m41.val(),
            m42: self.m42.val(),
            m43: self.m43.val(),
            m44: self.m44.val(),
        }
    }
}

impl<T: Scalar, Src, Dst> PartialEq for TypedMatrix4D<T, Src, Dst> {
    fn eq(&self, other: &TypedMatrix4D<T, Src, Dst>) -> (b: bool) {
        self.m11.eq(other.m11)
            && self.m12.eq(other.m12)
            && self.m13.eq(other.m13)
            && self.m14.eq(other.m14)
            && self.m21.eq(other.m21)
            && self.m22.eq(other.m22)
            && self.m23.eq(other.m23)
            && self.m24.eq(other.m24)
            && self.m31.eq(other.m31)
            && self.m32.eq(other.m32)
            && self.m33.eq(other.m33)
            && self.m34.eq(other.m34)
            && self.m41.eq(other.m41)
            && self.m42.eq(other.m42)
            && self.m43.eq(other.m43)
            && self.m44.eq(other.m44)
    }
}

impl<T: Scalar, Src, Dst> vstd::std_specs::cmp::PartialEqSpecImpl for TypedMatrix4D<T, Src, Dst> {
    open spec fn obeys_eq_spec() -> bool {
        true
    }

    open spec fn eq_spec(&self, other: &TypedMatrix4D<T, Src, Dst>) -> bool {
        self@ == other@
    }
}

impl<T, Src, Dst> TypedMatrix4D<T, Src, Dst> {
    /// Create a matrix specifying its components in row-major order.
    pub fn new(
        m11: T, m12: T, m13: T, m14: T,
        m21: T, m22: T, m23: T, m24: T,
        m31: T, m32: T, m33: T, m34: T,
        m41: T, m42: T, m43: T, m44: T,
    ) -> (r: TypedMatrix4D<T, Src, Dst>)
        ensures
            r.m11 == m11,
            r.m12 == m12,
            r.m13 == m13,
            r.m14 == m14,
            r.m21 == m21,
            r.m22 == m22,
            r.m23 == m23,
            r.m24 == m24,
            r.m31 == m31,
            r.m32 == m32,
            r.m33 == m33,
            r.m34 == m34,
            r.m41 == m41,
            r.m42 == m42,
            r.m43 == m43,
            r.m44 == m44,
    {
        TypedMatrix4D {
            m11, m12, m13, m14,
            m21, m22, m23, m24,
            m31, m32, m33, m34,
            m41, m42, m43, m44,
            _unit: PhantomData,
        }
    }
}

impl<T: Copy, Src, Dst> TypedMatrix4D<T, Src, Dst> {
    /// Returns an array containing this matrix's terms in row-major order.
    pub fn to_array(&self) -> (r: [T; 16])
        ensures
            r@ == seq![
                self.m11, self.m12, self.m13, self.m14,
                self.m21, self.m22, self.m23, self.m24,
                self.m31, self.m32, self.m33, self.m34,
                self.m41, self.m42, self.m43, self.m44,
            ],
    {
        let r = [
            self.m11, self.m12, self.m13, self.m14,
            self.m21, self.m22, self.m23, self.m24,
            self.m31, self.m32, self.m33, self.m34,
            self.m41, self.m42, self.m43, self.m44,
        ];
        assert(r@ =~= seq![
            self.m11, self.m12, self.m13, self.m14,
            self.m21, self.m22, self.m23, self.m24,
            self.m31, self.m32, self.m33, self.m34,
            self.m41, self.m42, self.m43, self.m44,
        ]);
        r
    }
}

impl<T: Scalar, Src, Dst> TypedMatrix4D<T, Src, Dst> {
    /// The matrix that stands for `m`.
    pub open spec fn of(m: Mat4) -> Self {
        TypedMatrix4D {
            m11: T::of(m.m11),
            m12: T::of(m.m12),
            m13: T::of(m.m13),
            m14: T::of(m.m14),
            m21: T::of(m.m21),
            m22: T::of(m.m22),
            m23: T::of(m.m23),
            m24: T::of(m.m24),
            m31: T::of(m.m31),
            m32: T::of(m.m32),
            m33: T::of(m.m33),
            m34: T::of(m.m34),
            m41: T::of(m.m41),
            m42: T::of(m.m42),
            m43: T::of(m.m43),
            m44: T::of(m.m44),
            _unit: PhantomData,
        }
    }

    /// A matrix is the one matrix with its view, and its view fits `T`.
    pub proof fn lemma_view(self)
        ensures
            Self::of(self@) == self,
            self@.fits::<T>(),
    {
        T::lemma_val(self.m11);
        T::lemma_val(self.m12);
        T::lemma_val(self.m13);
        T::lemma_val(self.m14);
        T::lemma_val(self.m21);
        T::lemma_val(self.m22);
        T::lemma_val(self.m23);
        T::lemma_val(self.m24);
        T::lemma_val(self.m31);
        T::lemma_val(self.m32);
        T::lemma_val(self.m33);
        T::lemma_val(self.m34);
        T::lemma_val(self.m41);
        T::lemma_val(self.m42);
        T::lemma_val(self.m43);
        T::lemma_val(self.m44);
    }

    /// The 2d affine transformation with the given terms, as a 3d
    /// transformation that leaves `z` alone.
    pub fn new_2d(m11: T, m12: T, m21: T, m22: T, m41: T, m42: T) -> (r: TypedMatrix4D<T, Src, Dst>)
        ensures
            r@ == Mat4::new_2d::<T>(
                m11.val(),
                m12.val(),
                m21.val(),
                m22.val(),
                m41.val(),
                m42.val(),
            ),
    {
        proof {
            T::lemma_units();
        }
        let (_0, _1): (T, T) = (T::zero(), T::one());
        TypedMatrix4D::new(m11, m12, _0, _0, m21, m22, _0, _0, _0, _0, _1, _0, m41, m42, _0, _1)
    }

    /// The orthographic projection of the box between the given planes. No
    /// two opposite planes may coincide.
    pub fn ortho(left: T, right: T, bottom: T, top: T, near: T, far: T) -> (r: TypedMatrix4D<
        T,
        Src,
        Dst,
    >)
        requires
            Mat4::ortho_fits::<T>(
                left.val(),
                right.val(),
                bottom.val(),
                top.val(),
                near.val(),
                far.val(),
            ),
        ensures
            r@ == Mat4::ortho::<T>(
                left.val(),
                right.val(),
                bottom.val(),
                top.val(),
                near.val(),
                far.val(),
            ),
    {
        proof {
            T::lemma_units();
        }
        let _0 = T::zero();
        let _1 = T::one();
        let _2 = _1.add(_1);
        let t1 = right.add(left);
        let t2 = right.sub(left);
        let t3 = t1.div(t2);
        let t4 = t3.neg();
        let t5 = top.add(bottom);
        let t6 = top.sub(bottom);
        let t7 = t5.div(t6);
        let t8 = t7.neg();
        let t9 = far.add(near);
        let t10 = far.sub(near);
        let t11 = t9.div(t10);
        let t12 = t11.neg();
        let t13 = _2.div(t2);
        let t14 = _2.div(t6);
        let t15 = _2.neg();
        let t16 = t15.div(t10);
        TypedMatrix4D::new(t13, _0, _0, _0, _0, t14, _0, _0, _0, _0, t16, _0, t4, t8, t12, _1)
    }

    /// The transformation that leaves every point where it is.
    pub fn identity() -> (r: TypedMatrix4D<T, Src, Dst>)
        ensures
            r@ == Mat4::identity::<T>(),
    {
        proof {
            T::lemma_units();
        }
        let (_0, _1): (T, T) = (T::zero(), T::one());
        TypedMatrix4D::new(_1, _0, _0, _0, _0, _1, _0, _0, _0, _0, _1, _0, _0, _0, _0, _1)
    }

    /// Whether the transformation is a 2d one: the terms that only a 3d
    /// transformation uses are those of the identity.
    pub fn is_2d(&self) -> (b: bool)
        ensures
            b == self@.is_2d::<T>(),
    {
        proof {
            T::lemma_units();
        }
        let (_0, _1): (T, T) = (T::zero(), T::one());
        self.m31.eq(_0) && self.m32.eq(_0) && self.m13.eq(_0) && self.m23.eq(_0) && self.m43.eq(_0)
            && self.m14.eq(_0) && self.m24.eq(_0) && self.m34.eq(_0) && self.m33.eq(_1)
            && self.m44.eq(_1)
    }

    /// The 2d affine part of the transformation.
    pub fn to_2d(&self) -> (r: TypedMatrix2D<T, Src, Dst>)
        ensures
            r@ == self@.to_2d(),
    {
        TypedMatrix2D::row_major(self.m11, self.m12, self.m21, self.m22, self.m41, self.m42)
    }

    /// Whether the two matrices are approximately equal: every term of the
    /// one differs from that of the other by less than the scalar's epsilon.
    pub fn approx_eq(&self, other: &TypedMatrix4D<T, Src, Dst>) -> (b: bool)
        ensures
            b == self@.approx_eq::<T>(other@),
    {
        self.m11.approx_eq(other.m11)
            && self.m12.approx_eq(other.m12)
            && self.m13.approx_eq(other.m13)
            && self.m14.approx_eq(other.m14)
            && self.m21.approx_eq(other.m21)
            && self.m22.approx_eq(other.m22)
            && self.m23.approx_eq(other.m23)
            && self.m24.approx_eq(other.m24)
            && self.m31.approx_eq(other.m31)
            && self.m32.approx_eq(other.m32)
            && self.m33.approx_eq(other.m33)
            && self.m34.approx_eq(other.m34)
            && self.m41.approx_eq(other.m41)
            && self.m42.approx_eq(other.m42)
            && self.m43.approx_eq(other.m43)
            && self.m44.approx_eq(other.m44)
    }

    /// Returns the same matrix with a different destination unit.
    pub fn to<Destination>(&self) -> (r: TypedMatrix4D<T, Src, Destination>)
        ensures
            r@ == self@,
    {
        TypedMatrix4D::new(
            self.m11, self.m12, self.m13, self.m14, self.m21, self.m22, self.m23, self.m24,
            self.m31, self.m32, self.m33, self.m34, self.m41, self.m42, self.m43, self.m44,
        )
    }

    /// Returns the multiplication of the two matrices such that mat's
    /// transformation applies before self's transformation.
    pub fn mul<NewSrc>(&self, mat: &TypedMatrix4D<T, NewSrc, Src>) -> (r: TypedMatrix4D<
        T,
        NewSrc,
        Dst,
    >)
        requires
            mat@.product_fits::<T>(self@),
        ensures
            r@ == mat@.product::<T>(self@),
    {
        let t1 = mat.m11.mul(self.m11);
        let t2 = mat.m12.mul(self.m21);
        let t3 = t1.add(t2);
        let t4 = mat.m13.mul(self.m31);
        let t5 = t3.add(t4);
        let t6 = mat.m14.mul(self.m41);
        let t7 = t5.add(t6);
        let t8 = mat.m11.mul(self.m12);
        let t9 = mat.m12.mul(self.m22);
        let t10 = t8.add(t9);
        let t11 = mat.m13.mul(self.m32);
        let t12 = t10.add(t11);
        let t13 = mat.m14.mul(self.m42);
        let t14 = t12.add(t13);
        let t15 = mat.m11.mul(self.m13);
        let t16 = mat.m12.mul(self.m23);
        let t17 = t15.add(t16);
        let t18 = mat.m13.mul(self.m33);
        let t19 = t17.add(t18);
        let t20 = mat.m14.mul(self.m43);
        let t21 = t19.add(t20);
        let t22 = mat.m11.mul(self.m14);
        let t23 = mat.m12.mul(self.m24);
        let t24 = t22.add(t23);
        let t25 = mat.m13.mul(self.m34);
        let t26 = t24.add(t25);
        let t27 = mat.m14.mul(self.m44);
        let t28 = t26.add(t27);
        let t29 = mat.m21.mul(self.m11);
        let t30 = mat.m22.mul(self.m21);
        let t31 = t29.add(t30);
        let t32 = mat.m23.mul(self.m31);
        let t33 = t31.add(t32);
        let t34 = mat.m24.mul(self.m41);
        let t35 = t33.add(t34);
        let t36 = mat.m21.mul(self.m12);
        let t37 = mat.m22.mul(self.m22);
        let t38 = t36.add(t37);
        let t39 = mat.m23.mul(self.m32);
        let t40 = t38.add(t39);
        let t41 = mat.m24.mul(self.m42);
        let t42 = t40.add(t41);
        let t43 = mat.m21.mul(self.m13);
        let t44 = mat.m22.mul(self.m23);
        let t45 = t43.add(t44);
        let t46 = mat.m23.mul(self.m33);
        let t47 = t45.add(t46);
        let t48 = mat.m24.mul(self.m43);
        let t49 = t47.add(t48);
        let t50 = mat.m21.mul(self.m14);
        let t51 = mat.m22.mul(self.m24);
        let t52 = t50.add(t51);
        let t53 = mat.m23.mul(self.m34);
        let t54 = t52.add(t53);
        let t55 = mat.m24.mul(self.m44);
        let t56 = t54.add(t55);
        let t57 = mat.m31.mul(self.m11);
        let t58 = mat.m32.mul(self.m21);
        let t59 = t57.add(t58);
        let t60 = mat.m33.mul(self.m31);
        let t61 = t59.add(t60);
        let t62 = mat.m34.mul(self.m41);
        let t63 = t61.add(t62);
        let t64 = mat.m31.mul(self.m12);
        let t65 = mat.m32.mul(self.m22);
        let t66 = t64.add(t65);
        let t67 = mat.m33.mul(self.m32);
        let t68 = t66.add(t67);
        let t69 = mat.m34.mul(self.m42);
        let t70 = t68.add(t69);
        let t71 = mat.m31.mul(self.m13);
        let t72 = mat.m32.mul(self.m23);
        let t73 = t71.add(t72);
        let t74 = mat.m33.mul(self.m33);
        let t75 = t73.add(t74);
        let t76 = mat.m34.mul(self.m43);
        let t77 = t75.add(t76);
        let t78 = mat.m31.mul(self.m14);
        let t79 = mat.m32.mul(self.m24);
        let t80 = t78.add(t79);
        let t81 = mat.m33.mul(self.m34);
        let t82 = t80.add(t81);
        let t83 = mat.m34.mul(self.m44);
        let t84 = t82.add(t83);
        let t85 = mat.m41.mul(self.m11);
        let t86 = mat.m42.mul(self.m21);
        let t87 = t85.add(t86);
        let t88 = mat.m43.mul(self.m31);
        let t89 = t87.add(t88);
        let t90 = mat.m44.mul(self.m41);
        let t91 = t89.add(t90);
        let t92 = mat.m41.mul(self.m12);
        let t93 = mat.m42.mul(self.m22);
        let t94 = t92.add(t93);
        let t95 = mat.m43.mul(self.m32);
        let t96 = t94.add(t95);
        let t97 = mat.m44.mul(self.m42);
        let t98 = t96.add(t97);
        let t99 = mat.m41.mul(self.m13);
        let t100 = mat.m42.mul(self.m23);
        let t101 = t99.add(t100);
        let t102 = mat.m43.mul(self.m33);
        let t103 = t101.add(t102);
        let t104 = mat.m44.mul(self.m43);
        let t105 = t103.add(t104);
        let t106 = mat.m41.mul(self.m14);
        let t107 = mat.m42.mul(self.m24);
        let t108 = t106.add(t107);
        let t109 = mat.m43.mul(self.m34);
        let t110 = t108.add(t109);
        let t111 = mat.m44.mul(self.m44);
        let t112 = t110.add(t111);
        TypedMatrix4D::new(
            t7, t14, t21, t28, t35, t42, t49, t56, t63, t70, t77, t84, t91, t98, t105, t112,
        )
    }

    /// Returns the multiplication of the two matrices such that mat's
    /// transformation applies before self's transformation.
    pub fn pre_mul<NewSrc>(&self, mat: &TypedMatrix4D<T, NewSrc, Src>) -> (r: TypedMatrix4D<
        T,
        NewSrc,
        Dst,
    >)
        requires
            mat@.product_fits::<T>(self@),
        ensures
            r@ == mat@.product::<T>(self@),
    {
        self.mul(mat)
    }

    /// Returns the multiplication of the two matrices such that mat's
    /// transformation applies after self's transformation.
    pub fn post_mul<NewDst>(&self, mat: &TypedMatrix4D<T, Dst, NewDst>) -> (r: TypedMatrix4D<
        T,
        Src,
        NewDst,
    >)
        requires
            self@.product_fits::<T>(mat@),
        ensures
            r@ == self@.product::<T>(mat@),
    {
        mat.mul(self)
    }

    /// Returns the inverse matrix if possible: there is none where the
    /// determinant is zero.
    pub fn invert(&self) -> (r: Option<TypedMatrix4D<T, Dst, Src>>)
        requires
            self@.determinant_fits::<T>(),
            self@.determinant::<T>() != 0 ==> self@.invert_fits::<T>(),
        ensures
            self@.determinant::<T>() == 0 ==> r.is_none(),
            self@.determinant::<T>() != 0 ==> r.is_some() && r.unwrap()@ == self@.inverse::<T>(),
    {
        let det = self.determinant();
        proof {
            T::lemma_units();
        }
        if det.eq(T::zero()) {
            return None;
        }
        let t1 = self.m23.mul(self.m34);
        let t2 = t1.mul(self.m42);
        let t3 = self.m24.mul(self.m33);
        let t4 = t3.mul(self.m42);
        let t5 = t2.sub(t4);
        let t6 = self.m24.mul(self.m32);
        let t7 = t6.mul(self.m43);
        let t8 = t5.add(t7);
        let t9 = self.m22.mul(self.m34);
        let t10 = t9.mul(self.m43);
        let t11 = t8.sub(t10);
        let t12 = self.m23.mul(self.m32);
        let t13 = t12.mul(self.m44);
        let t14 = t11.sub(t13);
        let t15 = self.m22.mul(self.m33);
        let t16 = t15.mul(self.m44);
        let t17 = t14.add(t16);
        let t18 = self.m14.mul(self.m33);
        let t19 = t18.mul(self.m42);
        let t20 = self.m13.mul(self.m34);
        let t21 = t20.mul(self.m42);
        let t22 = t19.sub(t21);
        let t23 = self.m14.mul(self.m32);
        let t24 = t23.mul(self.m43);
        let t25 = t22.sub(t24);
        let t26 = self.m12.mul(self.m34);
        let t27 = t26.mul(self.m43);
        let t28 = t25.add(t27);
        let t29 = self.m13.mul(self.m32);
        let t30 = t29.mul(self.m44);
        let t31 = t28.add(t30);
        let t32 = self.m12.mul(self.m33);
        let t33 = t32.mul(self.m44);
        let t34 = t31.sub(t33);
        let t35 = self.m13.mul(self.m24);
        let t36 = t35.mul(self.m42);
        let t37 = self.m14.mul(self.m23);
        let t38 = t37.mul(self.m42);
        let t39 = t36.sub(t38);
        let t40 = self.m14.mul(self.m22);
        let t41 = t40.mul(self.m43);
        let t42 = t39.add(t41);
        let t43 = self.m12.mul(self.m24);
        let t44 = t43.mul(self.m43);
        let t45 = t42.sub(t44);
        let t46 = self.m13.mul(self.m22);
        let t47 = t46.mul(self.m44);
        let t48 = t45.sub(t47);
        let t49 = self.m12.mul(self.m23);
        let t50 = t49.mul(self.m44);
        let t51 = t48.add(t50);
        let t52 = t37.mul(self.m32);
        let t53 = t35.mul(self.m32);
        let t54 = t52.sub(t53);
        let t55 = t40.mul(self.m33);
        let t56 = t54.sub(t55);
        let t57 = t43.mul(self.m33);
        let t58 = t56.add(t57);
        let t59 = t46.mul(self.m34);
        let t60 = t58.add(t59);
        let t61 = t49.mul(self.m34);
        let t62 = t60.sub(t61);
        let t63 = t3.mul(self.m41);
        let t64 = t1.mul(self.m41);
        let t65 = t63.sub(t64);
        let t66 = self.m24.mul(self.m31);
        let t67 = t66.mul(self.m43);
        let t68 = t65.sub(t67);
        let t69 = self.m21.mul(self.m34);
        let t70 = t69.mul(self.m43);
        let t71 = t68.add(t70);
        let t72 = self.m23.mul(self.m31);
        let t73 = t72.mul(self.m44);
        let t74 = t71.add(t73);
        let t75 = self.m21.mul(self.m33);
        let t76 = t75.mul(self.m44);
        let t77 = t74.sub(t76);
        let t78 = t20.mul(self.m41);
        let t79 = t18.mul(self.m41);
        let t80 = t78.sub(t79);
        let t81 = self.m14.mul(self.m31);
        let t82 = t81.mul(self.m43);
        let t83 = t80.add(t82);
        let t84 = self.m11.mul(self.m34);
        let t85 = t84.mul(self.m43);
        let t86 = t83.sub(t85);
        let t87 = self.m13.mul(self.m31);
        let t88 = t87.mul(self.m44);
        let t89 = t86.sub(t88);
        let t90 = self.m11.mul(self.m33);
        let t91 = t90.mul(self.m44);
        let t92 = t89.add(t91);
        let t93 = t37.mul(self.m41);
        let t94 = t35.mul(self.m41);
        let t95 = t93.sub(t94);
        let t96 = self.m14.mul(self.m21);
        let t97 = t96.mul(self.m43);
        let t98 = t95.sub(t97);
        let t99 = self.m11.mul(self.m24);
        let t100 = t99.mul(self.m43);
        let t101 = t98.add(t100);
        let t102 = self.m13.mul(self.m21);
        let t103 = t102.mul(self.m44);
        let t104 = t101.add(t103);
        let t105 = self.m11.mul(self.m23);
        let t106 = t105.mul(self.m44);
        let t107 = t104.sub(t106);
        let t108 = t35.mul(self.m31);
        let t109 = t37.mul(self.m31);
        let t110 = t108.sub(t109);
        let t111 = t96.mul(self.m33);
        let t112 = t110.add(t111);
        let t113 = t99.mul(self.m33);
        let t114 = t112.sub(t113);
        let t115 = t102.mul(self.m34);
        let t116 = t114.sub(t115);
        let t117 = t105.mul(self.m34);
        let t118 = t116.add(t117);
        let t119 = t9.mul(self.m41);
        let t120 = t6.mul(self.m41);
        let t121 = t119.sub(t120);
        let t122 = t66.mul(self.m42);
        let t123 = t121.add(t122);
        let t124 = t69.mul(self.m42);
        let t125 = t123.sub(t124);
        let t126 = self.m22.mul(self.m31);
        let t127 = t126.mul(self.m44);
        let t128 = t125.sub(t127);
        let t129 = self.m21.mul(self.m32);
        let t130 = t129.mul(self.m44);
        let t131 = t128.add(t130);
        let t132 = t23.mul(self.m41);
        let t133 = t26.mul(self.m41);
        let t134 = t132.sub(t133);
        let t135 = t81.mul(self.m42);
        let t136 = t134.sub(t135);
        let t137 = t84.mul(self.m42);
        let t138 = t136.add(t137);
        let t139 = self.m12.mul(self.m31);
        let t140 = t139.mul(self.m44);
        let t141 = t138.add(t140);
        let t142 = self.m11.mul(self.m32);
        let t143 = t142.mul(self.m44);
        let t144 = t141.sub(t143);
        let t145 = t43.mul(self.m41);
        let t146 = t40.mul(self.m41);
        let t147 = t145.sub(t146);
        let t148 = t96.mul(self.m42);
        let t149 = t147.add(t148);
        let t150 = t99.mul(self.m42);
        let t151 = t149.sub(t150);
        let t152 = self.m12.mul(self.m21);
        let t153 = t152.mul(self.m44);
        let t154 = t151.sub(t153);
        let t155 = self.m11.mul(self.m22);
        let t156 = t155.mul(self.m44);
        let t157 = t154.add(t156);
        let t158 = t40.mul(self.m31);
        let t159 = t43.mul(self.m31);
        let t160 = t158.sub(t159);
        let t161 = t96.mul(self.m32);
        let t162 = t160.sub(t161);
        let t163 = t99.mul(self.m32);
        let t164 = t162.add(t163);
        let t165 = t152.mul(self.m34);
        let t166 = t164.add(t165);
        let t167 = t155.mul(self.m34);
        let t168 = t166.sub(t167);
        let t169 = t12.mul(self.m41);
        let t170 = t15.mul(self.m41);
        let t171 = t169.sub(t170);
        let t172 = t72.mul(self.m42);
        let t173 = t171.sub(t172);
        let t174 = t75.mul(self.m42);
        let t175 = t173.add(t174);
        let t176 = t126.mul(self.m43);
        let t177 = t175.add(t176);
        let t178 = t129.mul(self.m43);
        let t179 = t177.sub(t178);
        let t180 = t32.mul(self.m41);
        let t181 = t29.mul(self.m41);
        let t182 = t180.sub(t181);
        let t183 = t87.mul(self.m42);
        let t184 = t182.add(t183);
        let t185 = t90.mul(self.m42);
        let t186 = t184.sub(t185);
        let t187 = t139.mul(self.m43);
        let t188 = t186.sub(t187);
        let t189 = t142.mul(self.m43);
        let t190 = t188.add(t189);
        let t191 = t46.mul(self.m41);
        let t192 = t49.mul(self.m41);
        let t193 = t191.sub(t192);
        let t194 = t102.mul(self.m42);
        let t195 = t193.sub(t194);
        let t196 = t105.mul(self.m42);
        let t197 = t195.add(t196);
        let t198 = t152.mul(self.m43);
        let t199 = t197.add(t198);
        let t200 = t155.mul(self.m43);
        let t201 = t199.sub(t200);
        let t202 = t49.mul(self.m31);
        let t203 = t46.mul(self.m31);
        let t204 = t202.sub(t203);
        let t205 = t102.mul(self.m32);
        let t206 = t204.add(t205);
        let t207 = t105.mul(self.m32);
        let t208 = t206.sub(t207);
        let t209 = t152.mul(self.m33);
        let t210 = t208.sub(t209);
        let t211 = t155.mul(self.m33);
        let t212 = t210.add(t211);
        let m: TypedMatrix4D<T, Dst, Src> = TypedMatrix4D::new(
            t17, t34, t51, t62, t77, t92, t107, t118, t131, t144, t157, t168, t179, t190, t201,
            t212,
        );
        let _1: T = T::one();
        Some(m.mul_s(_1.div(det)))
    }

    pub fn determinant(&self) -> (r: T)
        requires
            self@.determinant_fits::<T>(),
        ensures
            r.val() == self@.determinant::<T>(),
    {
        let t1 = self.m14.mul(self.m23);
        let t2 = t1.mul(self.m32);
        let t3 = t2.mul(self.m41);
        let t4 = self.m13.mul(self.m24);
        let t5 = t4.mul(self.m32);
        let t6 = t5.mul(self.m41);
        let t7 = t3.sub(t6);
        let t8 = self.m14.mul(self.m22);
        let t9 = t8.mul(self.m33);
        let t10 = t9.mul(self.m41);
        let t11 = t7.sub(t10);
        let t12 = self.m12.mul(self.m24);
        let t13 = t12.mul(self.m33);
        let t14 = t13.mul(self.m41);
        let t15 = t11.add(t14);
        let t16 = self.m13.mul(self.m22);
        let t17 = t16.mul(self.m34);
        let t18 = t17.mul(self.m41);
        let t19 = t15.add(t18);
        let t20 = self.m12.mul(self.m23);
        let t21 = t20.mul(self.m34);
        let t22 = t21.mul(self.m41);
        let t23 = t19.sub(t22);
        let t24 = t1.mul(self.m31);
        let t25 = t24.mul(self.m42);
        let t26 = t23.sub(t25);
        let t27 = t4.mul(self.m31);
        let t28 = t27.mul(self.m42);
        let t29 = t26.add(t28);
        let t30 = self.m14.mul(self.m21);
        let t31 = t30.mul(self.m33);
        let t32 = t31.mul(self.m42);
        let t33 = t29.add(t32);
        let t34 = self.m11.mul(self.m24);
        let t35 = t34.mul(self.m33);
        let t36 = t35.mul(self.m42);
        let t37 = t33.sub(t36);
        let t38 = self.m13.mul(self.m21);
        let t39 = t38.mul(self.m34);
        let t40 = t39.mul(self.m42);
        let t41 = t37.sub(t40);
        let t42 = self.m11.mul(self.m23);
        let t43 = t42.mul(self.m34);
        let t44 = t43.mul(self.m42);
        let t45 = t41.add(t44);
        let t46 = t8.mul(self.m31);
        let t47 = t46.mul(self.m43);
        let t48 = t45.add(t47);
        let t49 = t12.mul(self.m31);
        let t50 = t49.mul(self.m43);
        let t51 = t48.sub(t50);
        let t52 = t30.mul(self.m32);
        let t53 = t52.mul(self.m43);
        let t54 = t51.sub(t53);
        let t55 = t34.mul(self.m32);
        let t56 = t55.mul(self.m43);
        let t57 = t54.add(t56);
        let t58 = self.m12.mul(self.m21);
        let t59 = t58.mul(self.m34);
        let t60 = t59.mul(self.m43);
        let t61 = t57.add(t60);
        let t62 = self.m11.mul(self.m22);
        let t63 = t62.mul(self.m34);
        let t64 = t63.mul(self.m43);
        let t65 = t61.sub(t64);
        let t66 = t16.mul(self.m31);
        let t67 = t66.mul(self.m44);
        let t68 = t65.sub(t67);
        let t69 = t20.mul(self.m31);
        let t70 = t69.mul(self.m44);
        let t71 = t68.add(t70);
        let t72 = t38.mul(self.m32);
        let t73 = t72.mul(self.m44);
        let t74 = t71.add(t73);
        let t75 = t42.mul(self.m32);
        let t76 = t75.mul(self.m44);
        let t77 = t74.sub(t76);
        let t78 = t58.mul(self.m33);
        let t79 = t78.mul(self.m44);
        let t80 = t77.sub(t79);
        let t81 = t62.mul(self.m33);
        let t82 = t81.mul(self.m44);
        let t83 = t80.add(t82);
        t83
    }

    /// Every term multiplied by `x`.
    pub fn mul_s(&self, x: T) -> (r: TypedMatrix4D<T, Src, Dst>)
        requires
            self@.mul_s_fits::<T>(x.val()),
        ensures
            r@ == self@.mul_s::<T>(x.val()),
    {
        let t1 = self.m11.mul(x);
        let t2 = self.m12.mul(x);
        let t3 = self.m13.mul(x);
        let t4 = self.m14.mul(x);
        let t5 = self.m21.mul(x);
        let t6 = self.m22.mul(x);
        let t7 = self.m23.mul(x);
        let t8 = self.m24.mul(x);
        let t9 = self.m31.mul(x);
        let t10 = self.m32.mul(x);
        let t11 = self.m33.mul(x);
        let t12 = self.m34.mul(x);
        let t13 = self.m41.mul(x);
        let t14 = self.m42.mul(x);
        let t15 = self.m43.mul(x);
        let t16 = self.m44.mul(x);
        TypedMatrix4D::new(t1, t2, t3, t4, t5, t6, t7, t8, t9, t10, t11, t12, t13, t14, t15, t16)
    }

    /// The transformation that multiplies every coordinate by the scale factor.
    pub fn from_scale_factor(scale: ScaleFactor<Src, Dst, T>) -> (r: TypedMatrix4D<T, Src, Dst>)
        ensures
            r@ == Mat4::create_scale::<T>(scale@, scale@, scale@),
    {
        TypedMatrix4D::create_scale(scale.get(), scale.get(), scale.get())
    }

    /// Returns the matrix with its first three diagonal terms multiplied by
    /// `x`, `y` and `z`.
    pub fn scale(&self, x: T, y: T, z: T) -> (r: TypedMatrix4D<T, Src, Dst>)
        requires
            self@.scale_fits::<T>(x.val(), y.val(), z.val()),
        ensures
            r@ == self@.scale::<T>(x.val(), y.val(), z.val()),
    {
        let t1 = self.m11.mul(x);
        let t2 = self.m22.mul(y);
        let t3 = self.m33.mul(z);
        TypedMatrix4D::new(
            t1, self.m12, self.m13, self.m14, self.m21, t2, self.m23, self.m24, self.m31, self.m32,
            t3, self.m34, self.m41, self.m42, self.m43, self.m44,
        )
    }

    /// Returns the given point transformed by this matrix.
    pub fn transform_point(&self, p: &TypedPoint2D<T, Src>) -> (r: TypedPoint2D<T, Dst>)
        requires
            self@.transform_point_fits::<T>(p@),
        ensures
            r@ == self@.transform_point::<T>(p@),
    {
        let t1 = p.x.mul(self.m11);
        let t2 = p.y.mul(self.m21);
        let t3 = t1.add(t2);
        let t4 = t3.add(self.m41);
        let t5 = p.x.mul(self.m12);
        let t6 = p.y.mul(self.m22);
        let t7 = t5.add(t6);
        let t8 = t7.add(self.m42);
        TypedPoint2D::new(t4, t8)
    }

    /// Returns the given point transformed by this matrix, taking its
    /// `w` to be one. The result keeps its own `w`: dividing by it is left
    /// to the caller.
    pub fn transform_point4d(&self, p: &TypedPoint4D<T, Src>) -> (r: TypedPoint4D<T, Dst>)
        requires
            self@.transform_point4d_fits::<T>(p@),
        ensures
            r@ == self@.transform_point4d::<T>(p@),
    {
        let t1 = p.x.mul(self.m11);
        let t2 = p.y.mul(self.m21);
        let t3 = t1.add(t2);
        let t4 = p.z.mul(self.m31);
        let t5 = t3.add(t4);
        let t6 = t5.add(self.m41);
        let t7 = p.x.mul(self.m12);
        let t8 = p.y.mul(self.m22);
        let t9 = t7.add(t8);
        let t10 = p.z.mul(self.m32);
        let t11 = t9.add(t10);
        let t12 = t11.add(self.m42);
        let t13 = p.x.mul(self.m13);
        let t14 = p.y.mul(self.m23);
        let t15 = t13.add(t14);
        let t16 = p.z.mul(self.m33);
        let t17 = t15.add(t16);
        let t18 = t17.add(self.m43);
        let t19 = p.x.mul(self.m14);
        let t20 = p.y.mul(self.m24);
        let t21 = t19.add(t20);
        let t22 = p.z.mul(self.m34);
        let t23 = t21.add(t22);
        let t24 = t23.add(self.m44);
        TypedPoint4D::new(t6, t12, t18, t24)
    }

    /// Applies a translation before self's transformation and returns the
    /// resulting matrix.
    pub fn translate(&self, x: T, y: T, z: T) -> (r: TypedMatrix4D<T, Src, Dst>)
        requires
            Mat4::create_translation::<T>(x.val(), y.val(), z.val()).product_fits::<T>(self@),
        ensures
            r@ == Mat4::create_translation::<T>(x.val(), y.val(), z.val()).product::<T>(self@),
    {
        self.mul(&TypedMatrix4D::<T, Src, Src>::create_translation(x, y, z))
    }

    /// Create a 3d translation matrix
    pub fn create_translation(x: T, y: T, z: T) -> (r: TypedMatrix4D<T, Src, Dst>)
        ensures
            r@ == Mat4::create_translation::<T>(x.val(), y.val(), z.val()),
    {
        proof {
            T::lemma_units();
        }
        let (_0, _1): (T, T) = (T::zero(), T::one());
        TypedMatrix4D::new(_1, _0, _0, _0, _0, _1, _0, _0, _0, _0, _1, _0, x, y, z, _1)
    }

    /// Create a 3d scale matrix
    pub fn create_scale(x: T, y: T, z: T) -> (r: TypedMatrix4D<T, Src, Dst>)
        ensures
            r@ == Mat4::create_scale::<T>(x.val(), y.val(), z.val()),
    {
        proof {
            T::lemma_units();
        }
        let (_0, _1): (T, T) = (T::zero(), T::one());
        TypedMatrix4D::new(x, _0, _0, _0, _0, y, _0, _0, _0, _0, z, _0, _0, _0, _0, _1)
    }

    /// Create a 3d rotation matrix from an axis and an angle. The axis
    /// `(x, y, z)` must be normalized. The angle is given by its half: with
    /// `s` and `c` the sine and the cosine of half the angle, `sin_cos` is
    /// `s * c` and `sin_sq` is `s * s`.
    pub fn create_rotation(x: T, y: T, z: T, sin_cos: T, sin_sq: T) -> (r: TypedMatrix4D<
        T,
        Src,
        Dst,
    >)
        requires
            Mat4::rotation_fits::<T>(x.val(), y.val(), z.val(), sin_cos.val(), sin_sq.val()),
        ensures
            r@ == Mat4::create_rotation::<T>(
                x.val(),
                y.val(),
                z.val(),
                sin_cos.val(),
                sin_sq.val(),
            ),
    {
        proof {
            T::lemma_units();
        }
        let _0 = T::zero();
        let _1 = T::one();
        let _2 = _1.add(_1);
        let t1 = x.mul(x);
        let t2 = y.mul(y);
        let t3 = z.mul(z);
        let t4 = t2.add(t3);
        let t5 = _2.mul(t4);
        let t6 = t5.mul(sin_sq);
        let t7 = _1.sub(t6);
        let t8 = x.mul(y);
        let t9 = t8.mul(sin_sq);
        let t10 = z.mul(sin_cos);
        let t11 = t9.sub(t10);
        let t12 = _2.mul(t11);
        let t13 = x.mul(z);
        let t14 = t13.mul(sin_sq);
        let t15 = y.mul(sin_cos);
        let t16 = t14.add(t15);
        let t17 = _2.mul(t16);
        let t18 = t9.add(t10);
        let t19 = _2.mul(t18);
        let t20 = t1.add(t3);
        let t21 = _2.mul(t20);
        let t22 = t21.mul(sin_sq);
        let t23 = _1.sub(t22);
        let t24 = y.mul(z);
        let t25 = t24.mul(sin_sq);
        let t26 = x.mul(sin_cos);
        let t27 = t25.sub(t26);
        let t28 = _2.mul(t27);
        let t29 = t14.sub(t15);
        let t30 = _2.mul(t29);
        let t31 = t25.add(t26);
        let t32 = _2.mul(t31);
        let t33 = t1.add(t2);
        let t34 = _2.mul(t33);
        let t35 = t34.mul(sin_sq);
        let t36 = _1.sub(t35);
        TypedMatrix4D::new(t7, t12, t17, _0, t19, t23, t28, _0, t30, t32, t36, _0, _0, _0, _0, _1)
    }

    /// Create a 2d skew matrix from the tangents of its two angles.
    pub fn create_skew(tan_alpha: T, tan_beta: T) -> (r: TypedMatrix4D<T, Src, Dst>)
        ensures
            r@ == Mat4::create_skew::<T>(tan_alpha.val(), tan_beta.val()),
    {
        proof {
            T::lemma_units();
        }
        let (_0, _1): (T, T) = (T::zero(), T::one());
        let (sx, sy) = (tan_beta, tan_alpha);
        TypedMatrix4D::new(_1, sx, _0, _0, sy, _1, _0, _0, _0, _0, _1, _0, _0, _0, _0, _1)
    }

    /// Create a simple perspective projection matrix
    pub fn create_perspective(d: T) -> (r: TypedMatrix4D<T, Src, Dst>)
        requires
            Mat4::perspective_fits::<T>(d.val()),
        ensures
            r@ == Mat4::create_perspective::<T>(d.val()),
    {
        proof {
            T::lemma_units();
        }
        let _1 = T::one();
        let _0 = T::zero();
        let t1 = _1.neg();
        let t2 = t1.div(d);
        TypedMatrix4D::new(_1, _0, _0, _0, _0, _1, _0, _0, _0, _0, _1, t2, _0, _0, _0, _1)
    }
}

} // verus!
