use vstd::prelude::*;
use core::marker::PhantomData;
use crate::length::UnknownUnit;
use crate::model::Mat2;
use crate::num::{Scalar, fits};
use crate::point::TypedPoint2D;
use crate::rect::{TypedRect, views2};

verus! {

/// A 2d transform stored as a 2 by 3 matrix in row-major order in memory,
/// useful to represent 2d transformations.
///
/// Matrices can be parametrized over the source and destination units, to describe a
/// transformation from a space to another: `transform_point` takes a point of
/// the unit `Src` and returns one of the unit `Dst`.
///
/// Matrices expose a set of convenience methods for pre- and post-transformations.
/// A pre-transformation corresponds to adding an operation that is applied before
/// the rest of the transformation, while a post-transformation adds an operation
/// that is applied after.
#[derive(Debug)]
pub struct TypedMatrix2D<T, Src, Dst> {
    pub m11: T,
    pub m12: T,
    pub m21: T,
    pub m22: T,
    pub m31: T,
    pub m32: T,
    pub _unit: PhantomData<(Src, Dst)>,
}

/// The default 2d matrix type with no units.
pub type Matrix2D<T> = TypedMatrix2D<T, UnknownUnit, UnknownUnit>;

impl<T: Copy, Src, Dst> Copy for TypedMatrix2D<T, Src, Dst> {}

impl<T: Copy, Src, Dst> Clone for TypedMatrix2D<T, Src, Dst> {
    fn clone(&self) -> (r: Self)
        ensures
            r == *self,
    {
        *self
    }
}

impl<T: Scalar, Src, Dst> View for TypedMatrix2D<T, Src, Dst> {
    type V = Mat2;

    open spec fn view(&self) -> Mat2 {
        Mat2 {
            m11: self.m11.val(),
            m12: self.m12.val(),
            m21: self.m21.val(),
            m22: self.m22.val(),
            m31: self.m31.val(),
            m32: self.m32.val(),
        }
    }
}

impl<T: Scalar, Src, Dst> PartialEq for TypedMatrix2D<T, Src, Dst> {
    fn eq(&self, other: &TypedMatrix2D<T, Src, Dst>) -> (b: bool) {
        self.m11.eq(other.m11) && self.m12.eq(other.m12) && self.m21.eq(other.m21) && self.m22.eq(
            other.m22,
        ) && self.m31.eq(other.m31) && self.m32.eq(other.m32)
    }
}

impl<T: Scalar, Src, Dst> vstd::std_specs::cmp::PartialEqSpecImpl for TypedMatrix2D<T, Src, Dst> {
    open spec fn obeys_eq_spec() -> bool {
        true
    }

    open spec fn eq_spec(&self, other: &TypedMatrix2D<T, Src, Dst>) -> bool {
        self@ == other@
    }
}

impl<T, Src, Dst> TypedMatrix2D<T, Src, Dst> {
    /// Create a matrix specifying its components in row-major order.
    pub fn row_major(m11: T, m12: T, m21: T, m22: T, m31: T, m32: T) -> (r: TypedMatrix2D<
        T,
        Src,
        Dst,
    >)
        ensures
            r.m11 == m11,
            r.m12 == m12,
            r.m21 == m21,
            r.m22 == m22,
            r.m31 == m31,
            r.m32 == m32,
    {
        TypedMatrix2D { m11, m12, m21, m22, m31, m32, _unit: PhantomData }
    }

    /// Create a matrix specifying its components in column-major order.
    pub fn colum_major(m11: T, m21: T, m31: T, m12: T, m22: T, m32: T) -> (r: TypedMatrix2D<
        T,
        Src,
        Dst,
    >)
        ensures
            r.m11 == m11,
            r.m12 == m12,
            r.m21 == m21,
            r.m22 == m22,
            r.m31 == m31,
            r.m32 == m32,
    {
        TypedMatrix2D { m11, m12, m21, m22, m31, m32, _unit: PhantomData }
    }
}

impl<T: Copy, Src, Dst> TypedMatrix2D<T, Src, Dst> {
    /// Returns an array containing this matrix's terms in row-major order (the order
    /// in which the matrix is actually laid out in memory).
    pub fn to_row_major_array(&self) -> (r: [T; 6])
        ensures
            r@ == seq![self.m11, self.m12, self.m21, self.m22, self.m31, self.m32],
    {
        let r = [self.m11, self.m12, self.m21, self.m22, self.m31, self.m32];
        assert(r@ =~= seq![self.m11, self.m12, self.m21, self.m22, self.m31, self.m32]);
        r
    }

    /// Returns an array containing this matrix's terms in column-major order.
    pub fn to_column_major_array(&self) -> (r: [T; 6])
        ensures
            r@ == seq![self.m11, self.m21, self.m31, self.m12, self.m22, self.m32],
    {
        let r = [self.m11, self.m21, self.m31, self.m12, self.m22, self.m32];
        assert(r@ =~= seq![self.m11, self.m21, self.m31, self.m12, self.m22, self.m32]);
        r
    }
}

impl<T: Scalar, Src, Dst> TypedMatrix2D<T, Src, Dst> {
    /// The transformation that leaves every point where it is.
    pub fn identity() -> (r: TypedMatrix2D<T, Src, Dst>)
        ensures
            r@ == Mat2::identity::<T>(),
    {
        proof {
            T::lemma_units();
        }
        let (_0, _1) = (T::zero(), T::one());
        TypedMatrix2D::row_major(_1, _0, _0, _1, _0, _0)
    }

    /// Returns the multiplication of the two matrices such that mat's transformation
    /// applies after self's transformation.
    pub fn post_mul<NewDst>(&self, mat: &TypedMatrix2D<T, Dst, NewDst>) -> (r: TypedMatrix2D<
        T,
        Src,
        NewDst,
    >)
        requires
            self@.post_mul_fits::<T>(mat@),
        ensures
            r@ == self@.post_mul::<T>(mat@),
    {
        let t1 = self.m11.mul(mat.m11);
        let t2 = self.m12.mul(mat.m21);
        let t3 = t1.add(t2);
        let t4 = self.m11.mul(mat.m12);
        let t5 = self.m12.mul(mat.m22);
        let t6 = t4.add(t5);
        let t7 = self.m21.mul(mat.m11);
        let t8 = self.m22.mul(mat.m21);
        let t9 = t7.add(t8);
        let t10 = self.m21.mul(mat.m12);
        let t11 = self.m22.mul(mat.m22);
        let t12 = t10.add(t11);
        let t13 = self.m31.mul(mat.m11);
        let t14 = self.m32.mul(mat.m21);
        let t15 = t13.add(t14);
        let t16 = t15.add(mat.m31);
        let t17 = self.m31.mul(mat.m12);
        let t18 = self.m32.mul(mat.m22);
        let t19 = t17.add(t18);
        let t20 = t19.add(mat.m32);
        TypedMatrix2D::row_major(t3, t6, t9, t12, t16, t20)
    }

    /// Returns the multiplication of the two matrices such that mat's transformation
    /// applies before self's transformation.
    pub fn pre_mul<NewSrc>(&self, mat: &TypedMatrix2D<T, NewSrc, Src>) -> (r: TypedMatrix2D<
        T,
        NewSrc,
        Dst,
    >)
        requires
            mat@.post_mul_fits::<T>(self@),
        ensures
            r@ == self@.pre_mul::<T>(mat@),
    {
        mat.post_mul(self)
    }

    /// The transformation that moves every point by `(x, y)`.
    pub fn create_translation(x: T, y: T) -> (r: TypedMatrix2D<T, Src, Dst>)
        ensures
            r@ == Mat2::create_translation::<T>(x.val(), y.val()),
    {
        proof {
            T::lemma_units();
        }
        let (_0, _1): (T, T) = (T::zero(), T::one());
        TypedMatrix2D::row_major(_1, _0, _0, _1, x, y)
    }

    /// Applies a translation after self's transformation and returns the resulting matrix.
    pub fn post_translated(&self, x: T, y: T) -> (r: TypedMatrix2D<T, Src, Dst>)
        requires
            self@.post_mul_fits::<T>(Mat2::create_translation::<T>(x.val(), y.val())),
        ensures
            r@ == self@.post_mul::<T>(Mat2::create_translation::<T>(x.val(), y.val())),
    {
        self.post_mul(&TypedMatrix2D::<T, Dst, Dst>::create_translation(x, y))
    }

    /// Applies a translation before self's transformation and returns the resulting matrix.
    pub fn pre_translated(&self, x: T, y: T) -> (r: TypedMatrix2D<T, Src, Dst>)
        requires
            Mat2::create_translation::<T>(x.val(), y.val()).post_mul_fits::<T>(self@),
        ensures
            r@ == self@.pre_mul::<T>(Mat2::create_translation::<T>(x.val(), y.val())),
    {
        self.pre_mul(&TypedMatrix2D::<T, Src, Src>::create_translation(x, y))
    }

    /// The transformation that multiplies the first coordinate by `x` and
    /// the second by `y`.
    pub fn create_scale(x: T, y: T) -> (r: TypedMatrix2D<T, Src, Dst>)
        ensures
            r@ == Mat2::create_scale(x.val(), y.val()),
    {
        proof {
            T::lemma_units();
        }
        let _0 = T::zero();
        TypedMatrix2D::row_major(x, _0, _0, y, _0, _0)
    }

    /// Applies a scale after self's transformation and returns the resulting matrix.
    pub fn post_scaled(&self, x: T, y: T) -> (r: TypedMatrix2D<T, Src, Dst>)
        requires
            self@.post_mul_fits::<T>(Mat2::create_scale(x.val(), y.val())),
        ensures
            r@ == self@.post_mul::<T>(Mat2::create_scale(x.val(), y.val())),
    {
        self.post_mul(&TypedMatrix2D::<T, Dst, Dst>::create_scale(x, y))
    }

    /// Returns the matrix with its first diagonal term multiplied by `x`
    /// and its second by `y`.
    pub fn pre_scaled(&self, x: T, y: T) -> (r: TypedMatrix2D<T, Src, Dst>)
        requires
            self@.pre_scaled_fits::<T>(x.val(), y.val()),
        ensures
            r@ == self@.pre_scaled::<T>(x.val(), y.val()),
    {
        let t1 = self.m11.mul(x);
        let t2 = self.m22.mul(y);
        TypedMatrix2D::row_major(t1, self.m12, self.m21, t2, self.m31, self.m32)
    }

    /// Returns the given point transformed by this matrix.
    pub fn transform_point(&self, point: &TypedPoint2D<T, Src>) -> (r: TypedPoint2D<T, Dst>)
        requires
            self@.transform_point_fits::<T>(point@),
        ensures
            r@ == self@.transform_point::<T>(point@),
    {
        let t1 = point.x.mul(self.m11);
        let t2 = point.y.mul(self.m21);
        let t3 = t1.add(t2);
        let t4 = t3.add(self.m31);
        let t5 = point.x.mul(self.m12);
        let t6 = point.y.mul(self.m22);
        let t7 = t5.add(t6);
        let t8 = t7.add(self.m32);
        TypedPoint2D::new(t4, t8)
    }

    /// Returns a rectangle that encompasses the result of transforming the given rectangle by this
    /// matrix: the least rectangle with edges along the axes that holds the
    /// four transformed corners.
    pub fn transform_rect(&self, rect: &TypedRect<T, Src>) -> (r: TypedRect<T, Dst>)
        requires
            rect@.spans::<T>(),
            self@.transform_point_fits::<T>(rect@.origin),
            self@.transform_point_fits::<T>(rect@.top_right()),
            self@.transform_point_fits::<T>(rect@.bottom_left()),
            self@.transform_point_fits::<T>(rect@.bottom_right()),
            forall|i: int, j: int|
                0 <= i < 4 && 0 <= j < 4 && self@.transform_corners::<T>(rect@)[i].x
                    >= self@.transform_corners::<T>(rect@)[j].x ==> fits::<T>(
                    #[trigger] self@.transform_corners::<T>(rect@)[i].x
                        - #[trigger] self@.transform_corners::<T>(rect@)[j].x,
                ),
            forall|i: int, j: int|
                0 <= i < 4 && 0 <= j < 4 && self@.transform_corners::<T>(rect@)[i].y
                    >= self@.transform_corners::<T>(rect@)[j].y ==> fits::<T>(
                    #[trigger] self@.transform_corners::<T>(rect@)[i].y
                        - #[trigger] self@.transform_corners::<T>(rect@)[j].y,
                ),
        ensures
            r@.bounds(self@.transform_corners::<T>(rect@)),
    {
        let top_left = self.transform_point(&rect.origin);
        let top_right = self.transform_point(&rect.top_right());
        let bottom_left = self.transform_point(&rect.bottom_left());
        let bottom_right = self.transform_point(&rect.bottom_right());
        let corners = [top_left, top_right, bottom_left, bottom_right];
        proof {
            let cs = self@.transform_corners::<T>(rect@);
            assert(views2(corners@) =~= cs);
            assert forall|i: int, j: int|
                0 <= i < corners@.len() && 0 <= j < corners@.len() && corners@[i]@.x
                    >= corners@[j]@.x implies fits::<T>(
                #[trigger] corners@[i]@.x - #[trigger] corners@[j]@.x,
            ) by {
                assert(corners@[i]@ == cs[i] && corners@[j]@ == cs[j]);
                assert(fits::<T>(cs[i].x - cs[j].x));
            }
            assert forall|i: int, j: int|
                0 <= i < corners@.len() && 0 <= j < corners@.len() && corners@[i]@.y
                    >= corners@[j]@.y implies fits::<T>(
                #[trigger] corners@[i]@.y - #[trigger] corners@[j]@.y,
            ) by {
                assert(corners@[i]@ == cs[i] && corners@[j]@ == cs[j]);
                assert(fits::<T>(cs[i].y - cs[j].y));
            }
        }
        TypedRect::from_points(corners.as_slice())
    }

    pub fn determinant(&self) -> (r: T)
        requires
            self@.determinant_fits::<T>(),
        ensures
            r.val() == self@.determinant::<T>(),
    {
        let t1 = self.m11.mul(self.m22);
        let t2 = self.m12.mul(self.m21);
        let t3 = t1.sub(t2);
        t3
    }

    /// Returns the inverse matrix if possible: there is none where the
    /// determinant is zero.
    pub fn inverse(&self) -> (r: Option<TypedMatrix2D<T, Dst, Src>>)
        requires
            self@.determinant_fits::<T>(),
            self@.determinant::<T>() != 0 ==> self@.inverse_fits::<T>(),
        ensures
            self@.determinant::<T>() == 0 ==> r.is_none(),
            self@.determinant::<T>() != 0 ==> r.is_some() && r.unwrap()@ == self@.inverse::<T>(),
    {
        let det = self.determinant();
        proof {
            T::lemma_units();
        }
        if det.eq(T::zero()) {
            return None;
        }
        proof {
            T::lemma_units();
        }
        let _0 = T::zero();
        let _1 = T::one();
        let t1 = _1.div(det);
        let t2 = t1.mul(self.m22);
        let t3 = _0.sub(self.m12);
        let t4 = t1.mul(t3);
        let t5 = _0.sub(self.m21);
        let t6 = t1.mul(t5);
        let t7 = t1.mul(self.m11);
        let t8 = self.m21.mul(self.m32);
        let t9 = self.m22.mul(self.m31);
        let t10 = t8.sub(t9);
        let t11 = t1.mul(t10);
        let t12 = self.m31.mul(self.m12);
        let t13 = self.m11.mul(self.m32);
        let t14 = t12.sub(t13);
        let t15 = t1.mul(t14);
        Some(TypedMatrix2D::row_major(t2, t4, t6, t7, t11, t15))
    }

    /// Returns the same matrix with a different destination unit.
    pub fn with_destination<NewDst>(&self) -> (r: TypedMatrix2D<T, Src, NewDst>)
        ensures
            r@ == self@,
    {
        TypedMatrix2D::row_major(self.m11, self.m12, self.m21, self.m22, self.m31, self.m32)
    }

    /// Returns the same matrix with a different source unit.
    pub fn with_source<NewSrc>(&self) -> (r: TypedMatrix2D<T, NewSrc, Dst>)
        ensures
            r@ == self@,
    {
        TypedMatrix2D::row_major(self.m11, self.m12, self.m21, self.m22, self.m31, self.m32)
    }

    /// Whether the two matrices are approximately equal: every term of the
    /// one differs from that of the other by less than the scalar's epsilon.
    pub fn approx_eq(&self, other: &Self) -> (b: bool)
        ensures
            b == self@.approx_eq::<T>(other@),
    {
        self.m11.approx_eq(other.m11) && self.m12.approx_eq(other.m12) && self.m21.approx_eq(
            other.m21,
        ) && self.m22.approx_eq(other.m22) && self.m31.approx_eq(other.m31) && self.m32.approx_eq(
            other.m32,
        )
    }

    /// Drop the units, preserving only the numeric value.
    pub fn to_untyped(&self) -> (r: Matrix2D<T>)
        ensures
            r@ == self@,
    {
        TypedMatrix2D::row_major(self.m11, self.m12, self.m21, self.m22, self.m31, self.m32)
    }

    /// Tag a unitless value with units.
    pub fn from_untyped(p: &Matrix2D<T>) -> (r: TypedMatrix2D<T, Src, Dst>)
        ensures
            r@ == p@,
    {
        TypedMatrix2D::row_major(p.m11, p.m12, p.m21, p.m22, p.m31, p.m32)
    }
}

/// The untyped matrix with the given terms, in row-major order.
#[allow(non_snake_case)]
pub fn Matrix2D<T: Copy>(m11: T, m12: T, m21: T, m22: T, m31: T, m32: T) -> (r: Matrix2D<T>)
    ensures
        r.m11 == m11,
        r.m12 == m12,
        r.m21 == m21,
        r.m22 == m22,
        r.m31 == m31,
        r.m32 == m32,
{
    TypedMatrix2D::row_major(m11, m12, m21, m22, m31, m32)
}

} // verus!
