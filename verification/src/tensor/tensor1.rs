//! Rank 1: a vector whose length is part of its type.

use vstd::prelude::*;
use vstd::pervasive::runtime_assert;
use vstd::std_specs::convert::FromSpec;
use vstd::std_specs::ops::AddSpec;
use vstd::std_specs::ops::AddSpecImpl;
use vstd::std_specs::ops::MulSpec;
use std::ops::Add;
use std::ops::Mul;
use crate::backend::AutoSelectBackend;
use crate::backend::Backend;
use crate::model::add1;
use crate::model::add1_req;
use crate::model::add1_scalar;
use crate::model::add1_scalar_req;
use crate::model::dot;
use crate::model::dot_req;
use crate::model::converts_to;
use crate::model::filled1;
use crate::model::sums1;
use crate::model::sums1_scalar;
use crate::tensor::Scalar;
use crate::tensor::Tensor;

verus! {

/// A vector of `D0` elements of type `T`, stored by the backend `B`.
#[derive(Debug)]
pub struct Tensor1<T, const D0: usize, B: Backend<T> = AutoSelectBackend> {
    pub(crate) repr: B::T1Repr,
    pub(crate) shape: usize,
}

impl<T, const D0: usize, B: Backend<T>> Clone for Tensor1<T, D0, B> where B::T1Repr: Clone {
    /// A copy with the same stored shape, whose data is the clone that
    /// the backend's representation makes of itself.
    fn clone(&self) -> (r: Self)
        ensures
            r.stored_shape() == self.stored_shape(),
    {
        Self { repr: self.repr.clone(), shape: self.shape }
    }
}

impl<T, const D0: usize, B: Backend<T>> View for Tensor1<T, D0, B> {
    type V = Seq<T>;

    /// The elements of the vector, in order.
    open(crate) spec fn view(&self) -> Seq<T> {
        B::t1_view(self.repr)
    }
}

impl<T, const D0: usize, B: Backend<T>> Tensor1<T, D0, B> {
    /// The shape that the vector carries at run time.
    pub open(crate) spec fn stored_shape(&self) -> usize {
        self.shape
    }

    /// The backend's representation of the elements.
    pub fn data(&self) -> (r: &B::T1Repr)
        ensures
            B::t1_view(*r) == self@,
    {
        &self.repr
    }

    /// The dot product of two vectors of one length: the sum of the
    /// pairwise products, accumulated from the converted 0.
    pub fn dot(self, other: Tensor1<T, D0, B>) -> (r: Scalar<T, B>) where
        T: From<u8> + Add<Output = T> + Mul<Output = T>,

        requires
            self.wf(),
            other.wf(),
            T::obeys_from_spec(),
            T::obeys_add_spec(),
            T::obeys_mul_spec(),
            dot_req(self@, other@),
        ensures
            r@ == dot(self@, other@),
    {
        runtime_assert(self.shape == other.shape);
        Scalar { repr: B::t1_t1_dot(self.repr, other.repr), shape: () }
    }

    /// The shape of a vector of length `d0`.
    pub fn construct_shape(d0: usize) -> (s: (usize, ))
        ensures
            s == (d0, ),
    {
        (d0, )
    }

    /// The extent of axis `i` after the axes of a vector of shape `d`
    /// have been permuted by `p`. A vector has one axis, so the only
    /// permutation is `(0,)`, and the extent is that of the vector.
    pub fn calculate_permute(p: (usize, ), d: (usize, ), i: usize) -> (r: usize)
        requires
            p.0 == 0,
            i == 0 || i == 1,
        ensures
            r == d.0,
    {
        d.0
    }

    /// Permutes the one axis of the vector by the only permutation there
    /// is: the result is the vector itself.
    pub fn permute<const AX0: usize>(self) -> (r: Tensor1<T, D0, B>)
        requires
            AX0 == 0,
        ensures
            r == self,
    {
        runtime_assert(AX0 == 0);
        self
    }
}

impl<T, const D0: usize, B: Backend<T>> Tensor for Tensor1<T, D0, B> {
    type Shape = usize;

    type DataType = T;

    open spec fn wf(&self) -> bool {
        &&& self.stored_shape() == D0
        &&& self@.len() == D0
    }

    open spec fn extents() -> Self::Shape {
        D0
    }

    open spec fn all_eq(&self, x: T) -> bool {
        self@ == filled1(x, D0 as nat)
    }

    fn shape(&self) -> (s: Self::Shape) {
        self.shape
    }

    fn zeros() -> (r: Self) where Self::DataType: From<u8> + Copy {
        let r = Self { repr: B::t1_zeros(D0), shape: D0 };
        proof {
            let z = choose|z: T| converts_to(0u8, z) && r@ == filled1(z, D0 as nat);
            assert(converts_to(0u8, z) && r.all_eq(z));
        }
        r
    }

    fn ones() -> (r: Self) where Self::DataType: From<u8> + Copy {
        let r = Self { repr: B::t1_ones(D0), shape: D0 };
        proof {
            let o = choose|o: T| converts_to(1u8, o) && r@ == filled1(o, D0 as nat);
            assert(converts_to(1u8, o) && r.all_eq(o));
        }
        r
    }
}

impl<T, const D0: usize, B: Backend<T>> AddSpecImpl<Scalar<T, B>> for Tensor1<T, D0, B> where
    T: Add<Output = T> + Copy,
 {
    /// The sum is specified by its view, in the contract of `add`: which
    /// representation of it the backend returns is the backend's to choose.
    open spec fn obeys_add_spec() -> bool {
        false
    }

    open spec fn add_req(self, other: Scalar<T, B>) -> bool {
        self.wf() && add1_scalar_req(self@, other@)
    }

    open spec fn add_spec(self, other: Scalar<T, B>) -> Self {
        arbitrary()
    }
}

impl<T, const D0: usize, B: Backend<T>> Add<Scalar<T, B>> for Tensor1<T, D0, B> where
    T: Add<Output = T> + Copy,
 {
    type Output = Self;

    /// The vector with the scalar added to each element.
    fn add(self, other: Scalar<T, B>) -> (r: Self)
        ensures
            r.wf(),
            sums1_scalar(self@, other@, r@),
            T::obeys_add_spec() ==> r@ == add1_scalar(self@, other@),
    {
        Self { repr: B::t1_t0_add(self.repr, other.repr), shape: D0 }
    }
}

impl<T, const D0: usize, B: Backend<T>> AddSpecImpl for Tensor1<T, D0, B> where T: Add<Output = T> {
    /// The sum is specified by its view, in the contract of `add`: which
    /// representation of it the backend returns is the backend's to choose.
    open spec fn obeys_add_spec() -> bool {
        false
    }

    open spec fn add_req(self, other: Self) -> bool {
        self.wf() && other.wf() && add1_req(self@, other@)
    }

    open spec fn add_spec(self, other: Self) -> Self {
        arbitrary()
    }
}

impl<T, const D0: usize, B: Backend<T>> Add for Tensor1<T, D0, B> where T: Add<Output = T> {
    type Output = Self;

    /// The elementwise sum of two vectors of one length.
    fn add(self, other: Self) -> (r: Self)
        ensures
            r.wf(),
            sums1(self@, other@, r@),
            T::obeys_add_spec() ==> r@ == add1(self@, other@),
    {
        Self { repr: B::t1_t1_add(self.repr, other.repr), shape: D0 }
    }
}

} // verus!
