//! Rank 2: a matrix whose two extents are part of its type.

use vstd::prelude::*;
use vstd::pervasive::runtime_assert;
use vstd::pervasive::unreached;
use vstd::std_specs::convert::FromSpec;
use vstd::std_specs::ops::AddSpec;
use vstd::std_specs::ops::AddSpecImpl;
use vstd::std_specs::ops::MulSpec;
use std::ops::Add;
use std::ops::Mul;
use crate::backend::AutoSelectBackend;
use crate::backend::Backend;
use crate::model::add2;
use crate::model::add2_along1;
use crate::model::add2_along1_req;
use crate::model::add2_req;
use crate::model::add2_scalar;
use crate::model::add2_scalar_req;
use crate::model::converts_to;
use crate::model::diagonal;
use crate::model::filled2;
use crate::model::identity_matrix;
use crate::model::is_matrix;
use crate::model::is_perm2;
use crate::model::matmul;
use crate::model::matmul_req;
use crate::model::permuted2;
use crate::model::permuted_extent2;
use crate::model::sums2;
use crate::model::sums2_along1;
use crate::model::sums2_scalar;
use crate::tensor::Scalar;
use crate::tensor::Tensor;
use crate::tensor::Vector;

verus! {

/// A matrix of `D0` rows and `D1` columns with elements of type `T`,
/// stored by the backend `B`.
#[derive(Debug)]
pub struct Tensor2<T, const D0: usize, const D1: usize, B: Backend<T> = AutoSelectBackend> {
    pub(crate) repr: B::T2Repr,
    pub(crate) shape: (usize, usize),
}

impl<T, const D0: usize, const D1: usize, B: Backend<T>> Clone for Tensor2<T, D0, D1, B> where B::T2Repr: Clone {
    /// A copy with the same stored shape, whose data is the clone that
    /// the backend's representation makes of itself.
    fn clone(&self) -> (r: Self)
        ensures
            r.stored_shape() == self.stored_shape(),
    {
        Self { repr: self.repr.clone(), shape: self.shape }
    }
}

impl<T, const D0: usize, const D1: usize, B: Backend<T>> View for Tensor2<T, D0, D1, B> {
    type V = Seq<Seq<T>>;

    /// The rows of the matrix, in order.
    open(crate) spec fn view(&self) -> Seq<Seq<T>> {
        B::t2_view(self.repr)
    }
}

impl<T, const D: usize, B: Backend<T>> Tensor2<T, D, D, B> {
    /// The square matrix with the converted 1 on the main diagonal and
    /// the converted 0 everywhere else.
    pub fn identity() -> (r: Self) where T: From<u8> + Copy
        ensures
            r.wf(),
            exists|o: T, z: T|
                converts_to(1u8, o) && converts_to(0u8, z) && r@ == diagonal(o, z, D as nat),
            T::obeys_from_spec() ==> r@ == identity_matrix::<T>(D as nat),
    {
        Self { repr: B::t2_identity(D), shape: (D, D) }
    }
}

impl<T, const D0: usize, const D1: usize, B: Backend<T>> Tensor2<T, D0, D1, B> {
    /// The shape that the matrix carries at run time.
    pub open(crate) spec fn stored_shape(&self) -> (usize, usize) {
        self.shape
    }

    /// The backend's representation of the rows.
    pub fn data(&self) -> (r: &B::T2Repr)
        ensures
            B::t2_view(*r) == self@,
    {
        &self.repr
    }

    /// The shape of a matrix of `d0` rows and `d1` columns.
    pub fn construct_shape(d0: usize, d1: usize) -> (s: (usize, usize))
        ensures
            s == (d0, d1),
    {
        (d0, d1)
    }

    /// The extent of axis `i` after the axes of a matrix of shape `d`
    /// have been permuted by `p`, where output axis `i` is input axis
    /// `p.i`. The two permutations are `(0, 1)` and `(1, 0)`.
    pub fn calculate_permute(p: (usize, usize), d: (usize, usize), i: usize) -> (r: usize)
        requires
            is_perm2(p),
            i < 2,
        ensures
            r == permuted_extent2(p, d, i as int),
    {
        match (p.0, p.1, i) {
            (0, 1, 0) => d.0,
            (0, 1, 1) => d.1,
            (1, 0, 0) => d.1,
            (1, 0, 1) => d.0,
            _ => unreached(),
        }
    }

    /// Permutes the axes of the matrix by `(AX0, AX1)`: `(0, 1)` keeps the
    /// matrix as it is, `(1, 0)` transposes it. `E0` and `E1` are the
    /// extents of the result, which `calculate_permute` gives.
    pub fn permute<const AX0: usize, const AX1: usize, const E0: usize, const E1: usize>(self) -> (r:
        Tensor2<T, E0, E1, B>) where T: From<u8> + Copy
        requires
            self.wf(),
            is_perm2((AX0, AX1)),
            E0 == permuted_extent2((AX0, AX1), (D0, D1), 0),
            E1 == permuted_extent2((AX0, AX1), (D0, D1), 1),
        ensures
            r.wf(),
            r@ == permuted2(self@, (AX0, AX1), (D0 as nat, D1 as nat)),
    {
        let shape = (
            Self::calculate_permute((AX0, AX1), (D0, D1), 0),
            Self::calculate_permute((AX0, AX1), (D0, D1), 1),
        );
        runtime_assert(shape.0 == E0 && shape.1 == E1);
        if AX0 == 0 {
            Tensor2 { repr: self.repr, shape }
        } else if D0 == 0 {
            // The backend reads the width off the first row; without rows
            // the transpose is `D1` empty rows.
            let r = Tensor2 { repr: B::t2_zeros(D1, 0), shape };
            assert(r@ =~~= permuted2(self@, (AX0, AX1), (D0 as nat, D1 as nat)));
            r
        } else {
            Tensor2 { repr: B::t2_transpose(self.repr), shape }
        }
    }

    /// The product of this matrix and `other`, whose number of rows is
    /// this matrix's number of columns. Each element of the result is the
    /// dot product of a row of this matrix and a column of `other`,
    /// accumulated from the converted 0.
    pub fn matmul<const OD1: usize>(self, other: Tensor2<T, D1, OD1, B>) -> (r: Tensor2<
        T,
        D0,
        OD1,
        B,
    >) where T: Add<Output = T> + Mul<Output = T> + From<u8> + Copy
        requires
            self.wf(),
            other.wf(),
            T::obeys_from_spec(),
            T::obeys_add_spec(),
            T::obeys_mul_spec(),
            matmul_req(self@, other@, OD1 as nat),
        ensures
            r.wf(),
            r@ == matmul(self@, other@, OD1 as nat),
    {
        runtime_assert(self.shape.1 == other.shape.0);
        if D1 == 0 {
            // Without an inner axis every dot product is the empty sum.
            let r = Tensor2 { repr: B::t2_zeros(D0, OD1), shape: (D0, OD1) };
            assert(r@ =~~= matmul(self@, other@, OD1 as nat));
            r
        } else {
            Tensor2 { repr: B::t2_t2_matmul(self.repr, other.repr), shape: (D0, OD1) }
        }
    }
}

impl<T, const D0: usize, const D1: usize, B: Backend<T>> Tensor for Tensor2<T, D0, D1, B> {
    type Shape = (usize, usize);

    type DataType = T;

    open spec fn wf(&self) -> bool {
        &&& self.stored_shape() == (D0, D1)
        &&& is_matrix(self@, D0 as nat, D1 as nat)
    }

    open spec fn extents() -> Self::Shape {
        (D0, D1)
    }

    open spec fn all_eq(&self, x: T) -> bool {
        self@ == filled2(x, D0 as nat, D1 as nat)
    }

    fn shape(&self) -> (s: Self::Shape) {
        self.shape
    }

    fn zeros() -> (r: Self) where Self::DataType: From<u8> + Copy {
        let r = Self { repr: B::t2_zeros(D0, D1), shape: (D0, D1) };
        proof {
            let z = choose|z: T| converts_to(0u8, z) && r@ == filled2(z, D0 as nat, D1 as nat);
            assert(converts_to(0u8, z) && r.all_eq(z));
        }
        r
    }

    fn ones() -> (r: Self) where Self::DataType: From<u8> + Copy {
        let r = Self { repr: B::t2_ones(D0, D1), shape: (D0, D1) };
        proof {
            let o = choose|o: T| converts_to(1u8, o) && r@ == filled2(o, D0 as nat, D1 as nat);
            assert(converts_to(1u8, o) && r.all_eq(o));
        }
        r
    }
}

impl<T, const D0: usize, const D1: usize, B: Backend<T>> AddSpecImpl<Scalar<T, B>> for Tensor2<T, D0, D1, B> where T: Add<Output = T> + Copy {
    /// The sum is specified by its view, in the contract of `add`: which
    /// representation of it the backend returns is the backend's to choose.
    open spec fn obeys_add_spec() -> bool {
        false
    }

    open spec fn add_req(self, other: Scalar<T, B>) -> bool {
        self.wf() && add2_scalar_req(self@, other@)
    }

    open spec fn add_spec(self, other: Scalar<T, B>) -> Self {
        arbitrary()
    }
}

impl<T, const D0: usize, const D1: usize, B: Backend<T>> Add<Scalar<T, B>> for Tensor2<T, D0, D1, B> where T: Add<Output = T> + Copy {
    type Output = Self;

    /// The matrix with the scalar added to each element.
    fn add(self, other: Scalar<T, B>) -> (r: Self)
        ensures
            r.wf(),
            sums2_scalar(self@, other@, r@),
            T::obeys_add_spec() ==> r@ == add2_scalar(self@, other@),
    {
        Self { repr: B::t2_t0_add(self.repr, other.repr), shape: self.shape }
    }
}

impl<T, const D0: usize, const D1: usize, B: Backend<T>> AddSpecImpl<Vector<T, D1, B>> for Tensor2<T, D0, D1, B> where T: Add<Output = T> + Copy {
    /// The sum is specified by its view, in the contract of `add`: which
    /// representation of it the backend returns is the backend's to choose.
    open spec fn obeys_add_spec() -> bool {
        false
    }

    open spec fn add_req(self, other: Vector<T, D1, B>) -> bool {
        self.wf() && other.wf() && add2_along1_req(self@, other@)
    }

    open spec fn add_spec(self, other: Vector<T, D1, B>) -> Self {
        arbitrary()
    }
}

/// A vector is added along the trailing axis only: it must be as long as
/// a row. To add one along the leading axis, transpose the matrix, add,
/// and transpose back.
impl<T, const D0: usize, const D1: usize, B: Backend<T>> Add<Vector<T, D1, B>> for Tensor2<T, D0, D1, B> where T: Add<Output = T> + Copy {
    type Output = Self;

    /// The matrix with the vector added to each row, element by element.
    fn add(self, other: Vector<T, D1, B>) -> (r: Self)
        ensures
            r.wf(),
            sums2_along1(self@, other@, r@),
            T::obeys_add_spec() ==> r@ == add2_along1(self@, other@),
    {
        Self { repr: B::t2_t1_add(self.repr, other.repr, 1), shape: self.shape }
    }
}

impl<T, const D0: usize, const D1: usize, B: Backend<T>> AddSpecImpl for Tensor2<T, D0, D1, B> where T: Add<Output = T> {
    /// The sum is specified by its view, in the contract of `add`: which
    /// representation of it the backend returns is the backend's to choose.
    open spec fn obeys_add_spec() -> bool {
        false
    }

    open spec fn add_req(self, other: Self) -> bool {
        self.wf() && other.wf() && add2_req(self@, other@)
    }

    open spec fn add_spec(self, other: Self) -> Self {
        arbitrary()
    }
}

impl<T, const D0: usize, const D1: usize, B: Backend<T>> Add for Tensor2<T, D0, D1, B> where T: Add<Output = T> {
    type Output = Self;

    /// The elementwise sum of two matrices of one shape.
    fn add(self, other: Self) -> (r: Self)
        ensures
            r.wf(),
            sums2(self@, other@, r@),
            T::obeys_add_spec() ==> r@ == add2(self@, other@),
    {
        runtime_assert(self.shape.0 == other.shape.0 && self.shape.1 == other.shape.1);
        Self { repr: B::t2_t2_add(self.repr, other.repr), shape: self.shape }
    }
}

} // verus!
