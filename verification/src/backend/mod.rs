//! The contract between the tensor types and the numeric kernels beneath
//! them.

use vstd::prelude::*;
use vstd::std_specs::convert::FromSpec;
use vstd::std_specs::ops::AddSpec;
use vstd::std_specs::ops::MulSpec;
use std::ops::Add;
use std::ops::Mul;
use crate::model::add1;
use crate::model::add1_req;
use crate::model::add1_scalar;
use crate::model::add1_scalar_req;
use crate::model::add2;
use crate::model::add2_along0;
use crate::model::add2_along0_req;
use crate::model::add2_along1;
use crate::model::add2_along1_req;
use crate::model::add2_req;
use crate::model::add2_scalar;
use crate::model::add2_scalar_req;
use crate::model::converts_to;
use crate::model::diagonal;
use crate::model::dot;
use crate::model::dot_req;
use crate::model::filled1;
use crate::model::filled2;
use crate::model::filled3;
use crate::model::identity_matrix;
use crate::model::is_cube;
use crate::model::is_matrix;
use crate::model::is_perm3;
use crate::model::matmul;
use crate::model::matmul_req;
use crate::model::one;
use crate::model::sum_of;
use crate::model::sums1;
use crate::model::sums1_scalar;
use crate::model::sums2;
use crate::model::sums2_along0;
use crate::model::sums2_along1;
use crate::model::sums2_scalar;
use crate::model::permuted3;
use crate::model::transposed;
use crate::model::zero;
use crate::tensor::Dimension;
use crate::tensor::Index;

pub mod basic;

verus! {

/// The backend that the tensor types use unless told otherwise.
pub type AutoSelectBackend = basic::Backend;

/// Storage and kernels for tensors of rank 0 to 3 with elements of type
/// `T`.
///
/// A backend knows nothing of static shapes: it takes extents as runtime
/// integers and relies on its caller for the shape conditions that its
/// kernels require. Each representation has a view, the mathematical
/// value it stands for, and every kernel is specified over views.
///
/// Where a kernel converts an integer or adds elements, its contract
/// says of every element type which conversion or addition each element
/// of the result came from, and gives the result as a value for element
/// types whose conversion and addition obey their own specifications.
/// The kernels that accumulate products ask for such an element type.
pub trait Backend<T> {
    type T0Repr;

    type T1Repr;

    type T2Repr;

    type T3Repr;

    /// The element that a rank-0 representation holds.
    spec fn t0_view(r: Self::T0Repr) -> T;

    /// The elements that a rank-1 representation holds.
    spec fn t1_view(r: Self::T1Repr) -> Seq<T>;

    /// The rows that a rank-2 representation holds.
    spec fn t2_view(r: Self::T2Repr) -> Seq<Seq<T>>;

    /// The blocks of rows that a rank-3 representation holds.
    spec fn t3_view(r: Self::T3Repr) -> Seq<Seq<Seq<T>>>;

    /// The converted 0.
    fn t0_zero() -> (r: Self::T0Repr) where T: From<u8>
        ensures
            converts_to(0u8, Self::t0_view(r)),
            T::obeys_from_spec() ==> Self::t0_view(r) == zero::<T>(),
    ;

    /// The converted 1.
    fn t0_one() -> (r: Self::T0Repr) where T: From<u8>
        ensures
            converts_to(1u8, Self::t0_view(r)),
            T::obeys_from_spec() ==> Self::t0_view(r) == one::<T>(),
    ;

    /// The vector of `d0` elements, each the converted 0.
    fn t1_zeros(d0: Index) -> (r: Self::T1Repr) where T: From<u8> + Copy
        ensures
            exists|z: T| converts_to(0u8, z) && Self::t1_view(r) == filled1(z, d0 as nat),
            T::obeys_from_spec() ==> Self::t1_view(r) == filled1(zero::<T>(), d0 as nat),
    ;

    /// The vector of `d0` elements, each the converted 1.
    fn t1_ones(d0: Index) -> (r: Self::T1Repr) where T: From<u8> + Copy
        ensures
            exists|o: T| converts_to(1u8, o) && Self::t1_view(r) == filled1(o, d0 as nat),
            T::obeys_from_spec() ==> Self::t1_view(r) == filled1(one::<T>(), d0 as nat),
    ;

    /// The `d0` by `d1` matrix of elements that are each the converted 0.
    fn t2_zeros(d0: Index, d1: Index) -> (r: Self::T2Repr) where T: From<u8> + Copy
        ensures
            exists|z: T|
                converts_to(0u8, z) && Self::t2_view(r) == filled2(z, d0 as nat, d1 as nat),
            T::obeys_from_spec() ==> Self::t2_view(r) == filled2(
                zero::<T>(),
                d0 as nat,
                d1 as nat,
            ),
    ;

    /// The `d0` by `d1` matrix of elements that are each the converted 1.
    fn t2_ones(d0: Index, d1: Index) -> (r: Self::T2Repr) where T: From<u8> + Copy
        ensures
            exists|o: T|
                converts_to(1u8, o) && Self::t2_view(r) == filled2(o, d0 as nat, d1 as nat),
            T::obeys_from_spec() ==> Self::t2_view(r) == filled2(one::<T>(), d0 as nat, d1 as nat),
    ;

    /// The `d0` by `d1` by `d2` tensor of elements that are each the
    /// converted 1.
    fn t3_ones(d0: Index, d1: Index, d2: Index) -> (r: Self::T3Repr) where T: From<u8> + Copy
        ensures
            exists|o: T|
                converts_to(1u8, o) && Self::t3_view(r) == filled3(
                    o,
                    d0 as nat,
                    d1 as nat,
                    d2 as nat,
                ),
            T::obeys_from_spec() ==> Self::t3_view(r) == filled3(
                one::<T>(),
                d0 as nat,
                d1 as nat,
                d2 as nat,
            ),
    ;

    /// The `d0` by `d1` by `d2` tensor of elements that are each the
    /// converted 0.
    fn t3_zeros(d0: Index, d1: Index, d2: Index) -> (r: Self::T3Repr) where T: From<u8> + Copy
        ensures
            exists|z: T|
                converts_to(0u8, z) && Self::t3_view(r) == filled3(
                    z,
                    d0 as nat,
                    d1 as nat,
                    d2 as nat,
                ),
            T::obeys_from_spec() ==> Self::t3_view(r) == filled3(
                zero::<T>(),
                d0 as nat,
                d1 as nat,
                d2 as nat,
            ),
    ;

    /// The square matrix of extent `d` with ones on the main diagonal and
    /// zeros elsewhere.
    fn t2_identity(d: Index) -> (r: Self::T2Repr) where T: From<u8> + Copy
        ensures
            exists|o: T, z: T|
                converts_to(1u8, o) && converts_to(0u8, z) && Self::t2_view(r) == diagonal(
                    o,
                    z,
                    d as nat,
                ),
            T::obeys_from_spec() ==> Self::t2_view(r) == identity_matrix::<T>(d as nat),
    ;

    /// Swaps the two axes of a matrix that has at least one row.
    fn t2_transpose(a: Self::T2Repr) -> (r: Self::T2Repr) where T: From<u8> + Copy
        requires
            Self::t2_view(a).len() > 0,
            is_matrix(Self::t2_view(a), Self::t2_view(a).len(), Self::t2_view(a)[0].len()),
        ensures
            Self::t2_view(r) == transposed(
                Self::t2_view(a),
                Self::t2_view(a).len(),
                Self::t2_view(a)[0].len(),
            ),
    ;

    /// Rearranges the axes of a rank-3 tensor that has at least one block
    /// and one row per block: output axis `i` is input axis `p.i`.
    fn t3_permute(a: Self::T3Repr, p: (Dimension, Dimension, Dimension)) -> (r:
        Self::T3Repr) where T: From<u8> + Copy
        requires
            is_perm3(p),
            Self::t3_view(a).len() > 0,
            Self::t3_view(a)[0].len() > 0,
            is_cube(
                Self::t3_view(a),
                Self::t3_view(a).len(),
                Self::t3_view(a)[0].len(),
                Self::t3_view(a)[0][0].len(),
            ),
        ensures
            Self::t3_view(r) == permuted3(
                Self::t3_view(a),
                p,
                (Self::t3_view(a).len(), Self::t3_view(a)[0].len(), Self::t3_view(a)[0][0].len()),
            ),
    ;

    /// The sum of two scalars.
    fn t0_t0_add(a: Self::T0Repr, b: Self::T0Repr) -> (r: Self::T0Repr) where T: Add<Output = T>
        requires
            Self::t0_view(a).add_req(Self::t0_view(b)),
        ensures
            sum_of(Self::t0_view(a), Self::t0_view(b), Self::t0_view(r)),
            T::obeys_add_spec() ==> Self::t0_view(r) == Self::t0_view(a).add_spec(
                Self::t0_view(b),
            ),
    ;

    /// Adds the scalar `b` to each element of the vector `a`.
    fn t1_t0_add(a: Self::T1Repr, b: Self::T0Repr) -> (r: Self::T1Repr) where
        T: Add<Output = T> + Copy,

        requires
            add1_scalar_req(Self::t1_view(a), Self::t0_view(b)),
        ensures
            sums1_scalar(Self::t1_view(a), Self::t0_view(b), Self::t1_view(r)),
            T::obeys_add_spec() ==> Self::t1_view(r) == add1_scalar(
                Self::t1_view(a),
                Self::t0_view(b),
            ),
    ;

    /// Adds two vectors of one length element by element.
    fn t1_t1_add(a: Self::T1Repr, b: Self::T1Repr) -> (r: Self::T1Repr) where T: Add<Output = T>
        requires
            Self::t1_view(a).len() == Self::t1_view(b).len(),
            add1_req(Self::t1_view(a), Self::t1_view(b)),
        ensures
            sums1(Self::t1_view(a), Self::t1_view(b), Self::t1_view(r)),
            T::obeys_add_spec() ==> Self::t1_view(r) == add1(Self::t1_view(a), Self::t1_view(b)),
    ;

    /// Adds the scalar `b` to each element of the matrix `a`.
    fn t2_t0_add(a: Self::T2Repr, b: Self::T0Repr) -> (r: Self::T2Repr) where
        T: Add<Output = T> + Copy,

        requires
            add2_scalar_req(Self::t2_view(a), Self::t0_view(b)),
        ensures
            sums2_scalar(Self::t2_view(a), Self::t0_view(b), Self::t2_view(r)),
            T::obeys_add_spec() ==> Self::t2_view(r) == add2_scalar(
                Self::t2_view(a),
                Self::t0_view(b),
            ),
    ;

    /// Adds the vector `b` to the matrix `a` along one axis. Along axis 0
    /// the vector has one element per row, added to each element of that
    /// row; along axis 1 it is as long as each row and is added to each
    /// row element by element.
    fn t2_t1_add(a: Self::T2Repr, b: Self::T1Repr, along: Dimension) -> (r: Self::T2Repr) where
        T: Add<Output = T> + Copy,

        requires
            along == 0 || along == 1,
            along == 0 ==> Self::t2_view(a).len() == Self::t1_view(b).len() && add2_along0_req(
                Self::t2_view(a),
                Self::t1_view(b),
            ),
            along == 1 ==> is_matrix(
                Self::t2_view(a),
                Self::t2_view(a).len(),
                Self::t1_view(b).len(),
            ) && add2_along1_req(Self::t2_view(a), Self::t1_view(b)),
        ensures
            along == 0 ==> sums2_along0(Self::t2_view(a), Self::t1_view(b), Self::t2_view(r)),
            along == 1 ==> sums2_along1(Self::t2_view(a), Self::t1_view(b), Self::t2_view(r)),
            T::obeys_add_spec() && along == 0 ==> Self::t2_view(r) == add2_along0(
                Self::t2_view(a),
                Self::t1_view(b),
            ),
            T::obeys_add_spec() && along == 1 ==> Self::t2_view(r) == add2_along1(
                Self::t2_view(a),
                Self::t1_view(b),
            ),
    ;

    /// Adds two matrices of one shape element by element.
    fn t2_t2_add(a: Self::T2Repr, b: Self::T2Repr) -> (r: Self::T2Repr) where T: Add<Output = T>
        requires
            Self::t2_view(a).len() == Self::t2_view(b).len(),
            forall|i: int|
                0 <= i < Self::t2_view(a).len() ==> (#[trigger] Self::t2_view(a)[i]).len()
                    == Self::t2_view(b)[i].len(),
            add2_req(Self::t2_view(a), Self::t2_view(b)),
        ensures
            sums2(Self::t2_view(a), Self::t2_view(b), Self::t2_view(r)),
            T::obeys_add_spec() ==> Self::t2_view(r) == add2(Self::t2_view(a), Self::t2_view(b)),
    ;

    /// The dot product of two vectors of one length.
    fn t1_t1_dot(a: Self::T1Repr, b: Self::T1Repr) -> (r: Self::T0Repr) where
        T: Add<Output = T> + Mul<Output = T> + From<u8>,

        requires
            Self::t1_view(a).len() == Self::t1_view(b).len(),
            T::obeys_from_spec(),
            T::obeys_add_spec(),
            T::obeys_mul_spec(),
            dot_req(Self::t1_view(a), Self::t1_view(b)),
        ensures
            Self::t0_view(r) == dot(Self::t1_view(a), Self::t1_view(b)),
    ;

    /// The product of an `m` by `k` matrix and a `k` by `n` matrix, with
    /// `k` at least 1.
    fn t2_t2_matmul(a: Self::T2Repr, b: Self::T2Repr) -> (r: Self::T2Repr) where
        T: Add<Output = T> + Mul<Output = T> + From<u8> + Copy,

        requires
            Self::t2_view(b).len() > 0,
            is_matrix(Self::t2_view(a), Self::t2_view(a).len(), Self::t2_view(b).len()),
            is_matrix(Self::t2_view(b), Self::t2_view(b).len(), Self::t2_view(b)[0].len()),
            T::obeys_from_spec(),
            T::obeys_add_spec(),
            T::obeys_mul_spec(),
            matmul_req(Self::t2_view(a), Self::t2_view(b), Self::t2_view(b)[0].len()),
        ensures
            Self::t2_view(r) == matmul(
                Self::t2_view(a),
                Self::t2_view(b),
                Self::t2_view(b)[0].len(),
            ),
    ;
}

} // verus!
