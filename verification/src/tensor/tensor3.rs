//! Rank 3: a tensor whose three extents are part of its type.

use vstd::prelude::*;
use vstd::pervasive::runtime_assert;
use vstd::pervasive::unreached;
use crate::backend::AutoSelectBackend;
use crate::backend::Backend;
use crate::model::converts_to;
use crate::model::filled3;
use crate::model::is_cube;
use crate::model::is_matrix;
use crate::model::is_perm3;
use crate::model::permuted3;
use crate::model::permuted_extent3;
use crate::tensor::Tensor;

verus! {

/// A tensor of `D0` blocks of `D1` rows of `D2` elements of type `T`,
/// stored by the backend `B`.
#[derive(Debug)]
pub struct Tensor3<
    T,
    const D0: usize,
    const D1: usize,
    const D2: usize,
    B: Backend<T> = AutoSelectBackend,
> {
    pub(crate) repr: B::T3Repr,
    pub(crate) shape: (usize, usize, usize),
}

impl<T, const D0: usize, const D1: usize, const D2: usize, B: Backend<T>> Clone for Tensor3<T, D0, D1, D2, B> where B::T3Repr: Clone {
    /// A copy with the same stored shape, whose data is the clone that
    /// the backend's representation makes of itself.
    fn clone(&self) -> (r: Self)
        ensures
            r.stored_shape() == self.stored_shape(),
    {
        Self { repr: self.repr.clone(), shape: self.shape }
    }
}

impl<T, const D0: usize, const D1: usize, const D2: usize, B: Backend<T>> View for Tensor3<
    T,
    D0,
    D1,
    D2,
    B,
> {
    type V = Seq<Seq<Seq<T>>>;

    /// The blocks of the tensor, in order, each a sequence of rows.
    open(crate) spec fn view(&self) -> Seq<Seq<Seq<T>>> {
        B::t3_view(self.repr)
    }
}

impl<T, const D0: usize, const D1: usize, const D2: usize, B: Backend<T>> Tensor3<
    T,
    D0,
    D1,
    D2,
    B,
> {
    /// The shape that the tensor carries at run time.
    pub open(crate) spec fn stored_shape(&self) -> (usize, usize, usize) {
        self.shape
    }

    /// The backend's representation of the blocks.
    pub fn data(&self) -> (r: &B::T3Repr)
        ensures
            B::t3_view(*r) == self@,
    {
        &self.repr
    }

    /// The shape of a tensor of extents `d0`, `d1` and `d2`.
    pub fn construct_shape(d0: usize, d1: usize, d2: usize) -> (s: (usize, usize, usize))
        ensures
            s == (d0, d1, d2),
    {
        (d0, d1, d2)
    }

    /// The extent of axis `i` after the axes of a tensor of shape `d`
    /// have been permuted by `p`, where output axis `i` is input axis
    /// `p.i`. Each of the six orders of the axes 0, 1 and 2 is a
    /// permutation.
    pub fn calculate_permute(
        p: (usize, usize, usize),
        d: (usize, usize, usize),
        i: usize,
    ) -> (r: usize)
        requires
            is_perm3(p),
            i < 3,
        ensures
            r == permuted_extent3(p, d, i as int),
    {
        match (p.0, p.1, p.2, i) {
            (0, 1, 2, 0) => d.0,
            (0, 1, 2, 1) => d.1,
            (0, 1, 2, 2) => d.2,
            (0, 2, 1, 0) => d.0,
            (0, 2, 1, 1) => d.2,
            (0, 2, 1, 2) => d.1,
            (1, 0, 2, 0) => d.1,
            (1, 0, 2, 1) => d.0,
            (1, 0, 2, 2) => d.2,
            (1, 2, 0, 0) => d.1,
            (1, 2, 0, 1) => d.2,
            (1, 2, 0, 2) => d.0,
            (2, 0, 1, 0) => d.2,
            (2, 0, 1, 1) => d.0,
            (2, 0, 1, 2) => d.1,
            (2, 1, 0, 0) => d.2,
            (2, 1, 0, 1) => d.1,
            (2, 1, 0, 2) => d.0,
            _ => unreached(),
        }
    }

    /// Permutes the axes of the tensor by `(AX0, AX1, AX2)`: output axis `i`
    /// is input axis `AXi`. `E0`, `E1` and `E2` are the extents of the
    /// result, which `calculate_permute` gives.
    pub fn permute<
        const AX0: usize,
        const AX1: usize,
        const AX2: usize,
        const E0: usize,
        const E1: usize,
        const E2: usize,
    >(self) -> (r: Tensor3<T, E0, E1, E2, B>) where T: From<u8> + Copy
        requires
            self.wf(),
            is_perm3((AX0, AX1, AX2)),
            E0 == permuted_extent3((AX0, AX1, AX2), (D0, D1, D2), 0),
            E1 == permuted_extent3((AX0, AX1, AX2), (D0, D1, D2), 1),
            E2 == permuted_extent3((AX0, AX1, AX2), (D0, D1, D2), 2),
        ensures
            r.wf(),
            r@ == permuted3(self@, (AX0, AX1, AX2), (D0 as nat, D1 as nat, D2 as nat)),
    {
        let shape = (
            Self::calculate_permute((AX0, AX1, AX2), (D0, D1, D2), 0),
            Self::calculate_permute((AX0, AX1, AX2), (D0, D1, D2), 1),
            Self::calculate_permute((AX0, AX1, AX2), (D0, D1, D2), 2),
        );
        runtime_assert(shape.0 == E0 && shape.1 == E1 && shape.2 == E2);
        if D0 == 0 || D1 == 0 {
            // The backend reads the extents off the first block and its
            // first row; without them the result holds no element.
            let r = Tensor3 { repr: B::t3_zeros(E0, E1, E2), shape };
            assert(r@ =~~= permuted3(self@, (AX0, AX1, AX2), (D0 as nat, D1 as nat, D2 as nat)));
            r
        } else {
            assert(is_matrix(self@[0], D1 as nat, D2 as nat));
            let r = Tensor3 { repr: B::t3_permute(self.repr, (AX0, AX1, AX2)), shape };
            assert(r@ =~~= permuted3(self@, (AX0, AX1, AX2), (D0 as nat, D1 as nat, D2 as nat)));
            r
        }
    }
}

impl<T, const D0: usize, const D1: usize, const D2: usize, B: Backend<T>> Tensor for Tensor3<
    T,
    D0,
    D1,
    D2,
    B,
> {
    type Shape = (usize, usize, usize);

    type DataType = T;

    open spec fn wf(&self) -> bool {
        &&& self.stored_shape() == (D0, D1, D2)
        &&& is_cube(self@, D0 as nat, D1 as nat, D2 as nat)
    }

    open spec fn extents() -> Self::Shape {
        (D0, D1, D2)
    }

    open spec fn all_eq(&self, x: T) -> bool {
        self@ == filled3(x, D0 as nat, D1 as nat, D2 as nat)
    }

    fn shape(&self) -> (s: Self::Shape) {
        self.shape
    }

    fn zeros() -> (r: Self) where Self::DataType: From<u8> + Copy {
        let r = Self { repr: B::t3_zeros(D0, D1, D2), shape: (D0, D1, D2) };
        proof {
            let z = choose|z: T| converts_to(0u8, z) && r@ == filled3(z, D0 as nat, D1 as nat, D2 as nat);
            assert(converts_to(0u8, z) && r.all_eq(z));
        }
        r
    }

    fn ones() -> (r: Self) where Self::DataType: From<u8> + Copy {
        let r = Self { repr: B::t3_ones(D0, D1, D2), shape: (D0, D1, D2) };
        proof {
            let o = choose|o: T| converts_to(1u8, o) && r@ == filled3(o, D0 as nat, D1 as nat, D2 as nat);
            assert(converts_to(1u8, o) && r.all_eq(o));
        }
        r
    }
}

} // verus!
