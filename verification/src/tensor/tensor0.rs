//! Rank 0: a single element.

use vstd::prelude::*;
use vstd::std_specs::ops::AddSpec;
use vstd::std_specs::ops::AddSpecImpl;
use std::ops::Add;
use crate::backend::Backend;
use crate::model::converts_to;
use crate::model::sum_of;
use crate::tensor::Tensor;

verus! {

/// A tensor of rank 0 with element type `T`, stored by the backend `B`.
#[derive(Debug)]
pub struct Tensor0<T, B: Backend<T>> {
    pub(crate) repr: B::T0Repr,
    pub(crate) shape: (),
}

impl<T, B: Backend<T>> View for Tensor0<T, B> {
    type V = T;

    /// The element that the tensor holds.
    open(crate) spec fn view(&self) -> T {
        B::t0_view(self.repr)
    }
}

impl<T, B: Backend<T>> Clone for Tensor0<T, B> where B::T0Repr: Clone {
    /// A copy whose data is the clone that the backend's representation
    /// makes of itself.
    fn clone(&self) -> (r: Self) {
        Self { repr: self.repr.clone(), shape: () }
    }
}

impl<T, B: Backend<T>> Tensor for Tensor0<T, B> {
    type Shape = ();

    type DataType = T;

    open spec fn wf(&self) -> bool {
        true
    }

    open spec fn extents() -> Self::Shape {
        ()
    }

    open spec fn all_eq(&self, x: T) -> bool {
        self@ == x
    }

    fn shape(&self) -> (s: Self::Shape) {
        self.shape
    }

    fn zeros() -> (r: Self) where Self::DataType: From<u8> + Copy {
        let r = Self { repr: B::t0_zero(), shape: () };
        assert(converts_to(0u8, r@) && r.all_eq(r@));
        r
    }

    fn ones() -> (r: Self) where Self::DataType: From<u8> + Copy {
        let r = Self { repr: B::t0_one(), shape: () };
        assert(converts_to(1u8, r@) && r.all_eq(r@));
        r
    }
}

impl<T, B: Backend<T>> Tensor0<T, B> {
    /// The backend's representation of the element.
    pub fn data(&self) -> (r: &B::T0Repr)
        ensures
            B::t0_view(*r) == self@,
    {
        &self.repr
    }

    /// A tensor without axes has nothing to permute: the result is the
    /// tensor itself.
    pub fn permute(self) -> (r: Self)
        ensures
            r == self,
    {
        self
    }
}

impl<T, B: Backend<T>> AddSpecImpl for Tensor0<T, B> where T: Add<Output = T> {
    /// The sum is specified by its view, in the contract of `add`: which
    /// representation of it the backend returns is the backend's to choose.
    open spec fn obeys_add_spec() -> bool {
        false
    }

    open spec fn add_req(self, other: Self) -> bool {
        self@.add_req(other@)
    }

    open spec fn add_spec(self, other: Self) -> Self {
        arbitrary()
    }
}

impl<T, B: Backend<T>> Add for Tensor0<T, B> where T: Add<Output = T> {
    type Output = Self;

    /// The sum of the two elements.
    fn add(self, other: Self) -> (r: Self)
        ensures
            sum_of(self@, other@, r@),
            T::obeys_add_spec() ==> r@ == self@.add_spec(other@),
    {
        Self { repr: B::t0_t0_add(self.repr, other.repr), shape: () }
    }
}

} // verus!
