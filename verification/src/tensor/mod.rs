//! Tensors whose rank and extents are part of their type.
//!
//! A tensor owns a representation that its backend produced and a copy of
//! its shape. The extents in the type are the truth; a well-formed tensor
//! is one whose stored shape and whose data agree with them.

use vstd::prelude::*;
use vstd::std_specs::convert::FromSpec;
use crate::model::converts_to;
use crate::model::one;
use crate::model::zero;

pub mod tensor0;
pub mod tensor1;
pub mod tensor2;
pub mod tensor3;

pub use crate::tensor::tensor0::Tensor0 as Scalar;
pub use crate::tensor::tensor1::Tensor1 as Vector;
pub use crate::tensor::tensor2::Tensor2 as Matrix;

verus! {

/// An extent, or an index along an axis.
pub type Index = usize;

/// The number of an axis.
pub type Dimension = usize;

/// What tensors of every rank offer: their shape, and the two constant
/// tensors of that shape.
pub trait Tensor {
    type Shape;

    type DataType;

    /// The stored shape and the data agree with the extents in the type.
    spec fn wf(&self) -> bool;

    /// The extents in the type.
    spec fn extents() -> Self::Shape;

    /// Every element of the tensor is `x`.
    spec fn all_eq(&self, x: Self::DataType) -> bool;

    /// The shape of the tensor: one extent per axis.
    fn shape(&self) -> (s: Self::Shape)
        requires
            self.wf(),
        ensures
            s == Self::extents(),
    ;

    /// The tensor whose every element is the converted 0: one value that
    /// the conversion of 0 returned stands at every place.
    fn zeros() -> (r: Self) where Self::DataType: From<u8> + Copy, Self: Sized
        ensures
            r.wf(),
            exists|z: Self::DataType| converts_to(0u8, z) && r.all_eq(z),
            <Self::DataType as FromSpec<u8>>::obeys_from_spec() ==> r.all_eq(
                zero::<Self::DataType>(),
            ),
    ;

    /// The tensor whose every element is the converted 1: one value that
    /// the conversion of 1 returned stands at every place.
    fn ones() -> (r: Self) where Self::DataType: From<u8> + Copy, Self: Sized
        ensures
            r.wf(),
            exists|o: Self::DataType| converts_to(1u8, o) && r.all_eq(o),
            <Self::DataType as FromSpec<u8>>::obeys_from_spec() ==> r.all_eq(
                one::<Self::DataType>(),
            ),
    ;
}

} // verus!
