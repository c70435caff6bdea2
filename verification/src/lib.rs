//! Tensors of rank 0 to 3 whose extents are part of their type, over a
//! pluggable numeric backend.
//!
//! Every operation is specified over a mathematical model of the data:
//! a rank-1 tensor is a `Seq<T>`, a rank-2 tensor a `Seq<Seq<T>>` of rows,
//! a rank-3 tensor a `Seq<Seq<Seq<T>>>`. The module [`model`] defines what
//! each operation computes on these sequences, [`backend`] the kernels that
//! compute it, and [`tensor`] the shape-typed values built on the kernels.

pub mod model;
pub mod laws;
pub mod backend;
pub mod tensor;
