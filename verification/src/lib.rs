//! An array-like container that keeps up to [`MAX_ARRAY_SIZE`] elements in
//! storage embedded in the value itself and moves to a heap-backed `Vec`
//! only when it grows beyond that.

pub mod iter;
pub mod laws;
pub mod model;
pub mod vec_array;

pub use crate::model::MAX_ARRAY_SIZE;
pub use crate::vec_array::VecArray;
