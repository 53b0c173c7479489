//! A small verified numerical core: a dense binary32 matrix with parallel
//! arithmetic, a gradient-descent linear solver on top of it, and a parallel
//! map-and-sum utility for CPU-bound workloads.
//!
//! Every scalar is carried as the bit pattern of an IEEE 754 binary32 value,
//! so that the verified logic can state exactly which arithmetic is performed
//! and in which order, while the arithmetic itself runs behind a handful of
//! trusted wrappers.

use vstd::prelude::*;

pub mod scalar;
pub mod matrix;
pub mod solver;
pub mod heavy;

verus! {

/// The failures that this crate's shape checks detect, always before any
/// parallel work is dispatched.
#[derive(Clone, Copy, Debug, PartialEq, Eq, Structural)]
pub enum MathError {
    /// The buffer handed to the matrix constructor does not hold
    /// `rows * cols` elements.
    ShapeError,
    /// The inner extents of a matrix product disagree.
    ShapeMismatchError,
    /// A solver call was made with a mismatched feature or sample count.
    DimensionMismatchError,
}

} // verus!
