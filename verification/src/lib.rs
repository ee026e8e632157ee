//! Elementwise transforms and reductions over buffers of IEEE-754 binary32
//! values, carried as raw `u32` bit patterns.

use vstd::prelude::*;

pub mod float32;
pub mod transform;

pub use transform::{composed_func, inlined_func, mean, offset, scale};

verus! {

/// A pair of labelled integer values.
pub struct Y {
    pub x: i32,
    pub y: i32,
}

} // verus!
