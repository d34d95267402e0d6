//! Failures reported by the math core.

use vstd::prelude::*;

verus! {

/// What can go wrong when a matrix is addressed.
#[derive(Clone, Copy, Debug, PartialEq, Eq, Structural)]
pub enum MathError {
    /// A cell was addressed with a row or column that is not below `size`.
    IndexOutOfRange { row: usize, col: usize, size: usize },
}

} // verus!
