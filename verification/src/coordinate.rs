//! Buffer and screen coordinates.

use vstd::prelude::*;

verus! {

/// A (column, row) position, zero-based.  Depending on context it addresses a
/// place in the document (an edit anchor) or a cell of the visible window; the
/// viewport converts between the two.
#[derive(Clone, Copy, Debug, PartialEq, Eq, Structural)]
pub struct Point {
    pub column: usize,
    pub row: usize,
}

} // verus!
