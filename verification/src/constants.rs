//! Fixed quantities of the engine.

use vstd::prelude::*;

verus! {

/// The number of basis points in the whole pool: a fee of this many basis points
/// is one hundred percent.
pub const BASIS_POINTS: u64 = 10_000;

} // verus!
