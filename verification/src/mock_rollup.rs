//! The rollup that runs the runtime on a mock data-availability layer.

use vstd::prelude::*;

verus! {

/// The rollup blueprint for a mock data-availability layer. It holds no
/// data: its associated types and constructors are given where the
/// blueprint is implemented.
pub struct MockRollup {}

} // verus!
