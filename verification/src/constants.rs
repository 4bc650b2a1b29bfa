//! Configuration constants consumed by the core: the grid's cell counts.
//! They bound all position math and the wall and food logic.

use vstd::prelude::*;

verus! {

/// Number of grid cells along the horizontal axis.
pub const GRID_X_SIZE: u32 = 10;

/// Number of grid cells along the vertical axis.
pub const GRID_Y_SIZE: u32 = 10;

} // verus!
