use vstd::prelude::*;

verus! {

/// Width and depth, in voxels, of the rendered lattice.
pub const XZ: u32 = 128;

/// Height, in voxels, of the rendered lattice.
pub const Y: u32 = 64;

} // verus!
