use vstd::prelude::*;

verus! {

/// Edge length, in voxels, of a cubic chunk.
pub const CHUNK_SIZE: usize = 32;

/// A cube of `CHUNK_SIZE` voxels on each side.
///
/// `blocks[x][z]` is the column at `(x, z)`: bit `y` of it is set when the
/// voxel at height `y` is solid.
#[derive(Clone, Copy)]
pub struct Chunk {
    pub blocks: [[u32; CHUNK_SIZE]; CHUNK_SIZE],
}

impl Chunk {
    /// The value (0 or 1) of the voxel at local coordinates `(x, y, z)`.
    pub open spec fn voxel(self, x: int, y: int, z: int) -> u32 {
        (self.blocks[x][z] >> (y as u32)) & 1
    }

    /// A chunk in which no voxel is solid.
    pub fn empty() -> (c: Chunk)
        ensures
            forall|x: int, z: int|
                0 <= x < CHUNK_SIZE && 0 <= z < CHUNK_SIZE ==> #[trigger] c.blocks[x][z] == 0,
    {
        Chunk { blocks: [[0u32; CHUNK_SIZE]; CHUNK_SIZE] }
    }
}

impl Default for Chunk {
    fn default() -> (c: Chunk)
        ensures
            forall|x: int, z: int|
                0 <= x < CHUNK_SIZE && 0 <= z < CHUNK_SIZE ==> #[trigger] c.blocks[x][z] == 0,
    {
        Chunk::empty()
    }
}

} // verus!
