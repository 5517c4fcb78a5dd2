use vstd::prelude::*;

use crate::chunk::{Chunk, CHUNK_SIZE};
use crate::lattice::{XZ, Y};

verus! {

/// Number of chunks along the x and z axes.
pub const CHUNK_XZ: usize = XZ as usize / CHUNK_SIZE;

/// Number of chunks along the y axis.
pub const CHUNK_Y: usize = Y as usize / CHUNK_SIZE;

/// Number of chunks held by a `ChunkStorage`.
#[verifier::nonlinear]
pub const CHUNK_COUNT: usize = CHUNK_XZ * CHUNK_XZ * CHUNK_Y;

/// Number of voxels in a render buffer.
#[verifier::nonlinear]
pub const CHUNK_BUFFER_SIZE: usize = (XZ * XZ * Y) as usize;

/// Where the chunk at chunk coordinates `(x, y, z)` is kept.
pub open spec fn chunk_index(x: int, y: int, z: int) -> int {
    x * CHUNK_XZ + z + y * CHUNK_XZ * CHUNK_XZ
}

/// Where the voxel at lattice coordinates `(gx, gy, gz)` stands in a render buffer.
pub open spec fn lattice_index(gx: int, gy: int, gz: int) -> int {
    gx + gz * XZ + gy * XZ * XZ
}

/// Whether `(gx, gy, gz)` lies inside the rendered lattice.
pub open spec fn in_lattice(gx: int, gy: int, gz: int) -> bool {
    0 <= gx < XZ && 0 <= gy < Y && 0 <= gz < XZ
}

/// Whether `(x, y, z)` are the chunk coordinates of a slot of the storage.
pub open spec fn in_grid(x: int, y: int, z: int) -> bool {
    0 <= x < CHUNK_XZ && 0 <= y < CHUNK_Y && 0 <= z < CHUNK_XZ
}

/// The grid and buffer sizes that follow from the lattice and chunk sizes.
pub proof fn lemma_sizes()
    ensures
        CHUNK_XZ == 4,
        CHUNK_Y == 2,
        CHUNK_COUNT == 32,
        CHUNK_BUFFER_SIZE == 1048576,
{
    assert(CHUNK_XZ * CHUNK_XZ * CHUNK_Y == 32) by (nonlinear_arith)
        requires CHUNK_XZ == 4, CHUNK_Y == 2;
}

/// Whether lattice coordinates `(gx, gy, gz)` fall in the cube of chunk size
/// whose lowest corner is `(bx, by, bz)`.
pub open spec fn in_cube(bx: int, by: int, bz: int, gx: int, gy: int, gz: int) -> bool {
    bx <= gx < bx + CHUNK_SIZE && by <= gy < by + CHUNK_SIZE && bz <= gz < bz + CHUNK_SIZE
}

/// Whether every chunk coordinate that a render at chunk offset `(x, y, z)`
/// computes fits in an `isize`, and every slot index in a `usize`.
pub open spec fn window_fits(x: int, y: int, z: int) -> bool {
    &&& x + CHUNK_XZ - 1 <= isize::MAX
    &&& y + CHUNK_Y - 1 <= isize::MAX
    &&& z + CHUNK_XZ - 1 <= isize::MAX
    &&& (x + CHUNK_XZ - 1 >= 0 && y + CHUNK_Y - 1 >= 0 && z + CHUNK_XZ - 1 >= 0) ==> chunk_index(
        x + CHUNK_XZ - 1,
        y + CHUNK_Y - 1,
        z + CHUNK_XZ - 1,
    ) <= usize::MAX
}

/// Writes the voxels of `chunk` into the cube of `buf` whose lowest lattice
/// corner is `(base_x, base_y, base_z)`, one 0 or 1 per voxel.
#[verifier::rlimit(50)]
fn copy_chunk_voxels(buf: &mut Vec<u32>, chunk: &Chunk, base_x: usize, base_y: usize, base_z: usize)
    requires
        old(buf)@.len() == CHUNK_BUFFER_SIZE,
        base_x + CHUNK_SIZE <= XZ,
        base_y + CHUNK_SIZE <= Y,
        base_z + CHUNK_SIZE <= XZ,
    ensures
        final(buf)@.len() == CHUNK_BUFFER_SIZE,
        forall|gx: int, gy: int, gz: int|
            #![trigger final(buf)@[lattice_index(gx, gy, gz)]]
            in_lattice(gx, gy, gz) ==> final(buf)@[lattice_index(gx, gy, gz)] == if in_cube(
                base_x as int,
                base_y as int,
                base_z as int,
                gx,
                gy,
                gz,
            ) {
                chunk.voxel(gx - base_x, gy - base_y, gz - base_z)
            } else {
                old(buf)@[lattice_index(gx, gy, gz)]
            },
{
    proof {
        lemma_sizes();
    }
    for z in 0..CHUNK_SIZE
        invariant
            CHUNK_BUFFER_SIZE == 1048576,
            buf@.len() == CHUNK_BUFFER_SIZE,
            base_x + CHUNK_SIZE <= XZ,
            base_y + CHUNK_SIZE <= Y,
            base_z + CHUNK_SIZE <= XZ,
            forall|gx: int, gy: int, gz: int|
                #![trigger buf@[lattice_index(gx, gy, gz)]]
                in_lattice(gx, gy, gz) ==> buf@[lattice_index(gx, gy, gz)] == if in_cube(
                    base_x as int,
                    base_y as int,
                    base_z as int,
                    gx,
                    gy,
                    gz,
                ) && gz - base_z < z {
                    chunk.voxel(gx - base_x, gy - base_y, gz - base_z)
                } else {
                    old(buf)@[lattice_index(gx, gy, gz)]
                },
    {
        for x in 0..CHUNK_SIZE
            invariant
                CHUNK_BUFFER_SIZE == 1048576,
                buf@.len() == CHUNK_BUFFER_SIZE,
                base_x + CHUNK_SIZE <= XZ,
                base_y + CHUNK_SIZE <= Y,
                base_z + CHUNK_SIZE <= XZ,
                0 <= z < CHUNK_SIZE,
                forall|gx: int, gy: int, gz: int|
                    #![trigger buf@[lattice_index(gx, gy, gz)]]
                    in_lattice(gx, gy, gz) ==> buf@[lattice_index(gx, gy, gz)] == if in_cube(
                        base_x as int,
                        base_y as int,
                        base_z as int,
                        gx,
                        gy,
                        gz,
                    ) && (gz - base_z < z || (gz - base_z == z && gx - base_x < x)) {
                        chunk.voxel(gx - base_x, gy - base_y, gz - base_z)
                    } else {
                        old(buf)@[lattice_index(gx, gy, gz)]
                    },
        {
            for y in 0..CHUNK_SIZE
                invariant
                    CHUNK_BUFFER_SIZE == 1048576,
                    buf@.len() == CHUNK_BUFFER_SIZE,
                    base_x + CHUNK_SIZE <= XZ,
                    base_y + CHUNK_SIZE <= Y,
                    base_z + CHUNK_SIZE <= XZ,
                    0 <= z < CHUNK_SIZE,
                    0 <= x < CHUNK_SIZE,
                    forall|gx: int, gy: int, gz: int|
                        #![trigger buf@[lattice_index(gx, gy, gz)]]
                        in_lattice(gx, gy, gz) ==> buf@[lattice_index(gx, gy, gz)] == if in_cube(
                            base_x as int,
                            base_y as int,
                            base_z as int,
                            gx,
                            gy,
                            gz,
                        ) && (gz - base_z < z || (gz - base_z == z && gx - base_x < x) || (gz
                            - base_z == z && gx - base_x == x && gy - base_y < y)) {
                            chunk.voxel(gx - base_x, gy - base_y, gz - base_z)
                        } else {
                            old(buf)@[lattice_index(gx, gy, gz)]
                        },
            {
                let gx = base_x + x;
                let gy = base_y + y;
                let gz = base_z + z;
                let i = gx + gz * XZ as usize + gy * (XZ * XZ) as usize;
                let v = (chunk.blocks[x][z] >> y as u32) & 1;
                assert(i == lattice_index(gx as int, gy as int, gz as int));
                buf.set(i, v);
            }
        }
    }
}

/// The chunks of a fixed grid of `CHUNK_XZ` by `CHUNK_Y` by `CHUNK_XZ` chunks.
pub struct ChunkStorage {
    chunks: Vec<Chunk>,
}

impl View for ChunkStorage {
    type V = Seq<Chunk>;

    /// The chunks, each at its `chunk_index`.
    closed spec fn view(&self) -> Seq<Chunk> {
        self.chunks@
    }
}

impl ChunkStorage {
    #[verifier::type_invariant]
    spec fn well_formed(self) -> bool {
        self.chunks@.len() == CHUNK_COUNT
    }

    /// The chunk that `get` hands out for chunk coordinates `(x, y, z)`:
    /// none for a negative coordinate or for an index past the last slot.
    pub open spec fn chunk_at(self, x: int, y: int, z: int) -> Option<Chunk> {
        if x < 0 || y < 0 || z < 0 {
            None
        } else if chunk_index(x, y, z) < CHUNK_COUNT {
            Some(self@[chunk_index(x, y, z)])
        } else {
            None
        }
    }

    /// The value that a render buffer made at chunk offset `(x, y, z)` holds
    /// for lattice coordinates `(gx, gy, gz)`: the voxel of the chunk that
    /// `get` finds at the offset chunk coordinates, or 0 where it finds none.
    pub open spec fn rendered_voxel(self, x: int, y: int, z: int, gx: int, gy: int, gz: int) -> u32 {
        let cs = CHUNK_SIZE as int;
        match self.chunk_at(gx / cs + x, gy / cs + y, gz / cs + z) {
            Some(c) => c.voxel(gx % cs, gy % cs, gz % cs),
            None => 0,
        }
    }

    /// Fills every slot of the grid with the chunk that `generate` returns
    /// for its chunk coordinates.
    pub fn new<F: Fn(i32, i32, i32) -> Chunk>(generate: F) -> (s: Self)
        requires
            forall|x: i32, y: i32, z: i32|
                in_grid(x as int, y as int, z as int) ==> #[trigger] generate.requires((x, y, z)),
        ensures
            s@.len() == CHUNK_COUNT,
            forall|x: int, y: int, z: int|
                #![trigger s@[chunk_index(x, y, z)]]
                in_grid(x, y, z) ==> generate.ensures(
                    (x as i32, y as i32, z as i32),
                    s@[chunk_index(x, y, z)],
                ),
    {
        proof {
            lemma_sizes();
        }
        let mut chunks = vec![Chunk::default(); CHUNK_COUNT];
        for x in 0..CHUNK_XZ
            invariant
                CHUNK_XZ == 4,
                CHUNK_Y == 2,
                CHUNK_COUNT == 32,
                chunks@.len() == CHUNK_COUNT,
                forall|x: i32, y: i32, z: i32|
                    in_grid(x as int, y as int, z as int) ==> #[trigger] generate.requires((x, y, z)),
                forall|a: int, b: int, c: int|
                    #![trigger chunks@[chunk_index(a, b, c)]]
                    in_grid(a, b, c) && a < x ==> generate.ensures(
                        (a as i32, b as i32, c as i32),
                        chunks@[chunk_index(a, b, c)],
                    ),
        {
            for z in 0..CHUNK_XZ
                invariant
                    CHUNK_XZ == 4,
                    CHUNK_Y == 2,
                    CHUNK_COUNT == 32,
                    0 <= x < CHUNK_XZ,
                    chunks@.len() == CHUNK_COUNT,
                    forall|x: i32, y: i32, z: i32|
                        in_grid(x as int, y as int, z as int) ==> #[trigger] generate.requires((x, y, z)),
                    forall|a: int, b: int, c: int|
                        #![trigger chunks@[chunk_index(a, b, c)]]
                        in_grid(a, b, c) && (a < x || (a == x && c < z)) ==> generate.ensures(
                            (a as i32, b as i32, c as i32),
                            chunks@[chunk_index(a, b, c)],
                        ),
            {
                for y in 0..CHUNK_Y
                    invariant
                        CHUNK_XZ == 4,
                        CHUNK_Y == 2,
                        CHUNK_COUNT == 32,
                        0 <= x < CHUNK_XZ,
                        0 <= z < CHUNK_XZ,
                        chunks@.len() == CHUNK_COUNT,
                        forall|x: i32, y: i32, z: i32|
                            in_grid(x as int, y as int, z as int) ==> #[trigger] generate.requires((x, y, z)),
                        forall|a: int, b: int, c: int|
                            #![trigger chunks@[chunk_index(a, b, c)]]
                            in_grid(a, b, c) && (a < x || (a == x && c < z) || (a == x && c == z
                                && b < y)) ==> generate.ensures(
                                (a as i32, b as i32, c as i32),
                                chunks@[chunk_index(a, b, c)],
                            ),
                {
                    assert(in_grid(x as i32 as int, y as i32 as int, z as i32 as int));
                    let chunk = generate(x as i32, y as i32, z as i32);
                    chunks.set(z + x * CHUNK_XZ + y * CHUNK_XZ * CHUNK_XZ, chunk);
                }
            }
        }
        ChunkStorage { chunks }
    }

    /// The chunk at chunk coordinates `(x, y, z)`: none when a coordinate is
    /// negative or the slot `x * CHUNK_XZ + z + y * CHUNK_XZ * CHUNK_XZ` lies
    /// past the end of the storage.
    pub fn get(&self, x: isize, y: isize, z: isize) -> (r: Option<&Chunk>)
        requires
            x >= 0 && y >= 0 && z >= 0 ==> chunk_index(x as int, y as int, z as int) <= usize::MAX,
        ensures
            r.is_some() == self.chunk_at(x as int, y as int, z as int).is_some(),
            r.is_some() ==> *r.unwrap() == self.chunk_at(x as int, y as int, z as int).unwrap(),
    {
        proof {
            use_type_invariant(self);
            lemma_sizes();
        }
        if x < 0 || y < 0 || z < 0 {
            return None;
        }
        let (x, y, z) = (x as usize, y as usize, z as usize);
        let i = x * CHUNK_XZ + z + y * CHUNK_XZ * CHUNK_XZ;
        if i < self.chunks.len() {
            Some(&self.chunks[i])
        } else {
            None
        }
    }

    /// Lays out the voxels of the chunks seen from chunk offset `(x, y, z)` as
    /// one 0 or 1 per lattice voxel, `x` fastest, then `z`, then `y`; voxels
    /// whose chunk `get` does not find are 0.
    pub fn copy_to_render_buffer(&self, x: isize, y: isize, z: isize) -> (buf: Vec<u32>)
        requires
            window_fits(x as int, y as int, z as int),
        ensures
            buf@.len() == CHUNK_BUFFER_SIZE,
            forall|gx: int, gy: int, gz: int|
                #![trigger buf@[lattice_index(gx, gy, gz)]]
                in_lattice(gx, gy, gz) ==> buf@[lattice_index(gx, gy, gz)] == self.rendered_voxel(
                    x as int,
                    y as int,
                    z as int,
                    gx,
                    gy,
                    gz,
                ),
    {
        proof {
            lemma_sizes();
        }
        let mut buf = vec![0u32; CHUNK_BUFFER_SIZE];
        for chunk_z in 0..CHUNK_XZ
            invariant
                CHUNK_XZ == 4,
                CHUNK_Y == 2,
                CHUNK_COUNT == 32,
                CHUNK_BUFFER_SIZE == 1048576,
                window_fits(x as int, y as int, z as int),
                buf@.len() == CHUNK_BUFFER_SIZE,
                forall|gx: int, gy: int, gz: int|
                    #![trigger buf@[lattice_index(gx, gy, gz)]]
                    in_lattice(gx, gy, gz) ==> buf@[lattice_index(gx, gy, gz)] == if gz / 32 < chunk_z {
                        self.rendered_voxel(x as int, y as int, z as int, gx, gy, gz)
                    } else {
                        0
                    },
        {
            for chunk_x in 0..CHUNK_XZ
                invariant
                    CHUNK_XZ == 4,
                    CHUNK_Y == 2,
                    CHUNK_COUNT == 32,
                    CHUNK_BUFFER_SIZE == 1048576,
                    0 <= chunk_z < CHUNK_XZ,
                    window_fits(x as int, y as int, z as int),
                    buf@.len() == CHUNK_BUFFER_SIZE,
                    forall|gx: int, gy: int, gz: int|
                        #![trigger buf@[lattice_index(gx, gy, gz)]]
                        in_lattice(gx, gy, gz) ==> buf@[lattice_index(gx, gy, gz)] == if gz / 32
                            < chunk_z || (gz / 32 == chunk_z && gx / 32 < chunk_x) {
                            self.rendered_voxel(x as int, y as int, z as int, gx, gy, gz)
                        } else {
                            0
                        },
            {
                for chunk_y in 0..CHUNK_Y
                    invariant
                        CHUNK_XZ == 4,
                        CHUNK_Y == 2,
                        CHUNK_COUNT == 32,
                        CHUNK_BUFFER_SIZE == 1048576,
                        0 <= chunk_z < CHUNK_XZ,
                        0 <= chunk_x < CHUNK_XZ,
                        window_fits(x as int, y as int, z as int),
                        buf@.len() == CHUNK_BUFFER_SIZE,
                        forall|gx: int, gy: int, gz: int|
                            #![trigger buf@[lattice_index(gx, gy, gz)]]
                            in_lattice(gx, gy, gz) ==> buf@[lattice_index(gx, gy, gz)] == if gz
                                / 32 < chunk_z || (gz / 32 == chunk_z && gx / 32 < chunk_x) || (gz
                                / 32 == chunk_z && gx / 32 == chunk_x && gy / 32 < chunk_y) {
                                self.rendered_voxel(x as int, y as int, z as int, gx, gy, gz)
                            } else {
                                0
                            },
                {
                    let cx = chunk_x as isize + x;
                    let cy = chunk_y as isize + y;
                    let cz = chunk_z as isize + z;
                    match self.get(cx, cy, cz) {
                        Some(chunk) => {
                            copy_chunk_voxels(
                                &mut buf,
                                chunk,
                                chunk_x * CHUNK_SIZE,
                                chunk_y * CHUNK_SIZE,
                                chunk_z * CHUNK_SIZE,
                            );
                        },
                        None => {},
                    }
                }
            }
        }
        buf
    }
}

/// Distinct grid cells are kept in distinct slots, and every slot holds the
/// chunk of one grid cell.
pub proof fn lemma_grid_slots(x: int, y: int, z: int, a: int, b: int, c: int)
    ensures
        in_grid(x, y, z) ==> 0 <= chunk_index(x, y, z) < CHUNK_COUNT,
        in_grid(x, y, z) && in_grid(a, b, c) && chunk_index(x, y, z) == chunk_index(a, b, c) ==> (
        x == a && y == b && z == c),
{
    lemma_sizes();
}

/// Every slot of the storage belongs to the grid cell returned here.
pub proof fn lemma_slot_cell(i: int) -> (cell: (int, int, int))
    requires
        0 <= i < CHUNK_COUNT,
    ensures
        in_grid(cell.0, cell.1, cell.2),
        chunk_index(cell.0, cell.1, cell.2) == i,
{
    lemma_sizes();
    ((i % 16) / 4, i / 16, i % 4)
}

/// Distinct lattice voxels have distinct places in a render buffer, and every
/// place of a render buffer belongs to the lattice voxel returned here.
pub proof fn lemma_buffer_place(i: int) -> (voxel: (int, int, int))
    requires
        0 <= i < CHUNK_BUFFER_SIZE,
    ensures
        in_lattice(voxel.0, voxel.1, voxel.2),
        lattice_index(voxel.0, voxel.1, voxel.2) == i,
        forall|gx: int, gy: int, gz: int|
            in_lattice(gx, gy, gz) && #[trigger] lattice_index(gx, gy, gz) == i ==> gx == voxel.0
                && gy == voxel.1 && gz == voxel.2,
{
    lemma_sizes();
    (i % 128, i / 16384, (i / 128) % 128)
}

impl ChunkStorage {
    /// `get` finds the chunk of every grid cell in the cell's slot.
    pub proof fn lemma_grid_found(self, x: int, y: int, z: int)
        requires
            in_grid(x, y, z),
        ensures
            self.chunk_at(x, y, z) == Some(self@[chunk_index(x, y, z)]),
    {
        lemma_sizes();
    }

    /// Rendered from chunk offset (0, 0, 0), each lattice voxel is the voxel
    /// of the stored chunk that contains it.
    pub proof fn lemma_render_at_origin(self, gx: int, gy: int, gz: int)
        requires
            in_lattice(gx, gy, gz),
        ensures
            self.rendered_voxel(0, 0, 0, gx, gy, gz) == self@[chunk_index(
                gx / CHUNK_SIZE as int,
                gy / CHUNK_SIZE as int,
                gz / CHUNK_SIZE as int,
            )].voxel(gx % CHUNK_SIZE as int, gy % CHUNK_SIZE as int, gz % CHUNK_SIZE as int),
    {
        lemma_sizes();
    }

    /// Every value in a render buffer is 0 or 1.
    pub proof fn lemma_rendered_voxel_is_bit(self, x: int, y: int, z: int, gx: int, gy: int, gz: int)
        ensures
            self.rendered_voxel(x, y, z, gx, gy, gz) <= 1,
    {
        let cs = CHUNK_SIZE as int;
        match self.chunk_at(gx / cs + x, gy / cs + y, gz / cs + z) {
            Some(c) => {
                let col = c.blocks[gx % cs][gz % cs];
                let sh = (gy % cs) as u32;
                assert((col >> sh) & 1 <= 1) by (bit_vector);
            },
            None => {},
        }
    }

    /// Moving the window one chunk along x moves the picture one chunk the
    /// other way: what stood a chunk further along x now stands at `gx`.
    pub proof fn lemma_window_shift_x(self, x: int, y: int, z: int, gx: int, gy: int, gz: int)
        requires
            in_lattice(gx, gy, gz),
            in_lattice(gx + CHUNK_SIZE, gy, gz),
        ensures
            self.rendered_voxel(x + 1, y, z, gx, gy, gz) == self.rendered_voxel(
                x,
                y,
                z,
                gx + CHUNK_SIZE,
                gy,
                gz,
            ),
    {
    }

    /// Moving the window one chunk along y moves the picture one chunk down.
    pub proof fn lemma_window_shift_y(self, x: int, y: int, z: int, gx: int, gy: int, gz: int)
        requires
            in_lattice(gx, gy, gz),
            in_lattice(gx, gy + CHUNK_SIZE, gz),
        ensures
            self.rendered_voxel(x, y + 1, z, gx, gy, gz) == self.rendered_voxel(
                x,
                y,
                z,
                gx,
                gy + CHUNK_SIZE,
                gz,
            ),
    {
    }

    /// Moving the window one chunk along z moves the picture one chunk back.
    pub proof fn lemma_window_shift_z(self, x: int, y: int, z: int, gx: int, gy: int, gz: int)
        requires
            in_lattice(gx, gy, gz),
            in_lattice(gx, gy, gz + CHUNK_SIZE),
        ensures
            self.rendered_voxel(x, y, z + 1, gx, gy, gz) == self.rendered_voxel(
                x,
                y,
                z,
                gx,
                gy,
                gz + CHUNK_SIZE,
            ),
    {
    }

    /// A window that lies wholly below or behind the grid on some axis
    /// renders as all zeros.
    pub proof fn lemma_window_outside_grid(self, x: int, y: int, z: int, gx: int, gy: int, gz: int)
        requires
            x <= -CHUNK_XZ || y <= -CHUNK_Y || z <= -CHUNK_XZ,
            in_lattice(gx, gy, gz),
        ensures
            self.rendered_voxel(x, y, z, gx, gy, gz) == 0,
    {
        lemma_sizes();
    }

    /// The cells that a render buffer stacks above one column of a chunk spell
    /// out that column's bit mask, the lowest cell as bit 0: reading them back
    /// gives the column again.
    pub proof fn lemma_column_round_trip(
        self,
        buf: Seq<u32>,
        x: int,
        y: int,
        z: int,
        cx: int,
        cy: int,
        cz: int,
        c: Chunk,
        i: int,
        k: int,
    )
        requires
            forall|gx: int, gy: int, gz: int|
                #![trigger buf[lattice_index(gx, gy, gz)]]
                in_lattice(gx, gy, gz) ==> buf[lattice_index(gx, gy, gz)] == self.rendered_voxel(
                    x,
                    y,
                    z,
                    gx,
                    gy,
                    gz,
                ),
            in_grid(cx, cy, cz),
            self.chunk_at(cx + x, cy + y, cz + z) == Some(c),
            0 <= i < CHUNK_SIZE,
            0 <= k < CHUNK_SIZE,
        ensures
            stacked_cells(
                buf,
                cx * CHUNK_SIZE + i,
                cy * CHUNK_SIZE,
                cz * CHUNK_SIZE + k,
                CHUNK_SIZE as nat,
            ) == c.blocks[i][k] as int,
    {
        lemma_sizes();
        let gx = cx * CHUNK_SIZE + i;
        let gy0 = cy * CHUNK_SIZE;
        let gz = cz * CHUNK_SIZE + k;
        let col = c.blocks[i][k];
        assert forall|j: int| 0 <= j < CHUNK_SIZE implies #[trigger] buf[lattice_index(gx, gy0 + j, gz)]
            == (col >> (j as u32)) & 1 by {
            assert(in_lattice(gx, gy0 + j, gz));
            assert((gy0 + j) / 32 == cy);
            assert((gy0 + j) % 32 == j);
            assert(gx / 32 == cx);
            assert(gx % 32 == i);
            assert(gz / 32 == cz);
            assert(gz % 32 == k);
        }
        lemma_stacked_low_bits(buf, gx, gy0, gz, col, 32);
        assert((col as u64) & ((1u64 << 32u64) - 1) as u64 == col as u64) by (bit_vector);
    }
}

/// The number that cells `n` high, standing in `buf` above lattice column
/// `(gx, gz)` from height `gy0` upwards, make when read as binary digits, the
/// lowest cell as bit 0.
pub open spec fn stacked_cells(buf: Seq<u32>, gx: int, gy0: int, gz: int, n: nat) -> int
    decreases n,
{
    if n == 0 {
        0
    } else {
        stacked_cells(buf, gx, gy0, gz, (n - 1) as nat) + ((buf[lattice_index(
            gx,
            gy0 + n - 1,
            gz,
        )] as u64) << ((n - 1) as u64)) as int
    }
}

/// Adding bit `k` of `col` in place `k` to the `k` lowest bits of `col` gives
/// its `k + 1` lowest bits.
proof fn lemma_low_bits_step(col: u32, k: u64)
    by (bit_vector)
    requires
        k < 32,
    ensures
        (col as u64) & (((1u64 << ((k + 1) as u64)) - 1) as u64) == ((col as u64) & (((1u64 << k) - 1)
            as u64)) + ((((col >> (k as u32)) & 1u32) as u64) << k),
{
}

/// Cells that hold the bits of `col` stack up to the low bits of `col`.
proof fn lemma_stacked_low_bits(buf: Seq<u32>, gx: int, gy0: int, gz: int, col: u32, n: nat)
    requires
        n <= 32,
        forall|j: int|
            0 <= j < 32 ==> #[trigger] buf[lattice_index(gx, gy0 + j, gz)] == (col >> (j as u32))
                & 1,
    ensures
        stacked_cells(buf, gx, gy0, gz, n) == ((col as u64) & (((1u64 << (n as u64)) - 1) as u64)) as int,
    decreases n,
{
    if n == 0 {
        assert((col as u64) & (((1u64 << 0u64) - 1) as u64) == 0) by (bit_vector);
    } else {
        let k = (n - 1) as u64;
        lemma_stacked_low_bits(buf, gx, gy0, gz, col, (n - 1) as nat);
        assert(buf[lattice_index(gx, gy0 + k, gz)] == (col >> (k as u32)) & 1);
        lemma_low_bits_step(col, k);
        assert((k + 1) as u64 == n as u64);
    }
}

} // verus!
