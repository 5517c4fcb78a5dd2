use voxels::chunk::{Chunk, CHUNK_SIZE};
use voxels::chunk_storage::{ChunkStorage, CHUNK_BUFFER_SIZE, CHUNK_COUNT, CHUNK_XZ, CHUNK_Y};
use voxels::lattice::{XZ, Y};

/// A chunk whose column (0, 0) names its chunk coordinates and whose column
/// (1, 2) has only bit `y + 3` set.
fn marked(x: i32, y: i32, z: i32) -> Chunk {
    let mut c = Chunk::empty();
    c.blocks[0][0] = 1 + x as u32 + 10 * y as u32 + 100 * z as u32;
    c.blocks[1][2] = 1u32 << (y as u32 + 3);
    c
}

fn buffer_at(buf: &[u32], gx: usize, gy: usize, gz: usize) -> u32 {
    buf[gx + gz * XZ as usize + gy * (XZ * XZ) as usize]
}

#[test]
fn grid_dimensions() {
    assert_eq!(CHUNK_XZ, XZ as usize / CHUNK_SIZE);
    assert_eq!(CHUNK_Y, Y as usize / CHUNK_SIZE);
    assert_eq!(CHUNK_COUNT, 32);
    assert_eq!(CHUNK_BUFFER_SIZE, 128 * 128 * 64);
}

#[test]
fn new_stores_each_generated_chunk_where_get_finds_it() {
    let s = ChunkStorage::new(marked);
    for x in 0..CHUNK_XZ as isize {
        for y in 0..CHUNK_Y as isize {
            for z in 0..CHUNK_XZ as isize {
                let c = s.get(x, y, z).expect("grid cell");
                assert_eq!(c.blocks[0][0], 1 + x as u32 + 10 * y as u32 + 100 * z as u32);
            }
        }
    }
}

#[test]
fn get_negative_coordinate_is_none() {
    let s = ChunkStorage::new(marked);
    assert!(s.get(-1, 0, 0).is_none());
    assert!(s.get(0, -1, 0).is_none());
    assert!(s.get(0, 0, -1).is_none());
    assert!(s.get(isize::MIN, 5, 5).is_none());
}

#[test]
fn get_past_last_slot_is_none() {
    let s = ChunkStorage::new(marked);
    assert!(s.get(0, 2, 0).is_none());
    assert!(s.get(3, 1, 4).is_none());
    assert!(s.get(100, 100, 100).is_none());
}

#[test]
fn get_with_x_beyond_the_grid_reads_the_next_slot() {
    // Slot x * 4 + z + y * 16: x = 4, z = 0, y = 0 is slot 16, the cell (0, 1, 0).
    let s = ChunkStorage::new(marked);
    let c = s.get(4, 0, 0).expect("slot 16");
    assert_eq!(c.blocks[0][0], 1 + 10);
    let c = s.get(0, 0, 5).expect("slot 5");
    assert_eq!(c.blocks[0][0], 1 + 1 + 100);
}

#[test]
fn empty_chunk_has_no_voxel() {
    let c = Chunk::empty();
    assert!(c.blocks.iter().all(|row| row.iter().all(|&v| v == 0)));
    let d = Chunk::default();
    assert!(d.blocks.iter().all(|row| row.iter().all(|&v| v == 0)));
}

#[test]
fn render_at_origin_shows_every_chunk() {
    let s = ChunkStorage::new(marked);
    let buf = s.copy_to_render_buffer(0, 0, 0);
    assert_eq!(buf.len(), CHUNK_BUFFER_SIZE);
    assert!(buf.iter().all(|&v| v <= 1));
    for cx in 0..CHUNK_XZ {
        for cy in 0..CHUNK_Y {
            for cz in 0..CHUNK_XZ {
                let (bx, by, bz) = (cx * CHUNK_SIZE, cy * CHUNK_SIZE, cz * CHUNK_SIZE);
                let mark = 1 + cx as u32 + 10 * cy as u32 + 100 * cz as u32;
                for ly in 0..CHUNK_SIZE {
                    assert_eq!(buffer_at(&buf, bx, by + ly, bz), (mark >> ly) & 1);
                    let expected = if ly == cy + 3 { 1 } else { 0 };
                    assert_eq!(buffer_at(&buf, bx + 1, by + ly, bz + 2), expected);
                    assert_eq!(buffer_at(&buf, bx + 2, by + ly, bz + 1), 0);
                }
            }
        }
    }
}

#[test]
fn render_counts_solid_voxels() {
    let s = ChunkStorage::new(marked);
    let buf = s.copy_to_render_buffer(0, 0, 0);
    let mut expected = 0u32;
    for cx in 0..CHUNK_XZ as u32 {
        for cy in 0..CHUNK_Y as u32 {
            for cz in 0..CHUNK_XZ as u32 {
                expected += (1 + cx + 10 * cy + 100 * cz).count_ones() + 1;
            }
        }
    }
    assert_eq!(buf.iter().sum::<u32>(), expected);
}

#[test]
fn render_with_offset_shifts_the_window() {
    let s = ChunkStorage::new(marked);
    let buf = s.copy_to_render_buffer(-1, 0, 0);
    // Chunk column 0 of the window is x = -1: nothing there.
    for gz in 0..XZ as usize {
        for gy in 0..Y as usize {
            for gx in 0..CHUNK_SIZE {
                assert_eq!(buffer_at(&buf, gx, gy, gz), 0);
            }
        }
    }
    // Chunk column 1 of the window is the stored x = 0.
    assert_eq!(buffer_at(&buf, 32, 0, 0), 1);
    assert_eq!(buffer_at(&buf, 33, 3, 2), 1);
    // Chunk column 3 of the window is the stored x = 2; the stored x = 3 is out of view.
    assert_eq!(buffer_at(&buf, 96, 0, 0), 1 & (1 + 2));
    assert_eq!(buffer_at(&buf, 96, 1, 0), 1 & ((1 + 2) >> 1));
}

#[test]
fn render_window_past_the_storage_is_empty() {
    let s = ChunkStorage::new(marked);
    assert!(s.copy_to_render_buffer(-4, 0, 0).iter().all(|&v| v == 0));
    assert!(s.copy_to_render_buffer(0, 2, 0).iter().all(|&v| v == 0));
    assert!(s.copy_to_render_buffer(0, 0, -7).iter().all(|&v| v == 0));
}

#[test]
fn render_sees_high_bits_of_a_column() {
    let s = ChunkStorage::new(|_x, _y, _z| {
        let mut c = Chunk::empty();
        c.blocks[31][31] = 0x8000_0001;
        c
    });
    let buf = s.copy_to_render_buffer(0, 0, 0);
    assert_eq!(buffer_at(&buf, 31, 31, 31), 1);
    assert_eq!(buffer_at(&buf, 31, 0, 31), 1);
    assert_eq!(buffer_at(&buf, 31, 30, 31), 0);
    assert_eq!(buffer_at(&buf, 127, 63, 127), 1);
    assert_eq!(buf.iter().sum::<u32>(), 2 * CHUNK_COUNT as u32);
}

#[test]
fn moving_the_window_moves_the_picture() {
    let s = ChunkStorage::new(marked);
    let base = s.copy_to_render_buffer(0, 0, 0);
    let along_x = s.copy_to_render_buffer(1, 0, 0);
    let along_y = s.copy_to_render_buffer(0, 1, 0);
    let along_z = s.copy_to_render_buffer(0, 0, 1);
    for gz in 0..XZ as usize {
        for gy in 0..Y as usize {
            for gx in 0..XZ as usize {
                if gx + CHUNK_SIZE < XZ as usize {
                    assert_eq!(buffer_at(&along_x, gx, gy, gz), buffer_at(&base, gx + CHUNK_SIZE, gy, gz));
                }
                if gy + CHUNK_SIZE < Y as usize {
                    assert_eq!(buffer_at(&along_y, gx, gy, gz), buffer_at(&base, gx, gy + CHUNK_SIZE, gz));
                }
                if gz + CHUNK_SIZE < XZ as usize {
                    assert_eq!(buffer_at(&along_z, gx, gy, gz), buffer_at(&base, gx, gy, gz + CHUNK_SIZE));
                }
            }
        }
    }
}

#[test]
fn stacked_cells_read_back_as_the_column() {
    let s = ChunkStorage::new(|x, y, z| {
        let mut c = marked(x, y, z);
        c.blocks[5][7] = 0xDEAD_BEEF ^ (x as u32) << 4;
        c.blocks[31][0] = u32::MAX;
        c
    });
    for (x, y, z) in [(0isize, 0isize, 0isize), (-1, 0, 1), (1, -1, 0)] {
        let buf = s.copy_to_render_buffer(x, y, z);
        for cx in 0..CHUNK_XZ {
            for cy in 0..CHUNK_Y {
                for cz in 0..CHUNK_XZ {
                    let Some(c) = s.get(cx as isize + x, cy as isize + y, cz as isize + z) else {
                        continue;
                    };
                    for (i, k) in [(0usize, 0usize), (1, 2), (5, 7), (31, 0), (9, 9)] {
                        let mut column = 0u64;
                        for j in 0..CHUNK_SIZE {
                            let cell = buffer_at(&buf, cx * CHUNK_SIZE + i, cy * CHUNK_SIZE + j, cz * CHUNK_SIZE + k);
                            column += (cell as u64) << j;
                        }
                        assert_eq!(column, c.blocks[i][k] as u64);
                    }
                }
            }
        }
    }
}
