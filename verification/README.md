# voxels

A voxel world kept as a fixed grid of cubic chunks, the buffer that the GPU
samples the world from, and the keyboard and window decisions of the viewer,
written in Verus with their contracts proved.

- `src/chunk.rs`: a chunk, one 32-bit column mask per (x, z) column.
- `src/lattice.rs`: the size of the rendered lattice.
- `src/chunk_storage.rs`: the grid of chunks (`new`, `get`) and
  `copy_to_render_buffer`, which lays a window of the grid out voxel by voxel.
- `src/input.rs`: held movement keys, the movement axes, the grid-line switch.
- `src/surface.rs`: the drawable size of the window.
- `src/frames.rs`: when the average frame time is reported, and over how many frames.
- `app/`: the windowed renderer (wgpu, winit, cgmath, bytemuck), floating-point
  camera code and the shader uniforms, around the library.
- `tests/`: tests of the library.
