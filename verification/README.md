# wgpu-test

A small wgpu/SDL3 renderer that drives a car around a plane. The crate is
split in two:

- `src/` is a Verus-verified library holding the renderer's data logic:
  scene handles (`scene`), frame counting (`fps`), the fixed-rate simulation
  clock (`timestep`), merging OBJ models into one indexed mesh
  (`renderer::mesh`), OBJ vertex assembly and GPU meshes (`mesh`, `model`),
  vertex formats and their buffer layouts (`vertex`, `gfx::vertex`,
  `layout`), texture preparation and material parameters (`gfx::material`),
  and the byte images of word streams (`bytes`). Float values are carried as
  their IEEE-754 bit patterns; the library never computes on them.
- `app/` is the program: window and input (SDL3), GPU setup and drawing
  (wgpu), file loading (tobj, image), and the floating-point maths of the
  camera, lights and car physics (glam).
