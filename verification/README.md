# lab03

The verified core of a small WebGPU renderer that draws a spinning,
checkerboard-textured cube lit by a spotlight, seen through an orbiting
camera that switches between perspective and orthographic projection.

- `src/mesh.rs` — the 64x64 checkerboard texture, the 24-vertex cube mesh
  with its 36 indices (positions in exact half-units), the packed vertex
  layout and the index-buffer bytes, with proofs of the texture's tiling,
  the cube's outward normals and counter-clockwise winding, and the layout's
  packing.
- `src/light.rs` — the spotlight preset count and cycle.
- `src/gpu.rs` — surface size and reconfiguration rule, surface format
  choice, texture upload layout.
- `src/controls.rs` — window input to command, the renderer's state machine,
  and the per-frame decision after acquiring a surface texture.
- `app/` — the wgpu/winit renderer that performs the effects, and the
  floating-point camera and light uniforms.
