# render

The verified core of a small wgpu-based rendering library.

- `src/` holds the logic, checked by Verus against its contracts:
  - `camera`, `input`: mouse and keyboard camera controls as a state machine;
  - `gpu`: buffer padding, read-back of the object-id image, multisampling,
    light counts, render passes and resize decisions;
  - `material`, `images`: textures and materials kept once each in a library,
    with image decoding and solid-color images through the `image` crate;
  - `material_spec`: the channels of a material, built one at a time;
  - `model`, `ids`: identifiers and their packing into shader values, curve
    mesh topology;
  - `render3d`: the instance grid, mesh statistics and the key/mouse camera
    controls of the 3D viewer;
  - `shader`: expansion of `//# include` lines in shader sources;
  - `stroke`: the triangle fans of a stroked polyline and how they are joined.
- `tests/` runs the library on concrete values.
- `app/` holds what the verifier does not take: reading shader and image
  files from disk, GPU read-back bytes, colors and floating-point geometry.

The GPU side itself (the wgpu renderers and render targets, the egui
texture transfer, the winit and eframe windows) is not part of this crate:
it depends on wgpu, winit and eframe, which it does not build against. What
those renderers decide (row padding, buffer sizes, sample counts, light
counts and offsets, render passes, resizing, reading ids back) is in
`src/gpu.rs`, verified.
