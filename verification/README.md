# studio

The verified core of Sprite Normal Studio, a desktop tool for painting normal
maps for sprite sheets.

- `src/` (Verus): the uniform data handed to the compute shaders and its byte
  encoding (`uniform`, `bytes`), the sizing of the resizable compute passes and
  their work groups (`dispatch`), the selection of sprite and normal-map files
  with the textures they fill (`selection`), and the naming of a sprite's normal
  map (`naming`).
- `app/` (plain Rust): the egui/eframe window, the wgpu pipelines, textures and
  buffers, the file dialog and image reading. It asks the library what to
  render, what to upload and what to select, and does the GPU and file work.
- `tests/`: tests of the library on concrete values.

The compute shaders the app runs are WGSL, written as string constants in
`app/rendering.rs`, `app/rendering/normals.rs` and `app/rendering/screen.rs`.
