# step_viewer_core

The verified core of a STEP model viewer, written in Verus.

`src/` is the library. Its functions are verified, except two small trusted
wrappers (`external_body`) around outside calls: `geometry::cross`
(cgmath's cross product) and `geometry::u16_slice_bytes` (bytemuck's
`cast_slice`). The clone of a `std::path::PathBuf` is given a contract by
`assume_specification` in `loader`.

The modules:

- `geometry` — the demo cube (vertices, index buffer and its bytes) and the
  axis indicator (stems and arrowheads), in exact integer coordinates.
- `mesh` — triangulation of polygon meshes into triangle lists, the vertex
  count of that list, and the lookup of positions and normals per corner.
- `hierarchy` — the shells and faces of the loaded model, face visibility.
- `loader` — the streaming load as a state machine over loader events.
- `selection` — face, edge and point selection by clicks.
- `settings`, `overlay`, `window`, `viewer` — display options, viewport and
  overlay layout, surface resizing, and the decisions that combine them.

`app/` is the bevy/egui program (and a plain wgpu cube renderer) that does the
I/O, the floating-point work and the drawing around the library.
`tests/` runs the library on concrete inputs.
