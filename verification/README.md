# goshenite

The verified core of the Goshenite SDF renderer, written in Verus.

- `src/shaders`, `src/primitives`, `src/operations`: the storage buffers that `scene.comp`
  reads (a `u32` count followed by fixed-length units) and the encoding of primitives and
  operations into them.
- `src/renderer`: the decisions of the Vulkan renderer, as functions from plain values to
  plain values: device and queue family choice, swapchain parameters, the render pass
  description, the frame loop, per-object resources and the recycling of upload resources,
  upload barriers, the gui textures (held in an `ahash::AHashMap`), the gizmo draws and the
  gizmo arrow mesh (parsed with `stl_io`), pipeline state, and the decoding of the ids read
  back from the id buffer.
- `tests/`: tests of the library on concrete values.
- `app/`: the Vulkan (`ash`), `egui`, `glam`, `bytemuck` and file edges around the library:
  driver queries turned into the library's values, its answers turned back into Vulkan
  structures, and the float data that the library does not handle.

Creating the device, the window, the GPU objects and recording commands (done with `bort`,
`bort_vk`, `bort_vma`, `vk_mem`, `vulkano` and `winit` in the renderer) is not part of this
crate, nor are logging (`log`), error wrapping (`anyhow`) and field offsets (`memoffset`).
