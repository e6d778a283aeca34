# vulkmini

A small Vulkan scene viewer (a sky, a sun billboard and textured cubes,
with keyboard and mouse controls), split in two:

- `src/` — the verified library: the key bindings and held-control state
  (`input`), the per-frame camera and light commands (`commands`), the event
  and frame lifecycle of the render loop, including when the swapchain is
  recreated (`render_loop`), the choice of a physical device and queue family
  (`device`), the plan of mesh draw calls (`mesh_plan`), and the decoding of
  image files into the texture data handed to the GPU (`texture`, through the
  `image` crate).
- `app/` — the program around it: reading files, window and Vulkan setup
  with vulkano and winit, the shaders, and the floating point camera and light math.
