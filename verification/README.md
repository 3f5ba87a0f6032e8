# lab1

A small scene of two coloured shapes drawn through a GPU pipeline: a hexagonal
colour fan drawn as a triangle list and a diagonal colour band drawn as a
triangle strip, each tinted by a uniform colour.

- `src/` is the verified library (Verus): the shape data (in hundredths of
  normalised device coordinates and colour intensity) with the laws of the fan
  and the strip, the vertex buffer layout, the scene set-up, what each frame
  does with the surface's answer and which commands its render pass records,
  the pipeline, binding and buffer settings, when the surface is configured,
  and how the application answers the loop's resume and window events.
- `app/` is the program around it: window and event loop (winit), GPU device,
  buffers, pipelines and the WGSL shader (wgpu, bytemuck). It converts the
  library's plain values to wgpu and winit types and performs the GPU and
  window work; the shader text and the float conversions live there.
- `tests/` runs the library on concrete values.
