# glcookbook

A framework for OpenGL shading-language recipes, split in two:

- `src/` is the verified library. It holds the parts that are decisions and
  integer structure: the frame timer's ring of frame durations, the choice of a
  recipe from the command line and the answer to each window event, the error
  kinds, the index buffers and vertex layouts of the generated meshes (torus,
  plane, sphere, cube, sky box, quad, frustum lines, the teapot's patch copies),
  the Wavefront OBJ reader (lines, tokens, faces and the records they build), PNG
  decoding through the png crate, the file names and size checks of cube map
  faces and the steps of loading them, the texts of the errors, and the shader
  sources of a program. Every function carries a contract proved by Verus; laws that relate
  several calls are proof functions next to them.
- `app/` is ordinary Rust around it: windows and OpenGL resources through glium,
  floating-point geometry with vek, random numbers, reading image files and
  decoding HDR images (their pixels are floats).
- `tests/` runs the library on concrete values.
