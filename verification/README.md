# glium (verified core)

The decision logic of an OpenGL wrapper, written in Verus and proved against its contracts:

- `version`: API versions, extensions and limits of a backend (`Backend`), and the
  capability queries on them.
- `image_format`: texture and client formats, which of them a backend supports, and the
  OpenGL enumerants that stand for them.
- `fbo`, `fbo_calls`, `framebuffer`: validation of framebuffer attachments (dimensions,
  samples, limits), the plan of a framebuffer object, and the calls that bind framebuffers
  and attach images; simple, multi-output and empty framebuffers; render buffers.
- `program`: shader stages, the checks and entry points around compiling and linking,
  program binaries and their header, reflected types.
- `index`, `index_buffer`: primitive and index types and index buffers.
- `ops`: the decisions of drawing, clearing, blitting and reading pixels.
- `sync`, `sampler_object`, `semaphore`, `memory_object`, `pixel_buffer`, `uniforms`:
  smaller objects and their checks.

Nothing here calls OpenGL. Functions that stand for an operation return the calls to make
and the state to record; the caller makes the calls and passes back what OpenGL reported.

`tests/` runs the library on concrete values; `tests/gl_constants.rs` compares the
enumerants in `src/gl.rs` with those of the `gl` crate. `app/` holds the `Display` and
`Error` implementations of the error types, which the verified library cannot hold.
