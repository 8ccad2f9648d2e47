# pixel_engine

The core of a small 2D game engine, verified with Verus.

- `src/` is the verified library: integer geometry (rectangles, vectors,
  directions), colors, the decoding of keyboard and mouse input, audio
  formats and playback bookkeeping, the asset cache, the timing decisions of
  the main loop, and an Aseprite file reader with *zlib* decompression of its
  cels (through the `zlib-rs` crate).
- `tests/` runs the library on concrete inputs.
- `app/` is the platform layer on top of SDL (`sdl3-sys`, `sdl3-image-sys`,
  `sdl3-ttf-sys`): windows and rendering, loading assets from files, audio
  devices and streams, file dialogs, system events, the main loop, and the
  floating-point parts (transforms, gradients, interpolation).
