# lux

A 2d game engine built with a focus on user-friendliness and speed.

- `src/` is the verified library: the scissor and stencil rules behind every
  draw call and the batching of draw calls (`primitive_canvas`), the input
  state of a window and its event queue (`window`, `interactive`,
  `keycodes`), sprites and sprite sheets (`sprite`), the bookkeeping of the
  game loop (`game`) and the byte layout of hex colors (`color`).  Each
  public function states its behaviour in `requires`/`ensures`, and the laws
  that relate several functions are public proof functions.
- `app/` is the rest of the engine, on glium and winit: the window and the
  GPU, shaders, shapes and colors in floating point, textures, and the game
  loop's threads and clocks.  It calls the library for every decision that
  the library states.
- `tests/` runs the library on concrete values.
