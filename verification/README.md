# chinchilib

A small toolkit that opens a window, keeps an RGBA framebuffer on screen and
drives an application at a fixed tick rate, with the decisions proved in Verus.

- `src/` is the verified library: the mapping from logical keys to the keys
  that games read (`key`), the set of held keys (`key_set`), the tick period
  (`timing`), pixel writes into a framebuffer (`frame`), the framebuffer
  window's state and its reaction to window events (`fbx`), the event
  handler's decisions (`handler`) and the properties that span several calls
  (`laws`).
- `app/` is the windowing side: the winit event loop, the window, the pixels
  surface and the `GfxApp` trait. It converts winit events into the library's
  types, asks the library what to do and does it.
- `tests/` exercises the library on concrete values.
