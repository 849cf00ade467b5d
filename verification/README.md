# hyperos4_gpui_theme

A HyperOS 4 inspired soft-light glass theme for GPUI Component.

- `src/` is the library with machine-checked contracts: the bundled light
  and dark theme sources, the choice of source for a theme mode, proofs that
  each bundled source names and declares its own mode, and the native
  blurred window backdrop that glass windows request.
- `app/` is the GPUI side: glass element builders, the `f32` easing curves
  and token derivation, and parsing/installing the configuration into a
  running GPUI Component application.
- `tests/` exercises the library, including that the bundled sources are
  valid JSON with the expected names and modes.
