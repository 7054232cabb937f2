# glycin

Loads images in sandboxed processes.

- `src/` is the library, with its behavior stated in contracts that Verus
  proves: which sandbox a loader gets (`sandbox`, `system`, `memory`), which
  processes are kept (`pool`, `config`), what is asked of a loader and what it
  returns (`api_loader`, `utils`), how pixels are brought into the right colors
  and orientation (`icc`, `color`, `orientation`), and the loaders for JPEG XL
  (`jxl`) and raw images (`raw`). Paths and texts are sequences of bytes
  (`path`, `text`).
- `tests/` runs the library together with the crates that it calls.
- `app/` is ordinary Rust around the library: processes, files, D-Bus, the
  JPEG XL decoder and the toolkit.
