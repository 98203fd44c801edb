# iprolaunch

A launcher for Windows games and apps on Linux through `umu-run`/Proton,
with a game library (one profile per exe), per-game overrides of the global
config, logging, a terminal UI, Steam shortcuts and desktop integration.

Layout:

- `src/` — the library, verified with Verus: configuration merging, slugs
  and prefixes, launch planning, log handling, the state machines of the
  terminal UI (each key gives the next state and an `Effect` to carry out),
  the parsers (Steam's binary `shortcuts.vdf`, `libraryfolders.vdf`, the
  umu-database CSV, `/proc/<pid>/environ`) and the text they produce.
- `tests/` — tests of the library.
- `app/` — the `iprolaunch` program: command line, files, processes, and
  the ratatui/crossterm terminal that draws the state and carries out each
  `Effect`.
