# outrider

The core of a spatial code-map viewer, written in Verus: the functions
under `src/` are verified against their contracts. The few that read the
file system, the clock or a flag shared between threads state only what
holds whatever they read; what is done with the answer is verified in the
functions that take it.

- `src/` — the library: symbol-tree index and keyboard focus, search
  palette, navigation history, notifications, background-load bookkeeping,
  settings repair and the settings window's editing, GiB sizes, project
  filter categories, colour derivation, text wrapping and colour runs for
  the paint path, the memory texture cache, the disk worker's replies,
  the on-disk texture store's index and file framing, keyboard routing and
  the call graph's grouping of edges.
- `tests/` — tests of the library's behaviour on concrete inputs.
- `app/` — a command-line front end: it reads and writes the settings
  files as JSON, opens a project's on-disk texture cache, and holds the
  floating-point pixel geometry of the paint path.

The window, painting and the code indexer itself are not part of this
crate.
