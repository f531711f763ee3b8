# rage_quit

The logic of the `rage-quit` terminal program, as a verified library, with the
program itself around it.

- `src/` is the library, verified with Verus: project analysis (project type,
  dependency counting in `package.json`, `Cargo.toml`, `requirements.txt` and
  `go.mod`, per-file tallies, git output, bloat directories), byte sizes for
  humans, the frames of the animations, the bell patterns of the sound
  effects, the resignation letter and the decisions of each phase.
  `text.rs` holds the character-level helpers (trimming, line splitting,
  substring search, decimal rendering) that the rest is proved against.
- `app/` is the program: command-line parsing, walking the directory tree,
  running git and the package managers, reading the terminal and drawing on
  it.
- `tests/` runs the library on concrete inputs.
