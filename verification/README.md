# cargo_test_fuzz

The decisions of `cargo test-fuzz` and of the `test_fuzz` attribute macro,
verified with Verus.

- `src/` — the verified library:
  - `text` — string matching (substring, equality, suffix removal);
  - `opts` — the command-line options and their normalization;
  - `cargo_build` — the `cargo` build command and the test executables read
    from its JSON messages (through `cargo_metadata`);
  - `targets` — fuzz targets read from `--list` output, filtering by pattern,
    and the choice of the one executable and target;
  - `run` — what to do once the targets are known, and the environment,
    arguments and bookkeeping for displaying, replaying and fuzzing;
  - `transition` — the options with their deprecated spellings;
  - `fuzz_macro` — how the macro records each argument, calls the function
    and names the harness.
- `app/` — the program: command-line parsing with clap, running processes with
  subprocess, reading directories, printing, and the macro's syn/quote front end.
- `tests/` — tests of the library.
