# rarog (verified build and search-decision library)

A verified Verus library for building Rarog chess-engine releases and for
the decisions of its search node. Every function's contract is proved by
Verus, except one trusted wrapper around std's `String::push` in
`src/text.rs`.

- `src/release.rs` — arch names, codegen flags, build directories, asset names,
  the arch/target and BMI2 guards.
- `src/cli.rs` — the build helper's command line (`cargo xtask build ...`).
- `src/plan.rs` — the ordered steps of a plain or profile-guided release build,
  and how each step's outcome is judged.
- `src/bench.rs` — judging the profile-training bench and finding raw profiles.
- `src/lines.rs` — reading `rustc -vV`, `Cargo.toml` and tool paths.
- `src/node.rs` — the alpha-beta node's pruning, extension, reduction and
  bookkeeping decisions on plain values.
- `src/hce.rs` — the evaluation adapter's handshake and input checks.
- `src/text.rs` — character-level string helpers.
- `app/main.rs` — the build helper program: runs the planned steps (cargo,
  rustup, llvm-profdata, the training engine, file copies).
