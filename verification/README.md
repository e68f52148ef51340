# agent_os

Building blocks of a small agent operating system, with their behaviour stated in
contracts and proved with Verus.

- `src/` is the library: the decision loops and effect adapters, the protocol peers, the
  workspace coordinator, the in-memory kernel store with its transactions, the packs that
  test adapters, and the deterministic clock, ids and fault points for tests. Every
  function but the moves of the shared test clock states what it returns or changes, and
  what holds across functions stands in public proof functions.
- `tests/` runs the library from outside.
- `app/` is the ordinary code around the library: streams, files, processes and HTTP.

Outside crates are called through a few trusted functions: `serde_json` in `json.rs`,
`sha2` in `digest.rs`, `uuid` in `ids.rs`, and the Unicode and UTF-8 functions of `std` in
`text.rs` and `base64.rs`. Each says in its doc comment what is taken on trust.
