# thirdpass_rs

A Thirdpass extension for Rust. It tells, for a crate on crates.io, where a release is shown and
kept and what it depends on, and, for a directory, what the Cargo project around it depends on.

- `src/` is the library, verified with Verus. It computes and decides, and touches nothing
  outside the process: where a question needs a file, a command or a connection, a step says what
  to ask, and its `resume` takes the answer.
  - `extension`: `RsExtension`, the answers of the extension.
  - `package`: the steps to the dependencies of a release.
  - `project`: the steps to the dependencies of a project; the search for its manifest.
  - `cargo`: what Cargo is asked, and which of the packages it lists are dependencies.
  - `registry`: registry entries and URLs.
  - `probe`: the project whose only dependency is one release.
  - `interface`, `release`, `json`, `path`, `text`: reports and failures, sorted lists of
    releases, JSON documents, paths, strings.
- `app/` is the program: it runs the commands, reads and writes the files, opens the connections.
- `tests/` runs the library.

Verus takes the contracts of a few functions of `serde_json`, `url` and the standard library
without proof. Each stands next to its contract, with a comment that says what is claimed:
`json.rs` (three), `registry.rs` (two), `path.rs` (four), `cargo.rs` (one) and `text.rs` (one).
