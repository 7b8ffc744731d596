# lific

Project and search queries of an issue tracker, written in Verus.

- `src/identifier.rs` — the project-identifier rules (`validate_identifier`) and the
  identifiers built from them (`LIF-42`, `LIF-DOC-1`, `DOC-1`), with proofs that these
  identifiers parse unambiguously.
- `src/fts.rs` — the FTS5 query a search string becomes, with its laws.
- `src/text.rs` — decimal rendering, white space and word splitting, unescaping of
  stored text.
- `src/projects.rs`, `src/search.rs` — the queries: statements built and results
  interpreted in verified code.
- `src/db.rs` — the boundary to SQLite (`rusqlite`): the trusted wrappers, each with
  what it guarantees of every outcome.

`tests/` runs the queries against an in-memory SQLite database whose schema the test
files create.
