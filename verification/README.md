# Mini Crates

The logic of a private Cargo registry for personal and small-team crates, written
in Verus: the functions of the library are verified against their contracts, but
for the calls into other crates that are named at the end.

- `src/` is the library. It decides; it reads and sends nothing.
  - `crate_name`, `name_laws`: crate names, claim patterns, paths of the sparse index
  - `version`: semantic versions and the keys by which versions collide
  - `digest`: tarball checksums and storage keys
  - `frame`, `publish`: publish requests, the metadata and index entries made of them
  - `publish_flow`: reserve, store, make ready, or note the failure
  - `service_flow`: the course of index, download and yank requests
  - `registry`: configuration, index files, downloads, yanking, search
  - `routing`, `gate`: which request it is, who makes it, and whether they may
  - `statements`, `repo`, `schema`: what the database is asked to do, and in which order
  - `tables`: what that means for what the tables hold
  - `listings`, `search`: what the index and a search show of the tables
  - `json`, `text`, `error`: what the others are built from
- `tests/` runs the library with the crates it calls.
- `app/` is the HTTP service around the library: Axum, SeaORM, and Serde.

Trusted are the contracts in `json` (`serde_json`), `version` (`semver`), `digest`
(`sha2` and `hex`), `registry` (header values of `axum`) and `text` (one method of
`String`). Each says in its comment what it claims.
