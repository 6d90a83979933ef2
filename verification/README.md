# apalis-postgres

Background tasks in a Postgres database, for workers of `apalis`: the part that computes and
decides, verified with Verus, and around it the part that talks to the database.

- `src/` is the library. `storage` and `shared` hold the storages and what their streams and
  heartbeats are made of (`plan`); `fetcher` the pace at which an idle queue is polled;
  `notify` and `registry` which inserted tasks a storage is told of; `task_id`, `task` and
  `poll` how identifiers are written, how rows become tasks and what a stream yields for them.
- `tests/` runs the library, with the crates that it calls.
- `app/` runs a storage's plan: it awaits the database, channels and timers, and makes storages
  backends of `apalis_core`. The statements of the schema are given to it as an implementation
  of `Statements`.

What the library has from other crates goes through the functions marked
`#[verifier::external_body]`; the comment above each says what is taken on trust.
