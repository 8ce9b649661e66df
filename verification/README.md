# kudos api

The core of the kudos HTTP API, verified with Verus: who may create, change, delete and vote
on tasks and manage roles; how request payloads are checked and normalised; which conditions
each listing applies; how database rows become the answers; the leaderboard of closed issues;
and what every error says to the client and with which status.

Layout:

- `src/` — the verified library. `src/api/<area>/` holds, per area of the API, its models,
  its errors (`message` and `status_code` of each variant), the decisions of its endpoints
  (`handlers.rs`), the role rules (`roles/utils.rs`) and the row mappings and listing
  conditions (`db.rs`). `src/text.rs`, `src/dedup.rs`, `src/filters.rs` and `src/types.rs` are
  shared helpers: text, first-occurrence deduplication, listing conditions and paging.
- `app/` — the warp service around the library: JSON payloads, handlers, routes, and the
  storage traits the database layer implements.
- `tests/` — tests of the library on concrete values.

Times are held by the library as microseconds since the Unix epoch (UTC).
