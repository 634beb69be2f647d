# playlog

The decisions of the Playlog backend services as a verified library: the
game library (paging, statuses), the multimedia store (upload limits, object
keys, what an upload or a deletion stores and frees), and the reviews,
comments and reports service (validation, who may change what, report
resolution, rating statistics), with the error replies of each.

- `src/` is the library. Every function there has a contract that Verus
  proves; the calls into `bson`, `bytes`, `reqwest` and the clock sit behind
  the small trusted items of `src/adapters.rs` and a few std wrappers in
  `src/text.rs`.
- `tests/` runs the library on concrete values.
- `app/` is the HTTP services around it: configuration, PostgreSQL and
  MongoDB access, object storage, and the axum routes. Run it as
  `playlog library`, `playlog media` or `playlog reviews`.
