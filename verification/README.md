# ambry

The core of Ambry, a desktop client for PostgreSQL, MySQL and SQLite,
written in Verus. Every function in `src/` carries a contract. The verifier
proves the contracts of all of them except a few small wrappers marked
`#[verifier::external_body]` (case mapping, regular-expression splitting,
file names, random ports, UUIDs, the clock, the driver's decoding of
temporal and text cells, lossy UTF-8); their contracts are trusted, and
each one's doc comment says what it claims of the function it calls.

- `src/` — the verified library: SQL text builders (filters, paging, row
  edits, exports, profiling statements), value rendering (SQL literals,
  compact and pretty JSON, CSV), the decoding of driver cells (Postgres
  binary `NUMERIC`, integers, UUIDs, MySQL dates and times), the schema
  records read from introspection rows, statement classification and
  splitting, and the connection state (live adapters, health watches,
  SSH tunnels, the active connection) with the laws that tie them together.
- `tests/` — tests run against the compiled library.
- `app/` — the drivers and the I/O around the library: database
  connections, `ssh` processes, health probe threads, file access, and the
  floating-point readings the library takes as given.
