# kohori

Database schemas modelled in Rust — tables, columns, constraints, indexes and
PostgreSQL row-level security policies — and the SQL migrations that create
them, with the SQL generation proved against its specification in Verus.

- `src/` is the verified library: `schema` (tables, columns, types), `rls`
  (policies and their SQL), `dialect` (the `Dialect` trait and PostgreSQL),
  `migration` (operations, migrations, plans, the manager), `timestamp`
  (instants and their chrono renderings) and `text` (joining, quoting and
  number rendering). Each type has a mathematical model (`Spec...`) and every
  SQL generator's contract gives its exact output over that model. What
  chrono, serde_json and std's `DefaultHasher` compute (timestamp texts, JSON
  strings, the hash behind a checksum) is named rather than spelled out, and
  the contracts are exact over those names; the clock's reading is left open.
- `app/` holds what needs serde, the file system or `Display`: serializable
  copies of the types, the error type, the operations' JSON that checksums
  cover, and writing migration files.
- `tests/` runs the library on concrete schemas.
