# borg_db

The persistence rules of the agent's SQLite store, verified with Verus.

- `src/` — the verified library: row types (`models`), schema versioning and
  settings clean-up (`schema`), the per-installation HMAC salt and digests
  (`hex`, `crypto`), query text built from caller input (`query`), scheduler
  and daemon-lock decisions (`tasks`), ledger gating and HMAC chaining
  (`events`), memory text rules (`memory`), pairing (`pairing`) and skill
  audit (`skill_audit`). SHA-256, HMAC-SHA256, randomness and Unicode
  upper-casing come from `sha2`, `hmac`, `rand` and `std` behind small
  trusted wrappers whose contracts name their results.
- `app/` — the `Database` type: opening the SQLite file, migrations and all
  statements, executed with `rusqlite`; every decision and derived text it
  uses comes from the library. What the database layer needs from the rest of
  the application (paths, setting registry, schedules, ledger HMACs) is the
  `Services` trait.
- `tests/` — tests of the library on concrete values.
