# aios_surreal

The query layer of a plant-design database kept in SurrealDB: the record
keys of plant elements, the statements that read and write them, the rules
that classify database errors, route model writes and drive the connection,
and the shaping of material-list rows.

- `src/` is the library, written in Verus. Every function carries a
  contract over mathematical models (sequences, maps, spec functions) and is
  proved against it; the laws that relate several functions are proof
  functions named `lemma_*`. Calls into serde_json, chrono, uuid, surrealdb
  and std string case mapping go through small trusted wrappers whose
  contracts say what those crates document.
- `tests/` runs the library on concrete values.
- `app/` holds the database I/O: the shared handles, query execution with a
  time limit and a namespace retry, the connection life cycle, heart-beat,
  model-write routing and a few reads. It hands rows to the library and acts
  on its decisions.
