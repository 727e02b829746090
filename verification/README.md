# meet_os

The data layer of the meet-os service, verified with Verus.

- `src/` is the library. `records` holds the records the service keeps;
  `query` the form of a SurrealQL statement with its bindings, and of a record
  creation; `statements` every statement the service sends, each with a contract
  that fixes its text and bindings; `walk` the step-by-step pairing of
  memberships with their groups or members; `events`, `counters` and `setup`
  the decisions taken on the database's answers; `clock` the one call into
  chrono; `laws` the properties proved of the statements as a whole.
- `app/` drives a SurrealDB connection with the library's statements.
- `tests/` runs the library on concrete values.
