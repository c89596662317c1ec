# todo_backend

The core of a small todo web application, verified with Verus.

- `src/config.rs`: the environment the application runs in, how its name is
  parsed, and the plan by which the configuration is loaded (which `.env`
  file, which layers in which order).
- `src/db.rs`: the data layer's error type and the translation of a failed
  unique constraint into an error that names the field.
- `src/entities.rs`: the todo entity and the validation of a changeset.
- `src/text.rs`: string operations on characters used by the parsers.
- `app/`: the I/O around the library (process environment, files, the
  database pool) and copies of the types with serde and validator derives.
