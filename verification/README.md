# aktsql

A database client for MySQL-family servers, PostgreSQL, SQLite and MongoDB,
with a verified core.

- `src/` is the library, every function proved against its contract:
  connection forms and saved profiles, driver capabilities, the SQL and commands for creating, altering,
  renaming and dropping databases and tables, the table designer, query
  results (sorting, paging, CSV), the schema tree, the metadata inspector and
  the decisions behind the workbench's events. Every public function states
  its result in `requires`/`ensures` over `Seq`, `Set` and the types' views;
  the laws that relate several calls are public proof functions.
- `app/` is the command-line front end: it reads and writes the profile
  store, talks to the databases through their drivers, and prints what the
  library computes.
- `tests/` runs the library on concrete inputs.
