# backend

The decision logic of a file-storage service (folders, files, a trash with
per-account retention, accounts, groups, sessions and a notification socket),
written in Verus and proved against its contracts.

- `src/` is the verified library. An operation runs as a protocol (`ops::run`):
  it asks for one database statement, transaction step or object-store request
  at a time and decides from each reply what follows, until it answers.
  `ops::protocol` states that protocol as a relation, `ops::laws` and
  `ops::sql` prove what holds of every run. Sign-in from cookies, upload forms,
  the notification socket, the trash cleanup and the notification hub are
  written the same way.
- `app/` is the server around it: axum routes, the Postgres pool, the S3
  clients and the loop that performs what the library asks for.
- `tests/` runs the library on concrete values.
