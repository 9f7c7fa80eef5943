# kdb_backend

The request handling of a small kitchen database service (ingredients,
kitchen stock, recipes, meal plans), verified with Verus.

- `src/` is the library. Each HTTP handler's decisions stand there as
  functions from plain values to plain values: what a database outcome is
  answered with, which columns a new row gets, and, for the handlers that run
  several statements in one transaction or several queries in a row, a state
  machine that takes the outcome of the last action and gives the next one.
  `tx.rs` holds the transaction machine and its laws (a transaction commits
  only when every statement succeeded; a failed statement is rolled back and
  reported, and nothing runs after it).
- `app/` is the server around it: axum routes, the PostgreSQL queries (sqlx),
  the JSON forms of the rows, and the loops that perform the machines'
  actions.
- `tests/` runs the library on concrete values.
