# quicktick

The request handling of a small task-board web service (users, boards,
tasks), written as a verified Verus library with a thin Rust server around it.

- `src/` holds the logic, proved with Verus: the session rule
  (`session.rs`), reading JSON request members (`request.rs`), query text with every value
  escaped (`literal.rs`),
  and every handler as a sequence of steps. A handler's first step
  (`*_begin`) and each later step (`*_resume`, given the database's answer)
  return `Next`: a query to run and the phase to wait in, a reply (status,
  JSON body, session cookie change), or giving up. Contracts state each step
  exactly over spec functions (`*_entry`, `*_transition`); `tables.rs` gives
  each statement's meaning on the task, board and user tables, and `laws.rs` states
  what holds across steps, handlers and tables. Password hashing and checking call
  `bcrypt`, salts come from `rand`.
- `app/` is the server: routing, cookies, the MySQL pool, running the queries
  a handler asks for, and JSON encoding.
- `tests/` runs the handlers' steps on chosen database answers.
